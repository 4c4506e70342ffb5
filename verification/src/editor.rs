//! The line buffer of the terminal editor: an ordered sequence of lines, a
//! cursor, and an optional file name, mutated through a small set of editing
//! operations.

use vstd::prelude::*;
use crate::codec;

verus! {

/// What saving the buffer amounts to: either a whole-file write of the joined
/// lines to the session's file name, or nothing at all because no file name
/// is set yet.
pub enum SaveAction {
    Write { filename: String, content: Vec<char> },
    NoFilename,
}

/// Mathematical model of an editing session: the buffer as a sequence of
/// lines of characters, the cursor position, and the associated file name.
pub struct BufferModel {
    pub lines: Seq<Seq<char>>,
    pub row: int,
    pub col: int,
    pub filename: Option<Seq<char>>,
}

/// The buffer invariant: at least one line exists, the cursor row names an
/// existing line, and the cursor column lies within that line (one past the
/// end is allowed, meaning "append here").
pub open spec fn buffer_wf(b: BufferModel) -> bool {
    &&& b.lines.len() >= 1
    &&& 0 <= b.row < b.lines.len()
    &&& 0 <= b.col <= b.lines[b.row].len()
}

/// Inserting a character is also defined on a buffer whose cursor row sits
/// just past the last line (with column 0): a fresh empty line is appended
/// first, and the character becomes that line's only content.
pub open spec fn can_insert(b: BufferModel) -> bool {
    &&& 0 <= b.row <= b.lines.len()
    &&& if b.row < b.lines.len() {
            0 <= b.col <= b.lines[b.row].len()
        } else {
            b.col == 0
        }
}

/// The effect of `insert_char`: the character lands at the cursor column of
/// the cursor row and the cursor advances past it.
pub open spec fn insert_char_model(b: BufferModel, c: char) -> BufferModel {
    if b.row < b.lines.len() {
        BufferModel {
            lines: b.lines.update(b.row, b.lines[b.row].insert(b.col, c)),
            row: b.row,
            col: b.col + 1,
            filename: b.filename,
        }
    } else {
        BufferModel {
            lines: b.lines.push(seq![c]),
            row: b.row,
            col: b.col + 1,
            filename: b.filename,
        }
    }
}

/// The effect of `insert_newline`: the cursor row is split at the cursor
/// column; the text after the cursor becomes a new line just below, and the
/// cursor moves to its start.
pub open spec fn insert_newline_model(b: BufferModel) -> BufferModel {
    BufferModel {
        lines: b.lines.update(b.row, b.lines[b.row].take(b.col)).insert(
            b.row + 1,
            b.lines[b.row].skip(b.col),
        ),
        row: b.row + 1,
        col: 0,
        filename: b.filename,
    }
}

/// The effect of `delete_char`: with the cursor inside a line, the character
/// before it is removed; at column 0 of a later row, the cursor row is merged
/// into the end of the previous line; at the very start of the buffer,
/// nothing changes.
pub open spec fn delete_char_model(b: BufferModel) -> BufferModel {
    if b.col > 0 {
        BufferModel {
            lines: b.lines.update(b.row, b.lines[b.row].remove(b.col - 1)),
            row: b.row,
            col: b.col - 1,
            filename: b.filename,
        }
    } else if b.row > 0 {
        BufferModel {
            lines: b.lines.remove(b.row).update(b.row - 1, b.lines[b.row - 1] + b.lines[b.row]),
            row: b.row - 1,
            col: b.lines[b.row - 1].len() as int,
            filename: b.filename,
        }
    } else {
        b
    }
}

/// An editing session: the buffer lines, the cursor, and the file name the
/// buffer will be saved to.
pub struct Editor {
    lines: Vec<Vec<char>>,
    filename: Option<String>,
    cursor_row: usize,
    cursor_col: usize,
}

impl View for Editor {
    type V = BufferModel;

    closed spec fn view(&self) -> BufferModel {
        BufferModel {
            lines: self.lines@.map_values(|l: Vec<char>| l@),
            row: self.cursor_row as int,
            col: self.cursor_col as int,
            filename: match self.filename {
                Some(f) => Some(f@),
                None => None,
            },
        }
    }
}

impl Editor {
    /// The invariant every operation preserves.
    pub open spec fn wf(&self) -> bool {
        buffer_wf(self@)
    }

    /// A fresh session: one empty line, cursor at its start, no file name.
    pub fn new() -> (ed: Editor)
        ensures
            ed.wf(),
            ed@.lines =~~= seq![Seq::<char>::empty()],
            ed@.row == 0,
            ed@.col == 0,
            ed@.filename is None,
    {
        let mut lines: Vec<Vec<char>> = Vec::new();
        lines.push(Vec::new());
        Editor { lines, filename: None, cursor_row: 0, cursor_col: 0 }
    }

    /// Inserts `c` at the cursor and advances the cursor past it.
    pub fn insert_char(&mut self, c: char)
        requires
            can_insert(old(self)@),
        ensures
            final(self)@ == insert_char_model(old(self)@, c),
            old(self).wf() ==> final(self).wf(),
    {
        if self.cursor_row >= self.lines.len() {
            self.lines.push(Vec::new());
        }
        let row = self.cursor_row;
        let col = self.cursor_col;
        let line = &mut self.lines[row];
        line.insert(col, c);
        let n = line.len();
        assert(col < n);
        self.cursor_col = col + 1;
        proof {
            assert(self@.lines =~~= insert_char_model(old(self)@, c).lines);
        }
    }

    /// Splits the cursor row at the cursor column; the text after the cursor
    /// becomes a new line and the cursor moves to its start.
    pub fn insert_newline(&mut self)
        requires
            old(self).wf(),
        ensures
            final(self)@ == insert_newline_model(old(self)@),
            final(self).wf(),
    {
        let row = self.cursor_row;
        let col = self.cursor_col;
        let n = self.lines.len();
        assert(row < n);
        let line = &mut self.lines[row];
        let rest = line.split_off(col);
        self.lines.insert(row + 1, rest);
        self.cursor_row = row + 1;
        self.cursor_col = 0;
        proof {
            assert(self@.lines =~~= insert_newline_model(old(self)@).lines);
        }
    }

    /// Removes the character before the cursor, or merges the cursor row into
    /// the previous line when the cursor is at column 0; a no-op at the very
    /// start of the buffer.
    pub fn delete_char(&mut self)
        requires
            old(self).wf(),
        ensures
            final(self)@ == delete_char_model(old(self)@),
            final(self).wf(),
    {
        if self.cursor_col > 0 {
            let row = self.cursor_row;
            let col = self.cursor_col;
            let line = &mut self.lines[row];
            line.remove(col - 1);
            self.cursor_col = col - 1;
            proof {
                assert(self@.lines =~~= delete_char_model(old(self)@).lines);
            }
        } else if self.cursor_row > 0 {
            let row = self.cursor_row;
            let mut removed = self.lines.remove(row);
            self.cursor_row = row - 1;
            let prev = &mut self.lines[row - 1];
            let prev_len = prev.len();
            prev.append(&mut removed);
            self.cursor_col = prev_len;
            proof {
                assert(self@.lines =~~= delete_char_model(old(self)@).lines);
            }
        }
    }

    /// Replaces the buffer with the lines of freshly read file content and
    /// remembers the file name. The cursor is left where it was, as loading
    /// only ever happens right after the session is created, with the cursor
    /// at the origin.
    pub fn load_content(&mut self, filename: &str, content: &Vec<char>)
        ensures
            final(self)@.lines == codec::seed_lines(codec::lines_spec(content@)),
            final(self)@.filename == Some(filename@),
            final(self)@.row == old(self)@.row,
            final(self)@.col == old(self)@.col,
            old(self)@.row == 0 && old(self)@.col == 0 ==> final(self).wf(),
    {
        let mut ls = codec::split_lines(content);
        if ls.is_empty() {
            ls.push(Vec::new());
        }
        proof {
            assert(ls@.map_values(|l: Vec<char>| l@) =~~= codec::seed_lines(
                codec::lines_spec(content@),
            ));
        }
        self.lines = ls;
        self.filename = Some(filename.to_owned());
    }

    /// Decides what a plain save does: a write of the joined lines when a
    /// file name is set, and no write at all when none is.
    pub fn prepare_save(&self) -> (r: SaveAction)
        ensures
            (match r {
                SaveAction::Write { filename, content } => {
                    &&& self@.filename == Some(filename@)
                    &&& content@ == codec::join_spec(self@.lines)
                },
                SaveAction::NoFilename => self@.filename is None,
            }),
    {
        match &self.filename {
            Some(name) => {
                let filename = name.clone();
                let content = codec::join_lines(&self.lines);
                SaveAction::Write { filename, content }
            },
            None => SaveAction::NoFilename,
        }
    }

    /// Adopts `filename` as the session's file name and hands back the joined
    /// lines, the content a save-as then writes there.
    pub fn save_as(&mut self, filename: &str) -> (content: Vec<char>)
        ensures
            final(self)@.filename == Some(filename@),
            final(self)@.lines == old(self)@.lines,
            final(self)@.row == old(self)@.row,
            final(self)@.col == old(self)@.col,
            content@ == codec::join_spec(old(self)@.lines),
            old(self).wf() ==> final(self).wf(),
    {
        self.filename = Some(filename.to_owned());
        codec::join_lines(&self.lines)
    }

    /// Remembers `filename` for later saves without touching the buffer, as
    /// happens when the editor is started on a file that does not exist yet.
    pub fn set_filename(&mut self, filename: &str)
        ensures
            final(self)@.filename == Some(filename@),
            final(self)@.lines == old(self)@.lines,
            final(self)@.row == old(self)@.row,
            final(self)@.col == old(self)@.col,
            old(self).wf() ==> final(self).wf(),
    {
        self.filename = Some(filename.to_owned());
    }

    /// Builds a session from explicit parts, refusing parts that break the
    /// buffer invariant.
    pub fn from_parts(
        lines: Vec<Vec<char>>,
        filename: Option<String>,
        cursor_row: usize,
        cursor_col: usize,
    ) -> (r: Option<Editor>)
        ensures
            (match r {
                Some(ed) => {
                    &&& ed.wf()
                    &&& ed@.lines == lines@.map_values(|l: Vec<char>| l@)
                    &&& ed@.filename == (match filename {
                        Some(f) => Some(f@),
                        None => None::<Seq<char>>,
                    })
                    &&& ed@.row == cursor_row
                    &&& ed@.col == cursor_col
                },
                None => !(cursor_row < lines@.len() && cursor_col
                    <= lines@[cursor_row as int]@.len()),
            }),
    {
        if cursor_row < lines.len() && cursor_col <= lines[cursor_row].len() {
            Some(Editor { lines, filename, cursor_row, cursor_col })
        } else {
            None
        }
    }

    /// The buffer lines.
    pub fn lines(&self) -> (r: &Vec<Vec<char>>)
        ensures
            r@.map_values(|l: Vec<char>| l@) == self@.lines,
    {
        &self.lines
    }

    /// The cursor row.
    pub fn cursor_row(&self) -> (r: usize)
        ensures
            r == self@.row,
    {
        self.cursor_row
    }

    /// The cursor column.
    pub fn cursor_col(&self) -> (r: usize)
        ensures
            r == self@.col,
    {
        self.cursor_col
    }

    /// The session's file name, if one is set.
    pub fn filename(&self) -> (r: &Option<String>)
        ensures
            (match r {
                Some(f) => self@.filename == Some(f@),
                None => self@.filename is None,
            }),
    {
        &self.filename
    }
}

/// On every well-formed buffer, `delete_char` undoes `insert_char`: inserting
/// any character and deleting the character before the cursor restores the
/// buffer lines and the cursor position exactly.
pub proof fn lemma_insert_char_then_delete(b: BufferModel, c: char)
    requires
        buffer_wf(b),
    ensures
        delete_char_model(insert_char_model(b, c)) == b,
{
    let line = b.lines[b.row];
    assert(line.insert(b.col, c).remove(b.col) =~= line);
    assert(delete_char_model(insert_char_model(b, c)).lines =~~= b.lines);
}

/// On every well-formed buffer, `delete_char` undoes `insert_newline`:
/// splitting a line and deleting at the start of the new line merges the two
/// halves back, restoring the buffer lines and the cursor position exactly.
pub proof fn lemma_insert_newline_then_delete(b: BufferModel)
    requires
        buffer_wf(b),
    ensures
        delete_char_model(insert_newline_model(b)) == b,
{
    let line = b.lines[b.row];
    let split = insert_newline_model(b);
    assert(split.lines[b.row] == line.take(b.col));
    assert(split.lines[b.row + 1] == line.skip(b.col));
    assert(split.lines.remove(b.row + 1) =~~= b.lines.update(b.row, line.take(b.col)));
    assert(line.take(b.col) + line.skip(b.col) =~= line);
    assert(delete_char_model(split).lines =~~= b.lines);
    assert(delete_char_model(split).col == line.take(b.col).len());
}

/// `delete_char` at row 0, column 0 is a no-op: the buffer and the cursor are
/// left unchanged.
pub proof fn lemma_delete_char_at_origin(b: BufferModel)
    requires
        b.row == 0,
        b.col == 0,
    ensures
        delete_char_model(b) == b,
{
}

} // verus!
