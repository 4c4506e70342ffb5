//! The terminal editor's command interpreter: one line of input is trimmed,
//! classified, and applied to the editing session; what is left over is the
//! outward effect the surrounding loop must perform.

use vstd::prelude::*;
use crate::codec;
use crate::editor::{
    BufferModel, Editor, SaveAction, delete_char_model, insert_char_model, insert_newline_model,
};

verus! {

/// Model of a classified input line.
pub enum CommandModel {
    Quit,
    Save,
    SaveQuit,
    SaveAs(Seq<char>),
    Help,
    Insert(Seq<char>),
    Delete,
    Newline,
    Unknown(Seq<char>),
    Ignored,
}

/// A classified input line of the terminal editor.
pub enum Command {
    Quit,
    Save,
    SaveQuit,
    SaveAs(Vec<char>),
    Help,
    Insert(Vec<char>),
    Delete,
    Newline,
    Unknown(Vec<char>),
    Ignored,
}

impl View for Command {
    type V = CommandModel;

    open spec fn view(&self) -> CommandModel {
        match self {
            Command::Quit => CommandModel::Quit,
            Command::Save => CommandModel::Save,
            Command::SaveQuit => CommandModel::SaveQuit,
            Command::SaveAs(p) => CommandModel::SaveAs(p@),
            Command::Help => CommandModel::Help,
            Command::Insert(t) => CommandModel::Insert(t@),
            Command::Delete => CommandModel::Delete,
            Command::Newline => CommandModel::Newline,
            Command::Unknown(s) => CommandModel::Unknown(s@),
            Command::Ignored => CommandModel::Ignored,
        }
    }
}

/// The characters the interpreter strips from both ends of an input line.
pub open spec fn is_blank(c: char) -> bool {
    c == ' ' || c == '\t' || c == '\r' || c == '\n'
}

/// An input line with leading and trailing blanks removed.
pub open spec fn trim_spec(s: Seq<char>) -> Seq<char>
    decreases s.len(),
{
    if s.len() == 0 {
        s
    } else if is_blank(s.first()) {
        trim_spec(s.drop_first())
    } else if is_blank(s.last()) {
        trim_spec(s.drop_last())
    } else {
        s
    }
}

/// How a trimmed input line is read: colon lines are commands (quit, save,
/// save-and-quit, save-as, help, or unrecognized), `i ` inserts the rest,
/// a lone `d` deletes, a lone `n` breaks the line, and anything else is
/// silently ignored.
pub open spec fn classify(s: Seq<char>) -> CommandModel {
    if s.len() > 0 && s[0] == ':' {
        if s == seq![':', 'q'] {
            CommandModel::Quit
        } else if s == seq![':', 'w'] {
            CommandModel::Save
        } else if s == seq![':', 'w', 'q'] {
            CommandModel::SaveQuit
        } else if s.len() >= 3 && s.take(3) == seq![':', 'w', ' '] {
            CommandModel::SaveAs(s.skip(3))
        } else if s == seq![':', 'h', 'e', 'l', 'p'] {
            CommandModel::Help
        } else {
            CommandModel::Unknown(s)
        }
    } else if s.len() >= 2 && s[0] == 'i' && s[1] == ' ' {
        CommandModel::Insert(s.skip(2))
    } else if s == seq!['d'] {
        CommandModel::Delete
    } else if s == seq!['n'] {
        CommandModel::Newline
    } else {
        CommandModel::Ignored
    }
}

/// Whether the interpreter treats `c` as a blank to strip.
pub fn is_blank_char(c: char) -> (r: bool)
    ensures
        r == is_blank(c),
{
    c == ' ' || c == '\t' || c == '\r' || c == '\n'
}

/// Strips blanks from both ends of an input line.
pub fn trim(input: &Vec<char>) -> (r: Vec<char>)
    ensures
        r@ == trim_spec(input@),
{
    let mut start: usize = 0;
    let mut end: usize = input.len();
    proof {
        assert(input@.subrange(0, input@.len() as int) =~= input@);
    }
    while start < end && is_blank_char(input[start])
        invariant
            0 <= start <= end <= input@.len(),
            trim_spec(input@) == trim_spec(input@.subrange(start as int, end as int)),
        decreases end - start,
    {
        proof {
            let sub = input@.subrange(start as int, end as int);
            assert(sub.first() == input@[start as int]);
            assert(sub.drop_first() =~= input@.subrange(start as int + 1, end as int));
        }
        start = start + 1;
    }
    while start < end && is_blank_char(input[end - 1])
        invariant
            0 <= start <= end <= input@.len(),
            trim_spec(input@) == trim_spec(input@.subrange(start as int, end as int)),
            start < end ==> !is_blank(input@[start as int]),
        decreases end - start,
    {
        proof {
            let sub = input@.subrange(start as int, end as int);
            assert(sub.first() == input@[start as int]);
            assert(sub.last() == input@[end - 1]);
            assert(sub.drop_last() =~= input@.subrange(start as int, end as int - 1));
        }
        end = end - 1;
    }
    proof {
        let sub = input@.subrange(start as int, end as int);
        if start < end {
            assert(sub.first() == input@[start as int]);
            assert(sub.last() == input@[end - 1]);
        }
        assert(trim_spec(sub) == sub);
    }
    copy_from(input, start, end)
}

/// Copies the characters of `input` between `start` and `end` into a fresh
/// vector.
fn copy_from(input: &Vec<char>, start: usize, end: usize) -> (r: Vec<char>)
    requires
        start <= end <= input@.len(),
    ensures
        r@ == input@.subrange(start as int, end as int),
{
    let mut out: Vec<char> = Vec::new();
    let mut j: usize = start;
    while j < end
        invariant
            start <= j <= end <= input@.len(),
            out@ =~= input@.subrange(start as int, j as int),
        decreases end - j,
    {
        out.push(input[j]);
        proof {
            assert(input@.subrange(start as int, j as int).push(input@[j as int]) =~= input@
                .subrange(start as int, j as int + 1));
        }
        j = j + 1;
    }
    out
}

/// Classifies a trimmed input line.
pub fn parse_command(input: &Vec<char>) -> (r: Command)
    ensures
        r@ == classify(input@),
{
    let n = input.len();
    if n > 0 && input[0] == ':' {
        if n == 2 && input[1] == 'q' {
            proof {
                assert(input@ =~= seq![':', 'q']);
            }
            Command::Quit
        } else if n == 2 && input[1] == 'w' {
            proof {
                assert(input@ =~= seq![':', 'w']);
            }
            Command::Save
        } else if n == 3 && input[1] == 'w' && input[2] == 'q' {
            proof {
                assert(input@ =~= seq![':', 'w', 'q']);
            }
            Command::SaveQuit
        } else if n >= 3 && input[1] == 'w' && input[2] == ' ' {
            proof {
                assert(input@.take(3) =~= seq![':', 'w', ' ']);
            }
            Command::SaveAs(copy_from(input, 3, n))
        } else if n == 5 && input[1] == 'h' && input[2] == 'e' && input[3] == 'l' && input[4]
            == 'p' {
            proof {
                assert(input@ =~= seq![':', 'h', 'e', 'l', 'p']);
            }
            Command::Help
        } else {
            proof {
                assert(input@.subrange(0, n as int) =~= input@);
            }
            Command::Unknown(copy_from(input, 0, n))
        }
    } else if n >= 2 && input[0] == 'i' && input[1] == ' ' {
        Command::Insert(copy_from(input, 2, n))
    } else if n == 1 && input[0] == 'd' {
        proof {
            assert(input@ =~= seq!['d']);
        }
        Command::Delete
    } else if n == 1 && input[0] == 'n' {
        proof {
            assert(input@ =~= seq!['n']);
        }
        Command::Newline
    } else {
        Command::Ignored
    }
}

/// Inserting a piece of text is inserting its characters one by one at the
/// cursor.
pub open spec fn insert_text_model(b: BufferModel, text: Seq<char>) -> BufferModel
    decreases text.len(),
{
    if text.len() == 0 {
        b
    } else {
        insert_text_model(insert_char_model(b, text[0]), text.drop_first())
    }
}

/// Inserting text and then one more character is inserting the text extended
/// by that character.
pub proof fn lemma_insert_text_push(b: BufferModel, text: Seq<char>, c: char)
    ensures
        insert_text_model(b, text.push(c)) == insert_char_model(insert_text_model(b, text), c),
    decreases text.len(),
{
    if text.len() == 0 {
        assert(text.push(c)[0] == c);
        assert(text.push(c).drop_first() =~= Seq::<char>::empty());
        assert(insert_text_model(b, text) == b);
        assert(insert_text_model(b, text.push(c)) == insert_text_model(
            insert_char_model(b, c),
            Seq::<char>::empty(),
        ));
        assert(insert_text_model(insert_char_model(b, c), Seq::<char>::empty())
            == insert_char_model(b, c));
    } else {
        assert(text.push(c)[0] == text[0]);
        assert(text.push(c).drop_first() =~= text.drop_first().push(c));
        lemma_insert_text_push(insert_char_model(b, text[0]), text.drop_first(), c);
        assert(insert_text_model(b, text.push(c)) == insert_text_model(
            insert_char_model(b, text[0]),
            text.drop_first().push(c),
        ));
        assert(insert_text_model(b, text) == insert_text_model(
            insert_char_model(b, text[0]),
            text.drop_first(),
        ));
    }
}

/// How one command changes the editing session: the three buffer mutations,
/// the file-name change of save-as, and no change for everything else.
pub open spec fn step_model(b: BufferModel, cmd: CommandModel) -> BufferModel {
    match cmd {
        CommandModel::Insert(text) => insert_text_model(b, text),
        CommandModel::Delete => delete_char_model(b),
        CommandModel::Newline => insert_newline_model(b),
        CommandModel::SaveAs(p) => BufferModel {
            lines: b.lines,
            row: b.row,
            col: b.col,
            filename: Some(p),
        },
        _ => b,
    }
}

/// What the loop around the interpreter must do after a command was applied:
/// nothing, leave the loop, write a file (leaving on success for
/// save-and-quit), report that no file name is set (leaving afterwards for
/// save-and-quit), print the help text, or report an unrecognized command.
pub enum Effect {
    Continue,
    Exit,
    Write { filename: String, content: Vec<char>, exit_on_success: bool },
    NoFilename { exit: bool },
    ShowHelp,
    ShowUnknown(Vec<char>),
}

/// Applies one classified command to the session and returns the effect the
/// surrounding loop must perform.
pub fn step(ed: &mut Editor, cmd: Command) -> (r: Effect)
    requires
        old(ed).wf(),
    ensures
        final(ed).wf(),
        final(ed)@ == step_model(old(ed)@, cmd@),
        (match cmd@ {
            CommandModel::Quit => r is Exit,
            CommandModel::Save | CommandModel::SaveQuit => {
                let for_quit = cmd@ is SaveQuit;
                match r {
                    Effect::Write { filename, content, exit_on_success } => {
                        &&& old(ed)@.filename == Some(filename@)
                        &&& content@ == codec::join_spec(old(ed)@.lines)
                        &&& exit_on_success == for_quit
                    },
                    Effect::NoFilename { exit } => old(ed)@.filename is None && exit == for_quit,
                    _ => false,
                }
            },
            CommandModel::SaveAs(p) => (match r {
                Effect::Write { filename, content, exit_on_success } => {
                    &&& filename@ == p
                    &&& content@ == codec::join_spec(old(ed)@.lines)
                    &&& exit_on_success == false
                },
                _ => false,
            }),
            CommandModel::Help => r is ShowHelp,
            CommandModel::Unknown(s) => (match r {
                Effect::ShowUnknown(t) => t@ == s,
                _ => false,
            }),
            CommandModel::Insert(_) | CommandModel::Delete | CommandModel::Newline
                | CommandModel::Ignored => r is Continue,
        }),
{
    match cmd {
        Command::Quit => Effect::Exit,
        Command::Save => {
            match ed.prepare_save() {
                SaveAction::Write { filename, content } => Effect::Write {
                    filename,
                    content,
                    exit_on_success: false,
                },
                SaveAction::NoFilename => Effect::NoFilename { exit: false },
            }
        },
        Command::SaveQuit => {
            match ed.prepare_save() {
                SaveAction::Write { filename, content } => Effect::Write {
                    filename,
                    content,
                    exit_on_success: true,
                },
                SaveAction::NoFilename => Effect::NoFilename { exit: true },
            }
        },
        Command::SaveAs(path) => {
            let name = codec::chars_to_string(&path);
            let content = ed.save_as(name.as_str());
            Effect::Write { filename: name, content, exit_on_success: false }
        },
        Command::Help => Effect::ShowHelp,
        Command::Insert(text) => {
            let ghost b0 = ed@;
            let mut k: usize = 0;
            proof {
                assert(text@.take(0) =~= Seq::<char>::empty());
            }
            while k < text.len()
                invariant
                    k <= text@.len(),
                    ed.wf(),
                    ed@ == insert_text_model(b0, text@.take(k as int)),
                decreases text@.len() - k,
            {
                ed.insert_char(text[k]);
                proof {
                    lemma_insert_text_push(b0, text@.take(k as int), text@[k as int]);
                    assert(text@.take(k as int).push(text@[k as int]) =~= text@.take(k as int + 1));
                }
                k = k + 1;
            }
            proof {
                assert(text@.take(text@.len() as int) =~= text@);
            }
            Effect::Continue
        },
        Command::Delete => {
            ed.delete_char();
            Effect::Continue
        },
        Command::Newline => {
            ed.insert_newline();
            Effect::Continue
        },
        Command::Unknown(s) => Effect::ShowUnknown(s),
        Command::Ignored => Effect::Continue,
    }
}

} // verus!
