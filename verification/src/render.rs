//! The terminal view of the buffer: every line prefixed by a right-aligned
//! line number, the cursor row marked, and a block glyph standing for the
//! cursor when it sits at the end of its line.

use vstd::prelude::*;
use crate::editor::{BufferModel, Editor, buffer_wf};

verus! {

/// The digit characters.
pub open spec fn digit_char(d: nat) -> char {
    if d == 0 {
        '0'
    } else if d == 1 {
        '1'
    } else if d == 2 {
        '2'
    } else if d == 3 {
        '3'
    } else if d == 4 {
        '4'
    } else if d == 5 {
        '5'
    } else if d == 6 {
        '6'
    } else if d == 7 {
        '7'
    } else if d == 8 {
        '8'
    } else {
        '9'
    }
}

/// The decimal numeral of `n`, most significant digit first.
pub open spec fn decimal_spec(n: nat) -> Seq<char>
    decreases n,
{
    if n < 10 {
        seq![digit_char(n)]
    } else {
        decimal_spec(n / 10).push(digit_char(n % 10))
    }
}

/// A numeral padded with spaces on the left to at least three columns.
pub open spec fn pad3(s: Seq<char>) -> Seq<char> {
    if s.len() >= 3 {
        s
    } else if s.len() == 2 {
        seq![' '] + s
    } else {
        seq![' ', ' '] + s
    }
}

/// One rendered buffer line: its one-based number in three columns, a `>`
/// marker on the cursor row, the line's text, and a block glyph when the
/// cursor sits at the end of the cursor row.
pub open spec fn render_line(b: BufferModel, i: int) -> Seq<char> {
    let num = pad3(decimal_spec((i + 1) as nat));
    if i == b.row {
        let base = num + seq![' ', '>', ' '] + b.lines[i];
        if b.col == b.lines[i].len() {
            base.push('\u{2588}')
        } else {
            base
        }
    } else {
        num + seq![' ', ' ', ' '] + b.lines[i]
    }
}

/// The first `i` rendered lines, each ended by a line feed.
pub open spec fn render_upto(b: BufferModel, i: int) -> Seq<char>
    decreases i,
{
    if i <= 0 {
        Seq::empty()
    } else {
        render_upto(b, i - 1) + render_line(b, i - 1) + seq!['\n']
    }
}

/// The whole rendered buffer.
pub open spec fn render_spec(b: BufferModel) -> Seq<char> {
    render_upto(b, b.lines.len() as int)
}

/// The character for one decimal digit.
fn digit(d: usize) -> (r: char)
    requires
        d < 10,
    ensures
        r == digit_char(d as nat),
{
    if d == 0 {
        '0'
    } else if d == 1 {
        '1'
    } else if d == 2 {
        '2'
    } else if d == 3 {
        '3'
    } else if d == 4 {
        '4'
    } else if d == 5 {
        '5'
    } else if d == 6 {
        '6'
    } else if d == 7 {
        '7'
    } else if d == 8 {
        '8'
    } else {
        '9'
    }
}

/// The decimal numeral of `n`.
fn decimal(n: usize) -> (r: Vec<char>)
    ensures
        r@ == decimal_spec(n as nat),
    decreases n,
{
    if n < 10 {
        let mut v: Vec<char> = Vec::new();
        v.push(digit(n));
        proof {
            assert(v@ =~= seq![digit_char(n as nat)]);
        }
        v
    } else {
        let mut v = decimal(n / 10);
        v.push(digit(n % 10));
        v
    }
}

/// The numeral of `n`, left-padded with spaces to at least three columns.
fn padded_number(n: usize) -> (r: Vec<char>)
    ensures
        r@ == pad3(decimal_spec(n as nat)),
{
    let digits = decimal(n);
    let mut out: Vec<char> = Vec::new();
    if digits.len() == 1 {
        out.push(' ');
        out.push(' ');
    } else if digits.len() == 2 {
        out.push(' ');
    }
    out.extend_from_slice(digits.as_slice());
    proof {
        assert(decimal_spec(n as nat).len() >= 1);
        assert(out@ =~= pad3(digits@));
    }
    out
}

/// Renders the buffer for the terminal: every line numbered, the cursor row
/// marked, and the cursor shown as a block glyph when it sits at the end of
/// its line.
pub fn render_buffer(ed: &Editor) -> (r: Vec<char>)
    requires
        ed.wf(),
    ensures
        r@ == render_spec(ed@),
{
    let lines = ed.lines();
    let row = ed.cursor_row();
    let col = ed.cursor_col();
    let mut out: Vec<char> = Vec::new();
    let mut i: usize = 0;
    while i < lines.len()
        invariant
            i <= lines@.len(),
            lines@.map_values(|l: Vec<char>| l@) == ed@.lines,
            row == ed@.row,
            col == ed@.col,
            buffer_wf(ed@),
            out@ == render_upto(ed@, i as int),
        decreases lines@.len() - i,
    {
        let ghost before = out@;
        let num = padded_number(i + 1);
        out.extend_from_slice(num.as_slice());
        if i == row {
            out.push(' ');
            out.push('>');
            out.push(' ');
            out.extend_from_slice(lines[i].as_slice());
            if col == lines[i].len() {
                out.push('\u{2588}');
            }
        } else {
            out.push(' ');
            out.push(' ');
            out.push(' ');
            out.extend_from_slice(lines[i].as_slice());
        }
        out.push('\n');
        proof {
            assert(out@ =~= before + render_line(ed@, i as int) + seq!['\n']);
        }
        i = i + 1;
    }
    out
}

} // verus!
