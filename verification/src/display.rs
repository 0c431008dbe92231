//! What a buffer looks like on the terminal: the visible lines, the status
//! line below them and the cursor, as the text to send to the terminal.

use vstd::prelude::*;
use vstd::string::StringExecFns;
use crate::buffer::Buffer;
use crate::decimal::{decimal, decimal_string};
use crate::state::{State, least};
use crate::term::{
    blue, blue_sequence, bold, bold_sequence, clear_after_cursor, clear_after_cursor_sequence,
    clear_all, clear_all_sequence, clear_until_newline, clear_until_newline_sequence,
    default_colour, default_colour_sequence, goto, goto_sequence, style_reset,
    style_reset_sequence,
};

verus! {

/// Number of text rows that hold a line: the lines from the first visible
/// one on, as far as the window has rows for them.
pub open spec fn rows_shown(s: State) -> int {
    least(s.lines.len() - s.origin, s.height)
}

/// Screen row `k` of the text, counted from zero: the cursor goes to its
/// first column, the line is written, and what the row held behind it is
/// cleared.
pub open spec fn row_frame(s: State, k: int) -> Seq<char> {
    goto_sequence(1, (k + 1) as u16) + s.lines[s.origin + k] + clear_until_newline_sequence()
}

/// The first `m` screen rows of the text, top to bottom.
pub open spec fn rows_frame(s: State, m: int) -> Seq<char>
    decreases m,
{
    if m <= 0 {
        Seq::empty()
    } else {
        rows_frame(s, m - 1) + row_frame(s, m - 1)
    }
}

/// The text rows. A buffer without lines clears the whole screen and shows
/// no row. Otherwise the visible lines are shown, and if the last line of
/// the text is among them, the screen below it is cleared.
pub open spec fn lines_frame(s: State) -> Seq<char> {
    if s.lines.len() == 0 {
        clear_all_sequence()
    } else {
        rows_frame(s, rows_shown(s)) + if s.lines.len() - s.origin <= s.height {
            clear_after_cursor_sequence()
        } else {
            Seq::empty()
        }
    }
}

/// The words of the status line: the name, the path in brackets, then the
/// cursor's column and line, both counted from one, and the number of lines.
pub open spec fn status_text(s: State) -> Seq<char> {
    s.name + seq![' ', '['] + s.path + seq![']', ' ', ' '] + decimal((s.column() + 1) as nat)
        + seq![':'] + decimal((s.line() + 1) as nat) + seq!['/'] + decimal(s.lines.len())
}

/// The status line: in the row below the text rows, bold and blue, with the
/// rest of the row cleared.
pub open spec fn status_frame(s: State) -> Seq<char> {
    goto_sequence(1, (s.height + 1) as u16) + bold_sequence() + blue_sequence() + status_text(s)
        + style_reset_sequence() + default_colour_sequence() + clear_until_newline_sequence()
}

/// Screen column of the cursor, counted from one; the terminal has no
/// column beyond the largest that it can address.
pub open spec fn screen_column(s: State) -> int {
    least(s.column() + 1, u16::MAX as int)
}

/// Screen row of the cursor, counted from one.
pub open spec fn screen_row(s: State) -> int {
    s.line() - s.origin + 1
}

/// The terminal's cursor, put where the buffer's cursor is.
pub open spec fn point_frame(s: State) -> Seq<char> {
    goto_sequence(screen_column(s) as u16, screen_row(s) as u16)
}

/// All of the buffer's picture: text rows, status line, cursor.
pub open spec fn frame(s: State) -> Seq<char> {
    lines_frame(s) + status_frame(s) + point_frame(s)
}

/// Where on screen the cursor is: column and row, both counted from one.
pub fn screen_position(buffer: &Buffer) -> (at: (u16, u16))
    requires
        buffer.wf(),
    ensures
        at.0 == screen_column(buffer@),
        at.1 == screen_row(buffer@),
{
    proof {
        buffer@.lemma_cursor_on_line();
    }
    let (line, start, _) = buffer.text().line_at(buffer.point());
    let column = buffer.point() - start;
    let col: u16 = if column < 65535 {
        (column + 1) as u16
    } else {
        65535
    };
    let row: u16 = (line - buffer.window().y + 1) as u16;
    (col, row)
}

/// One text row: screen row `k`, counted from zero, with the line it shows.
fn display_row(buffer: &Buffer, k: usize) -> (out: String)
    requires
        buffer.wf(),
        k < rows_shown(buffer@),
    ensures
        out@ == row_frame(buffer@, k as int),
{
    let text = buffer.text();
    proof {
        text.lemma_len_fits();
    }
    let mut out = goto(1, (k + 1) as u16);
    out.append(text.line(buffer.window().y + k).as_str());
    out.append(clear_until_newline().as_str());
    out
}

/// The text rows.
pub fn display_lines(buffer: &Buffer) -> (out: String)
    requires
        buffer.wf(),
    ensures
        out@ == lines_frame(buffer@),
{
    if buffer.lines() == 0 {
        return clear_all();
    }
    proof {
        buffer@.lemma_cursor_on_line();
    }
    let count = buffer.lines() - buffer.window().y;
    let height = buffer.window().height;
    let mut out = String::new();
    let mut ln: usize = 0;
    while ln < count && ln < height
        invariant
            buffer.wf(),
            count == buffer@.lines.len() - buffer@.origin,
            height == buffer@.height,
            ln <= rows_shown(buffer@),
            out@ == rows_frame(buffer@, ln as int),
        decreases rows_shown(buffer@) - ln,
    {
        let row = display_row(buffer, ln);
        out.append(row.as_str());
        ln = ln + 1;
    }
    if ln >= count {
        out.append(clear_after_cursor().as_str());
    } else {
        assert(out@ + Seq::<char>::empty() =~= out@);
    }
    out
}

/// The words of the status line.
pub fn display_status_text(buffer: &Buffer) -> (out: String)
    requires
        buffer.wf(),
    ensures
        out@ == status_text(buffer@),
{
    proof {
        buffer@.lemma_cursor_on_line();
    }
    let (line, start, _) = buffer.text().line_at(buffer.point());
    let column = buffer.point() - start;
    let mut out = buffer.name().clone();
    out.push(' ');
    out.push('[');
    out.append(buffer.path().as_str());
    out.push(']');
    out.push(' ');
    out.push(' ');
    out.append(decimal_string(column as u128 + 1).as_str());
    out.push(':');
    out.append(decimal_string(line as u128 + 1).as_str());
    out.push('/');
    out.append(decimal_string(buffer.lines() as u128).as_str());
    assert(out@ =~= status_text(buffer@));
    out
}

/// The status line.
pub fn display_status_line(buffer: &Buffer) -> (out: String)
    requires
        buffer.wf(),
    ensures
        out@ == status_frame(buffer@),
{
    let mut out = goto(1, (buffer.window().height + 1) as u16);
    out.append(bold().as_str());
    out.append(blue().as_str());
    out.append(display_status_text(buffer).as_str());
    out.append(style_reset().as_str());
    out.append(default_colour().as_str());
    out.append(clear_until_newline().as_str());
    out
}

/// The terminal's cursor, put where the buffer's cursor is.
pub fn display_point(buffer: &Buffer) -> (out: String)
    requires
        buffer.wf(),
    ensures
        out@ == point_frame(buffer@),
{
    let (col, row) = screen_position(buffer);
    goto(col, row)
}

/// All of the buffer's picture, ready to be written to the terminal.
pub fn display(buffer: &Buffer) -> (out: String)
    requires
        buffer.wf(),
    ensures
        out@ == frame(buffer@),
{
    let mut out = display_lines(buffer);
    out.append(display_status_line(buffer).as_str());
    out.append(display_point(buffer).as_str());
    out
}

} // verus!
