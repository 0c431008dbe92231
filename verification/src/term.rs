//! The control sequences that drive the terminal.
//!
//! The sequences themselves come from `termion`; this module says, without
//! proof, which characters each of them is.

use vstd::prelude::*;
use crate::decimal::decimal;

verus! {

/// A control sequence: the escape character, an opening bracket and what is particular to it.
pub open spec fn csi(tail: Seq<char>) -> Seq<char> {
    seq!['\u{1b}', '['] + tail
}

/// The sequence that moves the terminal's cursor to column `col` of row
/// `row`, both counted from one: the row in decimal, a semicolon, the column
/// in decimal and the letter `H`.
pub open spec fn goto_sequence(col: u16, row: u16) -> Seq<char> {
    csi(decimal(row as nat) + seq![';'] + decimal(col as nat) + seq!['H'])
}

/// The sequence that clears the whole screen.
pub open spec fn clear_all_sequence() -> Seq<char> {
    csi(seq!['2', 'J'])
}

/// The sequence that clears the screen from the cursor on.
pub open spec fn clear_after_cursor_sequence() -> Seq<char> {
    csi(seq!['J'])
}

/// The sequence that clears the rest of the cursor's row.
pub open spec fn clear_until_newline_sequence() -> Seq<char> {
    csi(seq!['K'])
}

/// The sequence that switches to bold text.
pub open spec fn bold_sequence() -> Seq<char> {
    csi(seq!['1', 'm'])
}

/// The sequence that switches all text attributes off.
pub open spec fn style_reset_sequence() -> Seq<char> {
    csi(seq!['m'])
}

/// The sequence that switches to blue text.
pub open spec fn blue_sequence() -> Seq<char> {
    csi(seq!['3', '8', ';', '5', ';', '4', 'm'])
}

/// The sequence that switches back to the terminal's own text colour.
pub open spec fn default_colour_sequence() -> Seq<char> {
    csi(seq!['3', '9', 'm'])
}

/// `termion::cursor::Goto`, as it displays: the control sequence with the
/// row before the column, each printed as a plain decimal number. The
/// position is counted from one, and `termion` rejects the pair of two
/// zeros.
#[verifier::external_body]
pub(crate) fn goto(col: u16, row: u16) -> (s: String)
    requires
        col >= 1 || row >= 1,
    ensures
        s@ == goto_sequence(col, row),
{
    format!("{}", termion::cursor::Goto(col, row))
}

/// `termion::clear::All`, as it displays: the fixed sequence `2J`.
#[verifier::external_body]
pub(crate) fn clear_all() -> (s: String)
    ensures
        s@ == clear_all_sequence(),
{
    format!("{}", termion::clear::All)
}

/// `termion::clear::AfterCursor`, as it displays: the fixed sequence `J`.
#[verifier::external_body]
pub(crate) fn clear_after_cursor() -> (s: String)
    ensures
        s@ == clear_after_cursor_sequence(),
{
    format!("{}", termion::clear::AfterCursor)
}

/// `termion::clear::UntilNewline`, as it displays: the fixed sequence `K`.
#[verifier::external_body]
pub(crate) fn clear_until_newline() -> (s: String)
    ensures
        s@ == clear_until_newline_sequence(),
{
    format!("{}", termion::clear::UntilNewline)
}

/// `termion::style::Bold`, as it displays: the fixed sequence `1m`.
#[verifier::external_body]
pub(crate) fn bold() -> (s: String)
    ensures
        s@ == bold_sequence(),
{
    format!("{}", termion::style::Bold)
}

/// `termion::style::Reset`, as it displays: the fixed sequence `m`.
#[verifier::external_body]
pub(crate) fn style_reset() -> (s: String)
    ensures
        s@ == style_reset_sequence(),
{
    format!("{}", termion::style::Reset)
}

/// `termion::color::Fg` of `termion::color::Blue`, as it displays: the
/// fixed sequence `38;5;4m`, colour four of the palette as foreground.
#[verifier::external_body]
pub(crate) fn blue() -> (s: String)
    ensures
        s@ == blue_sequence(),
{
    format!("{}", termion::color::Fg(termion::color::Blue))
}

/// `termion::color::Fg` of `termion::color::Reset`, as it displays: the
/// fixed sequence `39m`.
#[verifier::external_body]
pub(crate) fn default_colour() -> (s: String)
    ensures
        s@ == default_colour_sequence(),
{
    format!("{}", termion::color::Fg(termion::color::Reset))
}

} // verus!
