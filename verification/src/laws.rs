//! What holds of every buffer, whatever is done to it.

use vstd::prelude::*;
use crate::command::Command;
use crate::offsets::{
    Lines, column_of, lemma_line_end_bounded, lemma_line_from_first,
    lemma_line_start_nonnegative, lemma_owner_resolves, lemma_text_len_remove, line_of,
    line_start, owns, text_len,
};
use crate::state::State;

verus! {

/// A line and a column within it name one offset, and that offset resolves
/// back to the line and the column: the two ways to say where the cursor is
/// agree.
pub proof fn law_line_and_column_name_an_offset(lines: Lines, line: int, column: int)
    requires
        0 <= line < lines.len(),
        0 <= column <= lines[line].len(),
    ensures
        0 <= line_start(lines, line) + column <= text_len(lines),
        line_of(lines, line_start(lines, line) + column) == line,
        column_of(lines, line_start(lines, line) + column) == column,
{
    lemma_line_start_nonnegative(lines, line);
    lemma_line_end_bounded(lines, line);
    lemma_owner_resolves(lines, line, line_start(lines, line) + column);
}

/// An offset past the end of the text resolves to no line.
pub proof fn law_offset_past_the_end_is_on_no_line(lines: Lines, p: int)
    requires
        p > text_len(lines),
        p >= 0,
    ensures
        line_of(lines, p) == lines.len(),
{
    lemma_line_from_first(lines, p, 0);
    let k = line_of(lines, p);
    if k < lines.len() {
        lemma_line_end_bounded(lines, k);
    }
}

/// Deleting a line leaves one line fewer and a text shorter by the line and
/// its separator; deleting the only line leaves no line and no length.
pub proof fn law_delete_line_counts(lines: Lines, line: int)
    requires
        0 <= line < lines.len(),
    ensures
        lines.remove(line).len() == lines.len() - 1,
        lines.len() > 1 ==> text_len(lines.remove(line)) == text_len(lines) - (lines[line].len() + 1),
        lines.len() == 1 ==> lines.remove(line).len() == 0 && text_len(lines.remove(line)) == 0,
{
    lemma_text_len_remove(lines, line);
}

/// Every command keeps the invariant of a buffer.
pub proof fn law_step_keeps_invariant(s: State, command: Command)
    requires
        s.wf(),
    ensures
        s.step(command).wf(),
{
    s.lemma_moves_keep_invariant();
    s.lemma_move_down_by_keeps_invariant(s.height + 1);
    s.lemma_move_up_by_keeps_invariant(s.height + 1);
    s.lemma_delete_line_keeps_invariant();
}

/// Every sequence of commands keeps the invariant of a buffer.
pub proof fn law_run_keeps_invariant(s: State, commands: Seq<Command>)
    requires
        s.wf(),
    ensures
        s.run(commands).wf(),
    decreases commands.len(),
{
    if commands.len() > 0 {
        law_step_keeps_invariant(s, commands[0]);
        law_run_keeps_invariant(s.step(commands[0]), commands.drop_first());
    }
}

/// After any sequence of commands the cursor is on a line that exists, or
/// at offset zero if the text has no lines.
pub proof fn law_cursor_stays_on_a_line(s: State, commands: Seq<Command>)
    requires
        s.wf(),
    ensures
        s.run(commands).lines.len() > 0 ==> 0 <= s.run(commands).line() < s.run(commands).lines.len(),
        s.run(commands).lines.len() == 0 ==> s.run(commands).point == 0,
{
    law_run_keeps_invariant(s, commands);
    s.run(commands).lemma_cursor_on_line();
}

/// After any sequence of commands the cursor's line is inside the window.
pub proof fn law_cursor_stays_visible(s: State, commands: Seq<Command>)
    requires
        s.wf(),
    ensures
        s.run(commands).origin <= s.run(commands).line() < s.run(commands).origin + s.run(
            commands,
        ).height,
{
    law_run_keeps_invariant(s, commands);
}

/// One character forward and one back ends where it began, unless the
/// cursor was at the end of the text.
pub proof fn law_right_then_left_returns(s: State)
    requires
        s.wf(),
        s.point < text_len(s.lines),
    ensures
        s.move_right().move_left().point == s.point,
{
}

/// One character back and one forward ends where it began, unless the
/// cursor was at the start of the text.
pub proof fn law_left_then_right_returns(s: State)
    requires
        s.wf(),
        s.point > 0,
    ensures
        s.move_left().move_right().point == s.point,
{
}

/// To the end of the line and then to its start stays on the line and ends
/// in its first column.
pub proof fn law_end_then_start_of_line(s: State)
    requires
        s.wf(),
    ensures
        s.move_end_of_line().move_start_of_line().line() == s.line(),
        s.move_end_of_line().move_start_of_line().column() == 0,
        s.move_end_of_line().move_start_of_line().point == s.start(),
{
    s.lemma_cursor_on_line();
    if s.lines.len() > 0 {
        lemma_owner_resolves(s.lines, s.line(), s.start() + s.width());
        lemma_owner_resolves(s.lines, s.line(), s.start());
        assert(owns(s.lines, s.line(), s.start()));
    }
}

} // verus!
