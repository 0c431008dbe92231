//! Cutting raw text into lines.
//!
//! A line ends at a line feed. A carriage return directly before that line
//! feed belongs to the terminator and is dropped with it; anywhere else it is
//! an ordinary character. Text after the last line feed is a line of its own
//! unless it is empty.

use vstd::prelude::*;
use crate::offsets::Lines;

verus! {

/// Index of the first line feed in `s`, or the length of `s` if it has none.
pub open spec fn first_line_feed(s: Seq<char>) -> int
    decreases s.len(),
{
    if s.len() == 0 || s[0] == '\n' {
        0
    } else {
        1 + first_line_feed(s.skip(1))
    }
}

/// A terminated line without the carriage return of its terminator, if it had one.
pub open spec fn without_carriage_return(line: Seq<char>) -> Seq<char> {
    if line.len() > 0 && line.last() == '\r' {
        line.drop_last()
    } else {
        line
    }
}

/// The lines of `s`.
pub open spec fn split_lines(s: Seq<char>) -> Lines
    decreases s.len(),
    via split_lines_decreases
{
    if s.len() == 0 {
        Seq::empty()
    } else {
        let k = first_line_feed(s);
        if k >= s.len() {
            seq![s]
        } else {
            seq![without_carriage_return(s.take(k))] + split_lines(s.skip(k + 1))
        }
    }
}

#[via_fn]
proof fn split_lines_decreases(s: Seq<char>) {
    if s.len() != 0 {
        lemma_first_line_feed_bounds(s);
    }
}

/// The first line feed lies within the sequence or at its end.
pub proof fn lemma_first_line_feed_bounds(s: Seq<char>)
    ensures
        0 <= first_line_feed(s) <= s.len(),
    decreases s.len(),
{
    if s.len() != 0 && s[0] != '\n' {
        lemma_first_line_feed_bounds(s.skip(1));
    }
}

/// If nothing before `k` is a line feed and `k` is one, or is the end, then
/// the first line feed is at `k`.
pub proof fn lemma_first_line_feed_at(s: Seq<char>, k: int)
    requires
        0 <= k <= s.len(),
        forall|j: int| 0 <= j < k ==> s[j] != '\n',
        k < s.len() ==> s[k] == '\n',
    ensures
        first_line_feed(s) == k,
    decreases k,
{
    if k > 0 {
        let rest = s.skip(1);
        assert forall|j: int| 0 <= j < k - 1 implies rest[j] != '\n' by {
            assert(rest[j] == s[j + 1]);
        }
        lemma_first_line_feed_at(rest, k - 1);
    }
}

/// The lines of the text from `from` on, when its first line feed is at
/// `at`: the line between the two, then the lines of what follows.
pub proof fn lemma_split_at_line_feed(s: Seq<char>, from: int, at: int)
    requires
        0 <= from <= at < s.len(),
        forall|j: int| from <= j < at ==> s[j] != '\n',
        s[at] == '\n',
    ensures
        split_lines(s.skip(from)) == seq![without_carriage_return(s.subrange(from, at))] + split_lines(
            s.skip(at + 1),
        ),
{
    let tail = s.skip(from);
    assert forall|j: int| 0 <= j < at - from implies tail[j] != '\n' by {
        assert(tail[j] == s[from + j]);
    }
    lemma_first_line_feed_at(tail, at - from);
    assert(tail.take(at - from) =~= s.subrange(from, at));
    assert(tail.skip(at - from + 1) =~= s.skip(at + 1));
}

/// The lines of the text from `from` on, when it holds no line feed: the
/// whole of it as one line, or no line if nothing is left.
pub proof fn lemma_split_unterminated(s: Seq<char>, from: int)
    requires
        0 <= from <= s.len(),
        forall|j: int| from <= j < s.len() ==> s[j] != '\n',
    ensures
        split_lines(s.skip(from)) == if from == s.len() {
            Seq::<Seq<char>>::empty()
        } else {
            seq![s.skip(from)]
        },
{
    let tail = s.skip(from);
    assert forall|j: int| 0 <= j < tail.len() implies tail[j] != '\n' by {
        assert(tail[j] == s[from + j]);
    }
    lemma_first_line_feed_at(tail, tail.len() as int);
}

} // verus!
