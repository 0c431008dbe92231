//! Addressing a sequence of lines by a single offset.
//!
//! The lines are laid end to end with one separator between neighbours, and
//! an offset counts characters from the start of the first line. The
//! separator after a line is the last offset that still belongs to it, so
//! the end of line `i` and the start of line `i + 1` are one apart.

use vstd::prelude::*;

verus! {

/// The lines of a text, each without its terminator.
pub type Lines = Seq<Seq<char>>;

/// Offset of the first character of line `i`: every earlier line
/// contributes its characters and one separator.
pub open spec fn line_start(lines: Lines, i: int) -> int
    decreases i,
{
    if i <= 0 {
        0
    } else {
        line_start(lines, i - 1) + lines[i - 1].len() + 1
    }
}

/// Offset just past the last character of line `i`, where its separator sits.
pub open spec fn line_end(lines: Lines, i: int) -> int {
    line_start(lines, i) + lines[i].len()
}

/// Length of the whole text: all characters and one separator per line,
/// less the separator that the last line does not have.
pub open spec fn text_len(lines: Lines) -> int {
    if lines.len() == 0 {
        0
    } else {
        line_start(lines, lines.len() as int) - 1
    }
}

/// Whether line `i` exists and offset `p` falls on it, its separator included.
pub open spec fn owns(lines: Lines, i: int, p: int) -> bool {
    0 <= i < lines.len() && line_start(lines, i) <= p <= line_end(lines, i)
}

/// The first line at or after `i` that does not end before `p`, or the
/// number of lines if they all do.
pub open spec fn line_from(lines: Lines, p: int, i: int) -> int
    decreases lines.len() - i,
{
    if i >= lines.len() || p <= line_end(lines, i) {
        i
    } else {
        line_from(lines, p, i + 1)
    }
}

/// The line that offset `p` resolves to: the first one that does not end
/// before `p`. An offset past the end of the text resolves to the number of
/// lines.
pub open spec fn line_of(lines: Lines, p: int) -> int {
    line_from(lines, p, 0)
}

/// Length of the line that a scan stopped at: that of line `i` if there is
/// one, else that of the last line the scan passed.
pub open spec fn width_at(lines: Lines, i: int) -> int {
    if 0 <= i < lines.len() {
        lines[i].len() as int
    } else if lines.len() > 0 {
        lines[lines.len() - 1].len() as int
    } else {
        0
    }
}

/// Column of offset `p` within the line it resolves to.
pub open spec fn column_of(lines: Lines, p: int) -> int {
    p - line_start(lines, line_of(lines, p))
}

/// No line starts before offset zero.
pub proof fn lemma_line_start_nonnegative(lines: Lines, i: int)
    ensures
        0 <= line_start(lines, i),
    decreases i,
{
    if i > 0 {
        lemma_line_start_nonnegative(lines, i - 1);
    }
}

/// Line starts grow with the index, by at least one per line.
pub proof fn lemma_line_start_increases(lines: Lines, i: int, j: int)
    requires
        0 <= i <= j,
    ensures
        line_start(lines, i) + (j - i) <= line_start(lines, j),
        0 <= line_start(lines, i),
    decreases j,
{
    lemma_line_start_nonnegative(lines, i);
    if i < j {
        lemma_line_start_increases(lines, i, j - 1);
    }
}

/// Every line ends within the text, and the last one ends exactly at its end.
pub proof fn lemma_line_end_bounded(lines: Lines, i: int)
    requires
        0 <= i < lines.len(),
    ensures
        line_end(lines, i) <= text_len(lines),
        i == lines.len() - 1 ==> line_end(lines, i) == text_len(lines),
        0 <= line_start(lines, i),
{
    lemma_line_start_increases(lines, i + 1, lines.len() as int);
    lemma_line_start_increases(lines, i, i);
}

/// A scan from `i` stops inside `[i, len]`, at a line that does not end
/// before `p`, having passed only lines that do.
pub proof fn lemma_line_from_first(lines: Lines, p: int, i: int)
    requires
        0 <= i <= lines.len(),
    ensures
        i <= line_from(lines, p, i) <= lines.len(),
        line_from(lines, p, i) < lines.len() ==> p <= line_end(lines, line_from(lines, p, i)),
        forall|j: int| i <= j < line_from(lines, p, i) ==> line_end(lines, j) < p,
    decreases lines.len() - i,
{
    if i < lines.len() && p > line_end(lines, i) {
        lemma_line_from_first(lines, p, i + 1);
    }
}

/// An offset that falls on line `i` resolves to line `i` and to no other.
pub proof fn lemma_owner_resolves(lines: Lines, i: int, p: int)
    requires
        owns(lines, i, p),
    ensures
        line_of(lines, p) == i,
{
    lemma_line_from_first(lines, p, 0);
    let k = line_of(lines, p);
    if k < i {
        lemma_line_start_increases(lines, k + 1, i);
    } else if k > i {
        assert(line_end(lines, i) < p);
    }
}

/// An offset within the text resolves to a line that exists and owns it.
pub proof fn lemma_resolves_to_owner(lines: Lines, p: int)
    requires
        lines.len() > 0,
        0 <= p <= text_len(lines),
    ensures
        owns(lines, line_of(lines, p), p),
{
    lemma_line_from_first(lines, p, 0);
    let k = line_of(lines, p);
    lemma_line_end_bounded(lines, lines.len() - 1);
    if k == lines.len() {
        assert(line_end(lines, lines.len() - 1) < p);
    }
    if k > 0 {
        assert(line_end(lines, k - 1) < p);
    }
}

/// Taking line `i` out leaves the starts before it alone and moves the
/// later ones back by its length and separator.
pub proof fn lemma_line_start_remove(lines: Lines, i: int, k: int)
    requires
        0 <= i < lines.len(),
        0 <= k < lines.len(),
    ensures
        line_start(lines.remove(i), k) == if k <= i {
            line_start(lines, k)
        } else {
            line_start(lines, k + 1) - lines[i].len() - 1
        },
    decreases k,
{
    if k > 0 {
        lemma_line_start_remove(lines, i, k - 1);
        let rest = lines.remove(i);
        if k - 1 < i {
            assert(rest[k - 1] == lines[k - 1]);
        } else {
            assert(rest[k - 1] == lines[k]);
        }
    }
}

/// Taking line `i` out shortens the text by the line and one separator,
/// or to nothing if it was the only line.
pub proof fn lemma_text_len_remove(lines: Lines, i: int)
    requires
        0 <= i < lines.len(),
    ensures
        lines.remove(i).len() == lines.len() - 1,
        text_len(lines.remove(i)) == if lines.len() == 1 {
            0
        } else {
            text_len(lines) - lines[i].len() - 1
        },
{
    if lines.len() > 1 {
        lemma_line_start_remove(lines, i, lines.len() - 1);
        if i == lines.len() - 1 {
            assert(line_start(lines, lines.len() as int) == line_start(lines, i) + lines[i].len() + 1);
        }
    }
}

} // verus!
