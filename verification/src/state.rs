//! The buffer as a mathematical state, and each operation as a step from
//! one state to the next.
//!
//! The cursor is a single offset into the text; its line and column are
//! derived from it. The contracts of the executable buffer are stated over
//! these steps.

use vstd::prelude::*;
use crate::offsets::{
    Lines, column_of, lemma_line_end_bounded, lemma_line_from_first, lemma_line_start_increases,
    lemma_line_start_nonnegative, lemma_owner_resolves, lemma_resolves_to_owner,
    lemma_text_len_remove, line_of, line_start, owns, text_len, width_at,
};
use crate::view::{adjusted_origin, in_window};

verus! {

/// What a buffer holds, as plain values.
pub struct State {
    /// The name shown for the buffer.
    pub name: Seq<char>,
    /// Where the text came from.
    pub path: Seq<char>,
    /// The lines of the text.
    pub lines: Lines,
    /// The cursor, as an offset into the text.
    pub point: int,
    /// Index of the first visible line.
    pub origin: int,
    /// Number of text rows on screen.
    pub height: int,
}

/// The smaller of two integers.
pub open spec fn least(a: int, b: int) -> int {
    if a <= b {
        a
    } else {
        b
    }
}

impl State {
    /// The line the cursor is on.
    pub open spec fn line(self) -> int {
        line_of(self.lines, self.point)
    }

    /// Offset at which the cursor's line starts.
    pub open spec fn start(self) -> int {
        line_start(self.lines, self.line())
    }

    /// Length of the cursor's line.
    pub open spec fn width(self) -> int {
        width_at(self.lines, self.line())
    }

    /// Column of the cursor within its line.
    pub open spec fn column(self) -> int {
        column_of(self.lines, self.point)
    }

    /// Whether the cursor's line is one of the visible ones.
    pub open spec fn visible(self) -> bool {
        in_window(self.origin, self.height, self.line())
    }

    /// The invariant of a buffer: the cursor lies within the text, there is
    /// at least one text row and a screen row left for the status line below
    /// them, and the cursor's line is visible.
    pub open spec fn wf(self) -> bool {
        &&& 0 <= self.point <= text_len(self.lines)
        &&& 0 <= self.origin
        &&& 1 <= self.height < u16::MAX
        &&& self.visible()
    }

    /// The state with the window scrolled to show line `line`.
    pub open spec fn scrolled_to(self, line: int) -> State {
        State { origin: adjusted_origin(self.origin, self.height, line), ..self }
    }

    /// The state with the cursor at `p` and the window scrolled to show the line of `p`.
    pub open spec fn at(self, p: int) -> State {
        State { point: p, ..self }.scrolled_to(line_of(self.lines, p))
    }

    /// One character forward, stopping at the end of the text.
    pub open spec fn move_right(self) -> State {
        self.at(least(text_len(self.lines), self.point + 1))
    }

    /// One character back, stopping at the start of the text.
    pub open spec fn move_left(self) -> State {
        self.at(if self.point > 0 {
            self.point - 1
        } else {
            0
        })
    }

    /// To the start of the next line, or to the end of the text from the last line.
    pub open spec fn move_down(self) -> State {
        self.at(least(text_len(self.lines), self.start() + self.width() + 1))
    }

    /// To the start of the previous line, or to the start of the text from the first line.
    pub open spec fn move_up(self) -> State {
        if self.start() == 0 {
            self.at(0)
        } else {
            self.at(line_start(self.lines, line_of(self.lines, self.start() - 1)))
        }
    }

    /// To the first column of the cursor's line; the window stays.
    pub open spec fn move_start_of_line(self) -> State {
        State { point: self.start(), ..self }
    }

    /// Behind the last character of the cursor's line; the window stays.
    pub open spec fn move_end_of_line(self) -> State {
        State { point: self.start() + self.width(), ..self }
    }

    /// To the start of the text, with the first line in view.
    pub open spec fn move_start(self) -> State {
        State { point: 0, ..self }.scrolled_to(0)
    }

    /// To the end of the text, with the last line in view.
    pub open spec fn move_end(self) -> State {
        State { point: text_len(self.lines), ..self }.scrolled_to(
            if self.lines.len() == 0 {
                0
            } else {
                self.lines.len() - 1
            },
        )
    }

    /// `count` times down.
    pub open spec fn move_down_by(self, count: int) -> State
        decreases count,
    {
        if count <= 0 {
            self
        } else {
            self.move_down().move_down_by(count - 1)
        }
    }

    /// `count` times up.
    pub open spec fn move_up_by(self, count: int) -> State
        decreases count,
    {
        if count <= 0 {
            self
        } else {
            self.move_up().move_up_by(count - 1)
        }
    }

    /// Down once for every row of the terminal: the text rows and the status row.
    pub open spec fn page_down(self) -> State {
        self.move_down_by(self.height + 1)
    }

    /// Up once for every row of the terminal: the text rows and the status row.
    pub open spec fn page_up(self) -> State {
        self.move_up_by(self.height + 1)
    }

    /// Without the cursor's line; the cursor stays at the offset where that
    /// line started, or at the end of the text if that is now before it. A
    /// text without lines stays as it is.
    pub open spec fn delete_line(self) -> State {
        if self.lines.len() == 0 {
            self
        } else {
            let rest = self.lines.remove(self.line());
            State { lines: rest, ..self }.at(least(text_len(rest), self.start()))
        }
    }

    /// A text has no negative length.
    pub proof fn lemma_text_len_nonnegative(lines: Lines)
        ensures
            0 <= text_len(lines),
    {
        if lines.len() > 0 {
            lemma_line_start_increases(lines, 0, lines.len() as int);
        }
    }

    /// In a buffer that meets its invariant the cursor's line exists and owns
    /// the cursor, unless the text has no lines and the cursor is at zero.
    pub proof fn lemma_cursor_on_line(self)
        requires
            0 <= self.point <= text_len(self.lines),
        ensures
            self.lines.len() > 0 ==> owns(self.lines, self.line(), self.point),
            self.lines.len() == 0 ==> self.point == 0 && self.line() == 0 && self.start() == 0
                && self.width() == 0,
            0 <= self.start() <= self.point <= self.start() + self.width() <= text_len(self.lines),
    {
        if self.lines.len() > 0 {
            lemma_resolves_to_owner(self.lines, self.point);
            lemma_line_end_bounded(self.lines, self.line());
        }
    }

    /// Placing the cursor anywhere within the text keeps the invariant.
    pub proof fn lemma_at_keeps_invariant(self, p: int)
        requires
            self.wf(),
            0 <= p <= text_len(self.lines),
        ensures
            self.at(p).wf(),
            self.at(p).point == p,
            self.at(p).lines == self.lines,
            self.at(p).height == self.height,
    {
        lemma_line_from_first(self.lines, p, 0);
    }

    /// Every movement keeps the invariant.
    pub proof fn lemma_moves_keep_invariant(self)
        requires
            self.wf(),
        ensures
            self.move_right().wf(),
            self.move_left().wf(),
            self.move_down().wf(),
            self.move_up().wf(),
            self.move_start_of_line().wf(),
            self.move_end_of_line().wf(),
            self.move_start().wf(),
            self.move_end().wf(),
    {
        let lines = self.lines;
        Self::lemma_text_len_nonnegative(lines);
        self.lemma_cursor_on_line();
        self.lemma_at_keeps_invariant(least(text_len(lines), self.point + 1));
        self.lemma_at_keeps_invariant(if self.point > 0 { self.point - 1 } else { 0 });
        self.lemma_at_keeps_invariant(least(text_len(lines), self.start() + self.width() + 1));
        self.lemma_at_keeps_invariant(0);
        if self.start() != 0 {
            let above = State { point: self.start() - 1, ..self };
            above.lemma_cursor_on_line();
            self.lemma_at_keeps_invariant(above.start());
        }
        if lines.len() > 0 {
            lemma_owner_resolves(lines, self.line(), self.start());
            lemma_owner_resolves(lines, self.line(), self.start() + self.width());
            lemma_owner_resolves(lines, 0, 0);
            lemma_line_end_bounded(lines, lines.len() - 1);
            lemma_line_start_nonnegative(lines, lines.len() - 1);
            lemma_owner_resolves(lines, lines.len() - 1, text_len(lines));
        }
        self.lemma_at_keeps_invariant(text_len(lines));
    }

    /// Repeated movement down keeps the invariant.
    pub proof fn lemma_move_down_by_keeps_invariant(self, count: int)
        requires
            self.wf(),
        ensures
            self.move_down_by(count).wf(),
            self.move_down_by(count).lines == self.lines,
            self.move_down_by(count).height == self.height,
        decreases count,
    {
        if count > 0 {
            self.lemma_moves_keep_invariant();
            self.move_down().lemma_move_down_by_keeps_invariant(count - 1);
        }
    }

    /// Repeated movement up keeps the invariant.
    pub proof fn lemma_move_up_by_keeps_invariant(self, count: int)
        requires
            self.wf(),
        ensures
            self.move_up_by(count).wf(),
            self.move_up_by(count).lines == self.lines,
            self.move_up_by(count).height == self.height,
        decreases count,
    {
        if count > 0 {
            self.lemma_moves_keep_invariant();
            self.move_up().lemma_move_up_by_keeps_invariant(count - 1);
        }
    }

    /// Deleting the cursor's line keeps the invariant.
    pub proof fn lemma_delete_line_keeps_invariant(self)
        requires
            self.wf(),
        ensures
            self.delete_line().wf(),
    {
        if self.lines.len() > 0 {
            self.lemma_cursor_on_line();
            let rest = self.lines.remove(self.line());
            Self::lemma_text_len_nonnegative(rest);
            lemma_text_len_remove(self.lines, self.line());
            let p = least(text_len(rest), self.start());
            lemma_line_from_first(rest, p, 0);
        }
    }
}

} // verus!
