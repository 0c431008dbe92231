//! The window of lines that is visible on screen.

use vstd::prelude::*;

verus! {

/// Which lines are on screen: `height` rows, the first of them showing line `y`.
pub struct View {
    /// Index of the first visible line.
    pub y: usize,
    /// Number of text rows.
    pub height: usize,
}

/// The scroll origin after line `line` has been brought into a window of
/// `height` rows whose origin was `y`: the window moves up to the line if the
/// line is above it, down until the line is its last row if the line is below
/// it, and stays otherwise.
pub open spec fn adjusted_origin(y: int, height: int, line: int) -> int {
    if line < y {
        line
    } else if line >= y + height {
        line - height + 1
    } else {
        y
    }
}

/// Whether line `line` lies inside the window of `height` rows starting at `y`.
pub open spec fn in_window(y: int, height: int, line: int) -> bool {
    y <= line < y + height
}

impl View {
    /// Scrolls by the least amount that brings `line` into view.
    ///
    /// A window without rows cannot show any line; there the origin moves one
    /// past `line`, which must then be representable.
    pub fn adjust(&mut self, line: usize)
        requires
            old(self).height > 0 || line < usize::MAX,
        ensures
            final(self).height == old(self).height,
            final(self).y == adjusted_origin(old(self).y as int, old(self).height as int, line as int),
            old(self).height > 0 ==> in_window(final(self).y as int, final(self).height as int, line as int),
    {
        if line < self.y {
            self.y = line;
        } else if line - self.y >= self.height {
            self.y = line - self.height + 1;
        }
    }
}

} // verus!
