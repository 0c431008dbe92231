//! The buffer: a text, a cursor into it and the window that shows it.

use vstd::prelude::*;
use crate::offsets::lemma_line_from_first;
use crate::split::split_lines;
use crate::state::State;
use crate::text::Text;

verus! {

/// A text under a name, with a cursor and a window that follows the cursor.
pub struct Buffer {
    name: String,
    path: String,
    point: usize,
    view: crate::view::View,
    data: Text,
}

impl View for Buffer {
    type V = State;

    closed spec fn view(&self) -> State {
        State {
            name: self.name@,
            path: self.path@,
            lines: self.data@,
            point: self.point as int,
            origin: self.view.y as int,
            height: self.view.height as int,
        }
    }
}

impl Buffer {
    /// Whether the line store's cached counts agree with its lines.
    pub closed spec fn stored(&self) -> bool {
        self.data.wf()
    }

    /// The invariant of a buffer: that of its store and that of its state.
    pub open spec fn wf(&self) -> bool {
        self.stored() && self@.wf()
    }

    /// A buffer over the lines of `source`, for a terminal of `rows` rows:
    /// the last row is kept for the status line, the others show text. The
    /// cursor is at the start of the text and the first line is at the top.
    ///
    /// A terminal needs a text row beside the status row.
    pub fn load(name: String, path: String, source: &str, rows: u16) -> (b: Buffer)
        requires
            rows >= 2,
        ensures
            b.wf(),
            b@ == (State {
                name: name@,
                path: path@,
                lines: split_lines(source@),
                point: 0,
                origin: 0,
                height: rows - 1,
            }),
    {
        let data = Text::load(source);
        let height: usize = (rows - 1) as usize;
        let b = Buffer { name, path, point: 0, view: crate::view::View { y: 0, height }, data };
        proof {
            State::lemma_text_len_nonnegative(b@.lines);
            lemma_line_from_first(b@.lines, 0, 0);
        }
        b
    }

    /// The name shown for the buffer.
    pub fn name(&self) -> (s: &String)
        ensures
            s@ == self@.name,
    {
        &self.name
    }

    /// Where the text came from.
    pub fn path(&self) -> (s: &String)
        ensures
            s@ == self@.path,
    {
        &self.path
    }

    /// The cursor, as an offset into the text.
    pub fn point(&self) -> (p: usize)
        ensures
            p == self@.point,
    {
        self.point
    }

    /// The cursor, as a column and a line, both counted from zero.
    pub fn position(&self) -> (at: (usize, usize))
        requires
            self.wf(),
        ensures
            at.0 == self@.column(),
            at.1 == self@.line(),
    {
        proof {
            self@.lemma_cursor_on_line();
        }
        let (line, start, _) = self.data.line_at(self.point);
        (self.point - start, line)
    }

    /// The window.
    pub fn window(&self) -> (v: &crate::view::View)
        ensures
            v.y == self@.origin,
            v.height == self@.height,
    {
        &self.view
    }

    /// The line store.
    pub fn text(&self) -> (t: &Text)
        ensures
            t@ == self@.lines,
            self.stored() ==> t.wf(),
    {
        &self.data
    }

    /// The number of lines.
    pub fn lines(&self) -> (n: usize)
        requires
            self.wf(),
        ensures
            n == self@.lines.len(),
    {
        self.data.lines()
    }

    /// Puts the cursor at `p` and scrolls its line into view.
    fn go(&mut self, p: usize)
        requires
            old(self).wf(),
            p <= crate::offsets::text_len(old(self)@.lines),
        ensures
            final(self).wf(),
            final(self)@ == old(self)@.at(p as int),
    {
        proof {
            self@.lemma_at_keeps_invariant(p as int);
        }
        self.point = p;
        let (line, _, _) = self.data.line_at(self.point);
        self.view.adjust(line);
    }

    /// One character forward, stopping at the end of the text.
    pub fn move_right(&mut self)
        requires
            old(self).wf(),
        ensures
            final(self).wf(),
            final(self)@ == old(self)@.move_right(),
    {
        let p = if self.point < self.data.len() {
            self.point + 1
        } else {
            self.data.len()
        };
        self.go(p);
    }

    /// One character back, stopping at the start of the text.
    pub fn move_left(&mut self)
        requires
            old(self).wf(),
        ensures
            final(self).wf(),
            final(self)@ == old(self)@.move_left(),
    {
        let p = if self.point > 0 {
            self.point - 1
        } else {
            0
        };
        self.go(p);
    }

    /// Behind the last character of the cursor's line.
    pub fn move_end_of_line(&mut self)
        requires
            old(self).wf(),
        ensures
            final(self).wf(),
            final(self)@ == old(self)@.move_end_of_line(),
    {
        proof {
            self@.lemma_cursor_on_line();
            self@.lemma_moves_keep_invariant();
            self.data.lemma_len_fits();
        }
        let (_, start, len) = self.data.line_at(self.point);
        self.point = start + len;
    }

    /// To the first column of the cursor's line.
    pub fn move_start_of_line(&mut self)
        requires
            old(self).wf(),
        ensures
            final(self).wf(),
            final(self)@ == old(self)@.move_start_of_line(),
    {
        proof {
            self@.lemma_moves_keep_invariant();
        }
        let (_, start, _) = self.data.line_at(self.point);
        self.point = start;
    }

    /// To the start of the next line, or to the end of the text from the last line.
    pub fn move_down(&mut self)
        requires
            old(self).wf(),
        ensures
            final(self).wf(),
            final(self)@ == old(self)@.move_down(),
    {
        proof {
            self@.lemma_cursor_on_line();
            self.data.lemma_len_fits();
        }
        let (_, start, len) = self.data.line_at(self.point);
        let p = if start + len < self.data.len() {
            start + len + 1
        } else {
            self.data.len()
        };
        self.go(p);
    }

    /// To the start of the previous line, or to the start of the text from the first line.
    pub fn move_up(&mut self)
        requires
            old(self).wf(),
        ensures
            final(self).wf(),
            final(self)@ == old(self)@.move_up(),
    {
        proof {
            self@.lemma_cursor_on_line();
        }
        let (_, start, _) = self.data.line_at(self.point);
        if start == 0 {
            self.go(0);
        } else {
            let (_, above, _) = self.data.line_at(start - 1);
            proof {
                (State { point: start - 1, ..self@ }).lemma_cursor_on_line();
            }
            self.go(above);
        }
    }

    /// To the start of the text, with the first line in view.
    pub fn move_start(&mut self)
        requires
            old(self).wf(),
        ensures
            final(self).wf(),
            final(self)@ == old(self)@.move_start(),
    {
        proof {
            self@.lemma_moves_keep_invariant();
        }
        self.point = 0;
        self.view.adjust(0);
    }

    /// To the end of the text, with the last line in view.
    pub fn move_end(&mut self)
        requires
            old(self).wf(),
        ensures
            final(self).wf(),
            final(self)@ == old(self)@.move_end(),
    {
        proof {
            self@.lemma_moves_keep_invariant();
        }
        let line = if self.lines() == 0 {
            0
        } else {
            self.lines() - 1
        };
        self.point = self.data.len();
        self.view.adjust(line);
    }

    /// Down once for every row of the terminal.
    pub fn page_down(&mut self)
        requires
            old(self).wf(),
        ensures
            final(self).wf(),
            final(self)@ == old(self)@.page_down(),
    {
        let rows = self.view.height + 1;
        let mut done: usize = 0;
        while done < rows
            invariant
                done <= rows == old(self)@.height + 1,
                self.wf(),
                self@.move_down_by(rows - done) == old(self)@.move_down_by(rows as int),
            decreases rows - done,
        {
            self.move_down();
            done = done + 1;
        }
    }

    /// Up once for every row of the terminal.
    pub fn page_up(&mut self)
        requires
            old(self).wf(),
        ensures
            final(self).wf(),
            final(self)@ == old(self)@.page_up(),
    {
        let rows = self.view.height + 1;
        let mut done: usize = 0;
        while done < rows
            invariant
                done <= rows == old(self)@.height + 1,
                self.wf(),
                self@.move_up_by(rows - done) == old(self)@.move_up_by(rows as int),
            decreases rows - done,
        {
            self.move_up();
            done = done + 1;
        }
    }

    /// Deletes the cursor's line and puts the cursor where that line
    /// started, or at the end of the text if that is now before it. A
    /// buffer without lines stays as it is.
    pub fn delete_line(&mut self)
        requires
            old(self).wf(),
        ensures
            final(self).wf(),
            final(self)@ == old(self)@.delete_line(),
    {
        if self.data.lines() > 0 {
            proof {
                self@.lemma_cursor_on_line();
                self@.lemma_delete_line_keeps_invariant();
            }
            let (line, start, _) = self.data.line_at(self.point);
            self.data.delete_line(line);
            self.point = if start < self.data.len() {
                start
            } else {
                self.data.len()
            };
            let (line, _, _) = self.data.line_at(self.point);
            self.view.adjust(line);
        }
    }
}

} // verus!
