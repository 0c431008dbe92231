//! The line store: the text of a buffer, held line by line.

use vstd::prelude::*;
use vstd::std_specs::iter::IteratorSpec;
use vstd::utf8::encode_utf8;
use crate::offsets::{
    Lines, lemma_line_end_bounded, lemma_line_start_increases, lemma_text_len_remove, line_end,
    line_from, line_of, line_start, text_len, width_at,
};
use crate::split::{
    lemma_split_at_line_feed, lemma_split_unterminated, split_lines, without_carriage_return,
};

verus! {

/// `String::push` of std appends one character to the end of the string and
/// leaves the rest as it was.
pub assume_specification[ String::push ](s: &mut String, ch: char)
    ensures
        final(s)@ == old(s)@.push(ch),
;

/// The text of a buffer as an ordered sequence of lines, none of which
/// holds its terminator, with the total length and the number of lines
/// kept at hand.
pub struct Text {
    length: usize,
    newlines: usize,
    text: Vec<String>,
    widths: Vec<usize>,
}

impl View for Text {
    type V = Lines;

    /// The lines, first to last.
    closed spec fn view(&self) -> Lines {
        Seq::new(self.text@.len(), |i: int| self.text@[i]@)
    }
}

/// A string has at least as many bytes as characters.
proof fn lemma_chars_within_bytes(chars: Seq<char>)
    ensures
        chars.len() <= encode_utf8(chars).len(),
    decreases chars.len(),
{
    if chars.len() > 0 {
        lemma_chars_within_bytes(chars.drop_first());
    }
}

/// The start of a line depends only on the lines before it.
proof fn lemma_line_start_prefix(a: Lines, b: Lines, i: int)
    requires
        0 <= i <= a.len(),
        i <= b.len(),
        forall|j: int| 0 <= j < i ==> a[j] == b[j],
    ensures
        line_start(a, i) == line_start(b, i),
    decreases i,
{
    if i > 0 {
        lemma_line_start_prefix(a, b, i - 1);
    }
}

impl Text {
    /// Whether the cached counts agree with the lines: one width per line,
    /// each the line's number of characters, and the length and line count
    /// those of the text.
    pub closed spec fn wf(&self) -> bool {
        &&& self.widths@.len() == self.text@.len()
        &&& forall|i: int| 0 <= i < self.text@.len() ==> self.widths@[i] == self.text@[i]@.len()
        &&& self.newlines == self.text@.len()
        &&& self.length == text_len(self@)
    }

    /// The length and the line count of a stored text are machine numbers.
    pub proof fn lemma_len_fits(&self)
        requires
            self.wf(),
        ensures
            text_len(self@) <= usize::MAX,
            self@.len() <= usize::MAX,
    {
    }

    /// Cuts `source` into lines and counts them.
    pub fn load(source: &str) -> (t: Text)
        ensures
            t.wf(),
            t@ == split_lines(source@),
    {
        let bytes = source.as_bytes();
        proof {
            lemma_chars_within_bytes(source@);
            assert(bytes@.len() == vstd::slice::spec_slice_len(bytes));
        }
        let mut text: Vec<String> = Vec::new();
        let mut widths: Vec<usize> = Vec::new();
        let mut length: usize = 0;
        let mut cur = String::new();
        let mut width: usize = 0;
        let mut held = false;
        let mut chars = source.chars();
        let ghost mut done: Lines = Seq::empty();
        let ghost mut from: int = 0;
        let ghost mut at: int = 0;
        proof {
            broadcast use vstd::string::group_string_axioms;

            assert(source@.skip(0) =~= source@);
            assert(source@.subrange(0, 0) =~= cur@);
        }
        loop
            invariant
                0 <= from <= at <= source@.len() <= usize::MAX,
                chars.remaining() == source@.skip(at),
                split_lines(source@) == done + split_lines(source@.skip(from)),
                forall|j: int| from <= j < at ==> source@[j] != '\n',
                source@.subrange(from, at) == if held {
                    cur@.push('\r')
                } else {
                    cur@
                },
                !held ==> cur@.len() == 0 || cur@.last() != '\r',
                width == cur@.len(),
                done.len() == text@.len() == widths@.len(),
                forall|j: int| 0 <= j < done.len() ==> done[j] == text@[j]@,
                forall|j: int| 0 <= j < done.len() ==> widths@[j] == done[j].len(),
                length == text_len(done),
                line_start(done, done.len() as int) <= from,
            ensures
                at == source@.len(),
            decreases source@.len() - at,
        {
            let ghost before = chars;
            let next = chars.next();
            proof {
                broadcast use vstd::string::group_string_axioms;

                assert(vstd::string::next_post(&before, &chars, next));
                if at < source@.len() {
                    assert(source@.skip(at)[0] == source@[at]);
                    assert(source@.skip(at).drop_first() =~= source@.skip(at + 1));
                }
            }
            match next {
                None => {
                    break ;
                },
                Some(c) => {
                    assert(c == source@[at]);
                    assert(source@.subrange(from, at + 1) =~= source@.subrange(from, at).push(c));
                    if c == '\n' {
                        proof {
                            lemma_split_at_line_feed(source@, from, at);
                            let line = source@.subrange(from, at);
                            if held {
                                assert(line.drop_last() =~= cur@);
                            }
                            assert(without_carriage_return(line) == cur@);
                            let longer = done.push(cur@);
                            lemma_line_start_prefix(done, longer, done.len() as int);
                            assert(done + (seq![cur@] + split_lines(source@.skip(at + 1))) =~= longer
                                + split_lines(source@.skip(at + 1)));
                            assert(source@.subrange(at + 1, at + 1) =~= Seq::<char>::empty());
                            done = longer;
                            from = at + 1;
                        }
                        length = if text.len() == 0 {
                            width
                        } else {
                            length + 1 + width
                        };
                        text.push(cur);
                        widths.push(width);
                        cur = String::new();
                        width = 0;
                        held = false;
                    } else {
                        if held {
                            cur.push('\r');
                            width = width + 1;
                        }
                        if c == '\r' {
                            held = true;
                        } else {
                            cur.push(c);
                            width = width + 1;
                            held = false;
                        }
                    }
                    proof {
                        at = at + 1;
                    }
                },
            }
        }
        if held {
            cur.push('\r');
            width = width + 1;
        }
        proof {
            lemma_split_unterminated(source@, from);
            assert(cur@ == source@.subrange(from, at));
            assert(source@.subrange(from, at) =~= source@.skip(from));
        }
        if width > 0 {
            proof {
                let longer = done.push(cur@);
                lemma_line_start_prefix(done, longer, done.len() as int);
                assert(longer =~= done + seq![cur@]);
                done = longer;
            }
            length = if text.len() == 0 {
                width
            } else {
                length + 1 + width
            };
            text.push(cur);
            widths.push(width);
        } else {
            assert(done + Seq::<Seq<char>>::empty() =~= done);
        }
        let newlines = text.len();
        let t = Text { length, newlines, text, widths };
        assert(t@ =~= done);
        t
    }

    /// The number of lines.
    pub fn lines(&self) -> (n: usize)
        requires
            self.wf(),
        ensures
            n == self@.len(),
    {
        self.newlines
    }

    /// The length of the text: its characters and one separator between neighbouring lines.
    pub fn len(&self) -> (n: usize)
        requires
            self.wf(),
        ensures
            n == text_len(self@),
    {
        self.length
    }

    /// Line `i` of the text.
    pub fn line(&self, i: usize) -> (s: &String)
        requires
            self.wf(),
            i < self@.len(),
        ensures
            s@ == self@[i as int],
    {
        &self.text[i]
    }

    /// Resolves offset `p` to its line: the line's index, the offset at which
    /// the line starts, and the line's length.
    ///
    /// The separator after a line belongs to that line. An offset past the
    /// end of the text resolves to no line: the index is then the number of
    /// lines, the start is where a further line would begin, and the length
    /// is that of the last line.
    pub fn line_at(&self, p: usize) -> (r: (usize, usize, usize))
        requires
            self.wf(),
        ensures
            r.0 == line_of(self@, p as int),
            r.1 == line_start(self@, r.0 as int),
            r.2 == width_at(self@, r.0 as int),
    {
        let mut line: usize = 0;
        let mut start: usize = 0;
        proof {
            if 0 < self@.len() {
                lemma_line_end_bounded(self@, 0);
            }
        }
        while line < self.text.len() && p > start + self.widths[line]
            invariant
                self.wf(),
                0 <= line <= self@.len(),
                start == line_start(self@, line as int),
                line_from(self@, p as int, line as int) == line_of(self@, p as int),
                line < self@.len() ==> start + self.widths@[line as int] == line_end(self@, line as int)
                    <= usize::MAX,
            decreases self@.len() - line,
        {
            start = start + self.widths[line] + 1;
            line = line + 1;
            proof {
                if line < self@.len() {
                    lemma_line_end_bounded(self@, line as int);
                }
            }
        }
        let len = if line < self.text.len() {
            self.widths[line]
        } else if line > 0 {
            self.widths[line - 1]
        } else {
            0
        };
        (line, start, len)
    }

    /// Resolves line number `line` to its line: the line's index, the
    /// offset at which the line starts, and the line's length.
    pub fn line_span(&self, line: usize) -> (r: (usize, usize, usize))
        requires
            self.wf(),
            line < self@.len(),
        ensures
            r.0 == line,
            r.1 == line_start(self@, line as int),
            r.2 == self@[line as int].len(),
    {
        let mut i: usize = 0;
        let mut start: usize = 0;
        proof {
            lemma_line_end_bounded(self@, 0);
        }
        while i < line
            invariant
                self.wf(),
                i <= line < self@.len(),
                start == line_start(self@, i as int),
                start + self.widths@[i as int] == line_end(self@, i as int) <= usize::MAX,
            decreases line - i,
        {
            proof {
                lemma_line_end_bounded(self@, i + 1);
            }
            start = start + self.widths[i] + 1;
            i = i + 1;
        }
        (line, start, self.widths[line])
    }

    /// Whether the store takes edits of single characters. Lines held one by
    /// one do not: that is left to a store built for it.
    pub open spec fn takes_character_edits(&self) -> bool {
        false
    }

    /// Reserved for inserting `s` at offset `pos`. No store takes such an
    /// edit yet, so there is no text on which this may be called; a call
    /// from code that does not heed that stops the program.
    #[allow(unused_variables)]
    pub fn insert(&mut self, pos: usize, s: String)
        requires
            old(self).takes_character_edits(),
    {
        vstd::pervasive::unreached()
    }

    /// Reserved for deleting `count` characters from offset `pos` on. No
    /// store takes such an edit yet, so there is no text on which this may
    /// be called; a call from code that does not heed that stops the
    /// program.
    #[allow(unused_variables)]
    pub fn delete(&mut self, pos: usize, count: usize)
        requires
            old(self).takes_character_edits(),
    {
        vstd::pervasive::unreached()
    }

    /// Takes line `line` out of the text.
    ///
    /// The text gets shorter by the line and one separator, or becomes empty
    /// if it was the only line.
    pub fn delete_line(&mut self, line: usize)
        requires
            old(self).wf(),
            line < old(self)@.len(),
        ensures
            final(self).wf(),
            final(self)@ == old(self)@.remove(line as int),
            final(self)@.len() == old(self)@.len() - 1,
            text_len(final(self)@) == if old(self)@.len() == 1 {
                0
            } else {
                text_len(old(self)@) - old(self)@[line as int].len() - 1
            },
    {
        proof {
            lemma_text_len_remove(self@, line as int);
            lemma_line_end_bounded(self@, line as int);
            lemma_line_start_increases(self@.remove(line as int), 0, self@.len() - 1);
            assert(self.widths@[line as int] == self@[line as int].len());
        }
        if self.newlines == 1 {
            self.length = 0;
        } else {
            self.length = self.length - (self.widths[line] + 1);
        }
        self.newlines = self.newlines - 1;
        self.text.remove(line);
        self.widths.remove(line);
        assert(self@ =~= old(self)@.remove(line as int));
    }
}

} // verus!
