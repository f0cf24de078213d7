//! Walking a text line by line.

use vstd::prelude::*;
use crate::scan::{after_line, line_at, next_newline, NEWLINE};
use crate::store::TextStore;
use crate::strings::push_char;

verus! {

/// A walk over the lines of a text, from some offset on.
pub struct Lines<'g> {
    items: &'g TextStore,
    pos: usize,
}

impl<'g> Lines<'g> {
    /// The text that is walked.
    pub closed spec fn text(&self) -> Seq<char> {
        self.items@
    }

    /// The offset at which the next line begins.
    pub closed spec fn position(&self) -> int {
        self.pos as int
    }

    /// A walk over `store` that begins at offset `start`.
    pub fn new(store: &'g TextStore, start: usize) -> (lines: Lines<'g>)
        ensures
            lines.text() == store@,
            lines.position() == start,
    {
        Lines { items: store, pos: start }
    }

    /// The next line, without its newline, or `None` once the walk has
    /// reached the end of the text. The walk moves behind the line's newline.
    pub fn next(&mut self) -> (line: Option<String>)
        ensures
            final(self).text() == old(self).text(),
            old(self).position() >= old(self).text().len() ==> {
                &&& line.is_none()
                &&& final(self).position() == old(self).position()
            },
            old(self).position() < old(self).text().len() ==> {
                &&& line.is_some()
                &&& line.unwrap()@ == line_at(old(self).text(), old(self).position())
                &&& final(self).position() == after_line(old(self).text(), old(self).position())
            },
    {
        let len = self.items.len();
        if self.pos >= len {
            return None;
        }
        let mut line = String::new();
        let start = self.pos;
        let ghost text = self.items@;
        while self.pos < len
            invariant
                start <= self.pos <= len == text.len(),
                start == old(self).pos,
                start < len,
                self.items@ == text,
                self.items == old(self).items,
                line@ == text.subrange(start as int, self.pos as int),
                next_newline(text, start as int) == next_newline(text, self.pos as int),
            decreases len - self.pos,
        {
            let c = self.items.get(self.pos);
            self.pos += 1;
            if c == NEWLINE {
                return Some(line);
            }
            push_char(&mut line, c);
        }
        Some(line)
    }
}

} // verus!
