//! The text store: the document as a sequence of characters, addressed by
//! absolute offset and kept in a gap buffer so that edits near the cursor are
//! cheap.

use vstd::prelude::*;
use gapbuffer::GapBuffer;

verus! {

/// `gapbuffer::GapBuffer`, which is carried about as it is: nothing is known
/// of a buffer but what the functions below say of its contents.
#[verifier::external_type_specification]
#[verifier::external_body]
#[verifier::reject_recursive_types(T)]
pub struct ExGapBuffer<T>(GapBuffer<T>);

/// The characters a gap buffer holds, in document order.
pub uninterp spec fn contents(buf: GapBuffer<char>) -> Seq<char>;

/// `GapBuffer::new`: a fresh buffer holds nothing.
#[verifier::external_body]
fn gap_new() -> (buf: GapBuffer<char>)
    ensures
        contents(buf) == Seq::<char>::empty(),
{
    GapBuffer::new()
}

/// `GapBuffer::len`: the number of elements held.
#[verifier::external_body]
fn gap_len(buf: &GapBuffer<char>) -> (n: usize)
    ensures
        n == contents(*buf).len(),
{
    buf.len()
}

/// `GapBuffer::insert`: the new element becomes the one at index `i`, and the
/// elements from `i` on move one place up. The call panics for an index
/// beyond the length, which the precondition leaves out.
#[verifier::external_body]
fn gap_insert(buf: &mut GapBuffer<char>, i: usize, c: char)
    requires
        i <= contents(*old(buf)).len(),
    ensures
        contents(*final(buf)) == contents(*old(buf)).insert(i as int, c),
{
    buf.insert(i, c)
}

/// `GapBuffer::remove`: takes out and returns the element at index `i`; out of
/// bounds it returns `None` and leaves the buffer as it was.
#[verifier::external_body]
fn gap_remove(buf: &mut GapBuffer<char>, i: usize) -> (out: Option<char>)
    ensures
        i < contents(*old(buf)).len() ==> {
            &&& out == Some(contents(*old(buf))[i as int])
            &&& contents(*final(buf)) == contents(*old(buf)).remove(i as int)
        },
        i >= contents(*old(buf)).len() ==> {
            &&& out.is_none()
            &&& contents(*final(buf)) == contents(*old(buf))
        },
{
    buf.remove(i)
}

/// Indexing a `GapBuffer`: the element at index `i`. Indexing panics out of
/// bounds, which the precondition leaves out.
#[verifier::external_body]
fn gap_index(buf: &GapBuffer<char>, i: usize) -> (c: char)
    requires
        i < contents(*buf).len(),
    ensures
        c == contents(*buf)[i as int],
{
    buf[i]
}

/// `GapBuffer::reserve`: makes room for more elements and changes none. The
/// call panics when the new capacity is more than can be allocated. The
/// precondition leaves that out: it keeps the elements asked for, of four
/// bytes each, within the `isize::MAX` bytes that an allocation may hold.
#[verifier::external_body]
fn gap_reserve(buf: &mut GapBuffer<char>, additional: usize)
    requires
        contents(*old(buf)).len() + additional <= isize::MAX / 4,
    ensures
        contents(*final(buf)) == contents(*old(buf)),
{
    buf.reserve(additional)
}

/// `GapBuffer::iter`: walks the elements in document order; they are copied
/// out into a vector.
#[verifier::external_body]
fn gap_to_vec(buf: &GapBuffer<char>) -> (v: Vec<char>)
    ensures
        v@ == contents(*buf),
{
    buf.iter().copied().collect()
}

/// Why a store operation was refused.
#[derive(Debug, Clone, Copy, PartialEq, Eq, Structural)]
pub enum StoreError {
    /// The offset lies outside the text.
    IndexOutOfRange,
}

/// The document text. Its view is the sequence of its characters.
pub struct TextStore {
    buf: GapBuffer<char>,
}

impl View for TextStore {
    type V = Seq<char>;

    closed spec fn view(&self) -> Seq<char> {
        contents(self.buf)
    }
}

impl TextStore {
    /// An empty text.
    pub fn new() -> (store: TextStore)
        ensures
            store@ == Seq::<char>::empty(),
    {
        TextStore { buf: gap_new() }
    }

    /// Number of characters held.
    pub fn len(&self) -> (n: usize)
        ensures
            n == self@.len(),
    {
        gap_len(&self.buf)
    }

    /// Inserts `ch` so that it becomes the character at `offset`. An offset
    /// beyond the end is refused and leaves the text as it was.
    pub fn insert(&mut self, offset: usize, ch: char) -> (r: Result<(), StoreError>)
        ensures
            offset <= old(self)@.len() ==> {
                &&& r == Ok::<(), StoreError>(())
                &&& final(self)@ == old(self)@.insert(offset as int, ch)
            },
            offset > old(self)@.len() ==> {
                &&& r == Err::<(), StoreError>(StoreError::IndexOutOfRange)
                &&& final(self)@ == old(self)@
            },
    {
        if offset <= gap_len(&self.buf) {
            gap_insert(&mut self.buf, offset, ch);
            Ok(())
        } else {
            Err(StoreError::IndexOutOfRange)
        }
    }

    /// Removes and returns the character at `offset`; `None`, with the text
    /// unchanged, when there is no such character.
    pub fn remove(&mut self, offset: usize) -> (out: Option<char>)
        ensures
            offset < old(self)@.len() ==> {
                &&& out == Some(old(self)@[offset as int])
                &&& final(self)@ == old(self)@.remove(offset as int)
            },
            offset >= old(self)@.len() ==> {
                &&& out.is_none()
                &&& final(self)@ == old(self)@
            },
    {
        gap_remove(&mut self.buf, offset)
    }

    /// The character at `offset`.
    pub fn at(&self, offset: usize) -> (r: Result<char, StoreError>)
        ensures
            offset < self@.len() ==> r == Ok::<char, StoreError>(self@[offset as int]),
            offset >= self@.len() ==> r == Err::<char, StoreError>(StoreError::IndexOutOfRange),
    {
        if offset < gap_len(&self.buf) {
            Ok(gap_index(&self.buf, offset))
        } else {
            Err(StoreError::IndexOutOfRange)
        }
    }

    /// The character at an offset known to lie inside the text.
    pub(crate) fn get(&self, offset: usize) -> (c: char)
        requires
            offset < self@.len(),
        ensures
            c == self@[offset as int],
    {
        gap_index(&self.buf, offset)
    }

    /// Makes room for `additional` more characters, where a text of that
    /// length can be allocated at all; a request beyond that is passed over.
    /// The text stays as it is.
    pub fn reserve(&mut self, additional: usize)
        ensures
            final(self)@ == old(self)@,
    {
        let len = gap_len(&self.buf);
        let most: usize = (isize::MAX / 4) as usize;
        if len <= most && additional <= most - len {
            gap_reserve(&mut self.buf, additional);
        }
    }

    /// All characters, in document order.
    pub fn chars(&self) -> (v: Vec<char>)
        ensures
            v@ == self@,
    {
        gap_to_vec(&self.buf)
    }
}

} // verus!
