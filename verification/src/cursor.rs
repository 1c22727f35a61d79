//! A forward-only reading position in a header.

use crate::find::{equal_to, find_from, lemma_find_from_unique};
use vstd::prelude::*;

verus! {

/// Where a reader that starts at `from` stands once it has read up to and
/// including the next `delim`: just behind that byte, or at the end of
/// `bytes` when none follows.
pub open spec fn after_delimiter(bytes: Seq<u8>, from: int, delim: u8) -> int {
    let at = find_from(bytes, from, equal_to(delim));
    if at < bytes.len() {
        at + 1
    } else {
        bytes.len() as int
    }
}

/// Where a reader that starts at `from` stands once it has moved `count`
/// bytes on, or as far as `bytes` reaches.
pub open spec fn after_bytes(bytes: Seq<u8>, from: int, count: int) -> int {
    if from + count <= bytes.len() {
        from + count
    } else {
        bytes.len() as int
    }
}

/// A position in a borrowed header that only ever moves forward.
pub struct ScanCursor<'a> {
    header: &'a [u8],
    pos: usize,
}

impl<'a> ScanCursor<'a> {
    #[verifier::type_invariant]
    spec fn within_header(self) -> bool {
        self.pos <= self.header@.len()
    }

    /// The bytes the cursor walks over.
    pub closed spec fn buffer(self) -> Seq<u8> {
        self.header@
    }

    /// How many bytes lie behind the cursor.
    pub closed spec fn position(self) -> int {
        self.pos as int
    }

    /// A cursor at the start of `header`.
    pub fn new(header: &'a [u8]) -> (cursor: Self)
        ensures
            cursor.buffer() == header@,
            cursor.position() == 0,
    {
        ScanCursor { header, pos: 0 }
    }

    /// How many bytes lie behind the cursor.
    pub fn offset(&self) -> (n: usize)
        ensures
            n == self.position(),
            n <= self.buffer().len(),
    {
        proof {
            use_type_invariant(self);
        }
        self.pos
    }

    /// Reads up to and including the next `delim`, or to the end of the
    /// header when none follows, and returns what was read.
    pub fn read_until(&mut self, delim: u8) -> (consumed: Vec<u8>)
        ensures
            final(self).buffer() == old(self).buffer(),
            final(self).position() == after_delimiter(
                old(self).buffer(),
                old(self).position(),
                delim,
            ),
            old(self).position() <= final(self).position() <= old(self).buffer().len(),
            consumed@ == old(self).buffer().subrange(
                old(self).position(),
                final(self).position(),
            ),
    {
        proof {
            use_type_invariant(&*self);
        }
        let header = self.header;
        let start = self.pos;
        let n = header.len();
        let mut consumed: Vec<u8> = Vec::new();
        let mut i: usize = start;
        let mut hit = false;
        while i < n && !hit
            invariant
                start <= i <= n,
                n == header@.len(),
                consumed@ == header@.subrange(start as int, i as int),
                hit ==> start < i && header@[i - 1] == delim,
                forall|j: int| start <= j < i - (if hit { 1int } else { 0int }) ==> header@[j] != delim,
            decreases n - i + (if hit { 0int } else { 1int }),
        {
            let b = header[i];
            consumed.push(b);
            hit = b == delim;
            i = i + 1;
            assert(consumed@ =~= header@.subrange(start as int, i as int));
        }
        proof {
            let at = if hit { i - 1 } else { i as int };
            assert forall|j: int| start <= j < at implies !equal_to(delim)(#[trigger] header@[j]) by {}
            lemma_find_from_unique(header@, start as int, equal_to(delim), at);
        }
        self.pos = i;
        consumed
    }

    /// Reads the next `count` bytes, or as many as are left, and returns them.
    pub fn take(&mut self, count: usize) -> (taken: Vec<u8>)
        ensures
            final(self).buffer() == old(self).buffer(),
            final(self).position() == after_bytes(
                old(self).buffer(),
                old(self).position(),
                count as int,
            ),
            old(self).position() <= final(self).position() <= old(self).buffer().len(),
            taken@ == old(self).buffer().subrange(old(self).position(), final(self).position()),
    {
        proof {
            use_type_invariant(&*self);
        }
        let header = self.header;
        let start = self.pos;
        let n = header.len();
        let end: usize = if count <= n - start {
            start + count
        } else {
            n
        };
        let mut taken: Vec<u8> = Vec::new();
        let mut i: usize = start;
        while i < end
            invariant
                start <= i <= end <= n,
                n == header@.len(),
                taken@ == header@.subrange(start as int, i as int),
            decreases end - i,
        {
            taken.push(header[i]);
            i = i + 1;
            assert(taken@ =~= header@.subrange(start as int, i as int));
        }
        self.pos = end;
        taken
    }

    /// Moves `count` bytes on, or to the end of the header if fewer are left.
    pub fn advance(&mut self, count: usize)
        ensures
            final(self).buffer() == old(self).buffer(),
            final(self).position() == after_bytes(
                old(self).buffer(),
                old(self).position(),
                count as int,
            ),
            old(self).position() <= final(self).position() <= old(self).buffer().len(),
    {
        proof {
            use_type_invariant(&*self);
        }
        let n = self.header.len();
        if count <= n - self.pos {
            self.pos = self.pos + count;
        } else {
            self.pos = n;
        }
    }
}

} // verus!
