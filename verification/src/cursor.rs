//! A read-position abstraction over an owned byte buffer.
//!
//! Wire bytes handed to a parser are consumed positionally: a [`ByteCursor`]
//! owns the buffer and advances a read offset, so a deserializer may consume
//! its input incrementally.

use vstd::prelude::*;

verus! {

/// An owned byte buffer together with a read position.
pub struct ByteCursor {
    /// The underlying buffer.
    data: Vec<u8>,
    /// How many bytes have been consumed so far.
    pos: usize,
}

impl ByteCursor {
    /// The whole underlying buffer.
    pub closed spec fn bytes(self) -> Seq<u8> {
        self.data@
    }

    /// The current read position.
    pub closed spec fn offset(self) -> int {
        self.pos as int
    }

    /// The bytes not yet consumed.
    pub open spec fn remaining_bytes(self) -> Seq<u8> {
        self.bytes().skip(self.offset())
    }

    /// The read position never runs past the end of the buffer.
    #[verifier::type_invariant]
    spec fn wf(self) -> bool {
        0 <= self.offset() <= self.bytes().len()
    }

    /// Wraps `data` in a cursor positioned at its start.
    pub fn new(data: Vec<u8>) -> (c: Self)
        ensures
            c.bytes() == data@,
            c.offset() == 0,
    {
        ByteCursor { data, pos: 0 }
    }

    /// The current read position.
    pub fn position(&self) -> (n: usize)
        ensures
            n == self.offset(),
    {
        self.pos
    }

    /// How many bytes are left to consume.
    pub fn remaining(&self) -> (n: usize)
        ensures
            n == self.remaining_bytes().len(),
    {
        proof {
            use_type_invariant(self);
        }
        self.data.len() - self.pos
    }

    /// Consumes and returns the next byte, or `None` at the end of the buffer.
    pub fn read_byte(&mut self) -> (r: Option<u8>)
        ensures
            final(self).bytes() == old(self).bytes(),
            old(self).offset() < old(self).bytes().len() ==> {
                &&& r == Some(old(self).bytes()[old(self).offset()])
                &&& final(self).offset() == old(self).offset() + 1
            },
            old(self).offset() >= old(self).bytes().len() ==> {
                &&& r is None
                &&& final(self).offset() == old(self).offset()
            },
    {
        proof {
            use_type_invariant(&*self);
        }
        if self.pos < self.data.len() {
            let b = self.data[self.pos];
            self.pos = self.pos + 1;
            Some(b)
        } else {
            None
        }
    }

    /// Consumes and returns the next `n` bytes, or `None`, leaving the
    /// position unchanged, when fewer than `n` bytes remain.
    pub fn read_bytes(&mut self, n: usize) -> (r: Option<Vec<u8>>)
        ensures
            final(self).bytes() == old(self).bytes(),
            n <= old(self).remaining_bytes().len() ==> {
                &&& r matches Some(v) && v@ == old(self).bytes().subrange(
                    old(self).offset(),
                    old(self).offset() + n,
                )
                &&& final(self).offset() == old(self).offset() + n
            },
            n > old(self).remaining_bytes().len() ==> {
                &&& r is None
                &&& final(self).offset() == old(self).offset()
            },
    {
        proof {
            use_type_invariant(&*self);
        }
        if n <= self.data.len() - self.pos {
            let mut out: Vec<u8> = Vec::new();
            let mut i: usize = 0;
            while i < n
                invariant
                    i <= n,
                    self.pos + n <= self.data.len(),
                    self == old(self),
                    out@ == self.data@.subrange(self.pos as int, self.pos + i),
                decreases n - i,
            {
                out.push(self.data[self.pos + i]);
                i = i + 1;
            }
            self.pos = self.pos + n;
            Some(out)
        } else {
            None
        }
    }
}

} // verus!
