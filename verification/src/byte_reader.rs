//! A forward-only cursor over an in-memory byte sequence.
//!
//! Every decode step of the header parser consumes bytes strictly left to
//! right; the cursor records how far the parse has advanced and exposes the
//! bytes still unread.

use vstd::prelude::*;

verus! {

/// A byte source with a read position. The position never exceeds the length
/// of the underlying data while `wf` holds, which every method preserves.
pub struct ByteReader {
    pub data: Vec<u8>,
    pub pos: usize,
}

impl ByteReader {
    /// The cursor is well formed: the read position lies within the data.
    pub open spec fn wf(&self) -> bool {
        self.pos <= self.data@.len()
    }

    /// The bytes not yet consumed, in order.
    pub open spec fn remaining(&self) -> Seq<u8>
        recommends
            self.wf(),
    {
        self.data@.subrange(self.pos as int, self.data@.len() as int)
    }

    /// Wraps a byte sequence in a cursor positioned at its start.
    pub fn new(data: Vec<u8>) -> (r: ByteReader)
        ensures
            r.wf(),
            r.data@ == data@,
            r.pos == 0,
            r.remaining() == data@,
    {
        let r = ByteReader { data, pos: 0 };
        proof {
            assert(r.remaining() =~= r.data@);
        }
        r
    }

    /// The current read position, counted from the start of the data.
    pub fn position(&self) -> (p: usize)
        ensures
            p == self.pos,
    {
        self.pos
    }

    /// How many bytes are still unread.
    pub fn remaining_len(&self) -> (n: usize)
        requires
            self.wf(),
        ensures
            n == self.remaining().len(),
    {
        self.data.len() - self.pos
    }

    /// Consumes the next `n` bytes and returns them, advancing the position.
    pub fn read_exact(&mut self, n: usize) -> (out: Vec<u8>)
        requires
            old(self).wf(),
            n <= old(self).remaining().len(),
        ensures
            final(self).wf(),
            final(self).data@ == old(self).data@,
            final(self).pos == old(self).pos + n,
            out@ == old(self).remaining().take(n as int),
    {
        let ghost orig = *self;
        let len = self.data.len();
        let mut out: Vec<u8> = Vec::new();
        let mut i: usize = 0;
        while i < n
            invariant
                *self == orig,
                orig.wf(),
                len == orig.data@.len(),
                i <= n,
                n <= orig.remaining().len(),
                out@ == orig.data@.subrange(orig.pos as int, orig.pos + i as int),
            decreases n - i,
        {
            let b = self.data[self.pos + i];
            out.push(b);
            proof {
                assert(out@ =~= orig.data@.subrange(orig.pos as int, orig.pos + i + 1 as int));
            }
            i += 1;
        }
        self.pos = self.pos + n;
        proof {
            assert(out@ =~= orig.remaining().take(n as int));
        }
        out
    }
}

} // verus!
