//! The pull-based byte source the adapters consume.
//!
//! A [`Source`] hands over at most one buffer's worth of bytes per call;
//! zero bytes mean it is exhausted for now or forever.  Its failures are the
//! source's own and travel through the adapters unchanged.

use crate::errors::CodecError;
use vstd::pervasive::VecAdditionalExecFns;
use vstd::prelude::*;

verus! {

/// A pull-based supplier of bytes.
///
/// `pull` writes the bytes it yields to the front of `buf` and returns how
/// many it wrote; it never grows or shrinks the buffer, and never claims more
/// bytes than the buffer holds.  Zero means exhausted for now or forever.
pub trait Source {
    /// What the source keeps true between pulls.
    spec fn inv(&self) -> bool;

    /// Yield up to `buf.len()` bytes into the front of `buf`.
    fn pull(&mut self, buf: &mut Vec<u8>) -> (r: Result<usize, CodecError>)
        requires
            old(self).inv(),
        ensures
            final(self).inv(),
            final(buf)@.len() == old(buf)@.len(),
            (r matches Ok(n) ==> n <= old(buf)@.len()),
    ;
}

/// A source that yields the bytes of a vector it owns, front to back.
pub struct MemSource {
    data: Vec<u8>,
    cursor: usize,
}

impl MemSource {
    /// The bytes this source was built over.
    pub closed spec fn data_spec(&self) -> Seq<u8> {
        self.data@
    }

    /// How many bytes have been yielded so far.
    pub closed spec fn cursor_spec(&self) -> nat {
        self.cursor as nat
    }

    /// Wrap a vector of bytes as a source.
    pub fn new(data: Vec<u8>) -> (r: MemSource)
        ensures
            r.inv(),
            r.data_spec() == data@,
            r.cursor_spec() == 0,
    {
        MemSource { data, cursor: 0 }
    }
}

impl Source for MemSource {
    open spec fn inv(&self) -> bool {
        self.cursor_spec() <= self.data_spec().len()
    }

    /// Copies the next `min(buf.len(), remaining)` bytes and advances.
    fn pull(&mut self, buf: &mut Vec<u8>) -> (r: Result<usize, CodecError>)
        ensures
            ({
                let n = vstd::math::min(
                    old(buf)@.len() as int,
                    old(self).data_spec().len() - old(self).cursor_spec(),
                );
                &&& r == Ok::<usize, CodecError>(n as usize)
                &&& final(self).data_spec() == old(self).data_spec()
                &&& final(self).cursor_spec() == old(self).cursor_spec() + n
                &&& final(buf)@ == old(self).data_spec().subrange(
                    old(self).cursor_spec() as int,
                    old(self).cursor_spec() + n,
                ) + old(buf)@.skip(n)
            }),
    {
        let available = self.data.len() - self.cursor;
        let n = if buf.len() < available {
            buf.len()
        } else {
            available
        };
        let mut i: usize = 0;
        while i < n
            invariant
                i <= n,
                self.cursor + n <= self.data@.len(),
                self.data@.len() <= usize::MAX,
                buf@.len() == old(buf)@.len(),
                n <= buf@.len(),
                *self == *old(self),
                forall|j: int|
                    0 <= j < i ==> buf@[j] == self.data@[self.cursor + j],
                forall|j: int|
                    i <= j < buf@.len() ==> buf@[j] == old(buf)@[j],
            decreases n - i,
        {
            let b = self.data[self.cursor + i];
            buf.set(i, b);
            i = i + 1;
        }
        self.cursor = self.cursor + n;
        proof {
            assert(buf@ =~= old(self).data_spec().subrange(
                old(self).cursor_spec() as int,
                old(self).cursor_spec() + n,
            ) + old(buf)@.skip(n as int));
        }
        Ok(n)
    }
}

} // verus!
