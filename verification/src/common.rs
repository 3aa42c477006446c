//! Plumbing both adapters share: resource accounting and buffer copying.
//!
//! The engine asks its host for scratch memory when a session is opened and
//! hands it back when the session is closed.  An [`AllocationCounter`]
//! instruments that traffic: it is incremented once per acquisition and
//! decremented once per release, so a reading of zero means every resource
//! acquired so far has been released again.

use vstd::prelude::*;

verus! {

/// Capacity, in bytes, of the internal pull buffer when none is asked for.
/// Small enough to exercise chunked streaming; a caller with throughput in
/// mind passes its own size to `new_with_size`.
pub const DEFAULT_BUFFER_SIZE: usize = 128;

/// Append `src[start..end]` to `dst`, element by element.
pub(crate) fn extend_from_range(dst: &mut Vec<u8>, src: &Vec<u8>, start: usize, end: usize)
    requires
        start <= end,
        end <= src@.len(),
    ensures
        final(dst)@ == old(dst)@ + src@.subrange(start as int, end as int),
{
    let mut i: usize = start;
    proof {
        assert(dst@ =~= old(dst)@ + src@.subrange(start as int, start as int));
    }
    while i < end
        invariant
            start <= i <= end,
            end <= src@.len(),
            dst@ == old(dst)@ + src@.subrange(start as int, i as int),
        decreases end - i,
    {
        let b = src[i];
        dst.push(b);
        proof {
            assert(dst@ =~= old(dst)@ + src@.subrange(start as int, i + 1 as int));
        }
        i = i + 1;
    }
}

/// Counts live engine-side allocations for leak diagnostics.
///
/// The counter never goes below zero: a release must follow an acquisition.
pub struct AllocationCounter {
    live: u64,
}

impl AllocationCounter {
    /// How many acquisitions have not yet been released.
    pub closed spec fn live_spec(&self) -> nat {
        self.live as nat
    }

    /// A fresh counter starts at its baseline of zero.
    pub fn new() -> (r: AllocationCounter)
        ensures
            r.live_spec() == 0,
    {
        AllocationCounter { live: 0 }
    }

    /// Record one acquisition.
    pub fn on_allocate(&mut self)
        requires
            old(self).live_spec() < u64::MAX,
        ensures
            final(self).live_spec() == old(self).live_spec() + 1,
    {
        self.live = self.live + 1;
    }

    /// Record one release.
    pub fn on_release(&mut self)
        requires
            old(self).live_spec() > 0,
        ensures
            final(self).live_spec() == old(self).live_spec() - 1,
    {
        self.live = self.live - 1;
    }

    /// The current reading.
    pub fn live(&self) -> (r: u64)
        ensures
            r as nat == self.live_spec(),
    {
        self.live
    }
}

} // verus!
