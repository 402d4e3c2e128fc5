//! Allocation of proposal identifiers.

use vstd::prelude::*;

verus! {

/// Hands out proposal identifiers in increasing order, starting at zero.
/// Its view is the next identifier that it will hand out.
#[derive(Debug)]
pub struct IdAllocator {
    next: u32,
}

impl View for IdAllocator {
    type V = u32;

    closed spec fn view(&self) -> u32 {
        self.next
    }
}

impl IdAllocator {
    /// An allocator that has handed out nothing yet.
    pub fn new() -> (r: IdAllocator)
        ensures
            r@ == 0,
    {
        IdAllocator { next: 0 }
    }

    /// An allocator that goes on from `next`, the identifier that an earlier
    /// allocator would have handed out next.
    pub fn resuming_at(next: u32) -> (r: IdAllocator)
        ensures
            r@ == next,
    {
        IdAllocator { next }
    }

    /// The identifier that the next allocation will return.
    pub fn peek(&self) -> (r: u32)
        ensures
            r == self@,
    {
        self.next
    }

    /// Whether every identifier but the last has been handed out, so that
    /// no further allocation is possible.
    pub fn is_exhausted(&self) -> (r: bool)
        ensures
            r == (self@ == u32::MAX),
    {
        self.next == u32::MAX
    }

    /// Returns the next unused identifier and advances by one.
    pub fn next_id(&mut self) -> (r: u32)
        requires
            old(self)@ < u32::MAX,
        ensures
            r == old(self)@,
            final(self)@ == old(self)@ + 1,
    {
        let id: u32 = self.next;
        self.next = id + 1;
        id
    }
}

} // verus!
