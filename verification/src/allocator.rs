//! The version allocator: a monotonic counter that stamps every task launch and every
//! direct update, so that overlapping results can be put in launch order.

use vstd::prelude::*;

verus! {

/// A counter producing version stamps.
///
/// One allocator is shared by every runner of a process. It starts at 0, each allocation
/// hands out the current value and moves on to the next one, and it is never reset. Stamps
/// are therefore unique and ordered by allocation time, up to the point where the counter
/// wraps around after `u64::MAX` allocations.
pub struct VersionAllocator {
    next: u64,
}

impl View for VersionAllocator {
    type V = u64;

    /// The stamp that the next allocation hands out.
    closed spec fn view(&self) -> u64 {
        self.next
    }
}

/// The counter value that follows `version`: one more, wrapping around to 0 after
/// `u64::MAX`.
pub open spec fn following(version: u64) -> u64 {
    if version == u64::MAX {
        0
    } else {
        (version + 1) as u64
    }
}

/// The counter value that `count` allocations lead to from `start`.
pub open spec fn advance(start: u64, count: nat) -> u64
    decreases count,
{
    if count == 0 {
        start
    } else {
        following(advance(start, (count - 1) as nat))
    }
}

/// Stamps are unique and ordered by allocation time: for as long as the counter has not
/// wrapped around, each allocation moves the counter up by one, so that of two
/// allocations the later one hands out the higher stamp.
pub proof fn lemma_stamps_are_ordered(start: u64, earlier: nat, later: nat)
    requires
        earlier < later,
        start + later <= u64::MAX,
    ensures
        advance(start, earlier) == start + earlier,
        advance(start, later) == start + later,
        advance(start, earlier) < advance(start, later),
    decreases later,
{
    if earlier > 0 {
        lemma_stamps_are_ordered(start, (earlier - 1) as nat, earlier);
    }
    if later > 1 {
        lemma_stamps_are_ordered(start, (later - 2) as nat, (later - 1) as nat);
    }
}

impl VersionAllocator {
    /// A fresh allocator, whose first stamp is 0.
    pub fn new() -> (ids: Self)
        ensures
            ids@ == 0,
    {
        VersionAllocator { next: 0 }
    }

    /// The stamp that the next call of [`Self::allocate`] returns.
    pub fn peek(&self) -> (version: u64)
        ensures
            version == self@,
    {
        self.next
    }

    /// Fetch and increment: returns the current counter value and advances the counter.
    pub fn allocate(&mut self) -> (version: u64)
        ensures
            version == old(self)@,
            final(self)@ == following(old(self)@),
    {
        let version = self.next;
        self.next = version.wrapping_add(1);
        version
    }
}

impl Default for VersionAllocator {
    fn default() -> (ids: Self)
        ensures
            ids@ == 0,
    {
        VersionAllocator::new()
    }
}

} // verus!
