//! Thread identifiers and the counter that hands them out.

use vstd::prelude::*;

verus! {

/// Identifier of a scheduled thread. Identifiers are ordered by the order in
/// which they were assigned.
#[derive(Clone, Copy, Debug, PartialEq, Eq, Structural, PartialOrd, Ord, Hash)]
pub struct ThreadId {
    pub index: u64,
}

impl View for ThreadId {
    type V = u64;

    open spec fn view(&self) -> u64 {
        self.index
    }
}

impl ThreadId {
    /// The identifier with the given index.
    pub fn new(index: u64) -> (id: ThreadId)
        ensures
            id@ == index,
    {
        ThreadId { index }
    }

    /// The index of this identifier.
    pub fn index(&self) -> (index: u64)
        ensures
            index == self@,
    {
        self.index
    }

    /// Whether this identifier was assigned before `other`.
    pub fn precedes(&self, other: &ThreadId) -> (before: bool)
        ensures
            before == (self@ < other@),
    {
        self.index < other.index
    }
}

/// Hands out identifiers in strictly increasing order, starting at zero.
pub struct ThreadIdSource {
    next: u64,
}

impl ThreadIdSource {
    /// The number of identifiers handed out so far. The identifiers handed
    /// out are exactly those with an index below this number.
    pub closed spec fn issued(&self) -> u64 {
        self.next
    }

    /// Whether `id` has been handed out by this source.
    pub open spec fn has_issued(&self, id: ThreadId) -> bool {
        id@ < self.issued()
    }

    /// A source that has handed out nothing.
    pub fn new() -> (source: ThreadIdSource)
        ensures
            source.issued() == 0,
    {
        ThreadIdSource { next: 0 }
    }

    /// The number of identifiers handed out so far.
    pub fn count(&self) -> (n: u64)
        ensures
            n == self.issued(),
    {
        self.next
    }

    /// A fresh identifier: its index is the number of identifiers handed out
    /// before, so it is greater than each of them.
    pub fn next_id(&mut self) -> (id: ThreadId)
        requires
            old(self).issued() < u64::MAX,
        ensures
            id@ == old(self).issued(),
            final(self).issued() == old(self).issued() + 1,
    {
        let id = ThreadId { index: self.next };
        self.next = self.next + 1;
        id
    }
}

/// A fresh identifier is strictly greater than every identifier handed out
/// before it, it was not handed out before, and every identifier handed out
/// before stays handed out.
pub proof fn lemma_next_id_is_fresh(before: ThreadIdSource, after: ThreadIdSource, fresh: ThreadId, earlier: ThreadId)
    requires
        before.issued() < u64::MAX,
        fresh@ == before.issued(),
        after.issued() == before.issued() + 1,
        before.has_issued(earlier),
    ensures
        earlier@ < fresh@,
        earlier != fresh,
        !before.has_issued(fresh),
        after.has_issued(fresh),
        after.has_issued(earlier),
{
}

} // verus!
