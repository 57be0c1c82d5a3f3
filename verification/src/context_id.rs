//! Identifiers of contexts, and the counter that issues them.

use vstd::prelude::*;

verus! {

/// Identifies a context among the contexts that are alive at the same time.
///
/// The number says nothing once its context is gone: do not keep it as a key
/// beyond the context's life.
#[derive(Clone, Copy, Debug, PartialEq, Eq, Hash, Structural)]
pub struct ContextID(pub u64);

/// The counter from which every context of a process takes its identifier.
///
/// A process keeps one allocator for all its devices and lets one thread at a
/// time use it. It counts upwards from zero and never hands a number out twice.
pub struct ContextIdAllocator {
    next: u64,
}

impl ContextIdAllocator {
    /// The identifier that the next allocation returns.
    pub closed spec fn next_id(self) -> ContextID {
        ContextID(self.next)
    }

    /// The identifiers handed out so far.
    pub open spec fn view(self) -> Set<ContextID> {
        Set::new(|id: ContextID| id.0 < self.next_id().0)
    }

    /// No identifier is left: the counter stands at its last value.
    pub open spec fn exhausted(self) -> bool {
        self.next_id().0 == u64::MAX
    }

    /// An allocator that has issued nothing yet.
    pub fn new() -> (ids: ContextIdAllocator)
        ensures
            ids.next_id() == ContextID(0),
            ids@ == Set::<ContextID>::empty(),
    {
        let ids = ContextIdAllocator { next: 0 };
        assert(ids@ =~= Set::<ContextID>::empty());
        ids
    }

    /// Whether the counter has reached its last value.
    pub fn is_exhausted(&self) -> (done: bool)
        ensures
            done == self.exhausted(),
    {
        self.next == u64::MAX
    }

    /// Issues an identifier that no earlier call on this allocator returned.
    pub fn allocate_context_id(&mut self) -> (id: ContextID)
        requires
            !old(self).exhausted(),
        ensures
            id == old(self).next_id(),
            !old(self)@.contains(id),
            final(self)@ == old(self)@.insert(id),
            final(self).next_id().0 == id.0 + 1,
    {
        let id = ContextID(self.next);
        self.next = self.next + 1;
        assert(self@ =~= old(self)@.insert(id));
        id
    }
}

/// Two identifiers taken from one allocator differ, however many allocations lie
/// between them: `first` was issued in state `before`, `later` is any state that
/// still holds everything issued up to then, and `second` is issued in `later`.
pub proof fn lemma_issued_ids_differ(
    before: ContextIdAllocator,
    first: ContextID,
    later: ContextIdAllocator,
    second: ContextID,
)
    requires
        first == before.next_id(),
        before@.insert(first).subset_of(later@),
        second == later.next_id(),
    ensures
        first != second,
{
    assert(before@.insert(first).contains(first));
    assert(later@.contains(first));
}

} // verus!
