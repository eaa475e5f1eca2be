//! The priority tier set: 32 independent task storages, one per tier.

use crate::storage::{page_index, bit_index, Inner, InnerView};
use crate::task::Task;
use crate::waker_page::WakerPage;
use vstd::prelude::*;

verus! {

/// Tier that a task goes to when none is named.
pub const DEFAULT_PRIORITY: usize = 4;

/// Number of tiers; a valid tier is below this.
pub const MAX_PRIORITY: usize = 32;

/// The storages of all tiers, tier 0 first.
pub struct PriorityInner {
    inners: Vec<Inner>,
}

impl PriorityInner {
    #[verifier::type_invariant]
    spec fn well_formed(self) -> bool {
        self.inners@.len() == MAX_PRIORITY
    }

    /// Number of tiers of this set.
    pub closed spec fn tier_count(&self) -> nat {
        self.inners@.len()
    }

    /// The storage of tier `priority`.
    pub closed spec fn tier(&self, priority: int) -> Inner {
        self.inners@[priority]
    }

    /// A set of 32 tiers, each with no task and no page.
    pub fn new() -> (tiers: PriorityInner)
        ensures
            tiers.tier_count() == MAX_PRIORITY,
            forall|priority: int|
                0 <= priority < MAX_PRIORITY ==> (#[trigger] tiers.tier(priority))@
                    == InnerView::empty(),
    {
        let mut inners: Vec<Inner> = Vec::new();
        while inners.len() < MAX_PRIORITY
            invariant
                inners@.len() <= MAX_PRIORITY,
                forall|i: int| 0 <= i < inners@.len() ==> (#[trigger] inners@[i])@ == InnerView::empty(),
            decreases MAX_PRIORITY - inners@.len(),
        {
            inners.push(Inner::new());
        }
        PriorityInner { inners }
    }

    /// The page of tier `priority` that holds the status bits of slot `key`,
    /// and the index of those bits within the page.
    pub fn page(&self, priority: usize, key: u64) -> (found: (&WakerPage, usize))
        requires
            priority < MAX_PRIORITY,
            page_index(key as int) < self.tier(priority as int).pages@.len(),
        ensures
            *found.0 == self.tier(priority as int).pages@[page_index(key as int)],
            found.0@ == self.tier(priority as int)@.pages[page_index(key as int)],
            found.1 == bit_index(key as int),
    {
        proof {
            use_type_invariant(self);
        }
        self.inners[priority].page(key)
    }

    /// Stores `future` in tier `DEFAULT_PRIORITY`.
    pub fn insert(&mut self, future: Task)
        ensures
            final(self).tier_count() == MAX_PRIORITY,
            final(self).tier(DEFAULT_PRIORITY as int)@ == old(self).tier(
                DEFAULT_PRIORITY as int,
            )@.insert(future@),
            forall|other: int|
                0 <= other < MAX_PRIORITY && other != DEFAULT_PRIORITY
                    ==> #[trigger] final(self).tier(other) == old(self).tier(other),
    {
        self.priority_insert(DEFAULT_PRIORITY, future);
    }

    /// Stores `future` in tier `priority` and returns the key of its slot
    /// there. The other tiers are not touched.
    pub fn priority_insert(&mut self, priority: usize, future: Task) -> (key: u64)
        requires
            priority < MAX_PRIORITY,
        ensures
            final(self).tier_count() == MAX_PRIORITY,
            key == old(self).tier(priority as int)@.next,
            final(self).tier(priority as int)@ == old(self).tier(priority as int)@.insert(
                future@,
            ),
            forall|other: int|
                0 <= other < MAX_PRIORITY && other != priority
                    ==> #[trigger] final(self).tier(other) == old(self).tier(other),
    {
        proof {
            use_type_invariant(&*self);
        }
        self.inners[priority].insert(future)
    }

    /// Exclusive access to the storage of tier `priority`. Whatever is done
    /// through it happens to that tier, and to no other.
    pub fn get_mut_inner(&mut self, priority: usize) -> (inner: &mut Inner)
        requires
            priority < MAX_PRIORITY,
        ensures
            *inner == old(self).tier(priority as int),
            final(self).tier_count() == MAX_PRIORITY,
            final(self).tier(priority as int) == *final(inner),
            forall|other: int|
                0 <= other < MAX_PRIORITY && other != priority
                    ==> #[trigger] final(self).tier(other) == old(self).tier(other),
    {
        proof {
            use_type_invariant(&*self);
        }
        &mut self.inners[priority]
    }
}

} // verus!
