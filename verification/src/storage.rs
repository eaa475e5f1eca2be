//! Task storage of one priority tier: a pinned slab of tasks, and the waker
//! pages that hold the status bits of its slots, 64 slots to a page.

use crate::slab::{slab_entries, slab_insert, slab_new, slab_next, slab_vacant};
use crate::task::{Task, TaskView};
use crate::waker_page::{empty_slots, SlotState, WakerPage, WAKER_PAGE_SIZE};
use unicycle::pin_slab::PinSlab;
use vstd::prelude::*;

verus! {

/// Index of the page that holds the status bits of slot `key`.
pub open spec fn page_index(key: int) -> int {
    key / 64
}

/// Index, within its page, of the status bits of slot `key`.
pub open spec fn bit_index(key: int) -> int {
    key % 64
}

/// The pages `pages`, followed by as many empty pages as it takes to have at
/// least `count` of them.
pub open spec fn grown(pages: Seq<Seq<SlotState>>, count: int) -> Seq<Seq<SlotState>> {
    if count <= pages.len() {
        pages
    } else {
        pages + Seq::new((count - pages.len()) as nat, |i: int| empty_slots())
    }
}

/// The state of each page of `pages`, in order.
pub open spec fn page_views(pages: Seq<WakerPage>) -> Seq<Seq<SlotState>> {
    Seq::new(pages.len(), |i: int| pages[i]@)
}

/// What the storage of one tier holds.
pub struct InnerView {
    /// The occupied slots: key and task.
    pub entries: Map<int, TaskView>,
    /// The key that the next insertion will use.
    pub next: nat,
    /// The freed slots that were not reused, each with the key that follows it
    /// in the order of reuse.
    pub vacant: Map<int, nat>,
    /// The slot states of each page, page 0 first.
    pub pages: Seq<Seq<SlotState>>,
}

impl InnerView {
    /// A storage with no task, no freed slot and no page.
    pub open spec fn empty() -> InnerView {
        InnerView { entries: Map::empty(), next: 0, vacant: Map::empty(), pages: Seq::empty() }
    }

    /// The key that follows `self.next` in the order of use.
    pub open spec fn next_after_insert(self) -> nat {
        if self.vacant.dom().contains(self.next as int) {
            self.vacant[self.next as int]
        } else {
            self.next + 1
        }
    }

    /// The storage after one insertion of `task`: the task sits in slot
    /// `self.next`, there are pages up to the one of that slot, and in it the
    /// slot is marked occupied and runnable.
    pub open spec fn insert(self, task: TaskView) -> InnerView {
        let key = self.next as int;
        let pages = grown(self.pages, page_index(key) + 1);
        InnerView {
            entries: self.entries.insert(key, task),
            next: self.next_after_insert(),
            vacant: self.vacant.remove(key),
            pages: pages.update(
                page_index(key),
                pages[page_index(key)].update(
                    bit_index(key),
                    SlotState { occupied: true, runnable: true },
                ),
            ),
        }
    }

    /// The storage after the insertion of each task of `tasks`, in order.
    pub open spec fn insert_all(self, tasks: Seq<TaskView>) -> InnerView
        decreases tasks.len(),
    {
        if tasks.len() == 0 {
            self
        } else {
            self.insert_all(tasks.drop_last()).insert(tasks.last())
        }
    }

    /// Every page describes 64 slots.
    pub open spec fn well_paged(self) -> bool {
        forall|page: int| 0 <= page < self.pages.len() ==> (#[trigger] self.pages[page]).len() == 64
    }

    /// Every occupied slot has its page, and is marked occupied there.
    pub open spec fn covered(self) -> bool {
        forall|key: int| #[trigger]
            self.entries.dom().contains(key) ==> {
                &&& 0 <= key
                &&& page_index(key) < self.pages.len()
                &&& self.pages[page_index(key)][bit_index(key)].occupied
            }
    }

    /// A storage that holds the tasks `tasks` under the keys 0, 1, 2 and so
    /// on, with nothing freed, just enough pages for them, and exactly their
    /// slots marked occupied and runnable.
    pub open spec fn sequential(tasks: Seq<TaskView>) -> InnerView {
        InnerView {
            entries: Map::new(|key: int| 0 <= key < tasks.len(), |key: int| tasks[key]),
            next: tasks.len(),
            vacant: Map::empty(),
            pages: Seq::new(
                ((tasks.len() + 63) / 64) as nat,
                |page: int|
                    Seq::new(
                        64,
                        |bit: int|
                            SlotState {
                                occupied: 64 * page + bit < tasks.len(),
                                runnable: 64 * page + bit < tasks.len(),
                            },
                    ),
            ),
        }
    }
}

/// An empty storage has a page for every occupied slot: it has neither.
pub proof fn lemma_empty_covered()
    ensures
        InnerView::empty().covered(),
        InnerView::empty().well_paged(),
{
}

/// Insertion allocates before it marks: the slot that an insertion fills has
/// its page afterwards and is marked occupied and runnable there, and every
/// slot that was occupied before still has its page and its mark.
pub proof fn lemma_insert_covered(storage: InnerView, task: TaskView)
    requires
        storage.well_paged(),
        storage.covered(),
    ensures
        storage.insert(task).well_paged(),
        storage.insert(task).covered(),
        page_index(storage.next as int) < storage.insert(task).pages.len(),
        storage.insert(task).pages[page_index(storage.next as int)][bit_index(
            storage.next as int,
        )] == (SlotState { occupied: true, runnable: true }),
{
    let key = storage.next as int;
    let after = storage.insert(task);
    let pages = grown(storage.pages, page_index(key) + 1);
    assert forall|page: int| 0 <= page < pages.len() implies (#[trigger] pages[page]).len()
        == 64 by {
        if page < storage.pages.len() {
            assert(pages[page] == storage.pages[page]);
        }
    }
    assert forall|other: int| #[trigger] after.entries.dom().contains(other) implies {
        &&& 0 <= other
        &&& page_index(other) < after.pages.len()
        &&& after.pages[page_index(other)][bit_index(other)].occupied
    } by {
        if other != key {
            assert(storage.entries.dom().contains(other));
            assert(pages[page_index(other)] == storage.pages[page_index(other)]);
        }
    }
}

/// Keys are handed out in order: inserting the tasks `tasks` one after the
/// other into an empty storage puts task `i` into slot `i`, and ends with one
/// page for every 64 tasks begun, in which exactly the slots of those tasks
/// are marked.
pub proof fn lemma_inserts_into_empty(tasks: Seq<TaskView>)
    ensures
        InnerView::empty().insert_all(tasks) == InnerView::sequential(tasks),
        InnerView::empty().insert_all(tasks).pages.len() == (tasks.len() + 63) / 64,
    decreases tasks.len(),
{
    let done = InnerView::empty().insert_all(tasks);
    let goal = InnerView::sequential(tasks);
    if tasks.len() == 0 {
        assert(goal.entries =~= done.entries);
        assert(goal.pages =~= done.pages);
    } else {
        let front = tasks.drop_last();
        lemma_inserts_into_empty(front);
        let before = InnerView::sequential(front);
        let key = front.len() as int;
        assert(done == before.insert(tasks.last()));
        assert(done.entries =~= goal.entries);
        assert(done.vacant =~= goal.vacant);
        let pages = grown(before.pages, page_index(key) + 1);
        assert(pages.len() == page_index(key) + 1);
        assert forall|page: int| 0 <= page < goal.pages.len() implies done.pages[page]
            =~= goal.pages[page] by {
            if page < before.pages.len() {
                assert(pages[page] == before.pages[page]);
            }
        }
        assert(done.pages =~= goal.pages);
    }
}

/// Task storage of one priority tier.
pub struct Inner {
    /// The tasks, each in a slot that keeps its address.
    pub slab: PinSlab<Task>,
    /// The status bits of the slots: page `i` covers slots `64 * i` to
    /// `64 * i + 63`.
    pub pages: Vec<WakerPage>,
}

impl View for Inner {
    type V = InnerView;

    open spec fn view(&self) -> InnerView {
        InnerView {
            entries: slab_entries(self.slab).map_values(|task: Task| task@),
            next: slab_next(self.slab) as nat,
            vacant: slab_vacant(self.slab).map_values(|next: usize| next as nat),
            pages: page_views(self.pages@),
        }
    }
}

impl Inner {
    /// Every page of a storage describes 64 slots.
    pub proof fn lemma_well_paged(&self)
        ensures
            self@.well_paged(),
    {
        assert forall|page: int| 0 <= page < self@.pages.len() implies (#[trigger] self@.pages[page]).len()
            == 64 by {
            self.pages@[page].lemma_len();
        }
    }

    /// A storage with no task and no page.
    pub fn new() -> (inner: Inner)
        ensures
            inner@ == InnerView::empty(),
    {
        let inner = Inner { slab: slab_new(), pages: Vec::new() };
        assert(inner@.pages =~= Seq::empty());
        assert(inner@.entries =~= Map::empty());
        assert(inner@.vacant =~= Map::empty());
        inner
    }

    /// The page that holds the status bits of slot `key`, and the index of
    /// those bits within the page.
    pub fn page(&self, key: u64) -> (found: (&WakerPage, usize))
        requires
            page_index(key as int) < self.pages@.len(),
        ensures
            *found.0 == self.pages@[page_index(key as int)],
            found.0@ == self@.pages[page_index(key as int)],
            found.1 == bit_index(key as int),
    {
        let count = self.pages.len();
        assert(key / 64 < count);
        let page_ix = (key / 64) as usize;
        let subpage_ix = (key % 64) as usize;
        (&self.pages[page_ix], subpage_ix)
    }

    /// Stores `future` in the next free slot and returns the slot's key.
    /// Pages are appended until the slot has one, and the slot is marked
    /// occupied and runnable in its page.
    pub fn insert(&mut self, future: Task) -> (key: u64)
        ensures
            key == old(self)@.next,
            final(self)@ == old(self)@.insert(future@),
            page_index(key as int) < final(self).pages@.len(),
            old(self)@.covered() ==> final(self)@.covered(),
    {
        proof {
            old(self).lemma_well_paged();
            if old(self)@.covered() {
                lemma_insert_covered(old(self)@, future@);
            }
        }
        let key = slab_insert(&mut self.slab, future);
        let ghost slab_after = self.slab;
        let page_ix = key / WAKER_PAGE_SIZE;
        let subpage_ix = key % WAKER_PAGE_SIZE;
        // Add pages until the slot's page exists.
        while page_ix >= self.pages.len()
            invariant
                old(self).pages@.len() <= self.pages@.len(),
                self.pages@.len() <= old(self).pages@.len() || self.pages@.len() <= page_ix + 1,
                page_views(self.pages@) == grown(
                    page_views(old(self).pages@),
                    self.pages@.len() as int,
                ),
                self.slab == slab_after,
            decreases page_ix + 1 - self.pages@.len(),
        {
            let ghost prev = self.pages@;
            self.pages.push(WakerPage::new());
            proof {
                let target = grown(page_views(old(self).pages@), self.pages@.len() as int);
                assert forall|i: int| 0 <= i < self.pages@.len() implies page_views(
                    self.pages@,
                )[i] == target[i] by {
                    if i < prev.len() {
                        assert(page_views(prev)[i] == prev[i]@);
                    }
                }
                assert(page_views(self.pages@) =~= target);
            }
        }
        let ghost pages_before = page_views(self.pages@);
        assert(pages_before == grown(old(self)@.pages, page_index(key as int) + 1));
        proof {
            self.pages@[page_ix as int].lemma_len();
        }
        self.pages[page_ix].initialize(subpage_ix);
        assert(page_views(self.pages@) =~= pages_before.update(
            page_ix as int,
            pages_before[page_ix as int].update(
                subpage_ix as int,
                SlotState { occupied: true, runnable: true },
            ),
        ));
        assert(self@.entries =~= old(self)@.entries.insert(key as int, future@));
        assert(self@.vacant =~= old(self)@.vacant.remove(key as int));
        key as u64
    }
}

} // verus!
