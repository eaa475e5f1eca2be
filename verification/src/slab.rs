//! The pinned slab that holds the tasks of one tier, as far as the scheduler
//! relies on it.
//!
//! Nothing in this module is proved: it states what `unicycle`'s `PinSlab`
//! does, over three names for what a slab holds.

use crate::task::Task;
use unicycle::pin_slab::PinSlab;
use vstd::prelude::*;

verus! {

/// `unicycle::pin_slab::PinSlab`, a slab whose slots never move. Verified code
/// carries a slab around and sees nothing inside it.
#[verifier::external_type_specification]
#[verifier::external_body]
#[verifier::reject_recursive_types(T)]
pub struct ExPinSlab<T>(PinSlab<T>);

/// The occupied slots of a slab: each key in use, with the task stored there.
pub uninterp spec fn slab_entries(slab: PinSlab<Task>) -> Map<int, Task>;

/// The key that the next insertion into the slab will use.
pub uninterp spec fn slab_next(slab: PinSlab<Task>) -> usize;

/// The tombstones of a slab: each slot that was freed and not reused since,
/// with the key that becomes next once that slot is filled again.
pub uninterp spec fn slab_vacant(slab: PinSlab<Task>) -> Map<int, usize>;

/// The map of occupied slots of a slab that holds nothing.
pub open spec fn no_entries() -> Map<int, Task> {
    Map::empty()
}

/// The map of tombstones of a slab from which nothing was removed.
pub open spec fn no_tombstones() -> Map<int, usize> {
    Map::empty()
}

/// `PinSlab::new`: a slab with no occupied slot and no tombstone, whose first
/// key will be 0.
#[verifier::external_body]
pub(crate) fn slab_new() -> (slab: PinSlab<Task>)
    ensures
        slab_entries(slab) == no_entries(),
        slab_vacant(slab) == no_tombstones(),
        slab_next(slab) == 0,
{
    PinSlab::new()
}

/// `PinSlab::insert`: stores `task` under the slab's next key and returns that
/// key. The slot was not occupied before. If it carried a tombstone, the key
/// recorded there becomes next and the tombstone is gone; otherwise the key
/// after the returned one becomes next. Every other slot stays as it was.
#[verifier::external_body]
pub(crate) fn slab_insert(slab: &mut PinSlab<Task>, task: Task) -> (key: usize)
    ensures
        key == slab_next(*old(slab)),
        !slab_entries(*old(slab)).dom().contains(key as int),
        slab_entries(*final(slab)) == slab_entries(*old(slab)).insert(key as int, task),
        slab_vacant(*final(slab)) == slab_vacant(*old(slab)).remove(key as int),
        slab_next(*final(slab)) == (if slab_vacant(*old(slab)).dom().contains(key as int) {
            slab_vacant(*old(slab))[key as int] as int
        } else {
            key + 1
        }),
{
    slab.insert(task)
}

} // verus!
