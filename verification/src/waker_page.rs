//! Waker pages: one page tracks, for 64 contiguous task slots, whether each
//! slot is occupied and whether it has been notified and is due to be polled.

use vstd::prelude::*;

verus! {

/// Number of task slots that one page covers.
pub const WAKER_PAGE_SIZE: usize = 64;

/// The two bits of state that a page keeps for one slot.
#[derive(Clone, Copy, Debug, PartialEq, Eq, Structural)]
pub struct SlotState {
    /// The slot holds a task.
    pub occupied: bool,
    /// The task in the slot has been notified and should be polled.
    pub runnable: bool,
}

/// Whether bit `ix` of `word` is set; false for an index outside the word.
pub open spec fn bit_is_set(word: u64, ix: int) -> bool {
    0 <= ix < 64 && (word >> (ix as u64)) & 1u64 == 1u64
}

/// The state of 64 slots as a sequence, slot `i` at index `i`.
pub open spec fn slots_of(occupied: u64, notified: u64) -> Seq<SlotState> {
    Seq::new(
        64,
        |i: int| SlotState { occupied: bit_is_set(occupied, i), runnable: bit_is_set(notified, i) },
    )
}

/// A page in which no slot is occupied and none is runnable.
pub open spec fn empty_slots() -> Seq<SlotState> {
    Seq::new(64, |i: int| SlotState { occupied: false, runnable: false })
}

/// Setting bit `ix` sets that bit and leaves every other bit as it was.
pub proof fn lemma_set_bit(word: u64, ix: u64)
    requires
        ix < 64,
    ensures
        forall|j: int| #[trigger]
            bit_is_set(word | (1u64 << ix), j) == (bit_is_set(word, j) || j == ix),
{
    assert forall|j: int| #[trigger]
        bit_is_set(word | (1u64 << ix), j) == (bit_is_set(word, j) || j == ix) by {
        if 0 <= j < 64 {
            let k = j as u64;
            assert((((word | (1u64 << ix)) >> k) & 1u64 == 1u64) == (((word >> k) & 1u64 == 1u64)
                || k == ix)) by (bit_vector)
                requires
                    ix < 64,
                    k < 64,
            ;
        }
    }
}

/// Clearing bit `ix` clears that bit and leaves every other bit as it was.
pub proof fn lemma_clear_bit(word: u64, ix: u64)
    requires
        ix < 64,
    ensures
        forall|j: int| #[trigger]
            bit_is_set(word & !(1u64 << ix), j) == (bit_is_set(word, j) && j != ix),
{
    assert forall|j: int| #[trigger]
        bit_is_set(word & !(1u64 << ix), j) == (bit_is_set(word, j) && j != ix) by {
        if 0 <= j < 64 {
            let k = j as u64;
            assert((((word & !(1u64 << ix)) >> k) & 1u64 == 1u64) == (((word >> k) & 1u64 == 1u64)
                && k != ix)) by (bit_vector)
                requires
                    ix < 64,
                    k < 64,
            ;
        }
    }
}

/// No bit of the zero word is set.
pub proof fn lemma_zero_word()
    ensures
        forall|j: int| !#[trigger] bit_is_set(0u64, j),
{
    assert forall|j: int| !#[trigger] bit_is_set(0u64, j) by {
        if 0 <= j < 64 {
            let k = j as u64;
            assert((0u64 >> k) & 1u64 == 0u64) by (bit_vector)
                requires
                    k < 64,
            ;
        }
    }
}

/// Status bits for 64 contiguous task slots.
#[derive(Clone, Copy, Debug, PartialEq, Eq, Structural)]
pub struct WakerPage {
    occupied: u64,
    notified: u64,
}

impl View for WakerPage {
    type V = Seq<SlotState>;

    closed spec fn view(&self) -> Seq<SlotState> {
        slots_of(self.occupied, self.notified)
    }
}

impl WakerPage {
    /// A page always describes exactly 64 slots.
    pub proof fn lemma_len(&self)
        ensures
            self@.len() == WAKER_PAGE_SIZE,
    {
    }

    /// A page with every slot vacant and none runnable.
    pub fn new() -> (page: WakerPage)
        ensures
            page@ == empty_slots(),
    {
        let page = WakerPage { occupied: 0, notified: 0 };
        proof {
            lemma_zero_word();
            assert(page@ =~= empty_slots());
        }
        page
    }

    /// Marks slot `ix` occupied and runnable; the other slots keep their state.
    pub fn initialize(&mut self, ix: usize)
        requires
            ix < WAKER_PAGE_SIZE,
        ensures
            final(self)@ == old(self)@.update(
                ix as int,
                SlotState { occupied: true, runnable: true },
            ),
            final(self)@[ix as int].occupied,
            final(self)@[ix as int].runnable,
    {
        let mask: u64 = 1u64 << (ix as u64);
        proof {
            lemma_set_bit(self.occupied, ix as u64);
            lemma_set_bit(self.notified, ix as u64);
        }
        self.occupied = self.occupied | mask;
        self.notified = self.notified | mask;
        assert(self@ =~= old(self)@.update(
            ix as int,
            SlotState { occupied: true, runnable: true },
        ));
    }

    /// Marks slot `ix` runnable; its occupancy and the other slots are unchanged.
    pub fn notify(&mut self, ix: usize)
        requires
            ix < WAKER_PAGE_SIZE,
        ensures
            final(self)@ == old(self)@.update(
                ix as int,
                SlotState { occupied: old(self)@[ix as int].occupied, runnable: true },
            ),
    {
        let mask: u64 = 1u64 << (ix as u64);
        proof {
            lemma_set_bit(self.notified, ix as u64);
        }
        self.notified = self.notified | mask;
        assert(self@ =~= old(self)@.update(
            ix as int,
            SlotState { occupied: old(self)@[ix as int].occupied, runnable: true },
        ));
    }

    /// Clears the runnable bit of slot `ix`; its occupancy and the other slots
    /// are unchanged.
    pub fn clear(&mut self, ix: usize)
        requires
            ix < WAKER_PAGE_SIZE,
        ensures
            final(self)@ == old(self)@.update(
                ix as int,
                SlotState { occupied: old(self)@[ix as int].occupied, runnable: false },
            ),
    {
        let mask: u64 = 1u64 << (ix as u64);
        proof {
            lemma_clear_bit(self.notified, ix as u64);
        }
        self.notified = self.notified & !mask;
        assert(self@ =~= old(self)@.update(
            ix as int,
            SlotState { occupied: old(self)@[ix as int].occupied, runnable: false },
        ));
    }

    /// Whether slot `ix` holds a task.
    pub fn is_occupied(&self, ix: usize) -> (occupied: bool)
        requires
            ix < WAKER_PAGE_SIZE,
        ensures
            occupied == self@[ix as int].occupied,
    {
        (self.occupied >> (ix as u64)) & 1u64 == 1u64
    }

    /// Whether slot `ix` has been notified and not yet cleared.
    pub fn is_runnable(&self, ix: usize) -> (runnable: bool)
        requires
            ix < WAKER_PAGE_SIZE,
        ensures
            runnable == self@[ix as int].runnable,
    {
        (self.notified >> (ix as u64)) & 1u64 == 1u64
    }
}

} // verus!
