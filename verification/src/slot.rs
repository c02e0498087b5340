//! The single shared slot that holds the handle of the supervised process.
//!
//! The slot is written once, when the backend has been started and found
//! alive, and emptied once, at shutdown. It is changed only through
//! [`SupervisionSlot::set_if_empty`] and [`SupervisionSlot::take`], so it can
//! never be filled a second time. The embedding program guards it with a lock;
//! the slot itself is plain data.

use vstd::prelude::*;

verus! {

/// Where a slot stands in its life. A slot only ever moves forward through
/// these phases: `Vacant`, then `Occupied`, then `Released`.
#[derive(Clone, Copy, Debug, PartialEq, Eq, Structural)]
pub enum SlotPhase {
    /// Empty, and no handle was ever stored.
    Vacant,
    /// Holds a handle.
    Occupied,
    /// Empty again after its handle was taken out.
    Released,
}

impl SlotPhase {
    /// The position of a phase in the life of a slot.
    pub open spec fn rank(self) -> nat {
        match self {
            SlotPhase::Vacant => 0,
            SlotPhase::Occupied => 1,
            SlotPhase::Released => 2,
        }
    }
}

/// What a slot is, as a mathematical value.
pub ghost enum SlotView<H> {
    /// Empty, and no handle was ever stored.
    Vacant,
    /// Holds the given handle.
    Occupied(H),
    /// Empty again after its handle was taken out.
    Released,
}

/// One of the two operations that may change a slot.
pub ghost enum SlotOp<H> {
    /// Store the handle if the slot is vacant.
    SetIfEmpty(H),
    /// Take out whatever the slot holds.
    Take,
}

impl<H> SlotView<H> {
    /// The phase of the slot.
    pub open spec fn phase(self) -> SlotPhase {
        match self {
            SlotView::Vacant => SlotPhase::Vacant,
            SlotView::Occupied(_) => SlotPhase::Occupied,
            SlotView::Released => SlotPhase::Released,
        }
    }

    /// The handle held, if any.
    pub open spec fn content(self) -> Option<H> {
        match self {
            SlotView::Occupied(handle) => Some(handle),
            _ => None,
        }
    }

    /// A slot is empty when it holds no handle.
    pub open spec fn is_empty(self) -> bool {
        self.content() is None
    }

    /// The slot after an attempt to store `handle`: only a vacant slot
    /// accepts it.
    pub open spec fn after_set(self, handle: H) -> Self {
        match self {
            SlotView::Vacant => SlotView::Occupied(handle),
            _ => self,
        }
    }

    /// The slot after its content was taken out.
    pub open spec fn after_take(self) -> Self {
        match self {
            SlotView::Occupied(_) => SlotView::Released,
            _ => self,
        }
    }

    /// The slot after one operation.
    pub open spec fn apply(self, op: SlotOp<H>) -> Self {
        match op {
            SlotOp::SetIfEmpty(handle) => self.after_set(handle),
            SlotOp::Take => self.after_take(),
        }
    }

    /// The slot after a sequence of operations, applied in order.
    pub open spec fn run(self, ops: Seq<SlotOp<H>>) -> Self
        decreases ops.len(),
    {
        if ops.len() == 0 {
            self
        } else {
            self.run(ops.drop_last()).apply(ops.last())
        }
    }
}

#[derive(Debug, PartialEq, Eq)]
enum SlotState<H> {
    Vacant,
    Occupied(H),
    Released,
}

/// A single-owner slot for a process handle of type `H`.
#[derive(Debug, PartialEq, Eq)]
pub struct SupervisionSlot<H> {
    state: SlotState<H>,
}

impl<H> View for SupervisionSlot<H> {
    type V = SlotView<H>;

    closed spec fn view(&self) -> SlotView<H> {
        match self.state {
            SlotState::Vacant => SlotView::Vacant,
            SlotState::Occupied(handle) => SlotView::Occupied(handle),
            SlotState::Released => SlotView::Released,
        }
    }
}

impl<H> SupervisionSlot<H> {
    /// A slot that holds nothing and never did.
    pub fn new() -> (slot: Self)
        ensures
            slot@ == SlotView::<H>::Vacant,
    {
        SupervisionSlot { state: SlotState::Vacant }
    }

    /// The phase the slot is in.
    pub fn phase(&self) -> (phase: SlotPhase)
        ensures
            phase == self@.phase(),
    {
        match &self.state {
            SlotState::Vacant => SlotPhase::Vacant,
            SlotState::Occupied(_) => SlotPhase::Occupied,
            SlotState::Released => SlotPhase::Released,
        }
    }

    /// Whether the slot holds no handle.
    pub fn is_empty(&self) -> (empty: bool)
        ensures
            empty == self@.is_empty(),
    {
        match &self.state {
            SlotState::Occupied(_) => false,
            _ => true,
        }
    }

    /// Whether the slot holds a handle.
    pub fn is_occupied(&self) -> (occupied: bool)
        ensures
            occupied == (self@.content() is Some),
    {
        !self.is_empty()
    }

    /// The handle held, if any, without taking it out.
    pub fn peek(&self) -> (held: Option<&H>)
        ensures
            held is Some <==> self@.content() is Some,
            held is Some ==> *held->0 == self@.content()->0,
    {
        match &self.state {
            SlotState::Occupied(handle) => Some(handle),
            _ => None,
        }
    }

    /// Stores `handle` if the slot is vacant, that is, empty and never filled
    /// before. Otherwise the slot is left as it was and the handle is handed
    /// back in `Err`.
    pub fn set_if_empty(&mut self, handle: H) -> (outcome: Result<(), H>)
        ensures
            final(self)@ == old(self)@.after_set(handle),
            outcome is Ok <==> old(self)@ is Vacant,
            outcome is Err ==> outcome->Err_0 == handle,
    {
        match &self.state {
            SlotState::Vacant => {
                self.state = SlotState::Occupied(handle);
                Ok(())
            },
            _ => Err(handle),
        }
    }

    /// Takes out the handle, if one is held, and leaves the slot empty. A
    /// slot whose handle was taken stays empty for good.
    pub fn take(&mut self) -> (taken: Option<H>)
        ensures
            taken == old(self)@.content(),
            final(self)@ == old(self)@.after_take(),
            final(self)@.is_empty(),
    {
        let mut previous = SlotState::Released;
        core::mem::swap(&mut self.state, &mut previous);
        match previous {
            SlotState::Occupied(handle) => Some(handle),
            SlotState::Vacant => {
                self.state = SlotState::Vacant;
                None
            },
            SlotState::Released => None,
        }
    }
}

/// Operations applied one after the other compose: running `first` and then
/// `second` is running their concatenation.
pub proof fn lemma_run_concat<H>(start: SlotView<H>, first: Seq<SlotOp<H>>, second: Seq<SlotOp<H>>)
    ensures
        start.run(first + second) == start.run(first).run(second),
    decreases second.len(),
{
    if second.len() == 0 {
        assert(first + second =~= first);
    } else {
        assert((first + second).drop_last() =~= first + second.drop_last());
        assert((first + second).last() == second.last());
        lemma_run_concat(start, first, second.drop_last());
    }
}

/// One run never takes a slot back to an earlier phase, and a released
/// slot stays released.
pub proof fn lemma_run_moves_forward<H>(start: SlotView<H>, ops: Seq<SlotOp<H>>)
    ensures
        start.phase().rank() <= start.run(ops).phase().rank(),
        start is Released ==> start.run(ops) is Released,
    decreases ops.len(),
{
    if ops.len() > 0 {
        lemma_run_moves_forward(start, ops.drop_last());
    }
}

/// A slot never goes back: whatever operations are applied, in whatever
/// order, its phase at a later point of the run is never an earlier phase
/// than at an earlier point. So a slot is filled at most once and emptied
/// at most once, and once released it is never occupied again.
pub proof fn lemma_phase_never_goes_back<H>(
    start: SlotView<H>,
    ops: Seq<SlotOp<H>>,
    earlier: int,
    later: int,
)
    requires
        0 <= earlier <= later <= ops.len(),
    ensures
        start.run(ops.take(earlier)).phase().rank() <= start.run(ops.take(later)).phase().rank(),
        start.run(ops.take(earlier)) is Released ==> start.run(ops.take(later)) is Released,
{
    let between = ops.subrange(earlier, later);
    assert(ops.take(later) =~= ops.take(earlier) + between);
    lemma_run_concat(start, ops.take(earlier), between);
    lemma_run_moves_forward(start.run(ops.take(earlier)), between);
}

/// A handle held by a slot is the one that the first accepted
/// `set_if_empty` stored: no later operation replaces it.
pub proof fn lemma_content_is_never_replaced<H>(start: SlotView<H>, ops: Seq<SlotOp<H>>)
    requires
        start is Occupied,
    ensures
        start.run(ops) is Occupied ==> start.run(ops) == start,
        !(start.run(ops) is Occupied) ==> start.run(ops) is Released,
    decreases ops.len(),
{
    if ops.len() > 0 {
        lemma_content_is_never_replaced(start, ops.drop_last());
        lemma_run_moves_forward(start, ops.drop_last());
    }
}

/// After a `take` the slot is empty, whatever it was before, and a second
/// `take` changes nothing.
pub proof fn lemma_take_is_idempotent<H>(slot: SlotView<H>)
    ensures
        slot.after_take().is_empty(),
        slot.after_take().after_take() == slot.after_take(),
        slot.after_take().content() is None,
{
}

} // verus!
