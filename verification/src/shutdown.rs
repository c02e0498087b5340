//! The shutdown coordinator: releasing the backend when the window closes.
//!
//! The coordinator is armed for as long as the session runs. A request to
//! close the window makes it take whatever the shared slot holds; a process
//! found there is to be terminated before the window may finish closing.
//! After any request the slot is empty, so a repeated request finds nothing
//! to do.

use vstd::prelude::*;
use crate::slot::SlotView;
use crate::slot::SupervisionSlot;

verus! {

/// The two states of the coordinator.
#[derive(Clone, Copy, Debug, PartialEq, Eq, Structural)]
pub enum ShutdownState {
    /// No close request was seen yet.
    Armed,
    /// A close request was seen. This state is never left.
    Shutdown,
}

/// What is to be done about a close request.
#[derive(Debug, PartialEq, Eq)]
pub enum ShutdownAction<H> {
    /// Keep the window open, terminate this process by force, and let the
    /// window close once that is done.
    TerminateThenClose(H),
    /// No process is held: let the window close.
    Close,
    /// A repeated request that found nothing to release: do nothing.
    Nothing,
}

/// What a close request leads to, from the state of the coordinator and
/// the slot as they were: the state after it, the slot after it, and the
/// action to take. The slot is always emptied; a handle found in it is
/// always handed out for termination.
pub open spec fn close_request_spec<H>(state: ShutdownState, slot: SlotView<H>) -> (
    ShutdownState,
    SlotView<H>,
    ShutdownAction<H>,
) {
    (
        ShutdownState::Shutdown,
        slot.after_take(),
        match (slot.content(), state) {
            (Some(handle), _) => ShutdownAction::TerminateThenClose(handle),
            (None, ShutdownState::Armed) => ShutdownAction::Close,
            (None, ShutdownState::Shutdown) => ShutdownAction::Nothing,
        },
    )
}

/// The coordinator of one session.
#[derive(Debug)]
pub struct ShutdownCoordinator {
    state: ShutdownState,
}

impl View for ShutdownCoordinator {
    type V = ShutdownState;

    closed spec fn view(&self) -> ShutdownState {
        self.state
    }
}

impl ShutdownCoordinator {
    /// A coordinator that has seen no close request.
    pub fn new() -> (coordinator: Self)
        ensures
            coordinator@ == ShutdownState::Armed,
    {
        ShutdownCoordinator { state: ShutdownState::Armed }
    }

    /// The state of the coordinator.
    pub fn state(&self) -> (state: ShutdownState)
        ensures
            state == self@,
    {
        self.state
    }

    /// Handles a request to close the window. The caller holds the lock on
    /// the slot. Takes the process handle out of the slot, if there is one,
    /// and hands it out to be terminated; the slot is empty afterwards in
    /// every case, and the coordinator is in `Shutdown`.
    pub fn on_close_requested<H>(&mut self, slot: &mut SupervisionSlot<H>) -> (action:
        ShutdownAction<H>)
        ensures
            (final(self)@, final(slot)@, action) == close_request_spec(old(self)@, old(slot)@),
            final(self)@ == ShutdownState::Shutdown,
            final(slot)@.is_empty(),
            action is TerminateThenClose <==> old(slot)@ is Occupied,
    {
        let repeated = match self.state {
            ShutdownState::Armed => false,
            ShutdownState::Shutdown => true,
        };
        self.state = ShutdownState::Shutdown;
        match slot.take() {
            Some(handle) => ShutdownAction::TerminateThenClose(handle),
            None => {
                if repeated {
                    ShutdownAction::Nothing
                } else {
                    ShutdownAction::Close
                }
            },
        }
    }
}

/// After a close request the slot is empty and the coordinator is in
/// `Shutdown`, whether the slot was empty or occupied before and whatever
/// state the coordinator was in.
pub proof fn lemma_slot_is_empty_after_shutdown<H>(state: ShutdownState, slot: SlotView<H>)
    ensures
        close_request_spec(state, slot).0 == ShutdownState::Shutdown,
        close_request_spec(state, slot).1.is_empty(),
        close_request_spec(state, slot).1.content() is None,
{
}

/// Two close requests in a row end in the same state as one: the second
/// changes neither the coordinator nor the slot, and asks for nothing.
pub proof fn lemma_shutdown_is_idempotent<H>(state: ShutdownState, slot: SlotView<H>)
    ensures
        ({
            let once = close_request_spec(state, slot);
            let twice = close_request_spec(once.0, once.1);
            &&& twice.0 == once.0
            &&& twice.1 == once.1
            &&& twice.2 == ShutdownAction::<H>::Nothing
        }),
{
}

/// A process is handed out for termination exactly once: by the request
/// that finds it in the slot, and by no request after that.
pub proof fn lemma_handle_is_released_once<H>(state: ShutdownState, handle: H)
    ensures
        ({
            let first = close_request_spec(state, SlotView::Occupied(handle));
            let second = close_request_spec(first.0, first.1);
            &&& first.2 == ShutdownAction::TerminateThenClose(handle)
            &&& first.1 == SlotView::<H>::Released
            &&& second.2 == ShutdownAction::<H>::Nothing
        }),
{
}

} // verus!
