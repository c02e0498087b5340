use ai_client::shutdown::{ShutdownAction, ShutdownCoordinator, ShutdownState};
use ai_client::slot::{SlotPhase, SupervisionSlot};

fn occupied(handle: u32) -> SupervisionSlot<u32> {
    let mut slot = SupervisionSlot::new();
    assert_eq!(slot.set_if_empty(handle), Ok(()));
    slot
}

#[test]
fn a_new_coordinator_is_armed() {
    assert_eq!(ShutdownCoordinator::new().state(), ShutdownState::Armed);
}

#[test]
fn closing_with_a_running_backend_terminates_it() {
    let mut coordinator = ShutdownCoordinator::new();
    let mut slot = occupied(77);
    assert_eq!(coordinator.on_close_requested(&mut slot), ShutdownAction::TerminateThenClose(77));
    assert_eq!(coordinator.state(), ShutdownState::Shutdown);
    assert!(slot.is_empty());
    assert_eq!(slot.phase(), SlotPhase::Released);
}

#[test]
fn closing_without_a_backend_just_closes() {
    let mut coordinator = ShutdownCoordinator::new();
    let mut slot: SupervisionSlot<u32> = SupervisionSlot::new();
    assert_eq!(coordinator.on_close_requested(&mut slot), ShutdownAction::Close);
    assert_eq!(coordinator.state(), ShutdownState::Shutdown);
    assert!(slot.is_empty());
}

#[test]
fn a_second_close_request_does_nothing() {
    let mut coordinator = ShutdownCoordinator::new();
    let mut slot = occupied(77);
    assert_eq!(coordinator.on_close_requested(&mut slot), ShutdownAction::TerminateThenClose(77));
    let state_after_one = coordinator.state();
    let phase_after_one = slot.phase();
    assert_eq!(coordinator.on_close_requested(&mut slot), ShutdownAction::Nothing);
    assert_eq!(coordinator.state(), state_after_one);
    assert_eq!(slot.phase(), phase_after_one);
    assert!(slot.is_empty());
    assert_eq!(coordinator.on_close_requested(&mut slot), ShutdownAction::Nothing);
    assert_eq!(coordinator.state(), ShutdownState::Shutdown);
}

#[test]
fn a_second_close_request_without_a_backend_does_nothing() {
    let mut coordinator = ShutdownCoordinator::new();
    let mut slot: SupervisionSlot<u32> = SupervisionSlot::new();
    assert_eq!(coordinator.on_close_requested(&mut slot), ShutdownAction::Close);
    assert_eq!(coordinator.on_close_requested(&mut slot), ShutdownAction::Nothing);
    assert!(slot.is_empty());
    assert_eq!(slot.phase(), SlotPhase::Vacant);
}

#[test]
fn a_handle_stored_after_the_first_request_is_still_released() {
    let mut coordinator = ShutdownCoordinator::new();
    let mut slot: SupervisionSlot<u32> = SupervisionSlot::new();
    assert_eq!(coordinator.on_close_requested(&mut slot), ShutdownAction::Close);
    assert_eq!(slot.set_if_empty(5), Ok(()));
    assert_eq!(coordinator.on_close_requested(&mut slot), ShutdownAction::TerminateThenClose(5));
    assert!(slot.is_empty());
    assert_eq!(slot.set_if_empty(6), Err(6));
}
