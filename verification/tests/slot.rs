use backend_supervisor::BackendSlot;
use backend_supervisor::ShutdownAction;

#[test]
fn a_vacant_slot_is_not_running() {
    let slot: BackendSlot<u32> = BackendSlot::vacant();
    assert!(!slot.is_running());
}

#[test]
fn a_slot_holding_a_child_is_running() {
    let slot = BackendSlot::holding(4242u32);
    assert!(slot.is_running());
}

#[test]
fn shutdown_hands_out_the_child_and_empties_the_slot() {
    let mut slot = BackendSlot::holding(4242u32);
    assert_eq!(slot.shutdown(), ShutdownAction::Terminate(4242));
    assert!(!slot.is_running());
}

#[test]
fn a_second_shutdown_does_nothing() {
    let mut slot = BackendSlot::holding(7u32);
    assert_eq!(slot.shutdown(), ShutdownAction::Terminate(7));
    assert_eq!(slot.shutdown(), ShutdownAction::Nothing);
    assert!(!slot.is_running());
}

#[test]
fn shutdown_of_a_vacant_slot_does_nothing() {
    let mut slot: BackendSlot<u32> = BackendSlot::vacant();
    assert_eq!(slot.shutdown(), ShutdownAction::Nothing);
    assert_eq!(slot.shutdown(), ShutdownAction::Nothing);
    assert!(!slot.is_running());
}

#[test]
fn many_shutdowns_terminate_once() {
    let mut slot = BackendSlot::holding("child".to_string());
    let mut terminated = 0;
    for _ in 0..10 {
        if let ShutdownAction::Terminate(child) = slot.shutdown() {
            assert_eq!(child, "child");
            terminated += 1;
        }
    }
    assert_eq!(terminated, 1);
}

#[test]
fn two_paths_sharing_a_locked_slot_terminate_once() {
    let shared = std::sync::Arc::new(std::sync::Mutex::new(BackendSlot::holding(99u32)));
    let exit_path = shared.clone();
    let guard_path = shared.clone();
    let first = exit_path.lock().unwrap().shutdown();
    let second = guard_path.lock().unwrap().shutdown();
    assert_eq!(first, ShutdownAction::Terminate(99));
    assert_eq!(second, ShutdownAction::Nothing);
    assert!(!shared.lock().unwrap().is_running());
}
