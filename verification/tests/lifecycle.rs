use backend_supervisor::react;
use backend_supervisor::BackendSlot;
use backend_supervisor::ShellAction;
use backend_supervisor::ShellEvent;
use backend_supervisor::ShutdownAction;

#[test]
fn the_exit_stops_the_backend() {
    assert_eq!(react(ShellEvent::Exit), ShellAction::StopBackend);
}

#[test]
fn closing_a_window_hides_it() {
    assert_eq!(react(ShellEvent::CloseRequested), ShellAction::HideWindow);
}

#[test]
fn coming_back_shows_the_windows_when_none_is_visible() {
    assert_eq!(
        react(ShellEvent::Reopen { has_visible_windows: false }),
        ShellAction::ShowWindows
    );
    assert_eq!(react(ShellEvent::Reopen { has_visible_windows: true }), ShellAction::Nothing);
}

#[test]
fn readiness_is_announced_and_other_events_are_ignored() {
    assert_eq!(react(ShellEvent::Ready), ShellAction::AnnounceReady);
    assert_eq!(react(ShellEvent::Other), ShellAction::Nothing);
}

#[test]
fn only_the_exit_reaches_the_slot() {
    let mut slot = BackendSlot::holding(31u32);
    let events = [
        ShellEvent::Ready,
        ShellEvent::CloseRequested,
        ShellEvent::Reopen { has_visible_windows: false },
        ShellEvent::Other,
        ShellEvent::Exit,
        ShellEvent::Exit,
    ];
    let mut terminated = Vec::new();
    for event in events {
        if react(event) == ShellAction::StopBackend {
            if let ShutdownAction::Terminate(child) = slot.shutdown() {
                terminated.push(child);
            }
        } else {
            assert!(slot.is_running());
        }
    }
    assert_eq!(terminated, vec![31]);
    assert!(!slot.is_running());
}
