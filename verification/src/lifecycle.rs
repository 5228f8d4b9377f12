//! What the shell does about the events of its life.
//!
//! The host turns each event of its event loop and of its windows into a
//! `ShellEvent`, asks `react`, and carries out the answer. Closing a window
//! only hides it; the backend is stopped by the exit of the application and
//! by nothing else.

use vstd::prelude::*;

verus! {

/// An event of the application or of one of its windows.
#[derive(Clone, Copy, Debug, PartialEq, Eq, Structural)]
pub enum ShellEvent {
    /// The event loop has started.
    Ready,
    /// The user came back to the application while it was running.
    Reopen { has_visible_windows: bool },
    /// The user asked a window to close.
    CloseRequested,
    /// The application exits.
    Exit,
    /// Any other event.
    Other,
}

/// What the host is to do about an event.
#[derive(Clone, Copy, Debug, PartialEq, Eq, Structural)]
pub enum ShellAction {
    /// Nothing.
    Nothing,
    /// Note in the log that the application is ready.
    AnnounceReady,
    /// Show every window and give it the focus.
    ShowWindows,
    /// Keep the window from closing and hide it.
    HideWindow,
    /// Run the shutdown transition on the backend's slot and terminate the
    /// child it hands out.
    StopBackend,
}

/// The action for an event.
pub fn react(event: ShellEvent) -> (action: ShellAction)
    ensures
        action is StopBackend <==> event is Exit,
        action is HideWindow <==> event is CloseRequested,
        action is ShowWindows <==> event == (ShellEvent::Reopen { has_visible_windows: false }),
        action is AnnounceReady <==> event is Ready,
{
    match event {
        ShellEvent::Ready => ShellAction::AnnounceReady,
        ShellEvent::Reopen { has_visible_windows } => if has_visible_windows {
            ShellAction::Nothing
        } else {
            ShellAction::ShowWindows
        },
        ShellEvent::CloseRequested => ShellAction::HideWindow,
        ShellEvent::Exit => ShellAction::StopBackend,
        ShellEvent::Other => ShellAction::Nothing,
    }
}

} // verus!
