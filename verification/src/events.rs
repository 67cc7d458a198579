//! The event bridge: how host-window events and tray-channel wake-ups
//! are translated into the reducer's one message stream. The two
//! sources are merged round-robin by the shell; each keeps its own
//! FIFO order and neither may touch the state directly.

use vstd::prelude::*;
use crate::reducer::Message;

verus! {

/// A host-window event as the shell observes it.
#[derive(Debug, Clone, Copy, PartialEq, Eq, Structural)]
pub enum HostEvent {
    /// The user or the system asked the host window to close.
    CloseRequested,
    /// The host window was resized to this width and height.
    Resized(u32, u32),
    /// Any other host-window event.
    Other,
}

/// Where a host-window event lands in the message stream: a close
/// request asks for termination; a resize to zero extent is how the
/// host reports being minimized, and hides to the tray; anything else
/// is a no-op.
pub open spec fn host_event_message(e: HostEvent) -> Message {
    match e {
        HostEvent::CloseRequested => Message::CloseRequested,
        HostEvent::Resized(w, h) => if w == 0 && h == 0 {
            Message::MinimizeToTray
        } else {
            Message::Ignore
        },
        HostEvent::Other => Message::Ignore,
    }
}

/// Translate one host-window event into a reducer message.
pub fn map_host_event(e: HostEvent) -> (m: Message)
    ensures
        m == host_event_message(e),
{
    match e {
        HostEvent::CloseRequested => Message::CloseRequested,
        HostEvent::Resized(w, h) => {
            if w == 0 && h == 0 {
                Message::MinimizeToTray
            } else {
                Message::Ignore
            }
        },
        HostEvent::Other => Message::Ignore,
    }
}

/// One tray-channel wake-up: a delivered command passes through
/// unchanged; a closed or broken channel yields a no-op rather than
/// ending the merged event stream.
pub fn tray_wakeup(received: Option<Message>) -> (m: Message)
    ensures
        received matches Some(cmd) ==> m == cmd,
        received is None ==> m == Message::Ignore,
{
    match received {
        Some(cmd) => cmd,
        None => Message::Ignore,
    }
}

} // verus!
