//! The canonical window event. An event that software injects has the shape
//! of one that the system reports, and nothing in it tells the two apart.

use vstd::prelude::*;

verus! {

/// What every event carries: the window it is about and the monitor that
/// the window was on when the event was made. Both are handles of the
/// session, to be looked up again before use.
#[derive(Clone, Copy, Debug, PartialEq, Eq, Structural)]
pub struct EventData {
    pub handle: u64,
    pub monitor: u64,
}

#[derive(Clone, Copy, Debug, PartialEq, Eq, Structural)]
pub enum WinEvent {
    WindowCreated(EventData),
    WindowDestroyed(EventData),
    WindowFocused(EventData),
    WindowMoved(EventData),
    WindowResized(EventData),
    WindowMinimized(EventData),
    WindowRestored(EventData),
    SyntheticFullscreenStart(EventData),
    SyntheticFullscreenEnd(EventData),
}

impl WinEvent {
    pub open spec fn spec_data(&self) -> EventData {
        match self {
            WinEvent::WindowCreated(d) => *d,
            WinEvent::WindowDestroyed(d) => *d,
            WinEvent::WindowFocused(d) => *d,
            WinEvent::WindowMoved(d) => *d,
            WinEvent::WindowResized(d) => *d,
            WinEvent::WindowMinimized(d) => *d,
            WinEvent::WindowRestored(d) => *d,
            WinEvent::SyntheticFullscreenStart(d) => *d,
            WinEvent::SyntheticFullscreenEnd(d) => *d,
        }
    }

    /// What the event carries.
    pub fn data(&self) -> (d: EventData)
        ensures
            d == self.spec_data(),
    {
        match self {
            WinEvent::WindowCreated(d) => *d,
            WinEvent::WindowDestroyed(d) => *d,
            WinEvent::WindowFocused(d) => *d,
            WinEvent::WindowMoved(d) => *d,
            WinEvent::WindowResized(d) => *d,
            WinEvent::WindowMinimized(d) => *d,
            WinEvent::WindowRestored(d) => *d,
            WinEvent::SyntheticFullscreenStart(d) => *d,
            WinEvent::SyntheticFullscreenEnd(d) => *d,
        }
    }

    /// The window that the event is about.
    pub fn handle(&self) -> (h: u64)
        ensures
            h == self.spec_data().handle,
    {
        self.data().handle
    }

    /// The monitor that the event names.
    pub fn monitor(&self) -> (m: u64)
        ensures
            m == self.spec_data().monitor,
    {
        self.data().monitor
    }
}

/// The event by which a window is declared fullscreen (`enabled`) or no
/// longer fullscreen.
pub fn simulate_fullscreen(handle: u64, monitor: u64, enabled: bool) -> (event: WinEvent)
    ensures
        enabled ==> event == WinEvent::SyntheticFullscreenStart(EventData { handle, monitor }),
        !enabled ==> event == WinEvent::SyntheticFullscreenEnd(EventData { handle, monitor }),
{
    let data = EventData { handle, monitor };
    if enabled {
        WinEvent::SyntheticFullscreenStart(data)
    } else {
        WinEvent::SyntheticFullscreenEnd(data)
    }
}

} // verus!
