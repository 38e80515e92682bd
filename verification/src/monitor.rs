//! Monitors as the shell sees them: an ephemeral handle, the stable device
//! id behind it, and the work area.

use std::collections::HashMap;
use vstd::prelude::*;

verus! {

broadcast use vstd::std_specs::hash::group_hash_axioms;

/// A rectangle in screen coordinates; `right` and `bottom` are exclusive.
#[derive(Clone, Copy, Debug, PartialEq, Eq, Structural)]
pub struct Rect {
    pub left: i32,
    pub top: i32,
    pub right: i32,
    pub bottom: i32,
}

impl Rect {
    /// The rectangle has its edges in order.
    pub open spec fn wf(&self) -> bool {
        self.left <= self.right && self.top <= self.bottom
    }

    pub open spec fn spec_width(&self) -> int {
        self.right - self.left
    }

    pub open spec fn spec_height(&self) -> int {
        self.bottom - self.top
    }

    /// `inner` lies within this rectangle.
    pub open spec fn holds(&self, inner: Rect) -> bool {
        &&& self.left <= inner.left
        &&& inner.right <= self.right
        &&& self.top <= inner.top
        &&& inner.bottom <= self.bottom
    }

    /// The two rectangles share no point.
    pub open spec fn apart(&self, other: Rect) -> bool {
        ||| self.right <= other.left
        ||| other.right <= self.left
        ||| self.bottom <= other.top
        ||| other.bottom <= self.top
    }
}

/// A monitor as reported for the current session.
#[derive(Clone, Debug)]
pub struct Monitor {
    /// The handle of the session. It says nothing once the session ends.
    pub handle: u64,
    /// The stable device id; `None` where the device could not be named.
    pub device_id: Option<String>,
    pub rect: Rect,
}

/// The monitors of the session, by handle. A monitor that is plugged in is
/// connected, one that is unplugged is disconnected; a handle that the
/// registry does not hold is stale.
pub struct MonitorRegistry {
    monitors: HashMap<u64, Monitor>,
}

impl View for MonitorRegistry {
    type V = Map<u64, Monitor>;

    closed spec fn view(&self) -> Map<u64, Monitor> {
        self.monitors@
    }
}

impl MonitorRegistry {
    /// Every monitor is filed under its own handle.
    #[verifier::type_invariant]
    spec fn inv(&self) -> bool {
        forall|h: u64| #[trigger] self.monitors@.contains_key(h) ==> self.monitors@[h].handle == h
    }

    pub fn new() -> (registry: Self)
        ensures
            registry@ == Map::<u64, Monitor>::empty(),
    {
        MonitorRegistry { monitors: HashMap::new() }
    }

    /// Files `monitor` under its handle, in place of whatever was filed
    /// there. Returns the monitor that it replaced.
    pub fn connect(&mut self, monitor: Monitor) -> (replaced: Option<Monitor>)
        ensures
            final(self)@ == old(self)@.insert(monitor.handle, monitor),
            match replaced {
                Some(m) => old(self)@.contains_key(monitor.handle) && m == old(self)@[monitor.handle],
                None => !old(self)@.contains_key(monitor.handle),
            },
    {
        proof {
            use_type_invariant(&*self);
        }
        let handle = monitor.handle;
        let mut monitors = HashMap::new();
        std::mem::swap(&mut monitors, &mut self.monitors);
        let replaced = monitors.insert(handle, monitor);
        self.monitors = monitors;
        replaced
    }

    /// Takes the monitor with this handle out and returns it.
    pub fn disconnect(&mut self, handle: u64) -> (removed: Option<Monitor>)
        ensures
            final(self)@ == old(self)@.remove(handle),
            match removed {
                Some(m) => old(self)@.contains_key(handle) && m == old(self)@[handle],
                None => !old(self)@.contains_key(handle),
            },
    {
        proof {
            use_type_invariant(&*self);
        }
        let mut monitors = HashMap::new();
        std::mem::swap(&mut monitors, &mut self.monitors);
        let removed = monitors.remove(&handle);
        self.monitors = monitors;
        removed
    }

    /// The monitor behind `handle`; `None` for a stale handle.
    pub fn find(&self, handle: u64) -> (found: Option<&Monitor>)
        ensures
            match found {
                Some(m) => self@.contains_key(handle) && *m == self@[handle] && m.handle
                    == handle,
                None => !self@.contains_key(handle),
            },
    {
        proof {
            use_type_invariant(self);
        }
        self.monitors.get(&handle)
    }

    /// How many monitors are connected.
    pub fn len(&self) -> (n: usize)
        ensures
            n == self@.len(),
            self@.dom().finite(),
    {
        self.monitors.len()
    }
}

} // verus!
