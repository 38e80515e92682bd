//! The virtual-desktop switcher. At most one switch is in flight; a request
//! that arrives meanwhile waits, and of several waiting requests only the
//! latest is kept.

use vstd::prelude::*;
use crate::error::ShellError;

verus! {

/// The switcher's state as a value.
pub struct DesktopModel {
    /// How many desktops are known.
    pub count: usize,
    /// The desktop that is shown.
    pub current: usize,
    /// The desktop that the system was asked to show, until it reports back.
    pub in_flight: Option<usize>,
    /// The latest request that arrived while another was in flight.
    pub queued: Option<usize>,
}

/// What the caller of `switch_to` has to do.
#[derive(Clone, Copy, Debug, PartialEq, Eq, Structural)]
pub enum SwitchOutcome {
    /// Nothing was in flight: ask the system for this switch now.
    Started,
    /// A switch is in flight: this one starts when that one completes.
    Queued,
}

/// What a completed switch leaves to do.
#[derive(Clone, Copy, Debug, PartialEq, Eq, Structural)]
pub struct Completion {
    /// The desktop now shown, of which the subscribers are told.
    pub current: usize,
    /// The switch to ask the system for next, if one was waiting.
    pub next: Option<usize>,
}

impl DesktopModel {
    pub open spec fn wf(self) -> bool {
        &&& self.current < self.count
        &&& self.in_flight.is_some() ==> self.in_flight.unwrap() < self.count
        &&& self.queued.is_some() ==> self.queued.unwrap() < self.count
        &&& self.queued.is_some() ==> self.in_flight.is_some()
    }

    pub open spec fn idle(self) -> bool {
        self.in_flight.is_none() && self.queued.is_none()
    }

    /// The state after a request for desktop `idx`.
    pub open spec fn request(self, idx: usize) -> DesktopModel {
        if idx >= self.count {
            self
        } else if self.in_flight.is_some() {
            DesktopModel { queued: Some(idx), ..self }
        } else {
            DesktopModel { in_flight: Some(idx), ..self }
        }
    }

    /// The state after the system reported the switch in flight as done.
    pub open spec fn complete(self) -> DesktopModel {
        match self.in_flight {
            Some(target) => DesktopModel {
                current: target,
                in_flight: self.queued,
                queued: None,
                ..self
            },
            None => self,
        }
    }

    /// The state after the system refused the switch in flight: the desktop
    /// shown stays, the refused switch is dropped, and the request that
    /// waited, if any, is the one in flight.
    pub open spec fn abort(self) -> DesktopModel {
        DesktopModel { in_flight: self.queued, queued: None, ..self }
    }

    /// The state once every switch that was asked for has completed.
    pub open spec fn settled(self) -> DesktopModel {
        self.complete().complete()
    }

    /// The desktop that will be shown once the state has settled.
    pub open spec fn target(self) -> usize {
        if self.queued.is_some() {
            self.queued.unwrap()
        } else if self.in_flight.is_some() {
            self.in_flight.unwrap()
        } else {
            self.current
        }
    }
}

pub struct VirtualDesktopManager {
    state: DesktopModel,
}

impl View for VirtualDesktopManager {
    type V = DesktopModel;

    closed spec fn view(&self) -> DesktopModel {
        self.state
    }
}

impl VirtualDesktopManager {
    #[verifier::type_invariant]
    spec fn inv(&self) -> bool {
        self.state.wf()
    }

    /// A switcher for `desktop_count` desktops of which `current` is shown.
    /// `None` where `current` is no desktop.
    pub fn new(desktop_count: usize, current: usize) -> (made: Option<Self>)
        ensures
            made.is_some() <==> current < desktop_count,
            made.is_some() ==> made.unwrap()@ == (DesktopModel {
                count: desktop_count,
                current,
                in_flight: None,
                queued: None,
            }),
    {
        if current < desktop_count {
            Some(
                VirtualDesktopManager {
                    state: DesktopModel {
                        count: desktop_count,
                        current,
                        in_flight: None,
                        queued: None,
                    },
                },
            )
        } else {
            None
        }
    }

    /// The desktop that is shown: a read of the cached index.
    pub fn get_current(&self) -> (idx: usize)
        ensures
            idx == self@.current,
            self@.wf(),
    {
        proof {
            use_type_invariant(self);
        }
        self.state.current
    }

    pub fn desktop_count(&self) -> (count: usize)
        ensures
            count == self@.count,
    {
        self.state.count
    }

    /// The switch that the system is working on, if any.
    pub fn in_flight(&self) -> (target: Option<usize>)
        ensures
            target == self@.in_flight,
    {
        self.state.in_flight
    }

    /// The request that waits for the switch in flight, if any.
    pub fn queued(&self) -> (target: Option<usize>)
        ensures
            target == self@.queued,
    {
        self.state.queued
    }

    /// Asks for desktop `idx`. An index past the known desktops is refused
    /// and changes nothing. Otherwise the request starts at once where
    /// nothing is in flight, and else replaces whatever was waiting.
    pub fn switch_to(&mut self, idx: usize) -> (outcome: Result<SwitchOutcome, ShellError>)
        ensures
            final(self)@.wf(),
            final(self)@ == old(self)@.request(idx),
            final(self)@.current == old(self)@.current,
            idx >= old(self)@.count <==> outcome == Err::<SwitchOutcome, ShellError>(
                ShellError::InvalidDesktopIndex,
            ),
            idx >= old(self)@.count ==> final(self)@ == old(self)@,
            idx < old(self)@.count && old(self)@.in_flight.is_none() ==> outcome == Ok::<
                SwitchOutcome,
                ShellError,
            >(SwitchOutcome::Started),
            idx < old(self)@.count && old(self)@.in_flight.is_some() ==> outcome == Ok::<
                SwitchOutcome,
                ShellError,
            >(SwitchOutcome::Queued),
    {
        proof {
            use_type_invariant(&*self);
        }
        if idx >= self.state.count {
            return Err(ShellError::InvalidDesktopIndex);
        }
        if self.state.in_flight.is_some() {
            self.state = DesktopModel {
                count: self.state.count,
                current: self.state.current,
                in_flight: self.state.in_flight,
                queued: Some(idx),
            };
            Ok(SwitchOutcome::Queued)
        } else {
            self.state = DesktopModel {
                count: self.state.count,
                current: self.state.current,
                in_flight: Some(idx),
                queued: self.state.queued,
            };
            Ok(SwitchOutcome::Started)
        }
    }

    /// Records that the system finished the switch in flight. The index it
    /// went to becomes the current one, and the waiting request, if any,
    /// becomes the one in flight. `None` where nothing was in flight.
    pub fn complete_switch(&mut self) -> (done: Option<Completion>)
        ensures
            final(self)@.wf(),
            final(self)@ == old(self)@.complete(),
            done == match old(self)@.in_flight {
                Some(target) => Some(Completion { current: target, next: old(self)@.queued }),
                None => None,
            },
    {
        proof {
            use_type_invariant(&*self);
        }
        match self.state.in_flight {
            Some(target) => {
                let next = self.state.queued;
                self.state = DesktopModel {
                    count: self.state.count,
                    current: target,
                    in_flight: next,
                    queued: None,
                };
                Some(Completion { current: target, next })
            },
            None => None,
        }
    }

    /// Records that the system refused the switch in flight. The current
    /// index stays as it is, since nothing else is shown, and no subscriber
    /// is to be told. The request that waited becomes the one in flight and
    /// is returned: it is the switch to ask the system for next.
    pub fn abort_switch(&mut self) -> (next: Option<usize>)
        ensures
            final(self)@ == old(self)@.abort(),
            final(self)@.current == old(self)@.current,
            next == old(self)@.queued,
            final(self)@.wf(),
    {
        proof {
            use_type_invariant(&*self);
        }
        let next = self.state.queued;
        self.state = DesktopModel {
            count: self.state.count,
            current: self.state.current,
            in_flight: next,
            queued: None,
        };
        next
    }

    /// Takes over the index that the system reports as shown. A report of
    /// an unknown desktop is stale and changes nothing.
    pub fn on_desktop_changed(&mut self, idx: usize) -> (taken: bool)
        ensures
            taken == (idx < old(self)@.count),
            taken ==> final(self)@ == (DesktopModel { current: idx, ..old(self)@ }),
            !taken ==> final(self)@ == old(self)@,
    {
        proof {
            use_type_invariant(&*self);
        }
        if idx < self.state.count {
            self.state = DesktopModel {
                count: self.state.count,
                current: idx,
                in_flight: self.state.in_flight,
                queued: self.state.queued,
            };
            true
        } else {
            false
        }
    }
}

/// A request, a completion and a refusal keep a state well formed.
pub proof fn lemma_steps_keep_wf(m: DesktopModel, idx: usize)
    requires
        m.wf(),
    ensures
        m.request(idx).wf(),
        m.complete().wf(),
        m.abort().wf(),
{
}

/// A refused switch never shows: the current index stays, and the state
/// settles on the request that waited, or, where none waited, on the
/// desktop that is shown.
pub proof fn lemma_refused_switch(m: DesktopModel)
    requires
        m.wf(),
    ensures
        m.abort().current == m.current,
        m.queued.is_some() ==> m.abort().target() == m.queued.unwrap(),
        m.queued.is_none() ==> m.abort().idle() && m.abort().target() == m.current,
        m.abort().settled().current == m.abort().target(),
{
}

/// A refused request changes nothing: neither the current index nor what is
/// in flight or waiting.
pub proof fn lemma_invalid_index_changes_nothing(m: DesktopModel, idx: usize)
    requires
        idx >= m.count,
    ensures
        m.request(idx) == m,
{
}

/// No request moves the current index; only a completion does.
pub proof fn lemma_request_keeps_current(m: DesktopModel, idx: usize)
    ensures
        m.request(idx).current == m.current,
{
}

/// An accepted request becomes the target; a completion keeps the target.
pub proof fn lemma_target(m: DesktopModel, idx: usize)
    requires
        m.wf(),
    ensures
        idx < m.count ==> m.request(idx).target() == idx,
        m.complete().target() == m.target(),
{
}

/// Two completions settle every well-formed state, on its target.
pub proof fn lemma_settled(m: DesktopModel)
    requires
        m.wf(),
    ensures
        m.settled().idle(),
        m.settled().current == m.target(),
        m.settled().wf(),
{
}

/// Of two requests made one after the other, the later wins: once the state
/// has settled, the desktop shown is the one asked for last, whether or not
/// a switch was already in flight, and whether or not the first of the two
/// completed in between.
pub proof fn lemma_latest_request_wins(m: DesktopModel, first: usize, second: usize)
    requires
        m.wf(),
        first < m.count,
        second < m.count,
    ensures
        m.request(first).request(second).settled().current == second,
        m.request(first).request(second).settled().idle(),
        m.request(first).complete().request(second).settled().current == second,
        m.request(first).complete().request(second).settled().idle(),
{
}

/// At every moment exactly one desktop is shown, and it is a known one;
/// at most one switch is in flight and at most one waits.
pub proof fn lemma_single_flight(m: DesktopModel, idx: usize)
    requires
        m.wf(),
    ensures
        m.request(idx).current < m.count,
        m.complete().current < m.count,
        m.in_flight.is_some() && idx < m.count ==> m.request(idx).in_flight == m.in_flight,
        m.complete().queued.is_none(),
{
}

} // verus!
