//! The event dispatcher. Events of every origin enter one queue in the
//! order in which they arrive, and leave it in that order, each to every
//! subscriber.

use vstd::prelude::*;
use crate::error::ShellError;
use crate::winevent::WinEvent;

verus! {

/// The dispatcher's state as a value.
pub struct HookModel {
    /// The events that wait, oldest first.
    pub pending: Seq<WinEvent>,
    /// How many subscribers are registered. A subscriber is known by the
    /// number it got when it registered, counted from zero.
    pub subscribers: nat,
}

impl HookModel {
    /// The state after `event` arrived.
    pub open spec fn emit(self, event: WinEvent) -> HookModel {
        HookModel { pending: self.pending.push(event), ..self }
    }

    /// The state after the oldest waiting event was handed out.
    pub open spec fn dispatch(self) -> HookModel {
        if self.pending.len() == 0 {
            self
        } else {
            HookModel { pending: self.pending.drop_first(), ..self }
        }
    }

    /// The events that `n` dispatches hand out, in the order in which they
    /// are handed out.
    pub open spec fn delivered(self, n: nat) -> Seq<WinEvent>
        decreases n,
    {
        if n == 0 || self.pending.len() == 0 {
            Seq::empty()
        } else {
            seq![self.pending[0]] + self.dispatch().delivered((n - 1) as nat)
        }
    }
}

/// One event on its way to the subscribers.
#[derive(Clone, Debug)]
pub struct Delivery {
    pub event: WinEvent,
    /// The subscribers that get it: those numbered below this count, each
    /// of them whatever becomes of the others.
    pub subscribers: usize,
}

pub struct HookManager {
    pending: Vec<WinEvent>,
    subscribers: usize,
}

impl View for HookManager {
    type V = HookModel;

    closed spec fn view(&self) -> HookModel {
        HookModel { pending: self.pending@, subscribers: self.subscribers as nat }
    }
}

impl HookManager {
    /// The dispatcher for a hook that was installed. Without the hook there
    /// is no dispatcher: `HookInstallFailure`.
    pub fn new(hook_installed: bool) -> (made: Result<Self, ShellError>)
        ensures
            hook_installed <==> made.is_ok(),
            hook_installed ==> (made matches Ok(manager) && manager@ == (HookModel {
                pending: Seq::empty(),
                subscribers: 0,
            })),
            !hook_installed ==> (made matches Err(e) && e == ShellError::HookInstallFailure),
    {
        if hook_installed {
            Ok(HookManager { pending: Vec::new(), subscribers: 0 })
        } else {
            Err(ShellError::HookInstallFailure)
        }
    }

    /// Registers a subscriber and gives its number. Events that wait are
    /// delivered to it too. `None` where no number is left.
    pub fn subscribe(&mut self) -> (id: Option<usize>)
        ensures
            final(self)@.pending == old(self)@.pending,
            old(self)@.subscribers < usize::MAX ==> id == Some(old(self)@.subscribers as usize)
                && final(self)@.subscribers == old(self)@.subscribers + 1,
            old(self)@.subscribers >= usize::MAX ==> id.is_none() && final(self)@ == old(self)@,
    {
        if self.subscribers < usize::MAX {
            let id = self.subscribers;
            self.subscribers = id + 1;
            Some(id)
        } else {
            None
        }
    }

    /// Puts `event` behind every event that arrived before it.
    pub fn emit_event(&mut self, event: WinEvent)
        ensures
            final(self)@ == old(self)@.emit(event),
    {
        self.pending.push(event);
    }

    /// How many events wait.
    pub fn pending_len(&self) -> (n: usize)
        ensures
            n == self@.pending.len(),
    {
        self.pending.len()
    }

    pub fn subscriber_count(&self) -> (n: usize)
        ensures
            n == self@.subscribers,
    {
        self.subscribers
    }

    /// Takes the oldest waiting event out, for delivery to every
    /// subscriber. `None` where nothing waits.
    pub fn dispatch_next(&mut self) -> (next: Option<Delivery>)
        ensures
            final(self)@ == old(self)@.dispatch(),
            old(self)@.pending.len() == 0 <==> next.is_none(),
            next.is_some() ==> next.unwrap().event == old(self)@.pending[0]
                && next.unwrap().subscribers == old(self)@.subscribers,
    {
        if self.pending.len() == 0 {
            None
        } else {
            let event = self.pending.remove(0);
            assert(self.pending@ =~= old(self).pending@.drop_first());
            Some(Delivery { event, subscribers: self.subscribers })
        }
    }
}

/// Dispatching until nothing waits hands out exactly the waiting events,
/// oldest first.
pub proof fn lemma_delivery_is_arrival_order(m: HookModel, n: nat)
    requires
        n >= m.pending.len(),
    ensures
        m.delivered(n) == m.pending,
    decreases n,
{
    if n == 0 || m.pending.len() == 0 {
        assert(m.pending =~= Seq::empty());
    } else {
        lemma_delivery_is_arrival_order(m.dispatch(), (n - 1) as nat);
        assert(seq![m.pending[0]] + m.pending.drop_first() =~= m.pending);
    }
}

/// An event that is emitted comes after every event that waited, and moves
/// none of them: what is delivered is what would have been delivered
/// without it, and then the new event.
pub proof fn lemma_emit_keeps_order(m: HookModel, event: WinEvent)
    ensures
        m.emit(event).delivered(m.pending.len() + 1) == m.delivered(m.pending.len()).push(event),
        m.emit(event).subscribers == m.subscribers,
{
    lemma_delivery_is_arrival_order(m, m.pending.len());
    lemma_delivery_is_arrival_order(m.emit(event), m.pending.len() + 1);
}

/// While something waits, emitting and dispatching do not disturb each
/// other: the event handed out is the same, and so is the state reached.
pub proof fn lemma_emit_dispatch_commute(m: HookModel, event: WinEvent)
    requires
        m.pending.len() > 0,
    ensures
        m.emit(event).pending[0] == m.pending[0],
        m.emit(event).dispatch() == m.dispatch().emit(event),
{
    assert(m.pending.push(event).drop_first() =~= m.pending.drop_first().push(event));
}

} // verus!
