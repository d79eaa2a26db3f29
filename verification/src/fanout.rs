//! Fan-out of snapshots to listeners.
//!
//! Each listener is the sending half of a channel whose receiver drains it at
//! its own pace. Publishing hands the event to every listener in the order of
//! registration and never waits for a receiver; a listener whose receiver is
//! gone is counted and otherwise ignored.

use crate::state::{OutputEvent, OutputEventView};
use std::sync::mpsc::Sender;
use vstd::prelude::*;

verus! {

/// `std::sync::mpsc::Sender`, opaque to the verifier.
#[verifier::external_type_specification]
#[verifier::external_body]
#[verifier::reject_recursive_types(T)]
pub struct ExSender<T>(Sender<T>);

/// Calls `Sender::send` and reports whether the channel took the event. The
/// channel is unbounded, so the call does not wait; it fails when the
/// receiver has been dropped. Which of the two happens is not known here.
#[verifier::external_body]
fn send_event(sender: &Sender<OutputEvent>, event: OutputEvent) -> (delivered: bool) {
    sender.send(event).is_ok()
}

/// One registered listener, with the record of what it has been handed.
pub struct Listener {
    sender: Sender<OutputEvent>,
    handed: Ghost<Seq<OutputEventView>>,
}

impl View for Listener {
    type V = Seq<OutputEventView>;

    /// The events handed to the listener's channel since its registration,
    /// oldest first.
    closed spec fn view(&self) -> Seq<OutputEventView> {
        self.handed@
    }
}

impl Listener {
    /// A listener that has been handed nothing yet.
    pub fn new(sender: Sender<OutputEvent>) -> (listener: Listener)
        ensures
            listener@ == Seq::<OutputEventView>::empty(),
    {
        Listener { sender, handed: Ghost(Seq::empty()) }
    }

    /// Hands a copy of `event` to the listener's channel and reports whether
    /// the channel took it. The record grows by the event either way: it
    /// tells what the channel was offered.
    pub fn deliver(&mut self, event: &OutputEvent) -> (delivered: bool)
        ensures
            final(self)@ == old(self)@.push(event@),
    {
        let delivered = send_event(&self.sender, event.clone());
        self.handed = Ghost(self.handed@.push(event@));
        delivered
    }
}

/// The logs `logs` after `events` were handed to every listener.
pub open spec fn extended(logs: Seq<Seq<OutputEventView>>, events: Seq<OutputEventView>) -> Seq<
    Seq<OutputEventView>,
> {
    Seq::new(logs.len(), |i: int| logs[i] + events)
}

/// The listeners of a reducer, in the order of their registration.
pub struct Fanout {
    listeners: Vec<Listener>,
}

impl View for Fanout {
    type V = Seq<Seq<OutputEventView>>;

    /// For each listener, in the order of registration, the events it has
    /// been handed.
    closed spec fn view(&self) -> Seq<Seq<OutputEventView>> {
        Seq::new(self.listeners@.len(), |i: int| self.listeners@[i]@)
    }
}

impl Fanout {
    /// A fan-out without listeners.
    pub fn new() -> (fanout: Fanout)
        ensures
            fanout@ == Seq::<Seq<OutputEventView>>::empty(),
    {
        let fanout = Fanout { listeners: Vec::new() };
        assert(fanout@ =~= Seq::<Seq<OutputEventView>>::empty());
        fanout
    }

    /// Registers `listener` behind the listeners that are there. It is handed
    /// the events published from now on.
    pub fn add_listener(&mut self, listener: Sender<OutputEvent>)
        ensures
            final(self)@ == old(self)@.push(Seq::<OutputEventView>::empty()),
    {
        self.listeners.push(Listener::new(listener));
        assert(self@ =~= old(self)@.push(Seq::<OutputEventView>::empty()));
    }

    /// The number of listeners.
    pub fn listener_count(&self) -> (count: usize)
        ensures
            count == self@.len(),
    {
        self.listeners.len()
    }

    /// Hands `event` to every listener, whatever became of the deliveries
    /// before it, and returns the listeners whose channels did not take it,
    /// by their place in the order of registration.
    pub fn publish(&mut self, event: &OutputEvent) -> (failed: Vec<usize>)
        ensures
            final(self)@ == extended(old(self)@, seq![event@]),
            failed@.len() <= old(self)@.len(),
            forall|k: int| 0 <= k < failed@.len() ==> failed@[k] < old(self)@.len(),
            forall|k: int, l: int| 0 <= k < l < failed@.len() ==> failed@[k] < failed@[l],
    {
        let mut failed: Vec<usize> = Vec::new();
        let mut i: usize = 0;
        while i < self.listeners.len()
            invariant
                i <= self.listeners@.len(),
                failed@.len() <= i,
                forall|k: int| 0 <= k < failed@.len() ==> failed@[k] < i,
                forall|k: int, l: int| 0 <= k < l < failed@.len() ==> failed@[k] < failed@[l],
                self.listeners@.len() == old(self).listeners@.len(),
                forall|j: int|
                    0 <= j < i ==> self.listeners@[j]@ == old(self).listeners@[j]@.push(event@),
                forall|j: int|
                    i <= j < self.listeners@.len() ==> self.listeners@[j]@ == old(
                        self,
                    ).listeners@[j]@,
            decreases self.listeners@.len() - i,
        {
            let listener = &mut self.listeners[i];
            let delivered = listener.deliver(event);
            if !delivered {
                failed.push(i);
            }
            i = i + 1;
        }
        assert forall|j: int| 0 <= j < self@.len() implies self@[j] == old(self)@[j] + seq![
            event@,
        ] by {
            assert(old(self)@[j].push(event@) =~= old(self)@[j] + seq![event@]);
        }
        assert(self@ =~= extended(old(self)@, seq![event@]));
        failed
    }
}

} // verus!
