//! The event channel: owned events, queued in arrival order.

use vstd::prelude::*;

use crate::handle::ClientHandle;

verus! {

/// An owned notification: the connection it concerns and a copy of the bytes
/// that arrived on it. The byte copy is what isolates the consumer from the
/// foreign buffer, whose validity ends when the trampoline returns.
pub struct Event {
    /// The connection the bytes arrived on.
    pub handle: ClientHandle,
    /// An owned copy of the received bytes.
    pub data: Vec<u8>,
}

/// The mathematical value of an event: the connection token and the byte
/// sequence.
pub struct EventView {
    /// The raw connection token.
    pub token: usize,
    /// The received bytes.
    pub data: Seq<u8>,
}

impl View for Event {
    type V = EventView;

    open spec fn view(&self) -> EventView {
        EventView { token: self.handle.token_spec(), data: self.data@ }
    }
}

/// A first-in, first-out queue of owned events.
///
/// This is the channel between the trampoline (the producer) and the dispatch
/// loop (the consumer): `send` appends at the back, `recv` takes from the
/// front, so events come out in exactly the order they were put in.
pub struct EventQueue {
    items: Vec<Event>,
}

impl View for EventQueue {
    type V = Seq<EventView>;

    closed spec fn view(&self) -> Seq<EventView> {
        self.items@.map_values(|e: Event| e@)
    }
}

impl EventQueue {
    /// Creates an empty queue.
    pub fn new() -> (q: EventQueue)
        ensures
            q@ =~= Seq::<EventView>::empty(),
    {
        EventQueue { items: Vec::new() }
    }

    /// Appends an event at the back of the queue.
    pub fn send(&mut self, e: Event)
        ensures
            final(self)@ =~= old(self)@.push(e@),
    {
        self.items.push(e);
    }

    /// Takes the oldest event, or returns `None` when the queue is empty.
    pub fn recv(&mut self) -> (r: Option<Event>)
        ensures
            old(self)@.len() == 0 ==> r is None && final(self)@ == old(self)@,
            old(self)@.len() > 0 ==> (r matches Some(e) && e@ == old(self)@[0] && final(self)@
                =~= old(self)@.drop_first()),
    {
        if self.items.len() == 0 {
            None
        } else {
            let e = self.items.remove(0);
            Some(e)
        }
    }

    /// The number of events waiting in the queue.
    pub fn len(&self) -> (n: usize)
        ensures
            n == self@.len(),
    {
        self.items.len()
    }
}

} // verus!
