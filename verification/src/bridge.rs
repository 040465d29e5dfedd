//! The callback bridge and its lifecycle.
//!
//! Construction is split at the one call this crate cannot make itself, the
//! foreign core's initialization primitive. [`NanoNet::new`] validates the
//! address and produces the arguments for that call; the embedding program
//! makes the call and hands the returned status to [`PendingInit::complete`],
//! which either yields a ready bridge or an error — never a half-built state.
//! On the ready bridge, [`NanoNet::notify`] is the safe core of the trampoline
//! the foreign core invokes, and [`NanoNet::next_event`] is one step of the
//! dispatch loop that feeds the user handler.

use vstd::prelude::*;
use vstd::slice::slice_to_vec;
use vstd::string::StringSliceAdditionalSpecFns;

use crate::address::encode_address;
use crate::channel::Event;
use crate::channel::EventQueue;
use crate::channel::EventView;
use crate::errors::NanoNetError;
use crate::handle::ClientHandle;
use crate::slot::saturating_inc;
use crate::slot::RegistrationSlot;

verus! {

/// Where the bridge stands in its life: constructed and ready to run, running
/// under the foreign core's accept loop, or shut down.
#[derive(Clone, Copy, Debug, PartialEq, Eq, Structural)]
pub enum LifecycleState {
    /// Construction succeeded; the foreign core has not been started yet.
    Ready,
    /// The foreign core's start primitive has been invoked.
    Running,
    /// The foreign core has been asked to stop; the producer registration is
    /// gone and remaining queued events may still be drained.
    Shutdown,
}

/// The event a notification turns into, as contracts speak of it.
pub open spec fn event_view(token: usize, data: Seq<u8>) -> EventView {
    EventView { token, data }
}

/// A validated construction request: the address in foreign-compatible form
/// and the port, ready to be passed to the foreign core's initialization
/// primitive.
pub struct PendingInit {
    c_addr: Vec<u8>,
    port: u16,
}

impl PendingInit {
    /// The encoded address, terminator included.
    pub closed spec fn foreign_addr_spec(&self) -> Seq<u8> {
        self.c_addr@
    }

    /// The port the foreign core is asked to bind.
    pub closed spec fn foreign_port_spec(&self) -> u16 {
        self.port
    }

    /// The encoded address is exactly one terminator-ended byte string: it is
    /// nonempty, ends in the terminator, and contains no other terminator.
    pub open spec fn wf(&self) -> bool {
        &&& self.foreign_addr_spec().len() > 0
        &&& self.foreign_addr_spec().last() == 0u8
        &&& forall|j: int|
            0 <= j < self.foreign_addr_spec().len() - 1 ==> self.foreign_addr_spec()[j] != 0u8
    }

    /// The encoded address bytes, for the foreign call.
    pub fn foreign_addr(&self) -> (a: &[u8])
        ensures
            a@ == self.foreign_addr_spec(),
    {
        self.c_addr.as_slice()
    }

    /// The port, for the foreign call.
    pub fn foreign_port(&self) -> (p: u16)
        ensures
            p == self.foreign_port_spec(),
    {
        self.port
    }

    /// Finishes construction from the status the foreign initialization
    /// primitive returned: zero yields a ready bridge with a registered
    /// producer, an empty channel and nothing delivered or dropped yet; any
    /// other status yields `InitializationError` carrying that status, and no
    /// bridge — so no registration and no consumer — exists at all.
    pub fn complete(self, status: i32) -> (r: Result<NanoNet, NanoNetError>)
        ensures
            status == 0 <==> r is Ok,
            status != 0 ==> (r matches Err(e) && e == NanoNetError::InitializationError(status)),
            r matches Ok(n) ==> {
                &&& n.wf()
                &&& n.lifecycle() is Ready
                &&& n.has_producer()
                &&& n.pending().len() == 0
                &&& n.enqueued_log().len() == 0
                &&& n.delivered_log().len() == 0
                &&& n.dropped_count() == 0
            },
    {
        if status != 0 {
            return Err(NanoNetError::InitializationError(status));
        }
        let mut slot = RegistrationSlot::new();
        slot.register();
        let net = NanoNet {
            slot,
            queue: EventQueue::new(),
            state: LifecycleState::Ready,
            enqueued: Ghost(Seq::empty()),
            delivered: Ghost(Seq::empty()),
        };
        Ok(net)
    }
}

/// The bridge between the foreign core and the user handler.
///
/// It holds the registration slot the trampoline reads, the event channel, the
/// lifecycle state, and — as ghost history — the full order in which events
/// were enqueued and delivered, which is what the delivery-order law is stated
/// over.
pub struct NanoNet {
    slot: RegistrationSlot,
    queue: EventQueue,
    state: LifecycleState,
    enqueued: Ghost<Seq<EventView>>,
    delivered: Ghost<Seq<EventView>>,
}

impl NanoNet {
    /// Every event ever accepted from the trampoline, in arrival order.
    pub closed spec fn enqueued_log(&self) -> Seq<EventView> {
        self.enqueued@
    }

    /// Every event handed out for delivery to the handler, in that order.
    pub closed spec fn delivered_log(&self) -> Seq<EventView> {
        self.delivered@
    }

    /// The events accepted but not yet handed out, in arrival order.
    pub closed spec fn pending(&self) -> Seq<EventView> {
        self.queue@
    }

    /// Whether the channel producer is registered in the slot.
    pub closed spec fn has_producer(&self) -> bool {
        self.slot.is_registered()
    }

    /// How many notifications were dropped for want of a producer.
    pub closed spec fn dropped_count(&self) -> u64 {
        self.slot.dropped_count()
    }

    /// Where the bridge stands in its life.
    pub closed spec fn lifecycle(&self) -> LifecycleState {
        self.state
    }

    /// The bridge's bookkeeping invariant: what was enqueued is what was
    /// delivered followed by what is still pending.
    pub closed spec fn wf(&self) -> bool {
        self.enqueued@ == self.delivered@ + self.queue@
    }

    /// Begins construction: validates that `addr` can be handed to the foreign
    /// core and, if so, returns the request for the foreign initialization
    /// call. Fails with `AddressEncodingError`, and only with it, exactly when
    /// `addr` contains an embedded terminator byte — and then no foreign call
    /// can be made at all, since only a returned request carries the call's
    /// arguments.
    pub fn new(addr: &str, port: u16) -> (r: Result<PendingInit, NanoNetError>)
        ensures
            r is Ok <==> !addr.spec_bytes().contains(0u8),
            r matches Ok(p) ==> {
                &&& p.wf()
                &&& p.foreign_addr_spec() == addr.spec_bytes().push(0u8)
                &&& p.foreign_port_spec() == port
            },
            r matches Err(e) ==> e == NanoNetError::AddressEncodingError,
    {
        match encode_address(addr) {
            Ok(c_addr) => {
                let p = PendingInit { c_addr, port };
                Ok(p)
            },
            Err(e) => Err(e),
        }
    }

    /// The safe core of the trampoline: turns one raw notification into an
    /// owned event and enqueues it.
    ///
    /// The bytes are copied before the call returns, so the event is
    /// independent of the foreign buffer from then on: the enqueued event
    /// holds exactly the bytes `data` carried at the moment of the call. When
    /// no producer is registered the notification is dropped silently — the
    /// queue, the logs and the lifecycle are untouched and only the drop
    /// counter moves — since the foreign calling convention offers no way to
    /// refuse it.
    pub fn notify(&mut self, token: usize, data: &[u8])
        requires
            old(self).wf(),
        ensures
            final(self).wf(),
            final(self).lifecycle() == old(self).lifecycle(),
            final(self).has_producer() == old(self).has_producer(),
            final(self).delivered_log() == old(self).delivered_log(),
            old(self).has_producer() ==> {
                &&& final(self).pending() == old(self).pending().push(event_view(token, data@))
                &&& final(self).enqueued_log() == old(self).enqueued_log().push(
                    event_view(token, data@),
                )
                &&& final(self).dropped_count() == old(self).dropped_count()
            },
            !old(self).has_producer() ==> {
                &&& final(self).pending() == old(self).pending()
                &&& final(self).enqueued_log() == old(self).enqueued_log()
                &&& final(self).dropped_count() == saturating_inc(old(self).dropped_count())
            },
    {
        if self.slot.registered() {
            let handle = ClientHandle::new(token);
            let owned: Vec<u8> = slice_to_vec(data);
            let e = Event { handle, data: owned };
            let ghost ev = e@;
            self.queue.send(e);
            self.enqueued = Ghost(self.enqueued@.push(ev));
        } else {
            self.slot.record_dropped();
        }
    }

    /// One step of the dispatch loop: takes the oldest pending event, records
    /// it as delivered, and returns it for the handler. Returns `None`, and
    /// changes nothing, when no event is pending.
    pub fn next_event(&mut self) -> (r: Option<Event>)
        requires
            old(self).wf(),
        ensures
            final(self).wf(),
            final(self).lifecycle() == old(self).lifecycle(),
            final(self).has_producer() == old(self).has_producer(),
            final(self).dropped_count() == old(self).dropped_count(),
            final(self).enqueued_log() == old(self).enqueued_log(),
            old(self).pending().len() == 0 ==> {
                &&& r is None
                &&& final(self).pending() == old(self).pending()
                &&& final(self).delivered_log() == old(self).delivered_log()
            },
            old(self).pending().len() > 0 ==> {
                &&& r matches Some(e) && e@ == old(self).pending()[0]
                &&& final(self).pending() == old(self).pending().drop_first()
                &&& final(self).delivered_log() == old(self).delivered_log().push(
                    old(self).pending()[0],
                )
            },
    {
        let r = self.queue.recv();
        match r {
            Some(e) => {
                self.delivered = Ghost(self.delivered@.push(e@));
                proof {
                    assert(self.enqueued@ =~= self.delivered@ + self.queue@);
                }
                Some(e)
            },
            None => None,
        }
    }

    /// Marks the bridge as running. The embedding program then hands control
    /// to the foreign core's start primitive, which blocks; that call is
    /// outside this crate.
    pub fn run(&mut self)
        requires
            old(self).lifecycle() is Ready || old(self).lifecycle() is Running,
        ensures
            final(self).lifecycle() is Running,
            final(self).has_producer() == old(self).has_producer(),
            final(self).pending() == old(self).pending(),
            final(self).enqueued_log() == old(self).enqueued_log(),
            final(self).delivered_log() == old(self).delivered_log(),
            final(self).dropped_count() == old(self).dropped_count(),
            final(self).wf() == old(self).wf(),
    {
        self.state = LifecycleState::Running;
    }

    /// Requests termination: clears the producer registration, so every later
    /// notification is dropped and counted, and marks the bridge shut down.
    /// Events already accepted stay pending and may still be drained. The
    /// embedding program then asks the foreign core to stop; that call is
    /// outside this crate.
    pub fn shutdown(&mut self)
        requires
            old(self).lifecycle() is Running,
        ensures
            final(self).lifecycle() is Shutdown,
            !final(self).has_producer(),
            final(self).pending() == old(self).pending(),
            final(self).enqueued_log() == old(self).enqueued_log(),
            final(self).delivered_log() == old(self).delivered_log(),
            final(self).dropped_count() == old(self).dropped_count(),
            final(self).wf() == old(self).wf(),
    {
        self.state = LifecycleState::Shutdown;
        self.slot.clear();
    }

    /// Where the bridge stands in its life.
    pub fn state(&self) -> (s: LifecycleState)
        ensures
            s == self.lifecycle(),
    {
        self.state
    }

    /// Whether the channel producer is registered.
    pub fn producer_registered(&self) -> (b: bool)
        ensures
            b == self.has_producer(),
    {
        self.slot.registered()
    }

    /// How many notifications were dropped for want of a producer.
    pub fn dropped_notifications(&self) -> (n: u64)
        ensures
            n == self.dropped_count(),
    {
        self.slot.dropped()
    }

    /// How many events are pending delivery.
    pub fn pending_len(&self) -> (n: usize)
        ensures
            n == self.pending().len(),
    {
        self.queue.len()
    }
}

/// Delivery is first-in, first-out: on every well-formed bridge, the events
/// already handed to the handler are exactly the oldest enqueued ones, in
/// enqueue order. In particular, of any two delivered events, the one enqueued
/// first was delivered first.
pub proof fn lemma_fifo_delivery(net: &NanoNet)
    requires
        net.wf(),
    ensures
        net.delivered_log() == net.enqueued_log().take(net.delivered_log().len() as int),
        net.pending() == net.enqueued_log().skip(net.delivered_log().len() as int),
        net.pending().len() == 0 ==> net.delivered_log() == net.enqueued_log(),
        forall|i: int|
            0 <= i < net.delivered_log().len() ==> net.delivered_log()[i] == net.enqueued_log()[i],
{
    assert(net.delivered_log() =~= net.enqueued_log().take(net.delivered_log().len() as int));
    assert(net.pending() =~= net.enqueued_log().skip(net.delivered_log().len() as int));
}

} // verus!
