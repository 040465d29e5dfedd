//! The process-wide registration state read on every trampoline invocation.
//!
//! The slot records whether a channel producer is currently registered, and
//! counts the notifications that arrived while none was. The foreign calling
//! convention gives the trampoline no way to refuse a notification, so a
//! notification without a producer is dropped silently; the counter is the
//! internal diagnostic that makes those drops observable.

use vstd::prelude::*;

verus! {

/// Bumps a drop counter without ever overflowing.
pub open spec fn saturating_inc(n: u64) -> u64 {
    if n == u64::MAX {
        n
    } else {
        (n + 1) as u64
    }
}

/// Holds at most one active event-channel producer registration.
///
/// The slot is written once per construction and read on every notification;
/// a reader sees either "no producer" or a fully registered one, never a
/// partial state, because registration is a single whole-value update.
pub struct RegistrationSlot {
    registered: bool,
    dropped: u64,
}

impl RegistrationSlot {
    /// Whether a producer is currently registered.
    pub closed spec fn is_registered(&self) -> bool {
        self.registered
    }

    /// How many notifications arrived while no producer was registered.
    pub closed spec fn dropped_count(&self) -> u64 {
        self.dropped
    }

    /// Creates an empty slot: no producer, nothing dropped yet.
    pub fn new() -> (s: RegistrationSlot)
        ensures
            !s.is_registered(),
            s.dropped_count() == 0,
    {
        RegistrationSlot { registered: false, dropped: 0 }
    }

    /// Registers the channel producer. Overwrites any earlier registration.
    pub fn register(&mut self)
        ensures
            final(self).is_registered(),
            final(self).dropped_count() == old(self).dropped_count(),
    {
        self.registered = true;
    }

    /// Removes the current registration, if any; later notifications are
    /// dropped and counted.
    pub fn clear(&mut self)
        ensures
            !final(self).is_registered(),
            final(self).dropped_count() == old(self).dropped_count(),
    {
        self.registered = false;
    }

    /// Whether a producer is currently registered.
    pub fn registered(&self) -> (b: bool)
        ensures
            b == self.is_registered(),
    {
        self.registered
    }

    /// Records one notification that could not be delivered.
    pub fn record_dropped(&mut self)
        ensures
            final(self).is_registered() == old(self).is_registered(),
            final(self).dropped_count() == saturating_inc(old(self).dropped_count()),
    {
        if self.dropped < u64::MAX {
            self.dropped = self.dropped + 1;
        }
    }

    /// The number of notifications dropped for want of a producer.
    pub fn dropped(&self) -> (n: u64)
        ensures
            n == self.dropped_count(),
    {
        self.dropped
    }
}

} // verus!
