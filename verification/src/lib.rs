//! A safe boundary between a foreign-compiled asynchronous network core and
//! application code.
//!
//! The foreign core owns the sockets and the event loop; this crate owns the
//! bridge: it validates the address handed to the core, models the single
//! process-wide registration slot, copies each raw notification into an owned
//! event, queues events in arrival order, and hands them out one at a time for
//! a dispatch thread to deliver to the user handler. Construction is split
//! around the foreign initialization call so that every decision the bridge
//! makes is checked here; the unsafe foreign call itself stays with the
//! embedding program.

pub mod address;
pub mod bridge;
pub mod channel;
pub mod errors;
pub mod handle;
pub mod slot;

pub use bridge::LifecycleState;
pub use bridge::NanoNet;
pub use bridge::PendingInit;
pub use channel::Event;
pub use channel::EventQueue;
pub use channel::EventView;
pub use errors::NanoNetError;
pub use handle::ClientHandle;
pub use slot::RegistrationSlot;
