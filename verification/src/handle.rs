//! A type-safe, non-owning reference to a foreign connection object.

use vstd::prelude::*;

verus! {

/// A non-owning identifier for a connection held by the foreign core.
///
/// The wrapped token is an address-sized value supplied by the foreign core
/// with each notification. This crate never dereferences it; it is only
/// carried through to the user handler, which may pass it back to the foreign
/// core while the core still considers the connection valid.
#[derive(Clone, Copy, Debug, PartialEq, Eq, Structural)]
pub struct ClientHandle {
    token: usize,
}

impl ClientHandle {
    /// The wrapped token, as contracts speak of it.
    pub closed spec fn token_spec(&self) -> usize {
        self.token
    }

    /// Creates a new type-safe client handle from the foreign core's raw token.
    pub fn new(token: usize) -> (h: ClientHandle)
        ensures
            h.token_spec() == token,
    {
        ClientHandle { token }
    }

    /// Returns the raw token, for handing back to the foreign core.
    pub fn token(&self) -> (t: usize)
        ensures
            t == self.token_spec(),
    {
        self.token
    }
}

} // verus!
