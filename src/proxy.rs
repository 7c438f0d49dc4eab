//! The state of an application's reverse proxy: the listener it accepts on,
//! the backend address each newly accepted connection is forwarded to, and
//! whether an accept loop is running on it.

use vstd::prelude::*;
use vstd::string::*;

use crate::text::{decimal, push_decimal};

verus! {

/// The loopback address of a backend listening on `port`.
pub open spec fn address_of(port: u16) -> Seq<char> {
    "127.0.0.1:"@ + decimal(port as nat)
}

/// The loopback address of a backend listening on `port`.
pub fn backend_address(port: u16) -> (r: String)
    ensures
        r@ == address_of(port),
{
    let mut s = String::from_str("127.0.0.1:");
    push_decimal(&mut s, port);
    s
}

/// A reverse proxy. The listener is bound once, for the proxy's whole life;
/// `route` may change any number of times while it runs and only affects
/// connections accepted afterwards.
pub struct Proxy<L> {
    pub listener: L,
    pub route: String,
    pub is_listening: bool,
}

impl<L> Proxy<L> {
    /// A proxy on the bound `listener`, forwarding to the backend on
    /// `server_port`, with no accept loop running yet.
    pub fn new(listener: L, server_port: u16) -> (r: Self)
        ensures
            r.listener == listener,
            r.route@ == address_of(server_port),
            !r.is_listening,
    {
        Proxy { listener, route: backend_address(server_port), is_listening: false }
    }

    /// Forwards connections accepted from now on to the backend on
    /// `server_port`; the listener and the listening flag stay as they are.
    pub fn reroute_to(&mut self, server_port: u16)
        ensures
            final(self).route@ == address_of(server_port),
            final(self).listener == old(self).listener,
            final(self).is_listening == old(self).is_listening,
    {
        self.route = backend_address(server_port);
    }

    /// Records whether an accept loop runs on this proxy.
    pub fn set_is_listening(&mut self, b: bool)
        ensures
            final(self).is_listening == b,
            final(self).route == old(self).route,
            final(self).listener == old(self).listener,
    {
        self.is_listening = b;
    }

    /// Whether the control loop must start an accept loop for this proxy.
    pub fn needs_accept_loop(&self) -> (r: bool)
        ensures
            r == !self.is_listening,
    {
        !self.is_listening
    }
}

} // verus!
