//! The relay's front door.
//!
//! The relay listens on every interface, on the port of the chat service.
//! Each connection that it accepts gets a session of its own, so that what
//! goes wrong on one connection stays there. A shutdown signal ends the
//! accepting; sessions that are still running are left to themselves.

use vstd::prelude::*;

use crate::address::SocketAddress;
use crate::session::{fresh_session, server_socket, Session};
use crate::SERVER_PORT;

verus! {

/// What happened at the listener.
#[derive(Clone, Copy, Debug, PartialEq, Eq, Structural)]
pub enum RelayEvent {
    /// A client connected from this address.
    Accepted(SocketAddress),
    /// Accepting a connection failed.
    AcceptFailed,
    /// The process was asked to shut down.
    Shutdown,
}

/// What the relay does next.
#[derive(Debug, PartialEq, Eq)]
pub enum RelayAction {
    /// Run this session beside the others, on a subscription to the bus
    /// taken now, and go on accepting.
    Spawn(Session),
    /// Go on accepting.
    Continue,
    /// Stop accepting and return.
    Stop,
}

/// The address on which the relay listens.
pub fn listen_address() -> (r: SocketAddress)
    ensures
        r == server_socket(),
{
    SocketAddress::new(0, 0, 0, 0, SERVER_PORT)
}

/// Decides what follows an event at the listener.
///
/// A connection gets a fresh session that waits for credentials; a failure
/// to accept changes nothing; a shutdown stops the relay.
pub fn relay_step(event: RelayEvent) -> (action: RelayAction)
    ensures
        match event {
            RelayEvent::Accepted(addr) => action matches RelayAction::Spawn(session) && session@
                == fresh_session(addr),
            RelayEvent::AcceptFailed => action == RelayAction::Continue,
            RelayEvent::Shutdown => action == RelayAction::Stop,
        },
{
    match event {
        RelayEvent::Accepted(addr) => RelayAction::Spawn(Session::new(addr)),
        RelayEvent::AcceptFailed => RelayAction::Continue,
        RelayEvent::Shutdown => RelayAction::Stop,
    }
}

} // verus!
