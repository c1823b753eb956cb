//! HouseChat: a chat relay for the local network.
//!
//! Clients find the relay by a UDP broadcast, sign in over TCP with a user
//! name and a password, and exchange chat messages as lines of JSON. This
//! crate holds the rules of that exchange: the wire format, the discovery
//! handshake, the life of a connection on the relay, and the client's
//! handling of keys and network events. Sockets, the terminal and the
//! scheduler are left to the program around it.

pub mod address;
pub mod client_model;
pub mod comms;
pub mod discovery;
pub mod id;
pub mod json;
pub mod networking;
pub mod protocol;
pub mod relay;
pub mod session;
pub mod text;
pub mod ui;

use vstd::prelude::*;

verus! {

/// UDP port on which the relay answers discovery requests.
pub const DISCOVERY_PORT: u16 = 8081;

/// TCP port on which the relay accepts chat connections.
pub const SERVER_PORT: u16 = 8080;

/// Number of messages the relay's bus keeps for a receiver that lags behind.
pub const SERVER_CAPACITY: usize = 10;

/// The name under which the relay announces who joined and who left.
pub const SERVER_NAME: &'static str = "HouseChat";

} // verus!
