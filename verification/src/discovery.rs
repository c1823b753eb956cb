//! Discovery: how a client finds the relay on a network it knows nothing
//! about.
//!
//! The client broadcasts one datagram with a fixed payload to the discovery
//! port. The relay answers that payload, and no other, with the text of the
//! address on which it accepts chat connections. The client waits five
//! seconds for one answer.

use vstd::prelude::*;
use vstd::slice::*;
use vstd::string::*;
use vstd::utf8::*;

use crate::address::{
    address_bytes, lemma_address_round_trip, parse_address, parse_socket_address, SocketAddress,
};
use crate::comms::{Event, EventView};
use crate::{DISCOVERY_PORT, SERVER_PORT};

verus! {

/// Seconds a client waits for an answer to its discovery request.
pub const DISCOVERY_TIMEOUT_SECS: u64 = 5;

/// The largest datagram that either side reads, in bytes.
pub const DATAGRAM_CAPACITY: usize = 1024;

/// The payload of a discovery request.
pub const DISCOVERY_MESSAGE: [u8; 27] = [
    72, 79, 85, 83, 69, 95, 67, 72, 65, 84, 95, 83, 69, 82, 86, 69, 82, 95, 68, 73, 83, 67, 79, 86,
    69, 82, 89,
];

/// The host to which a discovery request is sent: the broadcast address.
pub open spec fn broadcast_target() -> SocketAddress {
    SocketAddress { a: 255, b: 255, c: 255, d: 255, port: DISCOVERY_PORT }
}

/// The address that the relay makes known when its host is `a.b.c.d`: that
/// host and the port of the chat service.
pub open spec fn advertised(host: (u8, u8, u8, u8)) -> SocketAddress {
    SocketAddress { a: host.0, b: host.1, c: host.2, d: host.3, port: SERVER_PORT }
}

/// The answer, if any, that a relay at `server` gives to `datagram`.
pub open spec fn reply_to(datagram: Seq<u8>, server: SocketAddress) -> Option<Seq<u8>> {
    if datagram == DISCOVERY_MESSAGE@ {
        Some(address_bytes(server))
    } else {
        None
    }
}

/// `a` and `b` hold the same bytes.
pub fn same_bytes(a: &[u8], b: &[u8]) -> (r: bool)
    ensures
        r == (a@ == b@),
{
    if a.len() != b.len() {
        return false;
    }
    let mut i: usize = 0;
    while i < a.len()
        invariant
            i <= a.len(),
            a.len() == b.len(),
            forall|j: int| 0 <= j < i ==> a@[j] == b@[j],
        decreases a.len() - i,
    {
        if a[i] != b[i] {
            return false;
        }
        i = i + 1;
    }
    assert(a@ =~= b@);
    true
}

/// Why the relay cannot answer discovery requests. Each of these ends the
/// relay: a relay that cannot be found is of no use.
#[derive(Clone, Copy, Debug, PartialEq, Eq, Structural)]
pub enum ResponderError {
    /// The discovery port could not be bound.
    Bind,
    /// The host has no address on the local network.
    AddrNotAvailable,
    /// Receiving a datagram failed.
    Receive,
    /// Sending an answer failed.
    Send,
}

/// What happened on the discovery socket.
#[derive(Debug, PartialEq, Eq)]
pub enum ResponderEvent {
    /// A datagram with this payload arrived.
    Datagram(Vec<u8>),
    /// Receiving failed.
    ReceiveFailed,
    /// Sending an answer failed.
    SendFailed,
}

/// What the responder does next.
#[derive(Debug, PartialEq, Eq)]
pub enum ResponderAction {
    /// Send this payload back to where the datagram came from, and go on
    /// listening.
    Reply(Vec<u8>),
    /// Send nothing, and go on listening.
    Listen,
    /// Give up, for this reason.
    Stop(ResponderError),
}

/// The relay's side of discovery.
#[derive(Clone, Copy, Debug, PartialEq, Eq, Structural)]
pub struct Responder {
    /// The address that is made known to clients.
    pub server: SocketAddress,
}

impl Responder {
    /// Starts the responder of a relay on the host `local_host`.
    ///
    /// `bound` says whether the discovery port could be bound; `local_host`
    /// is the host's address on the local network, if it could be found. The
    /// responder starts only if both are there; else the error names the one
    /// that is missing, the port before the address.
    pub fn start(bound: bool, local_host: Option<(u8, u8, u8, u8)>) -> (r: Result<
        Responder,
        ResponderError,
    >)
        ensures
            r == if !bound {
                Err::<Responder, ResponderError>(ResponderError::Bind)
            } else {
                match local_host {
                    Some(host) => Ok::<Responder, ResponderError>(
                        Responder { server: advertised(host) },
                    ),
                    None => Err::<Responder, ResponderError>(ResponderError::AddrNotAvailable),
                }
            },
    {
        if !bound {
            return Err(ResponderError::Bind);
        }
        match local_host {
            Some(host) => Ok(
                Responder {
                    server: SocketAddress::new(host.0, host.1, host.2, host.3, SERVER_PORT),
                },
            ),
            None => Err(ResponderError::AddrNotAvailable),
        }
    }

    /// The payload to send back to the sender of `datagram`, or `None` if
    /// the datagram is to be passed over in silence.
    ///
    /// Exactly the discovery request is answered, and the answer is the text
    /// of the relay's address, which a client reads back as that address.
    pub fn reply(&self, datagram: &[u8]) -> (r: Option<Vec<u8>>)
        ensures
            r is Some <==> datagram@ == DISCOVERY_MESSAGE@,
            r is Some ==> reply_to(datagram@, self.server) == Some(r->0@),
            r is None ==> reply_to(datagram@, self.server) is None,
            r is Some ==> parse_address(r->0@) == Some(self.server),
    {
        if same_bytes(datagram, DISCOVERY_MESSAGE.as_slice()) {
            proof {
                lemma_address_round_trip(self.server);
            }
            Some(self.server.to_bytes())
        } else {
            None
        }
    }
}

/// Decides what the responder does on `event`: the discovery request gets
/// its one answer, any other datagram gets none, and a failure to receive
/// or to send ends the responder.
pub fn run_discovery_server(responder: &Responder, event: ResponderEvent) -> (action:
    ResponderAction)
    ensures
        match event {
            ResponderEvent::Datagram(payload) => match reply_to(payload@, responder.server) {
                Some(bytes) => action matches ResponderAction::Reply(reply) && reply@ == bytes,
                None => action == ResponderAction::Listen,
            },
            ResponderEvent::ReceiveFailed => action == ResponderAction::Stop(
                ResponderError::Receive,
            ),
            ResponderEvent::SendFailed => action == ResponderAction::Stop(ResponderError::Send),
        },
{
    match event {
        ResponderEvent::Datagram(payload) => match responder.reply(payload.as_slice()) {
            Some(reply) => ResponderAction::Reply(reply),
            None => ResponderAction::Listen,
        },
        ResponderEvent::ReceiveFailed => ResponderAction::Stop(ResponderError::Receive),
        ResponderEvent::SendFailed => ResponderAction::Stop(ResponderError::Send),
    }
}

/// What a client sends to find the relay.
#[derive(Debug, PartialEq, Eq)]
pub struct Probe {
    /// The payload of the datagram.
    pub payload: Vec<u8>,
    /// Where the datagram goes: to every host of the local network, on the
    /// discovery port.
    pub target: SocketAddress,
    /// How many seconds to wait for an answer.
    pub timeout_secs: u64,
}

/// How a probe ended.
#[derive(Debug, PartialEq, Eq)]
pub enum ProbeOutcome {
    /// A datagram came back; this is its payload.
    Reply(Vec<u8>),
    /// Receiving failed; the text is the network's word for why.
    Failed(String),
    /// No datagram came within the time allowed.
    TimedOut,
}

/// Why discovery failed.
#[derive(Debug, PartialEq, Eq)]
pub enum DiscoveryError {
    /// No answer came within the time allowed.
    Timeout,
    /// The network reported an error; the text says which.
    Transport(String),
    /// The answer is not the text of a socket address.
    ReplyMalformed,
}

/// The sentence for a discovery error.
pub open spec fn describe_error(e: DiscoveryError) -> Seq<char> {
    match e {
        DiscoveryError::Timeout => "Server discovery timed out: deadline has elapsed"@,
        DiscoveryError::Transport(text) => text@,
        DiscoveryError::ReplyMalformed => "invalid socket address syntax"@,
    }
}

/// The event that tells the screen how discovery ended.
pub open spec fn discovery_event(r: Result<SocketAddress, DiscoveryError>) -> EventView {
    match r {
        Ok(addr) => EventView::ServerFound(addr),
        Err(e) => EventView::Error("Server discovery failed: "@ + describe_error(e)),
    }
}

impl DiscoveryError {
    /// A sentence for the screen.
    pub fn describe(&self) -> (r: String)
        ensures
            r@ == describe_error(*self),
    {
        match self {
            DiscoveryError::Timeout => String::from_str(
                "Server discovery timed out: deadline has elapsed",
            ),
            DiscoveryError::Transport(text) => text.clone(),
            DiscoveryError::ReplyMalformed => String::from_str("invalid socket address syntax"),
        }
    }
}

/// The probe that a client sends: the discovery request, broadcast to the
/// discovery port, with five seconds to wait.
pub fn discovery_probe() -> (r: Probe)
    ensures
        r.payload@ == DISCOVERY_MESSAGE@,
        r.target == broadcast_target(),
        r.timeout_secs == DISCOVERY_TIMEOUT_SECS,
{
    let mut payload: Vec<u8> = Vec::new();
    let mut i: usize = 0;
    while i < 27
        invariant
            i <= 27,
            payload@ == DISCOVERY_MESSAGE@.take(i as int),
        decreases 27 - i,
    {
        payload.push(DISCOVERY_MESSAGE[i]);
        i = i + 1;
        assert(payload@ =~= DISCOVERY_MESSAGE@.take(i as int));
    }
    assert(DISCOVERY_MESSAGE@.take(27) =~= DISCOVERY_MESSAGE@);
    Probe {
        payload,
        target: SocketAddress::new(255, 255, 255, 255, DISCOVERY_PORT),
        timeout_secs: DISCOVERY_TIMEOUT_SECS,
    }
}

/// Reads the outcome of a probe.
///
/// A reply that is the text of an address gives that address; any other
/// reply is [`DiscoveryError::ReplyMalformed`]; a failure to receive is
/// [`DiscoveryError::Transport`] with the network's text; no reply in time
/// is [`DiscoveryError::Timeout`]. Nothing is tried a second time.
pub fn find_server(outcome: ProbeOutcome) -> (r: Result<SocketAddress, DiscoveryError>)
    ensures
        r == match outcome {
            ProbeOutcome::Reply(payload) => match parse_address(payload@) {
                Some(addr) => Ok::<SocketAddress, DiscoveryError>(addr),
                None => Err::<SocketAddress, DiscoveryError>(DiscoveryError::ReplyMalformed),
            },
            ProbeOutcome::Failed(text) => Err::<SocketAddress, DiscoveryError>(
                DiscoveryError::Transport(text),
            ),
            ProbeOutcome::TimedOut => Err::<SocketAddress, DiscoveryError>(DiscoveryError::Timeout),
        },
{
    match outcome {
        ProbeOutcome::Reply(payload) => match parse_socket_address(payload.as_slice()) {
            Some(addr) => Ok(addr),
            None => Err(DiscoveryError::ReplyMalformed),
        },
        ProbeOutcome::Failed(text) => Err(DiscoveryError::Transport(text)),
        ProbeOutcome::TimedOut => Err(DiscoveryError::Timeout),
    }
}

/// Turns the end of discovery into the event for the screen: the relay's
/// address where it was found, and else the error, introduced by
/// `Server discovery failed: `.
pub fn discovery_task(result: Result<SocketAddress, DiscoveryError>) -> (event: Event)
    ensures
        event@ == discovery_event(result),
{
    match result {
        Ok(addr) => Event::ServerFound(addr),
        Err(e) => {
            let mut text = String::from_str("Server discovery failed: ");
            let reason = e.describe();
            text.append(reason.as_str());
            Event::Error(text)
        },
    }
}

} // verus!
