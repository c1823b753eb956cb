//! The life of one connection on the relay.
//!
//! A session waits for the client's credentials, then relays: every line
//! from the client becomes a message on the bus under the client's name,
//! and every message from the bus is written to the client. When the
//! session ends after the client signed in, the relay says so on the bus.
//!
//! The session owns no socket and no bus. It is told what happened, as a
//! [`SessionEvent`], and answers with what is to be done, as a list of
//! [`SessionAction`]s in the order in which they are to be carried out.

use vstd::prelude::*;
use vstd::string::*;

use crate::address::SocketAddress;
use crate::client_model::{decoded_credentials, Client, ClientView};
use crate::id::{is_random_id, new_id, SERVER_ID};
use crate::protocol::{decoded_message, wire_text, DecodeError, MessageProtocol, MessageView};
use crate::text::{trim, trimmed};
use crate::{SERVER_NAME, SERVER_PORT};

verus! {

/// Where a session stands.
#[derive(Clone, Copy, Debug, PartialEq, Eq, Structural)]
pub enum SessionState {
    /// The client has connected and not yet signed in.
    AwaitingCredentials,
    /// The client has signed in; messages are relayed.
    Active,
    /// The session is over.
    Closing,
}

/// Why a session ended.
#[derive(Clone, Copy, Debug, PartialEq, Eq, Structural)]
pub enum SessionEnd {
    /// The client closed the connection.
    SocketClosed,
    /// The first line was no credentials.
    CredentialDecodeError(DecodeError),
    /// Reading from the client failed.
    ReadFailed,
    /// Writing to the client failed.
    WriteFailed,
    /// The bus took no message.
    ChannelSendFailure,
}

/// Why nothing came from the bus.
#[derive(Clone, Copy, Debug, PartialEq, Eq, Structural)]
pub enum RecvError {
    /// The bus has no sender left.
    Closed,
    /// The session was too slow and missed this many messages.
    Lagged(u64),
}

/// What happened on a session's socket or on its side of the bus.
#[derive(Debug, PartialEq, Eq)]
pub enum SessionEvent {
    /// A line came from the client.
    Line(String),
    /// The client closed the connection.
    EndOfStream,
    /// Reading from the client failed.
    ReadFailed,
    /// The bus delivered a message, or reported why it delivered none.
    Bus(Result<MessageProtocol, RecvError>),
    /// Writing to the client failed.
    WriteFailed,
    /// The bus took no message.
    PublishFailed,
}

/// A [`SessionEvent`] with its texts as sequences of characters.
pub enum SessionEventView {
    Line(Seq<char>),
    EndOfStream,
    ReadFailed,
    Bus(Result<MessageView, RecvError>),
    WriteFailed,
    PublishFailed,
}

impl View for SessionEvent {
    type V = SessionEventView;

    open spec fn view(&self) -> SessionEventView {
        match *self {
            SessionEvent::Line(t) => SessionEventView::Line(t@),
            SessionEvent::EndOfStream => SessionEventView::EndOfStream,
            SessionEvent::ReadFailed => SessionEventView::ReadFailed,
            SessionEvent::Bus(Ok(m)) => SessionEventView::Bus(Ok(m@)),
            SessionEvent::Bus(Err(e)) => SessionEventView::Bus(Err(e)),
            SessionEvent::WriteFailed => SessionEventView::WriteFailed,
            SessionEvent::PublishFailed => SessionEventView::PublishFailed,
        }
    }
}

/// What a session asks to be done.
#[derive(Debug, PartialEq, Eq)]
pub enum SessionAction {
    /// Hand this message to the bus.
    Publish(MessageProtocol),
    /// Write this line to the client and flush.
    Write(String),
    /// A line from the client was dropped; this is for the log.
    Dropped(DecodeError),
    /// Release the subscription and close the socket.
    Close(SessionEnd),
}

/// A [`SessionAction`] with its texts as sequences of characters.
pub enum SessionActionView {
    Publish(MessageView),
    Write(Seq<char>),
    Dropped(DecodeError),
    Close(SessionEnd),
}

impl View for SessionAction {
    type V = SessionActionView;

    open spec fn view(&self) -> SessionActionView {
        match *self {
            SessionAction::Publish(m) => SessionActionView::Publish(m@),
            SessionAction::Write(t) => SessionActionView::Write(t@),
            SessionAction::Dropped(e) => SessionActionView::Dropped(e),
            SessionAction::Close(end) => SessionActionView::Close(end),
        }
    }
}

/// The views of `actions`.
pub open spec fn actions_view(actions: Seq<SessionAction>) -> Seq<SessionActionView> {
    actions.map_values(|a: SessionAction| a@)
}

/// What a session holds at each point of its life.
#[derive(Debug, PartialEq, Eq)]
pub enum Phase {
    /// The client has connected and not yet signed in.
    AwaitingCredentials,
    /// The client has signed in; this is who it is.
    Active(Client),
    /// The session is over; this is who the client was, if it ever signed
    /// in.
    Closing(Option<Client>),
}

/// A [`Phase`] with its texts as sequences of characters.
pub enum PhaseView {
    AwaitingCredentials,
    Active(ClientView),
    Closing(Option<ClientView>),
}

impl View for Phase {
    type V = PhaseView;

    open spec fn view(&self) -> PhaseView {
        match *self {
            Phase::AwaitingCredentials => PhaseView::AwaitingCredentials,
            Phase::Active(client) => PhaseView::Active(client@),
            Phase::Closing(Some(client)) => PhaseView::Closing(Some(client@)),
            Phase::Closing(None) => PhaseView::Closing(None),
        }
    }
}

/// The state of one connection.
#[derive(Debug, PartialEq, Eq)]
pub struct Session {
    /// The address from which the client is connected.
    pub addr: SocketAddress,
    pub phase: Phase,
}

/// A [`Session`] with its texts as sequences of characters.
pub struct SessionView {
    pub addr: SocketAddress,
    pub phase: PhaseView,
}

impl View for Session {
    type V = SessionView;

    open spec fn view(&self) -> SessionView {
        SessionView { addr: self.addr, phase: self.phase@ }
    }
}

impl SessionView {
    /// Where the session stands.
    pub open spec fn state(self) -> SessionState {
        match self.phase {
            PhaseView::AwaitingCredentials => SessionState::AwaitingCredentials,
            PhaseView::Active(_) => SessionState::Active,
            PhaseView::Closing(_) => SessionState::Closing,
        }
    }

    /// Who the client is or was, if it ever signed in.
    pub open spec fn client(self) -> Option<ClientView> {
        match self.phase {
            PhaseView::AwaitingCredentials => None,
            PhaseView::Active(client) => Some(client),
            PhaseView::Closing(client) => client,
        }
    }
}

/// The address under which the relay itself speaks: every interface, and the
/// port of the chat service.
pub open spec fn server_socket() -> SocketAddress {
    SocketAddress { a: 0, b: 0, c: 0, d: 0, port: SERVER_PORT }
}

/// The relay's announcement with the given text.
pub open spec fn announcement(payload: Seq<char>) -> MessageView {
    MessageView {
        id: SERVER_ID,
        sender_addr: server_socket(),
        sender_username: SERVER_NAME@,
        payload,
    }
}

/// The relay's announcement that `name` has joined.
pub open spec fn join_message(name: Seq<char>) -> MessageView {
    announcement(name + " has joined the chat!"@)
}

/// The relay's announcement that `name` has left.
pub open spec fn leave_message(name: Seq<char>) -> MessageView {
    announcement(name + " has left the chat!"@)
}

/// The message that goes to the bus for a line with the given payload from
/// `client` at `addr`: it carries the identifier, the address and the name
/// of the session's client, whatever the line itself said of them.
pub open spec fn relayed_message(addr: SocketAddress, client: ClientView, payload: Seq<char>) -> MessageView {
    MessageView {
        id: client.id,
        sender_addr: addr,
        sender_username: client.credentials.username,
        payload,
    }
}

/// What ends the session of `client`: the announcement that the client has
/// left, and then the closing.
pub open spec fn leave(addr: SocketAddress, client: ClientView, end: SessionEnd) -> (
    SessionView,
    Seq<SessionActionView>,
) {
    (
        SessionView { addr, phase: PhaseView::Closing(Some(client)) },
        seq![
            SessionActionView::Publish(leave_message(client.credentials.username)),
            SessionActionView::Close(end),
        ],
    )
}

/// What ends a session that nobody signed in on: the closing alone.
pub open spec fn give_up(addr: SocketAddress, end: SessionEnd) -> (
    SessionView,
    Seq<SessionActionView>,
) {
    (SessionView { addr, phase: PhaseView::Closing(None) }, seq![SessionActionView::Close(end)])
}

/// What a session that waits for credentials does on `event`. `fresh` is
/// the identifier that the client gets if it signs in.
///
/// The first line, without the white space at its ends, must be the
/// client's credentials. Anything else ends the session, and nothing is
/// said of it on the bus.
pub open spec fn awaiting_step(addr: SocketAddress, event: SessionEventView, fresh: u128) -> (
    SessionView,
    Seq<SessionActionView>,
) {
    match event {
        SessionEventView::Line(text) => match decoded_credentials(trimmed(text)) {
            Ok(credentials) => (
                SessionView {
                    addr,
                    phase: PhaseView::Active(ClientView { id: fresh, credentials }),
                },
                seq![SessionActionView::Publish(join_message(credentials.username))],
            ),
            Err(e) => give_up(addr, SessionEnd::CredentialDecodeError(e)),
        },
        SessionEventView::EndOfStream => give_up(
            addr,
            SessionEnd::CredentialDecodeError(DecodeError::Malformed),
        ),
        SessionEventView::ReadFailed => give_up(addr, SessionEnd::ReadFailed),
        _ => (SessionView { addr, phase: PhaseView::AwaitingCredentials }, Seq::empty()),
    }
}

/// What an active session does on `event`.
///
/// A line from the client, without the white space at its ends, is read as
/// a message, and its payload goes to the bus under the client's own
/// identifier, address and name; a line that is no message is dropped and
/// ends nothing. A message from the bus is written to the client as a line.
/// The end of the stream and every failure end the session.
pub open spec fn active_step(addr: SocketAddress, client: ClientView, event: SessionEventView) -> (
    SessionView,
    Seq<SessionActionView>,
) {
    let same = SessionView { addr, phase: PhaseView::Active(client) };
    match event {
        SessionEventView::Line(text) => match decoded_message(trimmed(text)) {
            Ok(m) => (
                same,
                seq![SessionActionView::Publish(relayed_message(addr, client, m.payload))],
            ),
            Err(e) => (same, seq![SessionActionView::Dropped(e)]),
        },
        SessionEventView::EndOfStream => leave(addr, client, SessionEnd::SocketClosed),
        SessionEventView::ReadFailed => leave(addr, client, SessionEnd::ReadFailed),
        SessionEventView::Bus(Ok(m)) => (same, seq![SessionActionView::Write(wire_text(m))]),
        SessionEventView::Bus(Err(_)) => (same, Seq::empty()),
        SessionEventView::WriteFailed => leave(addr, client, SessionEnd::WriteFailed),
        SessionEventView::PublishFailed => leave(addr, client, SessionEnd::ChannelSendFailure),
    }
}

/// The next state of a session and what it asks to be done, for each state
/// and event. A session that is over does nothing.
pub open spec fn session_step(s: SessionView, event: SessionEventView, fresh: u128) -> (
    SessionView,
    Seq<SessionActionView>,
) {
    match s.phase {
        PhaseView::AwaitingCredentials => awaiting_step(s.addr, event, fresh),
        PhaseView::Active(client) => active_step(s.addr, client, event),
        PhaseView::Closing(_) => (s, Seq::empty()),
    }
}

/// The session of a client that has just connected from `addr`.
pub open spec fn fresh_session(addr: SocketAddress) -> SessionView {
    SessionView { addr, phase: PhaseView::AwaitingCredentials }
}

/// The state and the actions after a run of events, each with the
/// identifier that was at hand for it. The actions stand in the order of
/// the events that caused them.
pub open spec fn session_run(s: SessionView, events: Seq<(SessionEventView, u128)>) -> (
    SessionView,
    Seq<SessionActionView>,
)
    decreases events.len(),
{
    if events.len() == 0 {
        (s, Seq::empty())
    } else {
        let (mid, done) = session_run(s, events.drop_last());
        let (next, more) = session_step(mid, events.last().0, events.last().1);
        (next, done + more)
    }
}

/// The messages that `actions` hand to the bus, in their order.
pub open spec fn published(actions: Seq<SessionActionView>) -> Seq<MessageView>
    decreases actions.len(),
{
    if actions.len() == 0 {
        Seq::empty()
    } else {
        match actions.last() {
            SessionActionView::Publish(m) => published(actions.drop_last()).push(m),
            _ => published(actions.drop_last()),
        }
    }
}

/// What two lists of actions publish one after the other is what their
/// concatenation publishes.
pub proof fn lemma_published_concat(a: Seq<SessionActionView>, b: Seq<SessionActionView>)
    ensures
        published(a + b) == published(a) + published(b),
    decreases b.len(),
{
    if b.len() == 0 {
        assert(a + b =~= a);
        assert(published(a) + published(b) =~= published(a));
    } else {
        assert((a + b).drop_last() =~= a + b.drop_last());
        assert((a + b).last() == b.last());
        lemma_published_concat(a, b.drop_last());
        match b.last() {
            SessionActionView::Publish(m) => {
                assert(published(a + b) =~= published(a) + published(b));
            },
            _ => {},
        }
    }
}

/// What one step publishes: at most one message, spelled out for each
/// state.
pub proof fn lemma_step_published(s: SessionView, event: SessionEventView, fresh: u128)
    ensures
        ({
            let (next, actions) = session_step(s, event, fresh);
            let p = published(actions);
            &&& next.addr == s.addr
            &&& s.phase matches PhaseView::Closing(_) ==> p.len() == 0 && next == s
            &&& s.phase matches PhaseView::AwaitingCredentials ==> match next.phase {
                PhaseView::AwaitingCredentials => p.len() == 0,
                PhaseView::Active(client) => p == seq![join_message(client.credentials.username)],
                PhaseView::Closing(client) => p.len() == 0 && client is None,
            }
            &&& s.phase matches PhaseView::Active(client) ==> match next.phase {
                PhaseView::AwaitingCredentials => false,
                PhaseView::Active(same) => same == client && p.len() <= 1 && (p.len() == 1 ==> p[0]
                    == relayed_message(s.addr, client, p[0].payload)),
                PhaseView::Closing(who) => who == Some(client) && p == seq![
                    leave_message(client.credentials.username),
                ],
            }
        }),
{
    let (next, actions) = session_step(s, event, fresh);
    if actions.len() == 0 {
    } else if actions.len() == 1 {
        assert(actions.drop_last() =~= Seq::<SessionActionView>::empty());
        assert(published(actions.drop_last()).len() == 0);
        match actions.last() {
            SessionActionView::Publish(m) => {
                assert(published(actions) =~= seq![m]);
            },
            _ => {},
        }
    } else {
        assert(actions.len() == 2);
        let first = actions.drop_last();
        assert(first.len() == 1);
        assert(first.drop_last() =~= Seq::<SessionActionView>::empty());
        assert(published(first.drop_last()).len() == 0);
        assert(first.last() == actions[0]);
        assert(published(first) =~= seq![actions[0]->Publish_0]);
        assert(published(actions) =~= seq![actions[0]->Publish_0]);
    }
}

/// A line that is no message leaves an active session as it is: nothing is
/// published, nothing is closed, and the next line that is a message goes to
/// the bus under the client's name.
pub proof fn lemma_malformed_line_is_dropped(
    s: SessionView,
    bad: Seq<char>,
    good: Seq<char>,
    fresh: u128,
)
    requires
        s.phase is Active,
        decoded_message(trimmed(bad)) is Err,
        decoded_message(trimmed(good)) is Ok,
    ensures
        session_step(s, SessionEventView::Line(bad), fresh) == (
            s,
            seq![SessionActionView::Dropped(decoded_message(trimmed(bad))->Err_0)],
        ),
        session_step(
            session_step(s, SessionEventView::Line(bad), fresh).0,
            SessionEventView::Line(good),
            fresh,
        ) == (
            s,
            seq![
                SessionActionView::Publish(
                    relayed_message(
                        s.addr,
                        s.phase->Active_0,
                        decoded_message(trimmed(good))->Ok_0.payload,
                    ),
                ),
            ],
        ),
{
}

/// No line from the client ends an active session, whatever it holds.
pub proof fn lemma_lines_never_close(s: SessionView, line: Seq<char>, fresh: u128)
    requires
        s.phase is Active,
    ensures
        session_step(s, SessionEventView::Line(line), fresh).0 == s,
{
}

/// An active session writes every message that the bus delivers to its
/// client, as the line of that message, and stays as it is. This holds of
/// the client's own messages as of all others.
pub proof fn lemma_bus_message_is_written(s: SessionView, m: MessageView, fresh: u128)
    requires
        s.phase is Active,
    ensures
        session_step(s, SessionEventView::Bus(Ok(m)), fresh) == (
            s,
            seq![SessionActionView::Write(wire_text(m))],
        ),
{
}

/// What a session publishes over its whole life, from the moment the client
/// connects.
///
/// Before the client has signed in, nothing. From then on, first the
/// announcement that the client has joined, and in between only messages
/// under the client's own identifier, address and name. Once the session is
/// over, the last message is the announcement that the same client has
/// left, and nothing follows it.
pub proof fn lemma_session_is_bracketed(addr: SocketAddress, events: Seq<(SessionEventView, u128)>)
    ensures
        ({
            let (end, actions) = session_run(fresh_session(addr), events);
            let p = published(actions);
            &&& end.addr == addr
            &&& match end.phase {
                PhaseView::AwaitingCredentials => p.len() == 0,
                PhaseView::Closing(None) => p.len() == 0,
                PhaseView::Active(client) => {
                    &&& p.len() >= 1
                    &&& p[0] == join_message(client.credentials.username)
                    &&& forall|i: int|
                        1 <= i < p.len() ==> #[trigger] p[i] == relayed_message(
                            addr,
                            client,
                            p[i].payload,
                        )
                },
                PhaseView::Closing(Some(client)) => {
                    &&& p.len() >= 2
                    &&& p[0] == join_message(client.credentials.username)
                    &&& p.last() == leave_message(client.credentials.username)
                    &&& forall|i: int|
                        1 <= i < p.len() - 1 ==> #[trigger] p[i] == relayed_message(
                            addr,
                            client,
                            p[i].payload,
                        )
                },
            }
        }),
    decreases events.len(),
{
    let start = fresh_session(addr);
    if events.len() == 0 {
    } else {
        let (mid, done) = session_run(start, events.drop_last());
        let (next, more) = session_step(mid, events.last().0, events.last().1);
        lemma_session_is_bracketed(addr, events.drop_last());
        lemma_step_published(mid, events.last().0, events.last().1);
        lemma_published_concat(done, more);
        let earlier = published(done);
        let latest = published(more);
        let p = published(done + more);
        assert(p == earlier + latest);
        match mid.phase {
            PhaseView::Closing(_) => {
                assert(p =~= earlier);
            },
            PhaseView::AwaitingCredentials => {
                if next.phase is Active {
                    assert(p =~= latest);
                } else {
                    assert(p =~= earlier);
                }
            },
            PhaseView::Active(client) => {
                if next.phase is Active {
                    assert forall|i: int| 1 <= i < p.len() implies #[trigger] p[i]
                        == relayed_message(addr, client, p[i].payload) by {
                        if i < earlier.len() {
                            assert(p[i] == earlier[i]);
                        } else {
                            assert(p[i] == latest[i - earlier.len()]);
                        }
                    }
                } else {
                    assert(p.last() == latest[0]);
                    assert(p[0] == earlier[0]);
                    assert forall|i: int| 1 <= i < p.len() - 1 implies #[trigger] p[i]
                        == relayed_message(addr, client, p[i].payload) by {
                        assert(p[i] == earlier[i]);
                    }
                }
            },
        }
    }
}

/// The relay's announcement with the given text.
fn announce(payload: String) -> (r: MessageProtocol)
    ensures
        r@ == announcement(payload@),
{
    MessageProtocol::new(
        SERVER_ID,
        SocketAddress::new(0, 0, 0, 0, SERVER_PORT),
        String::from_str(SERVER_NAME),
        payload,
    )
}

/// What is written to the client for what came from the bus: the line of
/// the message, or nothing where the bus reported an error.
pub fn read_channel(res: Result<MessageProtocol, RecvError>) -> (r: Option<String>)
    ensures
        match res {
            Ok(m) => r is Some && r->0@ == wire_text(m@),
            Err(_) => r is None,
        },
{
    match res {
        Ok(msg) => Some(msg.to_json()),
        Err(_) => None,
    }
}

/// The message that goes to the bus for the line `incoming` of the client
/// `client` at `client_addr`: the payload of the line, read without the
/// white space at its ends, under the client's identifier, address and
/// name. A line that is no message is an error, and nothing goes to the bus
/// for it.
pub fn handle_client_message(client: &Client, incoming: String, client_addr: SocketAddress) -> (r:
    Result<MessageProtocol, DecodeError>)
    ensures
        match decoded_message(trimmed(incoming@)) {
            Ok(m) => r is Ok && r->Ok_0@ == (MessageView {
                id: client.id,
                sender_addr: client_addr,
                sender_username: client.credentials.username@,
                payload: m.payload,
            }),
            Err(e) => r == Err::<MessageProtocol, DecodeError>(e),
        },
{
    let outgoing = trim(incoming.as_str());
    match MessageProtocol::try_from(outgoing) {
        Ok(m) => Ok(
            MessageProtocol::new(
                client.id,
                client_addr,
                client.credentials.username.clone(),
                m.payload,
            ),
        ),
        Err(e) => Err(e),
    }
}

impl Session {
    /// The session of a client that has just connected from `addr`.
    pub fn new(addr: SocketAddress) -> (r: Session)
        ensures
            r@ == fresh_session(addr),
    {
        Session { addr, phase: Phase::AwaitingCredentials }
    }

    /// Where the session stands.
    pub fn state(&self) -> (r: SessionState)
        ensures
            r == self@.state(),
    {
        match &self.phase {
            Phase::AwaitingCredentials => SessionState::AwaitingCredentials,
            Phase::Active(_) => SessionState::Active,
            Phase::Closing(_) => SessionState::Closing,
        }
    }

    /// Who the client is or was, if it ever signed in.
    pub fn client(&self) -> (r: Option<&Client>)
        ensures
            match r {
                Some(client) => self@.client() == Some(client@),
                None => self@.client() is None,
            },
    {
        match &self.phase {
            Phase::AwaitingCredentials => None,
            Phase::Active(client) => Some(client),
            Phase::Closing(Some(client)) => Some(client),
            Phase::Closing(None) => None,
        }
    }

    /// The session is over.
    pub fn is_closed(&self) -> (r: bool)
        ensures
            r == (self@.state() == SessionState::Closing),
    {
        match &self.phase {
            Phase::Closing(_) => true,
            _ => false,
        }
    }

    /// The session takes messages from the bus: it does so while it is
    /// active, and neither before nor after.
    pub fn listens_to_bus(&self) -> (r: bool)
        ensures
            r == (self@.state() == SessionState::Active),
    {
        match &self.phase {
            Phase::Active(_) => true,
            _ => false,
        }
    }

    /// One step of the session: see [`session_step`]. `fresh` is the
    /// identifier that the client gets if this step signs it in.
    pub fn step(&mut self, event: SessionEvent, fresh: u128) -> (actions: Vec<SessionAction>)
        ensures
            (final(self)@, actions_view(actions@)) == session_step(old(self)@, event@, fresh),
    {
        let mut phase = Phase::AwaitingCredentials;
        core::mem::swap(&mut self.phase, &mut phase);
        let (next, actions) = match phase {
            Phase::AwaitingCredentials => on_awaiting(self.addr, event, fresh),
            Phase::Active(client) => on_active(self.addr, client, event),
            Phase::Closing(client) => (Phase::Closing(client), no_action()),
        };
        self.phase = next;
        actions
    }
}

/// The list with no action.
fn no_action() -> (r: Vec<SessionAction>)
    ensures
        actions_view(r@) == Seq::<SessionActionView>::empty(),
{
    let r: Vec<SessionAction> = Vec::new();
    assert(actions_view(r@) =~= Seq::<SessionActionView>::empty());
    r
}

/// The list with one action.
fn one_action(action: SessionAction) -> (r: Vec<SessionAction>)
    ensures
        actions_view(r@) == seq![action@],
{
    let mut r: Vec<SessionAction> = Vec::new();
    r.push(action);
    assert(actions_view(r@) =~= seq![action@]);
    r
}

/// Ends a session on which nobody signed in.
fn give_up_now(end: SessionEnd) -> (r: (Phase, Vec<SessionAction>))
    ensures
        r.0@ == PhaseView::Closing(None),
        actions_view(r.1@) == seq![SessionActionView::Close(end)],
{
    (Phase::Closing(None), one_action(SessionAction::Close(end)))
}

/// Ends the session of `client` with the announcement that it has left.
fn leave_now(client: Client, end: SessionEnd) -> (r: (Phase, Vec<SessionAction>))
    ensures
        r.0@ == PhaseView::Closing(Some(client@)),
        actions_view(r.1@) == seq![
            SessionActionView::Publish(leave_message(client@.credentials.username)),
            SessionActionView::Close(end),
        ],
{
    let mut payload = client.credentials.username.clone();
    payload.append(" has left the chat!");
    let mut actions: Vec<SessionAction> = Vec::new();
    actions.push(SessionAction::Publish(announce(payload)));
    actions.push(SessionAction::Close(end));
    assert(actions_view(actions@) =~= seq![
        SessionActionView::Publish(leave_message(client@.credentials.username)),
        SessionActionView::Close(end),
    ]);
    (Phase::Closing(Some(client)), actions)
}

/// The step of a session that waits for credentials: see [`awaiting_step`].
fn on_awaiting(addr: SocketAddress, event: SessionEvent, fresh: u128) -> (r: (
    Phase,
    Vec<SessionAction>,
))
    ensures
        (SessionView { addr, phase: r.0@ }, actions_view(r.1@)) == awaiting_step(
            addr,
            event@,
            fresh,
        ),
{
    match event {
        SessionEvent::Line(line) => match Client::with_id(fresh, trim(line.as_str()).as_str()) {
            Ok(client) => {
                let mut payload = client.credentials.username.clone();
                payload.append(" has joined the chat!");
                let actions = one_action(SessionAction::Publish(announce(payload)));
                (Phase::Active(client), actions)
            },
            Err(e) => give_up_now(SessionEnd::CredentialDecodeError(e)),
        },
        SessionEvent::EndOfStream => give_up_now(
            SessionEnd::CredentialDecodeError(DecodeError::Malformed),
        ),
        SessionEvent::ReadFailed => give_up_now(SessionEnd::ReadFailed),
        _ => (Phase::AwaitingCredentials, no_action()),
    }
}

/// The step of an active session: see [`active_step`].
fn on_active(addr: SocketAddress, client: Client, event: SessionEvent) -> (r: (
    Phase,
    Vec<SessionAction>,
))
    ensures
        (SessionView { addr, phase: r.0@ }, actions_view(r.1@)) == active_step(
            addr,
            client@,
            event@,
        ),
{
    match event {
        SessionEvent::Line(line) => {
            let action = match handle_client_message(&client, line, addr) {
                Ok(m) => SessionAction::Publish(m),
                Err(e) => SessionAction::Dropped(e),
            };
            (Phase::Active(client), one_action(action))
        },
        SessionEvent::EndOfStream => leave_now(client, SessionEnd::SocketClosed),
        SessionEvent::ReadFailed => leave_now(client, SessionEnd::ReadFailed),
        SessionEvent::Bus(res) => {
            let actions = match read_channel(res) {
                Some(line) => one_action(SessionAction::Write(line)),
                None => no_action(),
            };
            (Phase::Active(client), actions)
        },
        SessionEvent::WriteFailed => leave_now(client, SessionEnd::WriteFailed),
        SessionEvent::PublishFailed => leave_now(client, SessionEnd::ChannelSendFailure),
    }
}

/// Handles one event of a session: a step of [`session_step`] in which a
/// client that signs in gets a fresh random identifier.
///
/// The identifier differs from call to call. Whatever it is, it is never the
/// relay's own, and the step is the one that [`Session::step`] takes with
/// it.
pub fn handle_client(session: &mut Session, event: SessionEvent) -> (actions: Vec<SessionAction>)
    ensures
        exists|fresh: u128|
            is_random_id(fresh) && fresh != SERVER_ID && #[trigger] session_step(
                old(session)@,
                event@,
                fresh,
            ) == (final(session)@, actions_view(actions@)),
{
    let fresh = new_id();
    let actions = session.step(event, fresh);
    assert(session_step(old(session)@, event@, fresh) == (session@, actions_view(actions@)));
    actions
}

} // verus!
