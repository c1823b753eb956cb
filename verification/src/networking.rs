//! The client's network side.
//!
//! It waits for the screen to ask for a connection, connects, signs in with
//! the credentials as the first line, takes the relay's first message as the
//! welcome, and from then on passes messages both ways: every line from the
//! relay becomes an event for the screen, every text from the screen a line
//! for the relay.
//!
//! The task owns no socket and no channel. It is told what happened, as a
//! [`NetworkInput`], and answers with what is to be done, as a list of
//! [`NetworkOutput`]s in the order in which they are to be carried out.

use vstd::prelude::*;
use vstd::string::*;

use crate::address::SocketAddress;
use crate::client_model::{credentials_text, Client, ClientView};
use crate::comms::{Action, ActionView, Event, EventView};
use crate::id::{is_random_id, new_id, SERVER_ID};
use crate::protocol::{decoded_message, wire_text, MessageProtocol, MessageView};
use crate::text::{trim, trimmed};

verus! {

/// Where the network side stands.
#[derive(Clone, Copy, Debug, PartialEq, Eq, Structural)]
pub enum NetworkState {
    /// Nothing has been asked for yet.
    AwaitingConnect,
    /// A connection is being made.
    Connecting,
    /// The credentials are on their way; the relay's first message is
    /// awaited.
    AwaitingWelcome,
    /// Messages pass both ways.
    Relaying,
    /// The task is over.
    Done,
}

/// What happened on the client's socket or came from the screen.
#[derive(Debug, PartialEq, Eq)]
pub enum NetworkInput {
    /// The screen asked for something, or, with `None`, the screen is gone.
    Action(Option<Action>),
    /// The connection stands; this is the client's own end of it.
    Connected(SocketAddress),
    /// The connection could not be made; the text says why.
    ConnectFailed(String),
    /// A line came from the relay.
    Line(String),
    /// The relay closed the connection.
    EndOfStream,
    /// Reading from the relay failed; the text says why.
    ReadFailed(String),
    /// Writing to the relay failed.
    WriteFailed,
    /// The screen took no event.
    EventUndelivered,
}

/// A [`NetworkInput`] with its texts as sequences of characters.
pub enum NetworkInputView {
    Action(Option<ActionView>),
    Connected(SocketAddress),
    ConnectFailed(Seq<char>),
    Line(Seq<char>),
    EndOfStream,
    ReadFailed(Seq<char>),
    WriteFailed,
    EventUndelivered,
}

impl View for NetworkInput {
    type V = NetworkInputView;

    open spec fn view(&self) -> NetworkInputView {
        match *self {
            NetworkInput::Action(Some(a)) => NetworkInputView::Action(Some(a@)),
            NetworkInput::Action(None) => NetworkInputView::Action(None),
            NetworkInput::Connected(a) => NetworkInputView::Connected(a),
            NetworkInput::ConnectFailed(t) => NetworkInputView::ConnectFailed(t@),
            NetworkInput::Line(t) => NetworkInputView::Line(t@),
            NetworkInput::EndOfStream => NetworkInputView::EndOfStream,
            NetworkInput::ReadFailed(t) => NetworkInputView::ReadFailed(t@),
            NetworkInput::WriteFailed => NetworkInputView::WriteFailed,
            NetworkInput::EventUndelivered => NetworkInputView::EventUndelivered,
        }
    }
}

/// What the network side asks to be done.
#[derive(Debug, PartialEq, Eq)]
pub enum NetworkOutput {
    /// Connect to the relay at this address.
    Connect(SocketAddress),
    /// Write this line to the relay and flush.
    Write(String),
    /// Hand this event to the screen.
    Emit(Event),
    /// Close the connection, if there is one, and end the task.
    Stop,
}

/// A [`NetworkOutput`] with its texts as sequences of characters.
pub enum NetworkOutputView {
    Connect(SocketAddress),
    Write(Seq<char>),
    Emit(EventView),
    Stop,
}

impl View for NetworkOutput {
    type V = NetworkOutputView;

    open spec fn view(&self) -> NetworkOutputView {
        match *self {
            NetworkOutput::Connect(a) => NetworkOutputView::Connect(a),
            NetworkOutput::Write(t) => NetworkOutputView::Write(t@),
            NetworkOutput::Emit(e) => NetworkOutputView::Emit(e@),
            NetworkOutput::Stop => NetworkOutputView::Stop,
        }
    }
}

/// The views of `outputs`.
pub open spec fn outputs_view(outputs: Seq<NetworkOutput>) -> Seq<NetworkOutputView> {
    outputs.map_values(|o: NetworkOutput| o@)
}

/// The state of the client's network side, with what it holds at each point.
#[derive(Debug, PartialEq, Eq)]
pub enum NetworkTask {
    /// Nothing has been asked for yet.
    AwaitingConnect,
    /// A connection is being made for this client.
    Connecting(Client),
    /// The credentials are on their way; the relay's first message is
    /// awaited. `local_addr` is the client's own end of the connection.
    AwaitingWelcome { client: Client, local_addr: SocketAddress },
    /// Messages pass both ways.
    Relaying { client: Client, local_addr: SocketAddress },
    /// The task is over.
    Done,
}

/// A [`NetworkTask`] with its texts as sequences of characters.
pub enum NetworkTaskView {
    AwaitingConnect,
    Connecting(ClientView),
    AwaitingWelcome { client: ClientView, local_addr: SocketAddress },
    Relaying { client: ClientView, local_addr: SocketAddress },
    Done,
}

impl View for NetworkTask {
    type V = NetworkTaskView;

    open spec fn view(&self) -> NetworkTaskView {
        match *self {
            NetworkTask::AwaitingConnect => NetworkTaskView::AwaitingConnect,
            NetworkTask::Connecting(client) => NetworkTaskView::Connecting(client@),
            NetworkTask::AwaitingWelcome { client, local_addr } => NetworkTaskView::AwaitingWelcome {
                client: client@,
                local_addr,
            },
            NetworkTask::Relaying { client, local_addr } => NetworkTaskView::Relaying {
                client: client@,
                local_addr,
            },
            NetworkTask::Done => NetworkTaskView::Done,
        }
    }
}

impl NetworkTaskView {
    /// Where the task stands.
    pub open spec fn state(self) -> NetworkState {
        match self {
            NetworkTaskView::AwaitingConnect => NetworkState::AwaitingConnect,
            NetworkTaskView::Connecting(_) => NetworkState::Connecting,
            NetworkTaskView::AwaitingWelcome { .. } => NetworkState::AwaitingWelcome,
            NetworkTaskView::Relaying { .. } => NetworkState::Relaying,
            NetworkTaskView::Done => NetworkState::Done,
        }
    }
}

/// The end of the task, with nothing said to the screen.
pub open spec fn stop() -> (NetworkTaskView, Seq<NetworkOutputView>) {
    (NetworkTaskView::Done, seq![NetworkOutputView::Stop])
}

/// The end of the task, with the screen told why.
pub open spec fn fail(text: Seq<char>) -> (NetworkTaskView, Seq<NetworkOutputView>) {
    (
        NetworkTaskView::Done,
        seq![NetworkOutputView::Emit(EventView::Error(text)), NetworkOutputView::Stop],
    )
}

/// The message that `client` sends from `local_addr` for the text
/// `payload`: the text under the client's own identifier, address and name.
pub open spec fn outgoing_message(client: ClientView, local_addr: SocketAddress, payload: Seq<char>) -> MessageView {
    MessageView {
        id: client.id,
        sender_addr: local_addr,
        sender_username: client.credentials.username,
        payload,
    }
}

/// What the task does before a connection has been asked for. The first
/// thing asked for must be a connection; anything else ends the task.
/// `fresh` is the identifier that the client gets.
pub open spec fn awaiting_connect_step(input: NetworkInputView, fresh: u128) -> (
    NetworkTaskView,
    Seq<NetworkOutputView>,
) {
    match input {
        NetworkInputView::Action(Some(ActionView::Connect { server_addr, credentials })) => (
            NetworkTaskView::Connecting(ClientView { id: fresh, credentials }),
            seq![NetworkOutputView::Connect(server_addr)],
        ),
        NetworkInputView::Action(_) => stop(),
        _ => (NetworkTaskView::AwaitingConnect, Seq::empty()),
    }
}

/// What the task does while the connection is being made: once it stands,
/// the credentials go out as the first line.
pub open spec fn connecting_step(client: ClientView, input: NetworkInputView) -> (
    NetworkTaskView,
    Seq<NetworkOutputView>,
) {
    match input {
        NetworkInputView::Connected(local_addr) => (
            NetworkTaskView::AwaitingWelcome { client, local_addr },
            seq![NetworkOutputView::Write(credentials_text(client.credentials))],
        ),
        NetworkInputView::ConnectFailed(text) => fail(text),
        NetworkInputView::EventUndelivered => stop(),
        _ => (NetworkTaskView::Connecting(client), Seq::empty()),
    }
}

/// What the task does while it waits for the relay's first message. Anything
/// but a message ends the task.
pub open spec fn awaiting_welcome_step(
    client: ClientView,
    local_addr: SocketAddress,
    input: NetworkInputView,
) -> (NetworkTaskView, Seq<NetworkOutputView>) {
    match input {
        NetworkInputView::Line(text) => match decoded_message(text) {
            Ok(m) => (
                NetworkTaskView::Relaying { client, local_addr },
                seq![NetworkOutputView::Emit(EventView::Connected(m))],
            ),
            Err(_) => stop(),
        },
        NetworkInputView::EndOfStream => stop(),
        NetworkInputView::ReadFailed(_) => stop(),
        NetworkInputView::WriteFailed => stop(),
        NetworkInputView::EventUndelivered => stop(),
        _ => (NetworkTaskView::AwaitingWelcome { client, local_addr }, Seq::empty()),
    }
}

/// What the task does while messages pass both ways.
///
/// A line that is no message is passed over. A failure to read is reported
/// to the screen and the task goes on; the end of the stream and a failure
/// to write are reported and end it.
pub open spec fn relaying_step(
    client: ClientView,
    local_addr: SocketAddress,
    input: NetworkInputView,
) -> (NetworkTaskView, Seq<NetworkOutputView>) {
    let same = NetworkTaskView::Relaying { client, local_addr };
    match input {
        NetworkInputView::Line(text) => match decoded_message(text) {
            Ok(m) => (same, seq![NetworkOutputView::Emit(EventView::ServerMessage(m))]),
            Err(_) => (same, Seq::empty()),
        },
        NetworkInputView::EndOfStream => fail("Server closed connection"@),
        NetworkInputView::ReadFailed(text) => (
            same,
            seq![NetworkOutputView::Emit(EventView::Error(text))],
        ),
        NetworkInputView::Action(Some(ActionView::ClientMessage(text))) => (
            same,
            seq![NetworkOutputView::Write(wire_text(outgoing_message(client, local_addr, text)))],
        ),
        NetworkInputView::Action(Some(ActionView::Disconnect)) => stop(),
        NetworkInputView::Action(_) => (same, Seq::empty()),
        NetworkInputView::WriteFailed => fail("Failed to send message"@),
        NetworkInputView::EventUndelivered => stop(),
        _ => (same, Seq::empty()),
    }
}

/// The next state of the task and what it asks to be done, for each state
/// and input. `fresh` is the identifier that the client gets if this step
/// asks for the connection. A task that is over does nothing.
pub open spec fn network_step(s: NetworkTaskView, input: NetworkInputView, fresh: u128) -> (
    NetworkTaskView,
    Seq<NetworkOutputView>,
) {
    match s {
        NetworkTaskView::AwaitingConnect => awaiting_connect_step(input, fresh),
        NetworkTaskView::Connecting(client) => connecting_step(client, input),
        NetworkTaskView::AwaitingWelcome { client, local_addr } => awaiting_welcome_step(
            client,
            local_addr,
            input,
        ),
        NetworkTaskView::Relaying { client, local_addr } => relaying_step(client, local_addr, input),
        NetworkTaskView::Done => (s, Seq::empty()),
    }
}

/// A line from the relay that is no message never ends the relaying, and
/// the next line that is a message reaches the screen.
pub proof fn lemma_bad_line_is_passed_over(s: NetworkTaskView, bad: Seq<char>, good: Seq<char>)
    requires
        s is Relaying,
        decoded_message(bad) is Err,
        decoded_message(good) is Ok,
    ensures
        network_step(s, NetworkInputView::Line(bad), 0).0 == s,
        network_step(s, NetworkInputView::Line(bad), 0).1.len() == 0,
        network_step(s, NetworkInputView::Line(good), 0) == (
            s,
            seq![NetworkOutputView::Emit(EventView::ServerMessage(decoded_message(good)->Ok_0))],
        ),
{
}

/// The list with one output.
fn one(output: NetworkOutput) -> (r: Vec<NetworkOutput>)
    ensures
        outputs_view(r@) == seq![output@],
{
    let mut r: Vec<NetworkOutput> = Vec::new();
    r.push(output);
    assert(outputs_view(r@) =~= seq![output@]);
    r
}

/// The list with no output.
fn none() -> (r: Vec<NetworkOutput>)
    ensures
        outputs_view(r@) == Seq::<NetworkOutputView>::empty(),
{
    let r: Vec<NetworkOutput> = Vec::new();
    assert(outputs_view(r@) =~= Seq::<NetworkOutputView>::empty());
    r
}

/// Ends the task.
fn stop_now() -> (r: (NetworkTask, Vec<NetworkOutput>))
    ensures
        (r.0@, outputs_view(r.1@)) == stop(),
{
    (NetworkTask::Done, one(NetworkOutput::Stop))
}

/// Ends the task and tells the screen why.
fn fail_now(text: String) -> (r: (NetworkTask, Vec<NetworkOutput>))
    ensures
        (r.0@, outputs_view(r.1@)) == fail(text@),
{
    let mut outputs: Vec<NetworkOutput> = Vec::new();
    outputs.push(NetworkOutput::Emit(Event::Error(text)));
    outputs.push(NetworkOutput::Stop);
    assert(outputs_view(outputs@) =~= fail(text@).1);
    (NetworkTask::Done, outputs)
}

/// The step before a connection has been asked for: see
/// [`awaiting_connect_step`].
fn on_awaiting_connect(input: NetworkInput, fresh: u128) -> (r: (NetworkTask, Vec<NetworkOutput>))
    ensures
        (r.0@, outputs_view(r.1@)) == awaiting_connect_step(input@, fresh),
{
    match input {
        NetworkInput::Action(Some(Action::Connect { server_addr, credentials })) => (
            NetworkTask::Connecting(Client { id: fresh, credentials }),
            one(NetworkOutput::Connect(server_addr)),
        ),
        NetworkInput::Action(_) => stop_now(),
        _ => (NetworkTask::AwaitingConnect, none()),
    }
}

/// The step while the connection is being made: see [`connecting_step`].
fn on_connecting(client: Client, input: NetworkInput) -> (r: (NetworkTask, Vec<NetworkOutput>))
    ensures
        (r.0@, outputs_view(r.1@)) == connecting_step(client@, input@),
{
    match input {
        NetworkInput::Connected(local_addr) => {
            let line = client.credentials.to_json();
            (NetworkTask::AwaitingWelcome { client, local_addr }, one(NetworkOutput::Write(line)))
        },
        NetworkInput::ConnectFailed(text) => fail_now(text),
        NetworkInput::EventUndelivered => stop_now(),
        _ => (NetworkTask::Connecting(client), none()),
    }
}

/// The step while the relay's first message is awaited: see
/// [`awaiting_welcome_step`].
fn on_awaiting_welcome(client: Client, local_addr: SocketAddress, input: NetworkInput) -> (r: (
    NetworkTask,
    Vec<NetworkOutput>,
))
    ensures
        (r.0@, outputs_view(r.1@)) == awaiting_welcome_step(client@, local_addr, input@),
{
    match input {
        NetworkInput::Line(line) => match MessageProtocol::try_from(line) {
            Ok(m) => (
                NetworkTask::Relaying { client, local_addr },
                one(NetworkOutput::Emit(Event::Connected(m))),
            ),
            Err(_) => stop_now(),
        },
        NetworkInput::EndOfStream => stop_now(),
        NetworkInput::ReadFailed(_) => stop_now(),
        NetworkInput::WriteFailed => stop_now(),
        NetworkInput::EventUndelivered => stop_now(),
        _ => (NetworkTask::AwaitingWelcome { client, local_addr }, none()),
    }
}

/// The step while messages pass both ways: see [`relaying_step`].
fn on_relaying(client: Client, local_addr: SocketAddress, input: NetworkInput) -> (r: (
    NetworkTask,
    Vec<NetworkOutput>,
))
    ensures
        (r.0@, outputs_view(r.1@)) == relaying_step(client@, local_addr, input@),
{
    match input {
        NetworkInput::Line(line) => {
            let outputs = match MessageProtocol::try_from(line) {
                Ok(m) => one(NetworkOutput::Emit(Event::ServerMessage(m))),
                Err(_) => none(),
            };
            (NetworkTask::Relaying { client, local_addr }, outputs)
        },
        NetworkInput::EndOfStream => fail_now(String::from_str("Server closed connection")),
        NetworkInput::ReadFailed(text) => (
            NetworkTask::Relaying { client, local_addr },
            one(NetworkOutput::Emit(Event::Error(text))),
        ),
        NetworkInput::Action(Some(Action::ClientMessage(text))) => {
            let line = MessageProtocol::new(
                client.id,
                local_addr,
                client.credentials.username.clone(),
                text,
            ).to_json();
            (NetworkTask::Relaying { client, local_addr }, one(NetworkOutput::Write(line)))
        },
        NetworkInput::Action(Some(Action::Disconnect)) => stop_now(),
        NetworkInput::Action(_) => (NetworkTask::Relaying { client, local_addr }, none()),
        NetworkInput::WriteFailed => fail_now(String::from_str("Failed to send message")),
        NetworkInput::EventUndelivered => stop_now(),
        _ => (NetworkTask::Relaying { client, local_addr }, none()),
    }
}

impl NetworkTask {
    /// The task at its start.
    pub fn new() -> (r: NetworkTask)
        ensures
            r@ == NetworkTaskView::AwaitingConnect,
    {
        NetworkTask::AwaitingConnect
    }

    /// Where the task stands.
    pub fn state(&self) -> (r: NetworkState)
        ensures
            r == self@.state(),
    {
        match self {
            NetworkTask::AwaitingConnect => NetworkState::AwaitingConnect,
            NetworkTask::Connecting(_) => NetworkState::Connecting,
            NetworkTask::AwaitingWelcome { .. } => NetworkState::AwaitingWelcome,
            NetworkTask::Relaying { .. } => NetworkState::Relaying,
            NetworkTask::Done => NetworkState::Done,
        }
    }

    /// The task is over.
    pub fn is_done(&self) -> (r: bool)
        ensures
            r == (self@ is Done),
    {
        match self {
            NetworkTask::Done => true,
            _ => false,
        }
    }

    /// One step of the task: see [`network_step`]. `fresh` is the
    /// identifier that the client gets if this step asks for the
    /// connection.
    pub fn step(&mut self, input: NetworkInput, fresh: u128) -> (outputs: Vec<NetworkOutput>)
        ensures
            (final(self)@, outputs_view(outputs@)) == network_step(old(self)@, input@, fresh),
    {
        let mut task = NetworkTask::Done;
        core::mem::swap(self, &mut task);
        let (next, outputs) = match task {
            NetworkTask::AwaitingConnect => on_awaiting_connect(input, fresh),
            NetworkTask::Connecting(client) => on_connecting(client, input),
            NetworkTask::AwaitingWelcome { client, local_addr } => on_awaiting_welcome(
                client,
                local_addr,
                input,
            ),
            NetworkTask::Relaying { client, local_addr } => on_relaying(client, local_addr, input),
            NetworkTask::Done => (NetworkTask::Done, none()),
        };
        *self = next;
        outputs
    }
}

/// Handles one input of the client's network side: a step of
/// [`network_step`] in which a client that asks for a connection gets a
/// fresh random identifier.
///
/// The identifier differs from call to call. Whatever it is, it is never the
/// relay's own, and the step is the one that [`NetworkTask::step`] takes
/// with it.
pub fn network_task(task: &mut NetworkTask, input: NetworkInput) -> (outputs: Vec<NetworkOutput>)
    ensures
        exists|fresh: u128|
            is_random_id(fresh) && fresh != SERVER_ID && #[trigger] network_step(
                old(task)@,
                input@,
                fresh,
            ) == (final(task)@, outputs_view(outputs@)),
{
    let fresh = new_id();
    let outputs = task.step(input, fresh);
    assert(network_step(old(task)@, input@, fresh) == (task@, outputs_view(outputs@)));
    outputs
}

/// What a client without screens prints for the message `m`: the payload
/// behind the sender's name in brackets, and behind `[Me]` where the sender
/// has the client's own name.
pub open spec fn shown_line(m: MessageView, own_name: Seq<char>) -> Seq<char> {
    if m.sender_username == own_name {
        "[Me]: "@ + m.payload
    } else {
        "["@ + m.sender_username + "]: "@ + m.payload
    }
}

/// What a line typed into a client without screens asks for: `:q` asks to
/// disconnect, and any other line is a chat message. White space at the two
/// ends of the line does not count.
pub open spec fn typed_action(input: Seq<char>) -> ActionView {
    if trimmed(input) == ":q"@ {
        ActionView::Disconnect
    } else {
        ActionView::ClientMessage(trimmed(input))
    }
}

/// The line that a client without screens prints for `msg`: see
/// [`shown_line`].
pub fn chat_line(msg: &MessageProtocol, own_name: &String) -> (r: String)
    ensures
        r@ == shown_line(msg@, own_name@),
{
    if msg.sender_username == *own_name {
        let mut r = String::from_str("[Me]: ");
        r.append(msg.payload.as_str());
        r
    } else {
        let mut r = String::from_str("[");
        r.append(msg.sender_username.as_str());
        r.append("]: ");
        r.append(msg.payload.as_str());
        r
    }
}

/// Reads a line typed into a client without screens: see [`typed_action`].
pub fn chat(input: &str) -> (action: Action)
    ensures
        action@ == typed_action(input@),
{
    let text = trim(input);
    if text == String::from_str(":q") {
        Action::Disconnect
    } else {
        Action::ClientMessage(text)
    }
}

} // verus!
