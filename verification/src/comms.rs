//! What flows between the client's screen, its keyboard and its network
//! side: events towards the screen, actions away from it.

use vstd::prelude::*;

use crate::address::SocketAddress;
use crate::client_model::{Credentials, CredentialsView};
use crate::protocol::{MessageProtocol, MessageView};

verus! {

/// No modifier key is held.
pub const NONE: u8 = 0;

/// The bit of the shift key among the modifiers of a key press.
pub const SHIFT: u8 = 1;

/// The bit of the control key among the modifiers of a key press.
pub const CONTROL: u8 = 2;

/// The bit of the alt key among the modifiers of a key press.
pub const ALT: u8 = 4;

/// Which key it was, as far as the screens tell keys apart.
#[derive(Clone, Copy, Debug, PartialEq, Eq, Structural)]
pub enum KeyCode {
    Enter,
    Backspace,
    Tab,
    /// A key that stands for a character.
    Char(char),
    /// Any other key.
    Other,
}

/// What happened to the key.
#[derive(Clone, Copy, Debug, PartialEq, Eq, Structural)]
pub enum KeyEventKind {
    Press,
    Repeat,
    Release,
}

/// One event of the keyboard.
#[derive(Clone, Copy, Debug, PartialEq, Eq, Structural)]
pub struct KeyEvent {
    pub code: KeyCode,
    /// The modifier keys held, one bit each: [`SHIFT`], [`CONTROL`], [`ALT`]
    /// and others above them.
    pub modifiers: u8,
    pub kind: KeyEventKind,
}

impl KeyEvent {
    /// The press of a key with the given modifiers held.
    pub fn new(code: KeyCode, modifiers: u8) -> (r: KeyEvent)
        ensures
            r == (KeyEvent { code, modifiers, kind: KeyEventKind::Press }),
    {
        KeyEvent { code, modifiers, kind: KeyEventKind::Press }
    }
}

/// What the screen is told.
#[derive(Debug, PartialEq, Eq)]
pub enum Event {
    /// The timer ticked.
    Tick,
    /// A key event arrived.
    KeyPress(KeyEvent),
    /// Discovery found the relay at this address.
    ServerFound(SocketAddress),
    /// The relay sent a message.
    ServerMessage(MessageProtocol),
    /// The relay accepted the sign-in and sent its first message.
    Connected(MessageProtocol),
    /// Something went wrong; the text says what.
    Error(String),
}

/// An [`Event`] with its texts as sequences of characters.
pub enum EventView {
    Tick,
    KeyPress(KeyEvent),
    ServerFound(SocketAddress),
    ServerMessage(MessageView),
    Connected(MessageView),
    Error(Seq<char>),
}

impl View for Event {
    type V = EventView;

    open spec fn view(&self) -> EventView {
        match *self {
            Event::Tick => EventView::Tick,
            Event::KeyPress(k) => EventView::KeyPress(k),
            Event::ServerFound(a) => EventView::ServerFound(a),
            Event::ServerMessage(m) => EventView::ServerMessage(m@),
            Event::Connected(m) => EventView::Connected(m@),
            Event::Error(t) => EventView::Error(t@),
        }
    }
}

/// What the screen asks of the network side.
#[derive(Debug, PartialEq, Eq)]
pub enum Action {
    /// Connect to the relay and sign in.
    Connect { server_addr: SocketAddress, credentials: Credentials },
    /// Send this text as a chat message.
    ClientMessage(String),
    /// Leave.
    Disconnect,
}

/// An [`Action`] with its texts as sequences of characters.
pub enum ActionView {
    Connect { server_addr: SocketAddress, credentials: CredentialsView },
    ClientMessage(Seq<char>),
    Disconnect,
}

impl View for Action {
    type V = ActionView;

    open spec fn view(&self) -> ActionView {
        match *self {
            Action::Connect { server_addr, credentials } => ActionView::Connect {
                server_addr,
                credentials: credentials@,
            },
            Action::ClientMessage(t) => ActionView::ClientMessage(t@),
            Action::Disconnect => ActionView::Disconnect,
        }
    }
}

/// The view of an action that may be there.
pub open spec fn action_view(action: Option<Action>) -> Option<ActionView> {
    match action {
        Some(a) => Some(a@),
        None => None,
    }
}

} // verus!
