//! The client's screen state and how events change it.
//!
//! The client shows one of three screens: a spinner while it looks for the
//! relay, a sign-in form, and the chat. [`App`] is what the screens draw
//! from. Each event changes it by [`app_step`], a function of the state and
//! the event alone: it names the next state and the one action, if any, that
//! the network side is to be asked for. Drawing, reading keys and handing
//! over the action are the caller's.

use vstd::prelude::*;
use vstd::string::*;
use vstd::utf8::*;

use crate::address::SocketAddress;
use crate::client_model::{Credentials, CredentialsView};
use crate::comms::{
    action_view, Action, ActionView, Event, EventView, KeyCode, KeyEvent, KeyEventKind, CONTROL,
};
use crate::protocol::{MessageProtocol, MessageView};
use crate::text::{pop_char, push_char};

verus! {

/// Which screen is shown.
#[derive(Clone, Copy, Debug, PartialEq, Eq, Structural)]
pub enum CurrentScreen {
    FindingServer,
    Signin,
    Chat,
}

/// Which field of the sign-in form takes the keys.
#[derive(Clone, Copy, Debug, PartialEq, Eq, Structural)]
pub enum ActiveDataField {
    Username,
    Password,
}

/// The state of the client's screens.
#[derive(Debug)]
pub struct App {
    /// Where the relay is, once discovery has found it.
    pub server_addr: Option<SocketAddress>,
    /// The chat message being written.
    pub client_msg_input: String,
    /// The messages received, in the order of their arrival.
    pub chats: Vec<MessageProtocol>,
    pub current_screen: CurrentScreen,
    /// The frames of the spinner shown while the relay is looked for.
    pub spinner: Vec<char>,
    /// The frame shown now.
    pub spinner_idx: usize,
    pub active_data_field: ActiveDataField,
    /// The user name being written.
    pub username_inp: String,
    /// The password being written.
    pub password_inp: String,
    /// The most recent error.
    pub error_msg: Option<String>,
    /// Set once the user has asked to leave.
    pub should_quit: bool,
}

/// An [`App`] with its texts and lists as sequences.
pub struct AppView {
    pub server_addr: Option<SocketAddress>,
    pub client_msg_input: Seq<char>,
    pub chats: Seq<MessageView>,
    pub current_screen: CurrentScreen,
    pub spinner: Seq<char>,
    pub spinner_idx: nat,
    pub active_data_field: ActiveDataField,
    pub username_inp: Seq<char>,
    pub password_inp: Seq<char>,
    pub error_msg: Option<Seq<char>>,
    pub should_quit: bool,
}

/// The views of `messages`.
pub open spec fn messages_view(messages: Seq<MessageProtocol>) -> Seq<MessageView> {
    messages.map_values(|m: MessageProtocol| m@)
}

impl View for App {
    type V = AppView;

    open spec fn view(&self) -> AppView {
        AppView {
            server_addr: self.server_addr,
            client_msg_input: self.client_msg_input@,
            chats: messages_view(self.chats@),
            current_screen: self.current_screen,
            spinner: self.spinner@,
            spinner_idx: self.spinner_idx as nat,
            active_data_field: self.active_data_field,
            username_inp: self.username_inp@,
            password_inp: self.password_inp@,
            error_msg: match self.error_msg {
                Some(t) => Some(t@),
                None => None,
            },
            should_quit: self.should_quit,
        }
    }
}

impl AppView {
    /// The state can be drawn and stepped: the spinner has a frame to show,
    /// and the sign-in form is only shown once the relay's address is
    /// known.
    pub open spec fn wf(self) -> bool {
        &&& self.spinner_idx < self.spinner.len()
        &&& self.current_screen == CurrentScreen::Signin ==> self.server_addr is Some
    }
}

/// `text` without its last character, or `text` itself where it is empty.
pub open spec fn without_last(text: Seq<char>) -> Seq<char> {
    if text.len() > 0 {
        text.drop_last()
    } else {
        text
    }
}

/// The key event is a press of Ctrl-C: the key `c` with the control key and
/// no other modifier held.
pub open spec fn is_quit_key(key: KeyEvent) -> bool {
    key.kind == KeyEventKind::Press && key.modifiers == CONTROL && key.code == KeyCode::Char('c')
}

/// The state after a tick of the timer: the spinner shows its next frame.
pub open spec fn tick_step(s: AppView) -> AppView {
    AppView { spinner_idx: (((s.spinner_idx + 1) as int) % (s.spinner.len() as int)) as nat, ..s }
}

/// What a key does on the sign-in form.
///
/// Enter asks for a connection with what the form holds; a character goes
/// to the end of the active field; Backspace takes the last character of the
/// active field away; Tab makes the other field the active one.
pub open spec fn signin_step(s: AppView, code: KeyCode) -> (AppView, Option<ActionView>) {
    match code {
        KeyCode::Enter => (
            s,
            Some(
                ActionView::Connect {
                    server_addr: s.server_addr->0,
                    credentials: CredentialsView {
                        username: s.username_inp,
                        password: s.password_inp,
                    },
                },
            ),
        ),
        KeyCode::Char(c) => match s.active_data_field {
            ActiveDataField::Username => (
                AppView { username_inp: s.username_inp.push(c), ..s },
                None,
            ),
            ActiveDataField::Password => (
                AppView { password_inp: s.password_inp.push(c), ..s },
                None,
            ),
        },
        KeyCode::Backspace => match s.active_data_field {
            ActiveDataField::Username => (
                AppView { username_inp: without_last(s.username_inp), ..s },
                None,
            ),
            ActiveDataField::Password => (
                AppView { password_inp: without_last(s.password_inp), ..s },
                None,
            ),
        },
        KeyCode::Tab => (
            AppView {
                active_data_field: match s.active_data_field {
                    ActiveDataField::Username => ActiveDataField::Password,
                    ActiveDataField::Password => ActiveDataField::Username,
                },
                ..s
            },
            None,
        ),
        KeyCode::Other => (s, None),
    }
}

/// What a key does on the chat screen.
///
/// Enter sends what has been written, if anything, and clears the line; a
/// character goes to the end of the line; Backspace takes its last character
/// away.
pub open spec fn chat_step(s: AppView, code: KeyCode) -> (AppView, Option<ActionView>) {
    match code {
        KeyCode::Enter => if s.client_msg_input.len() > 0 {
            (
                AppView { client_msg_input: Seq::empty(), ..s },
                Some(ActionView::ClientMessage(s.client_msg_input)),
            )
        } else {
            (s, None)
        },
        KeyCode::Char(c) => (AppView { client_msg_input: s.client_msg_input.push(c), ..s }, None),
        KeyCode::Backspace => (
            AppView { client_msg_input: without_last(s.client_msg_input), ..s },
            None,
        ),
        _ => (s, None),
    }
}

/// What a key event does.
///
/// Only presses count. Ctrl-C sets the quit flag and asks to disconnect,
/// whatever the screen. Any other press goes to the screen shown; the
/// spinner screen takes no keys.
pub open spec fn key_step(s: AppView, key: KeyEvent) -> (AppView, Option<ActionView>) {
    if key.kind != KeyEventKind::Press {
        (s, None)
    } else if is_quit_key(key) {
        (AppView { should_quit: true, ..s }, Some(ActionView::Disconnect))
    } else {
        match s.current_screen {
            CurrentScreen::Signin => signin_step(s, key.code),
            CurrentScreen::Chat => chat_step(s, key.code),
            CurrentScreen::FindingServer => (s, None),
        }
    }
}

/// The next state and the action asked for, for each state and event.
pub open spec fn app_step(s: AppView, event: EventView) -> (AppView, Option<ActionView>) {
    match event {
        EventView::Tick => (tick_step(s), None),
        EventView::KeyPress(key) => key_step(s, key),
        EventView::ServerFound(addr) => (
            AppView { server_addr: Some(addr), current_screen: CurrentScreen::Signin, ..s },
            None,
        ),
        EventView::Connected(m) => (
            AppView { chats: s.chats.push(m), current_screen: CurrentScreen::Chat, ..s },
            None,
        ),
        EventView::ServerMessage(m) => (AppView { chats: s.chats.push(m), ..s }, None),
        EventView::Error(text) => (AppView { error_msg: Some(text), ..s }, None),
    }
}

/// What is shown as the error when `action` could not be handed over.
pub open spec fn undelivered_text(action: ActionView) -> Seq<char> {
    match action {
        ActionView::Connect { .. } => "Failed to send connection action to the network task."@,
        ActionView::ClientMessage(_) => "Failed to send message."@,
        ActionView::Disconnect => "Failed to send disconnect action to the network task."@,
    }
}

/// What the spinner screen says: that the relay is being looked for, and the
/// frame of the spinner.
pub open spec fn finding_server_text(s: AppView) -> Seq<char> {
    "🔎 Searching for server on the network ... "@.push(s.spinner[s.spinner_idx as int])
}

/// What the sign-in form shows in place of the password: one `*` for each
/// byte of its UTF-8 form.
pub open spec fn password_mask(password: Seq<char>) -> Seq<char> {
    stars(encode_utf8(password).len())
}

/// `n` times the character `*`.
pub open spec fn stars(n: nat) -> Seq<char> {
    Seq::new(n, |i: int| '*')
}

/// What the chat screen shows for the message `m`: the payload behind the
/// sender's name in brackets.
pub open spec fn message_line(m: MessageView) -> Seq<char> {
    "["@ + m.sender_username + "]: "@ + m.payload
}

/// A step keeps a state in order.
pub proof fn lemma_step_keeps_wf(s: AppView, event: EventView)
    requires
        s.wf(),
    ensures
        app_step(s, event).0.wf(),
{
    if event is Tick {
        let n = s.spinner.len() as int;
        assert(0 <= ((s.spinner_idx + 1) as int) % n < n);
    }
}

/// Once set, the quit flag stays set; and only Ctrl-C sets it.
pub proof fn lemma_quit_flag(s: AppView, event: EventView)
    ensures
        s.should_quit ==> app_step(s, event).0.should_quit,
        !s.should_quit ==> (app_step(s, event).0.should_quit <==> event is KeyPress
            && is_quit_key(event->KeyPress_0)),
{
}

/// Ctrl-C asks to disconnect and sets the quit flag on every screen,
/// whatever the form holds and whichever field is active, and changes
/// nothing else.
pub proof fn lemma_ctrl_c_quits(s: AppView, key: KeyEvent)
    requires
        is_quit_key(key),
    ensures
        app_step(s, EventView::KeyPress(key)) == (
            AppView { should_quit: true, ..s },
            Some(ActionView::Disconnect),
        ),
{
}

/// The state after a run of events, one step for each, and the actions
/// asked for on the way, in their order.
pub open spec fn app_run(s: AppView, events: Seq<EventView>) -> (AppView, Seq<ActionView>)
    decreases events.len(),
{
    if events.len() == 0 {
        (s, Seq::empty())
    } else {
        let (mid, asked) = app_run(s, events.drop_last());
        let (next, action) = app_step(mid, events.last());
        (
            next,
            match action {
                Some(a) => asked.push(a),
                None => asked,
            },
        )
    }
}

/// The messages that `events` bring from the relay, in their order.
pub open spec fn messages_of(events: Seq<EventView>) -> Seq<MessageView>
    decreases events.len(),
{
    if events.len() == 0 {
        Seq::empty()
    } else {
        match events.last() {
            EventView::Connected(m) => messages_of(events.drop_last()).push(m),
            EventView::ServerMessage(m) => messages_of(events.drop_last()).push(m),
            _ => messages_of(events.drop_last()),
        }
    }
}

/// The chat holds the messages in the order of their arrival: a run of
/// events appends the messages it brings, each once, to what was there, on
/// whatever screen they arrive.
pub proof fn lemma_chats_in_arrival_order(s: AppView, events: Seq<EventView>)
    ensures
        app_run(s, events).0.chats == s.chats + messages_of(events),
    decreases events.len(),
{
    if events.len() == 0 {
        assert(s.chats + messages_of(events) =~= s.chats);
    } else {
        lemma_chats_in_arrival_order(s, events.drop_last());
        assert(app_run(s, events).0.chats =~= s.chats + messages_of(events));
    }
}

/// A run of events sets the quit flag exactly if one of them is a press of
/// Ctrl-C; no error and no other event ends the client.
pub proof fn lemma_only_ctrl_c_quits(s: AppView, events: Seq<EventView>)
    requires
        !s.should_quit,
    ensures
        app_run(s, events).0.should_quit <==> exists|i: int|
            0 <= i < events.len() && (#[trigger] events[i]) is KeyPress && is_quit_key(
                events[i]->KeyPress_0,
            ),
    decreases events.len(),
{
    if events.len() > 0 {
        let before = events.drop_last();
        lemma_only_ctrl_c_quits(s, before);
        lemma_quit_flag(app_run(s, before).0, events.last());
        let last = events.len() - 1;
        if app_run(s, events).0.should_quit {
            if app_run(s, before).0.should_quit {
                let i = choose|i: int|
                    0 <= i < before.len() && (#[trigger] before[i]) is KeyPress && is_quit_key(
                        before[i]->KeyPress_0,
                    );
                assert(events[i] == before[i]);
            } else {
                assert(events[last] is KeyPress && is_quit_key(events[last]->KeyPress_0));
            }
        } else {
            assert forall|i: int| 0 <= i < events.len() implies !((#[trigger] events[i]) is KeyPress
                && is_quit_key(events[i]->KeyPress_0)) by {
                if i < last {
                    assert(events[i] == before[i]);
                }
            }
        }
    }
}

impl App {
    /// The state at the start: looking for the relay, nothing written,
    /// nothing received.
    pub fn new(server_addr: Option<SocketAddress>) -> (r: Self)
        ensures
            r@ == (AppView {
                server_addr,
                client_msg_input: Seq::empty(),
                chats: Seq::empty(),
                current_screen: CurrentScreen::FindingServer,
                spinner: seq!['\\', '|', '/', '-'],
                spinner_idx: 0,
                active_data_field: ActiveDataField::Username,
                username_inp: Seq::empty(),
                password_inp: Seq::empty(),
                error_msg: None,
                should_quit: false,
            }),
            r@.wf(),
    {
        let mut spinner: Vec<char> = Vec::new();
        spinner.push('\\');
        spinner.push('|');
        spinner.push('/');
        spinner.push('-');
        let r = Self {
            server_addr,
            client_msg_input: String::new(),
            chats: Vec::new(),
            current_screen: CurrentScreen::FindingServer,
            spinner,
            spinner_idx: 0,
            active_data_field: ActiveDataField::Username,
            username_inp: String::new(),
            password_inp: String::new(),
            error_msg: None,
            should_quit: false,
        };
        proof {
            assert(r@.spinner =~= seq!['\\', '|', '/', '-']);
            assert(r@.chats =~= Seq::<MessageView>::empty());
        }
        r
    }

    /// Advances the spinner by one frame, and from the last frame to the
    /// first.
    pub fn tick(&mut self)
        requires
            old(self)@.spinner_idx < old(self)@.spinner.len(),
        ensures
            final(self)@ == tick_step(old(self)@),
            final(self)@.spinner_idx < final(self)@.spinner.len(),
    {
        let frames = self.spinner.len();
        assert(self.spinner_idx < frames);
        self.spinner_idx = (self.spinner_idx + 1) % frames;
    }

    /// Handles one key event: see [`key_step`]. The action returned is to be
    /// handed to the network side.
    pub fn handle_key_event(&mut self, key_event: KeyEvent) -> (action: Option<Action>)
        requires
            old(self)@.wf(),
        ensures
            (final(self)@, action_view(action)) == key_step(old(self)@, key_event),
            final(self)@.wf(),
    {
        match key_event.kind {
            KeyEventKind::Press => {},
            _ => {
                return None;
            },
        }
        let to_quit = key_event.modifiers == CONTROL && key_event.code == KeyCode::Char('c');
        if to_quit {
            self.should_quit = true;
            return Some(Action::Disconnect);
        }
        match self.current_screen {
            CurrentScreen::Signin => self.handle_signin_input(key_event),
            CurrentScreen::Chat => self.handle_chat_input(key_event),
            CurrentScreen::FindingServer => None,
        }
    }

    /// Handles a key on the sign-in form: see [`signin_step`].
    ///
    /// Enter needs the relay's address, which the form is never shown
    /// without.
    pub fn handle_signin_input(&mut self, key_event: KeyEvent) -> (action: Option<Action>)
        requires
            key_event.code == KeyCode::Enter ==> old(self)@.server_addr is Some,
        ensures
            (final(self)@, action_view(action)) == signin_step(old(self)@, key_event.code),
            final(self)@.current_screen == old(self)@.current_screen,
            final(self)@.server_addr == old(self)@.server_addr,
            final(self)@.spinner == old(self)@.spinner,
            final(self)@.spinner_idx == old(self)@.spinner_idx,
    {
        match key_event.code {
            KeyCode::Enter => {
                let credentials = Credentials::new(
                    self.username_inp.clone(),
                    self.password_inp.clone(),
                );
                match self.server_addr {
                    Some(server_addr) => Some(Action::Connect { server_addr, credentials }),
                    None => None,
                }
            },
            KeyCode::Char(c) => {
                match self.active_data_field {
                    ActiveDataField::Username => push_char(&mut self.username_inp, c),
                    ActiveDataField::Password => push_char(&mut self.password_inp, c),
                }
                None
            },
            KeyCode::Backspace => {
                match self.active_data_field {
                    ActiveDataField::Username => {
                        pop_char(&mut self.username_inp);
                    },
                    ActiveDataField::Password => {
                        pop_char(&mut self.password_inp);
                    },
                }
                None
            },
            KeyCode::Tab => {
                self.active_data_field = match self.active_data_field {
                    ActiveDataField::Username => ActiveDataField::Password,
                    ActiveDataField::Password => ActiveDataField::Username,
                };
                None
            },
            KeyCode::Other => None,
        }
    }

    /// Handles a key on the chat screen: see [`chat_step`].
    pub fn handle_chat_input(&mut self, key_event: KeyEvent) -> (action: Option<Action>)
        ensures
            (final(self)@, action_view(action)) == chat_step(old(self)@, key_event.code),
            final(self)@.current_screen == old(self)@.current_screen,
            final(self)@.server_addr == old(self)@.server_addr,
            final(self)@.spinner == old(self)@.spinner,
            final(self)@.spinner_idx == old(self)@.spinner_idx,
    {
        match key_event.code {
            KeyCode::Enter => {
                if self.client_msg_input.as_str().unicode_len() > 0 {
                    let mut msg = String::new();
                    core::mem::swap(&mut self.client_msg_input, &mut msg);
                    Some(Action::ClientMessage(msg))
                } else {
                    None
                }
            },
            KeyCode::Char(c) => {
                push_char(&mut self.client_msg_input, c);
                None
            },
            KeyCode::Backspace => {
                pop_char(&mut self.client_msg_input);
                None
            },
            _ => None,
        }
    }

    /// Handles one event: see [`app_step`]. The action returned, if any, is
    /// to be handed to the network side; where that fails, tell
    /// [`App::delivery_failed`].
    pub fn handle_event(&mut self, event: Event) -> (action: Option<Action>)
        requires
            old(self)@.wf(),
        ensures
            (final(self)@, action_view(action)) == app_step(old(self)@, event@),
            final(self)@.wf(),
    {
        let ghost before = self@;
        match event {
            Event::Tick => {
                self.tick();
                None
            },
            Event::KeyPress(key_event) => self.handle_key_event(key_event),
            Event::ServerFound(socket_addr) => {
                self.server_addr = Some(socket_addr);
                self.current_screen = CurrentScreen::Signin;
                None
            },
            Event::Connected(server_response) => {
                self.chats.push(server_response);
                self.current_screen = CurrentScreen::Chat;
                assert(self@.chats =~= before.chats.push(server_response@));
                None
            },
            Event::ServerMessage(msg) => {
                self.chats.push(msg);
                assert(self@.chats =~= before.chats.push(msg@));
                None
            },
            Event::Error(e) => {
                self.error_msg = Some(e);
                None
            },
        }
    }

    /// The text of the spinner screen: see [`finding_server_text`].
    pub fn finding_server_text(&self) -> (r: String)
        requires
            self@.spinner_idx < self@.spinner.len(),
        ensures
            r@ == finding_server_text(self@),
    {
        let mut r = String::from_str("🔎 Searching for server on the network ... ");
        push_char(&mut r, self.spinner[self.spinner_idx]);
        r
    }

    /// What the sign-in form shows in place of the password: see
    /// [`password_mask`].
    pub fn password_mask(&self) -> (r: String)
        ensures
            r@ == password_mask(self@.password_inp),
    {
        let n = self.password_inp.as_str().as_bytes().len();
        let mut r = String::new();
        let mut i: usize = 0;
        assert(r@ =~= stars(0));
        while i < n
            invariant
                i <= n,
                r@ == stars(i as nat),
            decreases n - i,
        {
            push_char(&mut r, '*');
            i = i + 1;
            assert(r@ =~= stars(i as nat));
        }
        r
    }

    /// Records that `action` could not be handed to the network side: the
    /// error shown says so, and nothing else changes.
    pub fn delivery_failed(&mut self, action: &Action)
        ensures
            final(self)@ == (AppView {
                error_msg: Some(undelivered_text(action@)),
                ..old(self)@
            }),
    {
        let text = match action {
            Action::Connect { .. } => String::from_str(
                "Failed to send connection action to the network task.",
            ),
            Action::ClientMessage(_) => String::from_str("Failed to send message."),
            Action::Disconnect => String::from_str(
                "Failed to send disconnect action to the network task.",
            ),
        };
        self.error_msg = Some(text);
    }
}

/// The line that the chat screen shows for `msg`: see [`message_line`].
pub fn chat_screen_line(msg: &MessageProtocol) -> (r: String)
    ensures
        r@ == message_line(msg@),
{
    let mut r = String::from_str("[");
    r.append(msg.sender_username.as_str());
    r.append("]: ");
    r.append(msg.payload.as_str());
    r
}

} // verus!
