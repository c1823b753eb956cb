use housechat::address::SocketAddress;
use housechat::client_model::Credentials;
use housechat::comms::{Action, Event, KeyCode, KeyEvent, KeyEventKind, ALT, CONTROL, NONE, SHIFT};
use housechat::protocol::MessageProtocol;
use housechat::ui::{chat_screen_line, ActiveDataField, App, CurrentScreen};

fn key(code: KeyCode) -> KeyEvent {
    KeyEvent::new(code, NONE)
}

fn ctrl_c() -> KeyEvent {
    KeyEvent::new(KeyCode::Char('c'), CONTROL)
}

fn relay() -> SocketAddress {
    SocketAddress::new(192, 168, 1, 7, 8080)
}

fn message(payload: &str) -> MessageProtocol {
    MessageProtocol::new(0, SocketAddress::new(0, 0, 0, 0, 8080), "HouseChat".to_string(), payload.to_string())
}

fn signing_in() -> App {
    let mut app = App::new(None);
    assert_eq!(app.handle_event(Event::ServerFound(relay())), None);
    app
}

fn chatting() -> App {
    let mut app = signing_in();
    assert_eq!(app.handle_event(Event::Connected(message("welcome"))), None);
    app
}

fn type_text(app: &mut App, text: &str) {
    for c in text.chars() {
        assert_eq!(app.handle_key_event(key(KeyCode::Char(c))), None);
    }
}

#[test]
fn app_starts_looking_for_the_server() {
    let app = App::new(None);
    assert_eq!(app.current_screen, CurrentScreen::FindingServer);
    assert_eq!(app.server_addr, None);
    assert_eq!(app.spinner, vec!['\\', '|', '/', '-']);
    assert_eq!(app.spinner_idx, 0);
    assert_eq!(app.active_data_field, ActiveDataField::Username);
    assert_eq!(app.username_inp, "");
    assert_eq!(app.password_inp, "");
    assert_eq!(app.client_msg_input, "");
    assert!(app.chats.is_empty());
    assert_eq!(app.error_msg, None);
    assert!(!app.should_quit);
    assert_eq!(App::new(Some(relay())).server_addr, Some(relay()));
}

#[test]
fn tick_walks_the_spinner_round() {
    let mut app = App::new(None);
    let mut seen = vec![];
    for _ in 0..9 {
        seen.push(app.spinner_idx);
        app.tick();
    }
    assert_eq!(seen, vec![0, 1, 2, 3, 0, 1, 2, 3, 0]);
    assert_eq!(app.handle_event(Event::Tick), None);
    assert_eq!(app.spinner_idx, 2);
}

#[test]
fn server_found_shows_the_sign_in_form() {
    let app = signing_in();
    assert_eq!(app.current_screen, CurrentScreen::Signin);
    assert_eq!(app.server_addr, Some(relay()));
}

#[test]
fn keys_are_passed_over_while_the_server_is_looked_for() {
    let mut app = App::new(None);
    for code in [KeyCode::Char('x'), KeyCode::Enter, KeyCode::Tab, KeyCode::Backspace, KeyCode::Other] {
        assert_eq!(app.handle_key_event(key(code)), None);
    }
    assert_eq!(app.username_inp, "");
    assert_eq!(app.current_screen, CurrentScreen::FindingServer);
}

#[test]
fn sign_in_form_takes_characters_into_the_active_field() {
    let mut app = signing_in();
    type_text(&mut app, "alice");
    assert_eq!(app.handle_key_event(key(KeyCode::Tab)), None);
    assert_eq!(app.active_data_field, ActiveDataField::Password);
    type_text(&mut app, "secret");
    assert_eq!(app.username_inp, "alice");
    assert_eq!(app.password_inp, "secret");
    assert_eq!(app.handle_key_event(key(KeyCode::Tab)), None);
    assert_eq!(app.active_data_field, ActiveDataField::Username);
}

#[test]
fn sign_in_form_backspace_takes_the_last_character() {
    let mut app = signing_in();
    type_text(&mut app, "alé");
    assert_eq!(app.handle_key_event(key(KeyCode::Backspace)), None);
    assert_eq!(app.username_inp, "al");
    for _ in 0..5 {
        assert_eq!(app.handle_key_event(key(KeyCode::Backspace)), None);
    }
    assert_eq!(app.username_inp, "");
    assert_eq!(app.password_inp, "");
}

#[test]
fn sign_in_enter_asks_for_the_connection() {
    let mut app = signing_in();
    type_text(&mut app, "alice");
    app.handle_key_event(key(KeyCode::Tab));
    type_text(&mut app, "secret");
    assert_eq!(
        app.handle_key_event(key(KeyCode::Enter)),
        Some(Action::Connect {
            server_addr: relay(),
            credentials: Credentials::new("alice".to_string(), "secret".to_string()),
        })
    );
    assert_eq!(app.current_screen, CurrentScreen::Signin);
    assert_eq!(app.username_inp, "alice");
    assert_eq!(app.password_inp, "secret");
}

#[test]
fn connected_shows_the_chat_with_the_first_message() {
    let app = chatting();
    assert_eq!(app.current_screen, CurrentScreen::Chat);
    assert_eq!(app.chats, vec![message("welcome")]);
}

#[test]
fn server_messages_are_kept_in_the_order_of_arrival() {
    let mut app = chatting();
    assert_eq!(app.handle_event(Event::ServerMessage(message("one"))), None);
    assert_eq!(app.handle_event(Event::ServerMessage(message("two"))), None);
    assert_eq!(app.chats, vec![message("welcome"), message("one"), message("two")]);
    assert_eq!(app.current_screen, CurrentScreen::Chat);
    let mut early = App::new(None);
    assert_eq!(early.handle_event(Event::ServerMessage(message("one"))), None);
    assert_eq!(early.chats, vec![message("one")]);
    assert_eq!(early.current_screen, CurrentScreen::FindingServer);
}

#[test]
fn chat_enter_sends_the_line_and_clears_it() {
    let mut app = chatting();
    assert_eq!(app.handle_key_event(key(KeyCode::Enter)), None);
    type_text(&mut app, "hellp");
    app.handle_key_event(key(KeyCode::Backspace));
    type_text(&mut app, "o");
    assert_eq!(app.client_msg_input, "hello");
    assert_eq!(
        app.handle_key_event(key(KeyCode::Enter)),
        Some(Action::ClientMessage("hello".to_string()))
    );
    assert_eq!(app.client_msg_input, "");
    assert_eq!(app.handle_key_event(key(KeyCode::Enter)), None);
    assert_eq!(app.handle_key_event(key(KeyCode::Tab)), None);
    assert_eq!(app.client_msg_input, "");
}

#[test]
fn error_event_is_shown_and_ends_nothing() {
    let mut app = chatting();
    assert_eq!(app.handle_event(Event::Error("first".to_string())), None);
    assert_eq!(app.handle_event(Event::Error("second".to_string())), None);
    assert_eq!(app.error_msg, Some("second".to_string()));
    assert!(!app.should_quit);
    assert_eq!(app.current_screen, CurrentScreen::Chat);
}

#[test]
fn ctrl_c_on_the_sign_in_form_disconnects_and_quits() {
    for field in [ActiveDataField::Username, ActiveDataField::Password] {
        for (user, pass) in [("", ""), ("alice", ""), ("alice", "secret")] {
            let mut app = signing_in();
            app.active_data_field = field;
            app.username_inp = user.to_string();
            app.password_inp = pass.to_string();
            assert_eq!(app.handle_event(Event::KeyPress(ctrl_c())), Some(Action::Disconnect));
            assert!(app.should_quit);
            assert_eq!(app.username_inp, user);
            assert_eq!(app.password_inp, pass);
            assert_eq!(app.active_data_field, field);
            assert_eq!(app.current_screen, CurrentScreen::Signin);
        }
    }
}

#[test]
fn ctrl_c_quits_on_every_screen() {
    for mut app in [App::new(None), signing_in(), chatting()] {
        assert_eq!(app.handle_key_event(ctrl_c()), Some(Action::Disconnect));
        assert!(app.should_quit);
    }
}

#[test]
fn only_a_plain_press_of_ctrl_c_quits() {
    let mut app = chatting();
    for key_event in [
        KeyEvent { code: KeyCode::Char('c'), modifiers: CONTROL, kind: KeyEventKind::Release },
        KeyEvent { code: KeyCode::Char('c'), modifiers: CONTROL, kind: KeyEventKind::Repeat },
        KeyEvent::new(KeyCode::Char('c'), CONTROL | SHIFT),
        KeyEvent::new(KeyCode::Char('c'), ALT),
        KeyEvent::new(KeyCode::Char('C'), CONTROL),
        KeyEvent::new(KeyCode::Char('d'), CONTROL),
    ] {
        assert_eq!(app.handle_key_event(key_event), None);
        assert!(!app.should_quit);
    }
    assert_eq!(app.client_msg_input, "ccCd");
}

#[test]
fn releases_and_repeats_type_nothing() {
    let mut app = signing_in();
    for kind in [KeyEventKind::Release, KeyEventKind::Repeat] {
        let key_event = KeyEvent { code: KeyCode::Char('x'), modifiers: NONE, kind };
        assert_eq!(app.handle_key_event(key_event), None);
    }
    assert_eq!(app.username_inp, "");
}

#[test]
fn delivery_failure_is_shown_and_changes_nothing_else() {
    let mut app = signing_in();
    type_text(&mut app, "alice");
    let action = app.handle_key_event(key(KeyCode::Enter)).unwrap();
    app.delivery_failed(&action);
    assert_eq!(
        app.error_msg,
        Some("Failed to send connection action to the network task.".to_string())
    );
    assert_eq!(app.current_screen, CurrentScreen::Signin);
    assert_eq!(app.username_inp, "alice");
    app.delivery_failed(&Action::ClientMessage("hi".to_string()));
    assert_eq!(app.error_msg, Some("Failed to send message.".to_string()));
    app.delivery_failed(&Action::Disconnect);
    assert_eq!(
        app.error_msg,
        Some("Failed to send disconnect action to the network task.".to_string())
    );
    assert!(!app.should_quit);
}

#[test]
fn handle_signin_input_and_handle_chat_input_work_on_their_own() {
    let mut app = App::new(Some(relay()));
    assert_eq!(app.handle_signin_input(key(KeyCode::Char('a'))), None);
    assert_eq!(app.handle_chat_input(key(KeyCode::Char('b'))), None);
    assert_eq!(app.username_inp, "a");
    assert_eq!(app.client_msg_input, "b");
    assert_eq!(
        app.handle_signin_input(key(KeyCode::Enter)),
        Some(Action::Connect {
            server_addr: relay(),
            credentials: Credentials::new("a".to_string(), "".to_string()),
        })
    );
    assert_eq!(app.handle_chat_input(key(KeyCode::Enter)), Some(Action::ClientMessage("b".to_string())));
}

#[test]
fn spinner_screen_shows_the_frame() {
    let mut app = App::new(None);
    assert_eq!(app.finding_server_text(), "🔎 Searching for server on the network ... \\");
    app.tick();
    assert_eq!(app.finding_server_text(), "🔎 Searching for server on the network ... |");
    app.tick();
    app.tick();
    assert_eq!(app.finding_server_text(), "🔎 Searching for server on the network ... -");
}

#[test]
fn password_is_shown_as_stars() {
    let mut app = signing_in();
    assert_eq!(app.password_mask(), "");
    app.password_inp = "secret".to_string();
    assert_eq!(app.password_mask(), "******");
    app.password_inp = "é漢".to_string();
    assert_eq!(app.password_mask(), "*****");
}

#[test]
fn chat_screen_shows_name_and_payload() {
    assert_eq!(chat_screen_line(&message("welcome")), "[HouseChat]: welcome");
}
