use housechat::address::SocketAddress;
use housechat::comms::Action;
use housechat::networking::{chat, chat_line};
use housechat::protocol::{DecodeError, MessageProtocol};
use housechat::session::{Session, SessionAction, SessionEnd, SessionEvent};
use housechat::text::{char_is_whitespace, chars_of, trim};

#[test]
fn chars_of_lists_the_characters() {
    assert_eq!(chars_of(""), Vec::<char>::new());
    assert_eq!(chars_of("aé漢😀"), vec!['a', 'é', '漢', '😀']);
}

#[test]
fn white_space_is_what_the_standard_library_calls_so() {
    for code in 0..=0x10ffffu32 {
        if let Some(c) = char::from_u32(code) {
            assert_eq!(char_is_whitespace(c), c.is_whitespace(), "U+{:04X}", code);
        }
    }
}

#[test]
fn trim_takes_white_space_from_both_ends() {
    for text in [
        "",
        " ",
        "\n",
        " \t\r\n",
        "hello",
        "  hello",
        "hello\n",
        " \u{a0}hello world\u{3000}\r\n",
        "a b",
        "\u{85}x\u{2028}",
        "é",
        " 漢 字 ",
    ] {
        assert_eq!(trim(text), text.trim());
    }
    assert_eq!(trim("  :q \n"), ":q");
}

#[test]
fn typed_lines_are_messages_and_colon_q_leaves() {
    assert_eq!(chat(":q"), Action::Disconnect);
    assert_eq!(chat("  :q\n"), Action::Disconnect);
    assert_eq!(chat("hello\n"), Action::ClientMessage("hello".to_string()));
    assert_eq!(chat(":quit\n"), Action::ClientMessage(":quit".to_string()));
    assert_eq!(chat(": q\n"), Action::ClientMessage(": q".to_string()));
    assert_eq!(chat("\n"), Action::ClientMessage("".to_string()));
}

#[test]
fn chat_line_names_the_sender() {
    let msg = MessageProtocol::new(1, SocketAddress::new(1, 2, 3, 4, 5), "bob".to_string(), "hi".to_string());
    assert_eq!(chat_line(&msg, &"alice".to_string()), "[bob]: hi");
    assert_eq!(chat_line(&msg, &"bob".to_string()), "[Me]: hi");
}

#[test]
fn session_reads_lines_without_the_white_space_at_their_ends() {
    let mut session = Session::new(SocketAddress::new(1, 2, 3, 4, 5));
    let actions = session.step(
        SessionEvent::Line("\u{c} {\"username\":\"alice\",\"password\":\"\"}\u{a0}\r\n".to_string()),
        7,
    );
    assert_eq!(actions.len(), 1);
    let line = MessageProtocol::new(0, SocketAddress::new(0, 0, 0, 0, 0), "".to_string(), "hi".to_string())
        .to_json();
    let actions = session.step(SessionEvent::Line(format!("\u{b}{}\u{2003}", line)), 7);
    assert_eq!(
        actions,
        vec![SessionAction::Publish(MessageProtocol::new(
            7,
            SocketAddress::new(1, 2, 3, 4, 5),
            "alice".to_string(),
            "hi".to_string()
        ))]
    );
    let mut session = Session::new(SocketAddress::new(1, 2, 3, 4, 5));
    assert_eq!(
        session.step(SessionEvent::Line(" \n".to_string()), 7),
        vec![SessionAction::Close(SessionEnd::CredentialDecodeError(DecodeError::Malformed))]
    );
}
