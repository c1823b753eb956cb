use housechat::address::SocketAddress;
use housechat::client_model::{Client, Credentials};
use housechat::id::SERVER_ID;
use housechat::protocol::{DecodeError, MessageProtocol};
use housechat::relay::{listen_address, relay_step, RelayAction, RelayEvent};
use housechat::session::{
    handle_client, handle_client_message, read_channel, Phase, RecvError, Session, SessionAction,
    SessionEnd, SessionEvent, SessionState,
};
use housechat::{SERVER_CAPACITY, SERVER_NAME};

fn peer() -> SocketAddress {
    SocketAddress::new(192, 168, 1, 20, 50000)
}

fn announcement(payload: &str) -> MessageProtocol {
    MessageProtocol::new(
        SERVER_ID,
        SocketAddress::new(0, 0, 0, 0, 8080),
        "HouseChat".to_string(),
        payload.to_string(),
    )
}

fn line_of(payload: &str) -> String {
    MessageProtocol::new(99, SocketAddress::new(1, 1, 1, 1, 1), "mallory".to_string(), payload.to_string())
        .to_json()
}

fn alice() -> Session {
    let mut session = Session::new(peer());
    let actions = session.step(
        SessionEvent::Line("{\"username\":\"alice\",\"password\":\"secret\"}\n".to_string()),
        7,
    );
    assert_eq!(actions, vec![SessionAction::Publish(announcement("alice has joined the chat!"))]);
    session
}

#[test]
fn server_constants() {
    assert_eq!(SERVER_NAME, "HouseChat");
    assert_eq!(SERVER_CAPACITY, 10);
    assert_eq!(listen_address(), SocketAddress::new(0, 0, 0, 0, 8080));
}

#[test]
fn session_starts_awaiting_credentials() {
    let session = Session::new(peer());
    assert_eq!(session.state(), SessionState::AwaitingCredentials);
    assert_eq!(session.addr, peer());
    assert_eq!(session.client(), None);
    assert!(!session.is_closed());
    assert!(!session.listens_to_bus());
}

#[test]
fn credentials_sign_the_client_in_and_announce_it() {
    let session = alice();
    assert_eq!(session.state(), SessionState::Active);
    assert!(session.listens_to_bus());
    assert_eq!(
        session.client(),
        Some(&Client { id: 7, credentials: Credentials::new("alice".to_string(), "secret".to_string()) })
    );
    assert_eq!(
        session.phase,
        Phase::Active(Client {
            id: 7,
            credentials: Credentials::new("alice".to_string(), "secret".to_string())
        })
    );
}

#[test]
fn bad_credentials_close_the_session_without_a_word() {
    for (line, error) in [
        ("hello\n", DecodeError::Malformed),
        ("{\"username\":\"alice\"}\n", DecodeError::MissingField),
        ("", DecodeError::Malformed),
    ] {
        let mut session = Session::new(peer());
        let actions = session.step(SessionEvent::Line(line.to_string()), 7);
        assert_eq!(actions, vec![SessionAction::Close(SessionEnd::CredentialDecodeError(error))]);
        assert!(session.is_closed());
        assert_eq!(session.client(), None);
        assert_eq!(session.phase, Phase::Closing(None));
    }
}

#[test]
fn end_of_stream_before_sign_in_closes_without_a_word() {
    let mut session = Session::new(peer());
    assert_eq!(
        session.step(SessionEvent::EndOfStream, 7),
        vec![SessionAction::Close(SessionEnd::CredentialDecodeError(DecodeError::Malformed))]
    );
    assert!(session.is_closed());
    let mut session = Session::new(peer());
    assert_eq!(
        session.step(SessionEvent::ReadFailed, 7),
        vec![SessionAction::Close(SessionEnd::ReadFailed)]
    );
    assert!(session.is_closed());
}

#[test]
fn lines_are_relayed_under_the_clients_own_name() {
    let mut session = alice();
    assert_eq!(
        session.step(SessionEvent::Line(line_of("hello")), 8),
        vec![SessionAction::Publish(MessageProtocol::new(
            7,
            peer(),
            "alice".to_string(),
            "hello".to_string()
        ))]
    );
    assert_eq!(session.state(), SessionState::Active);
}

#[test]
fn malformed_line_is_dropped_and_the_next_line_is_relayed() {
    let mut session = alice();
    assert_eq!(
        session.step(SessionEvent::Line("this is no message\n".to_string()), 8),
        vec![SessionAction::Dropped(DecodeError::Malformed)]
    );
    assert_eq!(
        session.step(SessionEvent::Line("{\"payload\":\"x\"}\n".to_string()), 8),
        vec![SessionAction::Dropped(DecodeError::MissingField)]
    );
    assert_eq!(session.state(), SessionState::Active);
    assert_eq!(
        session.step(SessionEvent::Line(line_of("still here")), 8),
        vec![SessionAction::Publish(MessageProtocol::new(
            7,
            peer(),
            "alice".to_string(),
            "still here".to_string()
        ))]
    );
}

#[test]
fn bus_messages_are_written_as_lines() {
    let mut session = alice();
    let message = announcement("bob has joined the chat!");
    assert_eq!(
        session.step(SessionEvent::Bus(Ok(message.clone())), 8),
        vec![SessionAction::Write(message.to_json())]
    );
    assert_eq!(session.step(SessionEvent::Bus(Err(RecvError::Lagged(3))), 8), vec![]);
    assert_eq!(session.step(SessionEvent::Bus(Err(RecvError::Closed)), 8), vec![]);
    assert_eq!(session.state(), SessionState::Active);
}

#[test]
fn bus_messages_before_sign_in_are_passed_over() {
    let mut session = Session::new(peer());
    assert_eq!(session.step(SessionEvent::Bus(Ok(announcement("x"))), 8), vec![]);
    assert_eq!(session.step(SessionEvent::WriteFailed, 8), vec![]);
    assert_eq!(session.step(SessionEvent::PublishFailed, 8), vec![]);
    assert_eq!(session.state(), SessionState::AwaitingCredentials);
}

#[test]
fn every_end_of_an_active_session_announces_the_leaving() {
    for (event, end) in [
        (SessionEvent::EndOfStream, SessionEnd::SocketClosed),
        (SessionEvent::ReadFailed, SessionEnd::ReadFailed),
        (SessionEvent::WriteFailed, SessionEnd::WriteFailed),
        (SessionEvent::PublishFailed, SessionEnd::ChannelSendFailure),
    ] {
        let mut session = alice();
        assert_eq!(
            session.step(event, 8),
            vec![
                SessionAction::Publish(announcement("alice has left the chat!")),
                SessionAction::Close(end),
            ]
        );
        assert!(session.is_closed());
        assert!(!session.listens_to_bus());
        assert_eq!(session.client().map(|c| c.id), Some(7));
    }
}

#[test]
fn a_closed_session_does_nothing() {
    let mut session = alice();
    session.step(SessionEvent::EndOfStream, 8);
    for event in [
        SessionEvent::Line(line_of("late")),
        SessionEvent::EndOfStream,
        SessionEvent::ReadFailed,
        SessionEvent::Bus(Ok(announcement("x"))),
        SessionEvent::WriteFailed,
        SessionEvent::PublishFailed,
    ] {
        assert_eq!(session.step(event, 9), vec![]);
        assert!(session.is_closed());
    }
}

#[test]
fn scenario_alice_joins_says_hello_and_leaves() {
    let mut a = Session::new(peer());
    let mut b = alice_named_bob();
    let mut bus: Vec<MessageProtocol> = vec![];
    let mut to_a: Vec<String> = vec![];
    let mut to_b: Vec<String> = vec![];

    let mut run = |session: &mut Session, event: SessionEvent, bus: &mut Vec<MessageProtocol>| {
        for action in handle_client(session, event) {
            if let SessionAction::Publish(m) = action {
                bus.push(m);
            }
        }
    };
    run(&mut a, SessionEvent::Line("{\"username\":\"alice\",\"password\":\"\"}".to_string()), &mut bus);
    run(&mut a, SessionEvent::Line(line_of("hello")), &mut bus);
    run(&mut a, SessionEvent::EndOfStream, &mut bus);

    assert_eq!(bus.len(), 3);
    assert_eq!(bus[0], announcement("alice has joined the chat!"));
    assert_eq!(bus[1].payload, "hello");
    assert_eq!(bus[1].sender_username, "alice");
    assert_eq!(bus[1].sender_addr, peer());
    assert_ne!(bus[1].id, SERVER_ID);
    assert_eq!(bus[2], announcement("alice has left the chat!"));

    let mut a_again = alice();
    for message in &bus[..2] {
        for action in a_again.step(SessionEvent::Bus(Ok(message.clone())), 0) {
            if let SessionAction::Write(line) = action {
                to_a.push(line);
            }
        }
    }
    for message in &bus {
        for action in b.step(SessionEvent::Bus(Ok(message.clone())), 0) {
            if let SessionAction::Write(line) = action {
                to_b.push(line);
            }
        }
    }
    assert_eq!(to_a.len(), 2);
    assert_eq!(to_b.len(), 3);
    assert_eq!(MessageProtocol::try_from(to_a[0].clone()), Ok(bus[0].clone()));
    assert_eq!(MessageProtocol::try_from(to_a[1].clone()).unwrap().payload, "hello");
    assert_eq!(MessageProtocol::try_from(to_b[1].clone()).unwrap().sender_username, "alice");
    assert_eq!(MessageProtocol::try_from(to_b[2].clone()), Ok(bus[2].clone()));
}

fn alice_named_bob() -> Session {
    let mut session = Session::new(SocketAddress::new(192, 168, 1, 21, 50001));
    session.step(SessionEvent::Line("{\"username\":\"bob\",\"password\":\"\"}".to_string()), 11);
    session
}

#[test]
fn handle_client_gives_each_client_an_id_of_its_own() {
    let mut a = Session::new(peer());
    let mut b = Session::new(peer());
    let line = "{\"username\":\"alice\",\"password\":\"\"}";
    handle_client(&mut a, SessionEvent::Line(line.to_string()));
    handle_client(&mut b, SessionEvent::Line(line.to_string()));
    let (a, b) = (a.client().unwrap(), b.client().unwrap());
    assert_ne!(a.id, SERVER_ID);
    assert_ne!(b.id, SERVER_ID);
    assert_ne!(a.id, b.id);
}

#[test]
fn read_channel_gives_the_line_to_write() {
    let message = announcement("x");
    assert_eq!(read_channel(Ok(message.clone())), Some(message.to_json()));
    assert_eq!(read_channel(Err(RecvError::Lagged(1))), None);
    assert_eq!(read_channel(Err(RecvError::Closed)), None);
}

#[test]
fn handle_client_message_tags_the_payload() {
    let client = Client { id: 5, credentials: Credentials::new("carol".to_string(), "".to_string()) };
    assert_eq!(
        handle_client_message(&client, line_of("hi"), peer()),
        Ok(MessageProtocol::new(5, peer(), "carol".to_string(), "hi".to_string()))
    );
    assert_eq!(
        handle_client_message(&client, "hi\n".to_string(), peer()),
        Err(DecodeError::Malformed)
    );
}

#[test]
fn relay_spawns_a_session_for_each_connection() {
    assert_eq!(relay_step(RelayEvent::Accepted(peer())), RelayAction::Spawn(Session::new(peer())));
    assert_eq!(relay_step(RelayEvent::AcceptFailed), RelayAction::Continue);
    assert_eq!(relay_step(RelayEvent::Shutdown), RelayAction::Stop);
}
