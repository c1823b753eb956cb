use housechat::address::SocketAddress;
use housechat::client_model::{Client, Credentials};
use housechat::id::SERVER_ID;
use housechat::json::Member;
use housechat::protocol::{DecodeError, MessageProtocol};

fn sample() -> MessageProtocol {
    MessageProtocol::new(
        0x67e5504410b1426f9247bb680e5fe0c8,
        SocketAddress::new(192, 168, 1, 7, 51234),
        "alice".to_string(),
        "hello".to_string(),
    )
}

#[test]
fn to_json_writes_one_line_with_the_members_in_order() {
    assert_eq!(
        sample().to_json(),
        "{\"id\":\"67e55044-10b1-426f-9247-bb680e5fe0c8\",\"sender_addr\":\"192.168.1.7:51234\",\
         \"sender_username\":\"alice\",\"payload\":\"hello\"}\n"
    );
}

#[test]
fn to_json_ends_with_the_only_line_feed() {
    let mut m = sample();
    m.payload = "two\nlines\r\n".to_string();
    m.sender_username = "a\nb".to_string();
    let line = m.to_json();
    assert!(line.ends_with('\n'));
    assert_eq!(line.matches('\n').count(), 1);
    assert_eq!(line.matches('\r').count(), 0);
}

#[test]
fn decode_of_encode_is_the_message() {
    let mut tricky = sample();
    tricky.payload = "quotes \" and \\ and \n and \u{0} and 漢字 😀".to_string();
    tricky.sender_username = "".to_string();
    let server = MessageProtocol::new(
        SERVER_ID,
        SocketAddress::new(0, 0, 0, 0, 8080),
        "HouseChat".to_string(),
        "alice has joined the chat!".to_string(),
    );
    for m in [sample(), tricky, server] {
        assert_eq!(MessageProtocol::try_from(m.to_json()), Ok(m.clone()));
        let stripped = m.to_json().trim_end().to_string();
        assert_eq!(MessageProtocol::try_from(stripped), Ok(m));
    }
}

#[test]
fn try_from_accepts_any_order_and_passes_over_other_members() {
    let line = "{\"payload\":\"hi\",\"extra\":[1,2],\"sender_username\":\"bob\",\
                \"sender_addr\":\"10.0.0.2:9\",\"id\":\"00000000-0000-0000-0000-00000000002a\"}";
    assert_eq!(
        MessageProtocol::try_from(line.to_string()),
        Ok(MessageProtocol::new(
            42,
            SocketAddress::new(10, 0, 0, 2, 9),
            "bob".to_string(),
            "hi".to_string()
        ))
    );
}

#[test]
fn try_from_reports_malformed_lines() {
    for line in ["", "hello", "[1]", "{\"id\":", "not json at all\n"] {
        assert_eq!(MessageProtocol::try_from(line.to_string()), Err(DecodeError::Malformed));
    }
}

#[test]
fn try_from_reports_missing_members() {
    for line in [
        "{}",
        "{\"id\":\"00000000-0000-0000-0000-000000000000\",\"sender_addr\":\"1.2.3.4:5\",\
         \"sender_username\":\"a\"}",
        "{\"id\":\"00000000-0000-0000-0000-000000000000\",\"sender_addr\":\"1.2.3.4:5\",\
         \"sender_username\":\"a\",\"payload\":7}",
        "{\"username\":\"alice\",\"password\":\"secret\"}",
    ] {
        assert_eq!(MessageProtocol::try_from(line.to_string()), Err(DecodeError::MissingField));
    }
}

#[test]
fn try_from_reports_bad_id_and_bad_address() {
    let bad_id = "{\"id\":\"nope\",\"sender_addr\":\"1.2.3.4:5\",\"sender_username\":\"a\",\
                  \"payload\":\"p\"}";
    assert_eq!(MessageProtocol::try_from(bad_id.to_string()), Err(DecodeError::InvalidId));
    let bad_addr = "{\"id\":\"00000000-0000-0000-0000-000000000000\",\"sender_addr\":\"1.2.3.4\",\
                    \"sender_username\":\"a\",\"payload\":\"p\"}";
    assert_eq!(
        MessageProtocol::try_from(bad_addr.to_string()),
        Err(DecodeError::InvalidAddress)
    );
    let both = "{\"id\":\"nope\",\"sender_addr\":\"nowhere\",\"sender_username\":\"a\",\
                \"payload\":\"p\"}";
    assert_eq!(MessageProtocol::try_from(both.to_string()), Err(DecodeError::InvalidId));
}

#[test]
fn from_members_reads_the_four_members() {
    let members = vec![
        Member { name: "id".to_string(), text: Some("0000000000000000000000000000002a".to_string()) },
        Member { name: "sender_addr".to_string(), text: Some("1.2.3.4:5".to_string()) },
        Member { name: "sender_username".to_string(), text: Some("a".to_string()) },
        Member { name: "payload".to_string(), text: Some("p".to_string()) },
    ];
    assert_eq!(
        MessageProtocol::from_members(&members),
        Ok(MessageProtocol::new(42, SocketAddress::new(1, 2, 3, 4, 5), "a".to_string(), "p".to_string()))
    );
    assert_eq!(
        MessageProtocol::from_members(&members[..3].to_vec_members()),
        Err(DecodeError::MissingField)
    );
}

trait ToVecMembers {
    fn to_vec_members(&self) -> Vec<Member>;
}

impl ToVecMembers for [Member] {
    fn to_vec_members(&self) -> Vec<Member> {
        self.iter().map(|m| Member { name: m.name.clone(), text: m.text.clone() }).collect()
    }
}

#[test]
fn to_members_names_the_wire_members() {
    let members = sample().to_members();
    assert_eq!(
        members,
        vec![
            ("id".to_string(), "67e55044-10b1-426f-9247-bb680e5fe0c8".to_string()),
            ("sender_addr".to_string(), "192.168.1.7:51234".to_string()),
            ("sender_username".to_string(), "alice".to_string()),
            ("payload".to_string(), "hello".to_string()),
        ]
    );
}

#[test]
fn decode_error_describes_itself() {
    assert_eq!(DecodeError::Malformed.describe(), "the line is not a JSON object");
    assert_eq!(
        DecodeError::MissingField.describe(),
        "a required member is missing or is not a string"
    );
    assert_eq!(DecodeError::InvalidId.describe(), "the member id is not a UUID");
    assert_eq!(
        DecodeError::InvalidAddress.describe(),
        "the member sender_addr is not a socket address"
    );
}

#[test]
fn credentials_new_keeps_both_fields() {
    let c = Credentials::new("alice".to_string(), "secret".to_string());
    assert_eq!(c.username, "alice");
    assert_eq!(c.password, "secret");
}

#[test]
fn credentials_to_json_writes_one_line() {
    let c = Credentials::new("alice".to_string(), "se\"cret".to_string());
    assert_eq!(c.to_json(), "{\"username\":\"alice\",\"password\":\"se\\\"cret\"}\n");
}

#[test]
fn credentials_read_back() {
    for (u, p) in [("alice", "secret"), ("", ""), ("a\nb", "\\\"\u{1}漢")] {
        let c = Credentials::new(u.to_string(), p.to_string());
        assert_eq!(Credentials::from_json(&c.to_json()), Ok(c));
    }
}

#[test]
fn credentials_from_json_checks_the_shape_only() {
    assert_eq!(
        Credentials::from_json("{\"password\":\"\",\"username\":\"x\",\"more\":true}"),
        Ok(Credentials::new("x".to_string(), "".to_string()))
    );
    assert_eq!(Credentials::from_json("{\"username\":\"alice\"}"), Err(DecodeError::MissingField));
    assert_eq!(
        Credentials::from_json("{\"username\":\"alice\",\"password\":5}"),
        Err(DecodeError::MissingField)
    );
    assert_eq!(Credentials::from_json("alice"), Err(DecodeError::Malformed));
    assert_eq!(Credentials::from_json(""), Err(DecodeError::Malformed));
}

#[test]
fn client_new_draws_an_id() {
    let a = Client::new("alice".to_string(), "secret".to_string());
    let b = Client::new("alice".to_string(), "secret".to_string());
    assert_eq!(a.credentials, Credentials::new("alice".to_string(), "secret".to_string()));
    assert_ne!(a.id, SERVER_ID);
    assert_ne!(a.id, b.id);
}

#[test]
fn client_try_from_reads_credentials() {
    let client =
        Client::try_from("{\"username\":\"alice\",\"password\":\"secret\"}\n".to_string()).unwrap();
    assert_eq!(client.credentials, Credentials::new("alice".to_string(), "secret".to_string()));
    assert_ne!(client.id, SERVER_ID);
    assert_eq!(Client::try_from("{}".to_string()), Err(DecodeError::MissingField));
    assert_eq!(Client::try_from("x".to_string()), Err(DecodeError::Malformed));
}

#[test]
fn client_with_id_keeps_the_id() {
    assert_eq!(
        Client::with_id(7, "{\"username\":\"u\",\"password\":\"p\"}"),
        Ok(Client { id: 7, credentials: Credentials::new("u".to_string(), "p".to_string()) })
    );
    assert_eq!(Client::with_id(7, "[]"), Err(DecodeError::Malformed));
}

#[test]
fn checked_encoding_hands_out_lines_that_read_back() {
    let mut tricky = sample();
    tricky.payload = "quotes \" and \\ and \n and \u{0} and 漢字 😀".to_string();
    tricky.sender_username = "\u{7f}\u{85}\u{2028}".to_string();
    for m in [sample(), tricky] {
        let line = m.to_json_checked().unwrap();
        assert_eq!(line, m.to_json());
        assert_eq!(MessageProtocol::try_from(line), Ok(m));
    }
}

#[test]
fn same_as_compares_every_part() {
    let m = sample();
    assert!(m.same_as(&m.clone()));
    let mut other = sample();
    other.id = 1;
    assert!(!m.same_as(&other));
    let mut other = sample();
    other.sender_addr.port = 1;
    assert!(!m.same_as(&other));
    let mut other = sample();
    other.sender_username.push('x');
    assert!(!m.same_as(&other));
    let mut other = sample();
    other.payload.clear();
    assert!(!m.same_as(&other));
}
