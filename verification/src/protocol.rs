//! Chat messages and their wire form.
//!
//! A message travels as one line: a JSON object with the members `id`,
//! `sender_addr`, `sender_username` and `payload`, in this order, each a
//! string, followed by a line feed. JSON escapes a line feed inside a
//! string, so the line feed at the end is the only one on the line.

use vstd::prelude::*;
use vstd::string::*;
use vstd::utf8::*;

use crate::address::{
    address_text, lemma_address_round_trip, lemma_address_text_bytes, parse_address,
    parse_socket_address, SocketAddress,
};
use crate::id::{id_from_text, id_text, id_to_text, parsed_id};
use crate::json::{
    find_text, members_view, members_written, object_members, object_text, pairs_view,
    parse_object, text_of, write_object, Member, MemberView,
};
use crate::text::push_char;

verus! {

/// Why a line could not be read as a message or as credentials.
#[derive(Clone, Copy, Debug, PartialEq, Eq, Structural)]
pub enum DecodeError {
    /// The line is no JSON object.
    Malformed,
    /// A member that must be there is missing, or its value is no string.
    MissingField,
    /// The member `id` does not denote a UUID.
    InvalidId,
    /// The member `sender_addr` does not denote a socket address.
    InvalidAddress,
}

impl DecodeError {
    /// A sentence for the log or the screen.
    pub fn describe(&self) -> (r: String)
        ensures
            r@ == match *self {
                DecodeError::Malformed => "the line is not a JSON object"@,
                DecodeError::MissingField => "a required member is missing or is not a string"@,
                DecodeError::InvalidId => "the member id is not a UUID"@,
                DecodeError::InvalidAddress => "the member sender_addr is not a socket address"@,
            },
    {
        match self {
            DecodeError::Malformed => String::from_str("the line is not a JSON object"),
            DecodeError::MissingField => String::from_str(
                "a required member is missing or is not a string",
            ),
            DecodeError::InvalidId => String::from_str("the member id is not a UUID"),
            DecodeError::InvalidAddress => String::from_str(
                "the member sender_addr is not a socket address",
            ),
        }
    }
}

/// One chat message.
#[derive(Debug, PartialEq, Eq)]
pub struct MessageProtocol {
    /// Who sent it: the identifier of the client, or
    /// [`SERVER_ID`](crate::id::SERVER_ID) for the relay's own announcements.
    pub id: u128,
    /// The address from which the sender is connected.
    pub sender_addr: SocketAddress,
    /// The name under which the sender signed in.
    pub sender_username: String,
    /// What the sender wrote.
    pub payload: String,
}

/// A [`MessageProtocol`] with its texts as sequences of characters.
pub struct MessageView {
    pub id: u128,
    pub sender_addr: SocketAddress,
    pub sender_username: Seq<char>,
    pub payload: Seq<char>,
}

impl View for MessageProtocol {
    type V = MessageView;

    open spec fn view(&self) -> MessageView {
        MessageView {
            id: self.id,
            sender_addr: self.sender_addr,
            sender_username: self.sender_username@,
            payload: self.payload@,
        }
    }
}

/// The members of the object that stands for `m` on the wire.
pub open spec fn message_members(m: MessageView) -> Seq<(Seq<char>, Seq<char>)> {
    seq![
        ("id"@, id_text(m.id)),
        ("sender_addr"@, address_text(m.sender_addr)),
        ("sender_username"@, m.sender_username),
        ("payload"@, m.payload),
    ]
}

/// The line that stands for `m` on the wire: the object and a line feed.
pub open spec fn wire_text(m: MessageView) -> Seq<char> {
    object_text(message_members(m)) + seq!['\n']
}

/// The message that an object with the given members stands for.
///
/// The four members must be there as strings, `id` must denote a UUID and
/// `sender_addr` a socket address. Other members are passed over.
pub open spec fn message_of_members(members: Seq<MemberView>) -> Result<MessageView, DecodeError> {
    match (
        text_of(members, "id"@),
        text_of(members, "sender_addr"@),
        text_of(members, "sender_username"@),
        text_of(members, "payload"@),
    ) {
        (Some(id), Some(addr), Some(name), Some(payload)) => match parsed_id(id) {
            None => Err(DecodeError::InvalidId),
            Some(id) => match parse_address(encode_utf8(addr)) {
                None => Err(DecodeError::InvalidAddress),
                Some(sender_addr) => Ok(
                    MessageView { id, sender_addr, sender_username: name, payload },
                ),
            },
        },
        _ => Err(DecodeError::MissingField),
    }
}

/// The message that the line `text` stands for.
pub open spec fn decoded_message(text: Seq<char>) -> Result<MessageView, DecodeError> {
    match object_members(text) {
        None => Err(DecodeError::Malformed),
        Some(members) => message_of_members(members),
    }
}

/// The view of a decoding result.
pub open spec fn message_result_view(r: Result<MessageProtocol, DecodeError>) -> Result<
    MessageView,
    DecodeError,
> {
    match r {
        Ok(m) => Ok(m@),
        Err(e) => Err(e),
    }
}

/// The four member names differ from one another.
pub proof fn lemma_member_names()
    ensures
        "id"@ != "sender_addr"@,
        "id"@ != "sender_username"@,
        "id"@ != "payload"@,
        "sender_addr"@ != "sender_username"@,
        "sender_addr"@ != "payload"@,
        "sender_username"@ != "payload"@,
{
    reveal_strlit("id");
    reveal_strlit("sender_addr");
    reveal_strlit("sender_username");
    reveal_strlit("payload");
    assert("id"@.len() == 2);
    assert("sender_addr"@.len() == 11);
    assert("sender_username"@.len() == 15);
    assert("payload"@.len() == 7);
}

/// The members written for a message read back as that message, provided
/// the text of its identifier denotes the identifier again (as every text
/// from [`id_to_text`](crate::id::id_to_text) does).
pub proof fn lemma_message_reads_back(m: MessageView)
    requires
        parsed_id(id_text(m.id)) == Some(m.id),
    ensures
        message_of_members(members_written(message_members(m))) == Ok::<MessageView, DecodeError>(m),
{
    let pairs = message_members(m);
    let ms = members_written(pairs);
    lemma_member_names();
    assert(ms.len() == 4);
    assert(ms[0].name == "id"@ && ms[0].text == Some(id_text(m.id)));
    assert(ms[1].name == "sender_addr"@ && ms[1].text == Some(address_text(m.sender_addr)));
    assert(ms[2].name == "sender_username"@ && ms[2].text == Some(m.sender_username));
    assert(ms[3].name == "payload"@ && ms[3].text == Some(m.payload));
    let r1 = ms.skip(1);
    let r2 = r1.skip(1);
    let r3 = r2.skip(1);
    assert(r1[0] == ms[1] && r2[0] == ms[2] && r3[0] == ms[3]);
    assert(r1.len() == 3 && r2.len() == 2 && r3.len() == 1);
    assert(text_of(ms, "id"@) == Some(id_text(m.id)));
    assert(text_of(r1, "sender_addr"@) == Some(address_text(m.sender_addr)));
    assert(text_of(ms, "sender_addr"@) == Some(address_text(m.sender_addr)));
    assert(text_of(r2, "sender_username"@) == Some(m.sender_username));
    assert(text_of(r1, "sender_username"@) == Some(m.sender_username));
    assert(text_of(ms, "sender_username"@) == Some(m.sender_username));
    assert(text_of(r3, "payload"@) == Some(m.payload));
    assert(text_of(r2, "payload"@) == Some(m.payload));
    assert(text_of(r1, "payload"@) == Some(m.payload));
    assert(text_of(ms, "payload"@) == Some(m.payload));
    lemma_address_text_bytes(m.sender_addr);
    lemma_address_round_trip(m.sender_addr);
}

impl Clone for MessageProtocol {
    fn clone(&self) -> (r: Self)
        ensures
            r == *self,
    {
        MessageProtocol {
            id: self.id,
            sender_addr: self.sender_addr,
            sender_username: self.sender_username.clone(),
            payload: self.payload.clone(),
        }
    }
}

impl MessageProtocol {
    /// A message with the given parts.
    pub fn new(id: u128, sender_addr: SocketAddress, sender_username: String, payload: String) -> (r:
        Self)
        ensures
            r == (MessageProtocol { id, sender_addr, sender_username, payload }),
    {
        MessageProtocol { id, sender_addr, sender_username, payload }
    }

    /// The names and texts of the members that stand for this message.
    pub fn to_members(&self) -> (r: Vec<(String, String)>)
        ensures
            pairs_view(r@) == message_members(self@),
            message_of_members(members_written(message_members(self@))) == Ok::<
                MessageView,
                DecodeError,
            >(self@),
    {
        let id = id_to_text(self.id);
        let addr = self.sender_addr.to_text();
        let mut out: Vec<(String, String)> = Vec::new();
        out.push((String::from_str("id"), id));
        out.push((String::from_str("sender_addr"), addr));
        out.push((String::from_str("sender_username"), self.sender_username.clone()));
        out.push((String::from_str("payload"), self.payload.clone()));
        proof {
            assert(pairs_view(out@) =~= message_members(self@));
            lemma_message_reads_back(self@);
        }
        out
    }

    /// Encodes the message as one line for the wire.
    ///
    /// This never fails. The line ends with a line feed; the members written
    /// read back as this message.
    pub fn to_json(&self) -> (json: String)
        ensures
            json@ == wire_text(self@),
            message_of_members(members_written(message_members(self@))) == Ok::<
                MessageView,
                DecodeError,
            >(self@),
    {
        let members = self.to_members();
        let mut json = write_object(&members);
        push_char(&mut json, '\n');
        json
    }

    /// Whether `other` is the same message, part by part.
    pub fn same_as(&self, other: &MessageProtocol) -> (r: bool)
        ensures
            r == (self@ == other@),
    {
        self.id == other.id && self.sender_addr == other.sender_addr && self.sender_username
            == other.sender_username && self.payload == other.payload
    }

    /// Encodes the message as [`MessageProtocol::to_json`] does, and hands
    /// the line out only after reading it back.
    ///
    /// A line comes out exactly when the line of this message decodes to
    /// this very message, and it is that line. Whether it does rests with
    /// the JSON reader and the reader of identifiers: it does whenever they
    /// return what was written.
    pub fn to_json_checked(&self) -> (r: Option<String>)
        ensures
            r is Some <==> decoded_message(wire_text(self@)) == Ok::<MessageView, DecodeError>(
                self@,
            ),
            r is Some ==> r->0@ == wire_text(self@),
    {
        let json = self.to_json();
        match MessageProtocol::try_from(json.clone()) {
            Ok(read) => if read.same_as(self) {
                Some(json)
            } else {
                None
            },
            Err(_) => None,
        }
    }

    /// The message that the members of an object stand for.
    pub fn from_members(members: &Vec<Member>) -> (r: Result<MessageProtocol, DecodeError>)
        ensures
            message_result_view(r) == message_of_members(members_view(members@)),
    {
        let id_text = find_text(members, &String::from_str("id"));
        let addr_text = find_text(members, &String::from_str("sender_addr"));
        let name_text = find_text(members, &String::from_str("sender_username"));
        let payload_text = find_text(members, &String::from_str("payload"));
        match (id_text, addr_text, name_text, payload_text) {
            (Some(id_text), Some(addr_text), Some(name_text), Some(payload_text)) => {
                match id_from_text(id_text.as_str()) {
                    None => Err(DecodeError::InvalidId),
                    Some(id) => match parse_socket_address(addr_text.as_str().as_bytes()) {
                        None => Err(DecodeError::InvalidAddress),
                        Some(sender_addr) => Ok(
                            MessageProtocol {
                                id,
                                sender_addr,
                                sender_username: name_text.clone(),
                                payload: payload_text.clone(),
                            },
                        ),
                    },
                }
            },
            _ => Err(DecodeError::MissingField),
        }
    }

    /// Decodes one line from the wire. White space around the object, such
    /// as the line feed at the end of the line, is accepted.
    ///
    /// The result is [`DecodeError::Malformed`] exactly when the line is no
    /// JSON object, and otherwise what [`MessageProtocol::from_members`]
    /// gives for the members of that object.
    pub fn try_from(json: String) -> (r: Result<MessageProtocol, DecodeError>)
        ensures
            message_result_view(r) == decoded_message(json@),
    {
        match parse_object(json.as_str()) {
            None => Err(DecodeError::Malformed),
            Some(members) => MessageProtocol::from_members(&members),
        }
    }
}

} // verus!
