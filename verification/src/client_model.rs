//! Who a client is: the credentials it signs in with, and the identifier
//! the relay knows it by.
//!
//! Credentials travel once per connection, as the first line from the
//! client: a JSON object with the members `username` and `password`, both
//! strings. They are checked for their shape only.

use vstd::prelude::*;
use vstd::string::*;

use crate::id::{is_random_id, new_id, SERVER_ID};
use crate::json::{
    find_text, members_view, members_written, object_members, object_text, pairs_view,
    parse_object, text_of, write_object, Member, MemberView,
};
use crate::protocol::DecodeError;
use crate::text::push_char;

verus! {

/// A user name and a password, both in plain text.
#[derive(Debug, PartialEq, Eq)]
pub struct Credentials {
    pub username: String,
    pub password: String,
}

/// [`Credentials`] as sequences of characters.
pub struct CredentialsView {
    pub username: Seq<char>,
    pub password: Seq<char>,
}

impl View for Credentials {
    type V = CredentialsView;

    open spec fn view(&self) -> CredentialsView {
        CredentialsView { username: self.username@, password: self.password@ }
    }
}

/// The members of the object that stands for `c` on the wire.
pub open spec fn credentials_members(c: CredentialsView) -> Seq<(Seq<char>, Seq<char>)> {
    seq![("username"@, c.username), ("password"@, c.password)]
}

/// The line that stands for `c` on the wire: the object and a line feed.
pub open spec fn credentials_text(c: CredentialsView) -> Seq<char> {
    object_text(credentials_members(c)) + seq!['\n']
}

/// The credentials that an object with the given members stands for: both
/// members must be there as strings. Other members are passed over.
pub open spec fn credentials_of_members(members: Seq<MemberView>) -> Result<
    CredentialsView,
    DecodeError,
> {
    match (text_of(members, "username"@), text_of(members, "password"@)) {
        (Some(username), Some(password)) => Ok(CredentialsView { username, password }),
        _ => Err(DecodeError::MissingField),
    }
}

/// The credentials that the line `text` stands for.
pub open spec fn decoded_credentials(text: Seq<char>) -> Result<CredentialsView, DecodeError> {
    match object_members(text) {
        None => Err(DecodeError::Malformed),
        Some(members) => credentials_of_members(members),
    }
}

/// The view of a decoding result.
pub open spec fn credentials_result_view(r: Result<Credentials, DecodeError>) -> Result<
    CredentialsView,
    DecodeError,
> {
    match r {
        Ok(c) => Ok(c@),
        Err(e) => Err(e),
    }
}

/// The members written for credentials read back as those credentials.
pub proof fn lemma_credentials_read_back(c: CredentialsView)
    ensures
        credentials_of_members(members_written(credentials_members(c))) == Ok::<
            CredentialsView,
            DecodeError,
        >(c),
{
    let ms = members_written(credentials_members(c));
    reveal_strlit("username");
    reveal_strlit("password");
    assert("username"@[0] != "password"@[0]);
    assert(ms.len() == 2);
    assert(ms[0].name == "username"@ && ms[0].text == Some(c.username));
    assert(ms[1].name == "password"@ && ms[1].text == Some(c.password));
    let r1 = ms.skip(1);
    assert(r1[0] == ms[1]);
    assert(text_of(ms, "username"@) == Some(c.username));
    assert(text_of(r1, "password"@) == Some(c.password));
    assert(text_of(ms, "password"@) == Some(c.password));
}

impl Clone for Credentials {
    fn clone(&self) -> (r: Self)
        ensures
            r == *self,
    {
        Credentials { username: self.username.clone(), password: self.password.clone() }
    }
}

impl Credentials {
    /// Credentials with the given user name and password.
    pub fn new(username: String, password: String) -> (r: Self)
        ensures
            r == (Credentials { username, password }),
    {
        Self { username, password }
    }

    /// Encodes the credentials as the first line of a connection. This
    /// never fails; the members written read back as these credentials.
    pub fn to_json(&self) -> (json: String)
        ensures
            json@ == credentials_text(self@),
            credentials_of_members(members_written(credentials_members(self@))) == Ok::<
                CredentialsView,
                DecodeError,
            >(self@),
    {
        let mut members: Vec<(String, String)> = Vec::new();
        members.push((String::from_str("username"), self.username.clone()));
        members.push((String::from_str("password"), self.password.clone()));
        proof {
            assert(pairs_view(members@) =~= credentials_members(self@));
            lemma_credentials_read_back(self@);
        }
        let mut json = write_object(&members);
        push_char(&mut json, '\n');
        json
    }

    /// The credentials that the members of an object stand for.
    pub fn from_members(members: &Vec<Member>) -> (r: Result<Credentials, DecodeError>)
        ensures
            credentials_result_view(r) == credentials_of_members(members_view(members@)),
    {
        let username = find_text(members, &String::from_str("username"));
        let password = find_text(members, &String::from_str("password"));
        match (username, password) {
            (Some(username), Some(password)) => Ok(
                Credentials { username: username.clone(), password: password.clone() },
            ),
            _ => Err(DecodeError::MissingField),
        }
    }

    /// Decodes the first line of a connection. White space around the
    /// object, such as the line feed at the end of the line, is accepted.
    ///
    /// The result is [`DecodeError::Malformed`] exactly when the line is no
    /// JSON object, and [`DecodeError::MissingField`] exactly when it is one
    /// but `username` or `password` is missing or is no string.
    pub fn from_json(json: &str) -> (r: Result<Credentials, DecodeError>)
        ensures
            credentials_result_view(r) == decoded_credentials(json@),
    {
        match parse_object(json) {
            None => Err(DecodeError::Malformed),
            Some(members) => Credentials::from_members(&members),
        }
    }
}

/// A client as the relay knows it.
#[derive(Debug, PartialEq, Eq)]
pub struct Client {
    /// The identifier that the client's messages carry.
    pub id: u128,
    pub credentials: Credentials,
}

/// A [`Client`] with its texts as sequences of characters.
pub struct ClientView {
    pub id: u128,
    pub credentials: CredentialsView,
}

impl View for Client {
    type V = ClientView;

    open spec fn view(&self) -> ClientView {
        ClientView { id: self.id, credentials: self.credentials@ }
    }
}

impl Client {
    /// A client with the given credentials and a fresh random identifier,
    /// which is never the relay's own.
    pub fn new(username: String, password: String) -> (r: Self)
        ensures
            r.credentials == (Credentials { username, password }),
            is_random_id(r.id),
            r.id != SERVER_ID,
    {
        let id = new_id();
        let credentials = Credentials::new(username, password);
        Self { id, credentials }
    }

    /// The client with the identifier `id` that signs in with the line
    /// `credentials`.
    pub fn with_id(id: u128, credentials: &str) -> (r: Result<Client, DecodeError>)
        ensures
            match decoded_credentials(credentials@) {
                Ok(c) => r is Ok && r->Ok_0.id == id && r->Ok_0.credentials@ == c,
                Err(e) => r == Err::<Client, DecodeError>(e),
            },
    {
        match Credentials::from_json(credentials) {
            Ok(credentials) => Ok(Client { id, credentials }),
            Err(e) => Err(e),
        }
    }

    /// The client that signs in with the line `credentials`, under a fresh
    /// random identifier.
    ///
    /// Whether this succeeds depends on the line alone: it fails exactly as
    /// [`Credentials::from_json`] does. The identifier differs from call to
    /// call and is never the relay's own.
    pub fn try_from(credentials: String) -> (r: Result<Client, DecodeError>)
        ensures
            match decoded_credentials(credentials@) {
                Ok(c) => r is Ok && r->Ok_0.credentials@ == c && is_random_id(r->Ok_0.id)
                    && r->Ok_0.id != SERVER_ID,
                Err(e) => r == Err::<Client, DecodeError>(e),
            },
    {
        let id = new_id();
        Client::with_id(id, credentials.as_str())
    }
}

} // verus!
