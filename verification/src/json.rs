//! JSON objects whose members are strings.
//!
//! Every line on the wire is one JSON object without nesting: a few named
//! members, each a string. Writing such an object needs JSON's rules for
//! quoting a string; reading one needs a JSON reader. Both are those of
//! `serde_json`.

use vstd::prelude::*;
use vstd::string::*;

use crate::id::hex_digit;
use crate::text::push_char;

verus! {

/// What JSON writes for the character `c` inside a string: a backslash
/// escape for the quote, the backslash and the control characters, and `c`
/// itself otherwise.
pub open spec fn escaped_char(c: char) -> Seq<char> {
    if c == '"' {
        seq!['\\', '"']
    } else if c == '\\' {
        seq!['\\', '\\']
    } else if c == '\u{8}' {
        seq!['\\', 'b']
    } else if c == '\t' {
        seq!['\\', 't']
    } else if c == '\n' {
        seq!['\\', 'n']
    } else if c == '\u{c}' {
        seq!['\\', 'f']
    } else if c == '\r' {
        seq!['\\', 'r']
    } else if (c as nat) < 32 {
        seq!['\\', 'u', '0', '0', hex_digit((c as nat) / 16), hex_digit((c as nat) % 16)]
    } else {
        seq![c]
    }
}

/// The characters of `s`, each as JSON writes it inside a string.
pub open spec fn escaped(s: Seq<char>) -> Seq<char>
    decreases s.len(),
{
    if s.len() == 0 {
        Seq::empty()
    } else {
        escaped(s.drop_last()) + escaped_char(s.last())
    }
}

/// The JSON string for `s`: its escaped characters between two quotes.
pub open spec fn quoted(s: Seq<char>) -> Seq<char> {
    seq!['"'] + escaped(s) + seq!['"']
}

/// One member of an object as JSON writes it: `"name":"text"`.
pub open spec fn member_text(member: (Seq<char>, Seq<char>)) -> Seq<char> {
    quoted(member.0) + seq![':'] + quoted(member.1)
}

/// The members of an object as JSON writes them, with commas in between.
pub open spec fn members_text(members: Seq<(Seq<char>, Seq<char>)>) -> Seq<char>
    decreases members.len(),
{
    if members.len() == 0 {
        Seq::empty()
    } else if members.len() == 1 {
        member_text(members[0])
    } else {
        members_text(members.drop_last()) + seq![','] + member_text(members.last())
    }
}

/// The compact JSON text of the object with the given members, in their
/// order: `{"a":"x","b":"y"}`.
pub open spec fn object_text(members: Seq<(Seq<char>, Seq<char>)>) -> Seq<char> {
    seq!['{'] + members_text(members) + seq!['}']
}

/// The names and texts of `members` as sequences of characters.
pub open spec fn pairs_view(members: Seq<(String, String)>) -> Seq<(Seq<char>, Seq<char>)> {
    members.map_values(|m: (String, String)| (m.0@, m.1@))
}

/// A member of a JSON object that was read.
#[derive(Debug, PartialEq, Eq)]
pub struct Member {
    /// The member's name.
    pub name: String,
    /// The member's value where it is a string, `None` where it is anything
    /// else.
    pub text: Option<String>,
}

/// A [`Member`] as sequences of characters.
pub struct MemberView {
    pub name: Seq<char>,
    pub text: Option<Seq<char>>,
}

impl View for Member {
    type V = MemberView;

    open spec fn view(&self) -> MemberView {
        MemberView {
            name: self.name@,
            text: match self.text {
                Some(t) => Some(t@),
                None => None,
            },
        }
    }
}

/// The members that an object written from `pairs` holds: each name with
/// its text.
pub open spec fn members_written(pairs: Seq<(Seq<char>, Seq<char>)>) -> Seq<MemberView> {
    pairs.map_values(|p: (Seq<char>, Seq<char>)| MemberView { name: p.0, text: Some(p.1) })
}

/// The views of `members`.
pub open spec fn members_view(members: Seq<Member>) -> Seq<MemberView> {
    members.map_values(|m: Member| m@)
}

/// The text of the first member called `name`, if there is such a member and
/// its value is a string.
pub open spec fn text_of(members: Seq<MemberView>, name: Seq<char>) -> Option<Seq<char>>
    decreases members.len(),
{
    if members.len() == 0 {
        None
    } else if members[0].name == name {
        members[0].text
    } else {
        text_of(members.skip(1), name)
    }
}

/// The members of the object that `text` is to `serde_json::from_str`, or
/// `None` where that function does not read `text` as a JSON object.
pub uninterp spec fn object_members(text: Seq<char>) -> Option<Seq<MemberView>>;

/// The error of `serde_json`.
#[verifier::external_type_specification]
#[verifier::external_body]
pub struct ExJsonError(serde_json::Error);

/// The JSON string for `s`.
///
/// Calls `serde_json::to_string` on a string slice. It writes a quote, the
/// characters of `s`, and a quote; of the characters it replaces the quote,
/// the backslash and those below U+0020 by their escapes (`\b`, `\t`, `\n`,
/// `\f`, `\r`, and `\u00` with two lower-case hexadecimal digits for the
/// rest). It reports an error only where a value refuses to be written or a
/// map has a key that is no string, which a string slice cannot cause.
#[verifier::external_body]
pub(crate) fn quote(s: &str) -> (r: String)
    ensures
        r@ == quoted(s@),
{
    serde_json::to_string(s).unwrap_or_default()
}

/// Reads `text` as a JSON object and hands out its members.
///
/// Calls `serde_json::from_str` for a `serde_json::Map`, which accepts one
/// JSON object with white space around it and nothing else. Each member
/// comes out with its name and, where its value is a string, that string.
#[verifier::external_body]
pub(crate) fn read_object(text: &str) -> (r: Result<Vec<Member>, serde_json::Error>)
    ensures
        r is Ok <==> object_members(text@) is Some,
        r is Ok ==> object_members(text@) == Some(members_view(r->Ok_0@)),
{
    let map: serde_json::Map<String, serde_json::Value> = serde_json::from_str(text)?;
    let mut members = Vec::new();
    for (name, value) in map {
        let text = match value {
            serde_json::Value::String(s) => Some(s),
            _ => None,
        };
        members.push(Member { name, text });
    }
    Ok(members)
}

/// Writes the object with the given members, in their order, as compact
/// JSON.
pub fn write_object(members: &Vec<(String, String)>) -> (r: String)
    ensures
        r@ == object_text(pairs_view(members@)),
{
    let ghost all = pairs_view(members@);
    let mut out = String::new();
    push_char(&mut out, '{');
    let mut i: usize = 0;
    assert(all.take(0) =~= Seq::<(Seq<char>, Seq<char>)>::empty());
    while i < members.len()
        invariant
            i <= members.len(),
            all == pairs_view(members@),
            out@ == seq!['{'] + members_text(all.take(i as int)),
        decreases members.len() - i,
    {
        let ghost before = all.take(i as int);
        let ghost now = all.take(i + 1);
        if i > 0 {
            push_char(&mut out, ',');
        }
        let name = quote(members[i].0.as_str());
        let text = quote(members[i].1.as_str());
        out.append(name.as_str());
        push_char(&mut out, ':');
        out.append(text.as_str());
        proof {
            assert(now.drop_last() =~= before);
            assert(now.last() == all[i as int]);
            assert(all[i as int] == (members@[i as int].0@, members@[i as int].1@));
            assert(out@ =~= seq!['{'] + members_text(now));
        }
        i = i + 1;
    }
    assert(all.take(i as int) =~= all);
    push_char(&mut out, '}');
    out
}

/// The text of the first member of `members` called `name`.
pub fn find_text<'a>(members: &'a Vec<Member>, name: &String) -> (r: Option<&'a String>)
    ensures
        r is Some <==> text_of(members_view(members@), name@) is Some,
        r is Some ==> text_of(members_view(members@), name@) == Some(r->0@),
{
    let ghost all = members_view(members@);
    let mut i: usize = 0;
    assert(all.skip(0) =~= all);
    while i < members.len()
        invariant
            i <= members.len(),
            all == members_view(members@),
            text_of(all, name@) == text_of(all.skip(i as int), name@),
        decreases members.len() - i,
    {
        let ghost rest = all.skip(i as int);
        assert(rest[0] == members@[i as int]@);
        assert(rest.skip(1) =~= all.skip(i + 1));
        if members[i].name == *name {
            return match &members[i].text {
                Some(t) => Some(t),
                None => None,
            };
        }
        i = i + 1;
    }
    None
}

/// Reads `text` as a JSON object: its members in the order of
/// `serde_json`'s map, or `None` where `text` is no JSON object.
pub fn parse_object(text: &str) -> (r: Option<Vec<Member>>)
    ensures
        r is Some <==> object_members(text@) is Some,
        r is Some ==> object_members(text@) == Some(members_view(r->0@)),
{
    match read_object(text) {
        Ok(members) => Some(members),
        Err(_) => None,
    }
}

} // verus!
