//! Identifiers: 128-bit UUIDs.
//!
//! Every client gets a random identifier when it signs in, and every message
//! carries the identifier of its sender. The relay itself speaks under the
//! nil identifier, which no client can get.

use vstd::prelude::*;

verus! {

/// The identifier under which the relay announces who joined and who left:
/// the nil UUID.
pub const SERVER_ID: u128 = 0;

/// `id` carries the marks of a random UUID: version 4 in bits 76 to 79 and
/// the variant `10` in bits 62 and 63.
pub open spec fn is_random_id(id: u128) -> bool {
    id & 0x0000_0000_0000_f000_c000_0000_0000_0000u128
        == 0x0000_0000_0000_4000_8000_0000_0000_0000u128
}

/// The lower-case hexadecimal digit of `n`, for `n` below sixteen.
pub open spec fn hex_digit(n: nat) -> char {
    if n < 10 {
        (48 + n) as char
    } else {
        (87 + n) as char
    }
}

/// The last `width` hexadecimal digits of `value`, most significant first.
pub open spec fn hex_text(value: nat, width: nat) -> Seq<char>
    decreases width,
{
    if width == 0 {
        Seq::empty()
    } else {
        hex_text(value / 16, (width - 1) as nat).push(hex_digit(value % 16))
    }
}

/// The hyphenated text of `id`: its 32 hexadecimal digits in groups of
/// 8, 4, 4, 4 and 12, as in `67e55044-10b1-426f-9247-bb680e5fe0c8`.
pub open spec fn id_text(id: u128) -> Seq<char> {
    let h = hex_text(id as nat, 32);
    h.subrange(0, 8) + seq!['-'] + h.subrange(8, 12) + seq!['-'] + h.subrange(12, 16) + seq!['-']
        + h.subrange(16, 20) + seq!['-'] + h.subrange(20, 32)
}

/// The identifier that a text denotes to `Uuid::parse_str` of the `uuid`
/// crate, or `None` where that function reports an error.
pub uninterp spec fn parsed_id(text: Seq<char>) -> Option<u128>;

/// The error of the `uuid` crate.
#[verifier::external_type_specification]
#[verifier::external_body]
pub struct ExUuidError(uuid::Error);

/// A fresh random identifier.
///
/// Calls `Uuid::new_v4`, which draws 128 random bits and then sets the
/// version to 4 and the variant to `10`. Nothing else is known of the
/// result.
#[verifier::external_body]
pub(crate) fn random_id() -> (id: u128)
    ensures
        is_random_id(id),
{
    uuid::Uuid::new_v4().as_u128()
}

/// The hyphenated text of `id`.
///
/// Calls `Uuid::hyphenated` on the UUID whose big-endian bytes are those of
/// `id` and takes its text: lower-case digits with four hyphens. The crate
/// documents that `Uuid::parse_str` reads every format that it writes, so
/// the text denotes `id` again.
#[verifier::external_body]
pub(crate) fn format_id(id: u128) -> (text: String)
    ensures
        text@ == id_text(id),
        parsed_id(text@) == Some(id),
{
    uuid::Uuid::from_u128(id).hyphenated().to_string()
}

/// The identifier that `text` denotes.
///
/// Calls `Uuid::parse_str`, which reads 32 hexadecimal digits, bare or
/// hyphenated, the latter also in braces or behind `urn:uuid:`.
#[verifier::external_body]
pub(crate) fn parse_id(text: &str) -> (r: Result<u128, uuid::Error>)
    ensures
        r is Ok <==> parsed_id(text@) is Some,
        r is Ok ==> parsed_id(text@) == Some(r->Ok_0),
{
    match uuid::Uuid::parse_str(text) {
        Ok(id) => Ok(id.as_u128()),
        Err(e) => Err(e),
    }
}

/// A random identifier is never the relay's own.
pub proof fn lemma_random_id_is_not_server_id(id: u128)
    requires
        is_random_id(id),
    ensures
        id != SERVER_ID,
{
    assert(id & 0x0000_0000_0000_f000_c000_0000_0000_0000u128
        == 0x0000_0000_0000_4000_8000_0000_0000_0000u128 ==> id != 0) by (bit_vector);
}

/// A fresh identifier for a client.
///
/// The result is random, so two calls differ; whatever it is, it carries
/// the marks of a random UUID and is not [`SERVER_ID`].
pub fn new_id() -> (id: u128)
    ensures
        is_random_id(id),
        id != SERVER_ID,
{
    let id = random_id();
    proof {
        lemma_random_id_is_not_server_id(id);
    }
    id
}

/// The hyphenated text of `id`, which [`id_from_text`] reads back.
pub fn id_to_text(id: u128) -> (text: String)
    ensures
        text@ == id_text(id),
        parsed_id(text@) == Some(id),
{
    format_id(id)
}

/// The identifier that `text` denotes, or `None` if it denotes none.
pub fn id_from_text(text: &str) -> (r: Option<u128>)
    ensures
        r == parsed_id(text@),
{
    match parse_id(text) {
        Ok(id) => Some(id),
        Err(_) => None,
    }
}

} // verus!
