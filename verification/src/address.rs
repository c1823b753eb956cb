//! Socket addresses and their text form.
//!
//! The relay speaks IPv4: it listens on `0.0.0.0`, and discovery goes to the
//! broadcast address `255.255.255.255`. An address is written as four decimal
//! octets separated by dots, a colon and a decimal port, `192.168.1.7:8080`.
//! This is the whole payload of a discovery reply and the `sender_addr` of a
//! chat message.

use vstd::prelude::*;
use vstd::slice::*;
use vstd::utf8::*;

use crate::text::push_char;

verus! {

/// An IPv4 address and a port.
#[derive(Clone, Copy, Debug, PartialEq, Eq, Structural)]
pub struct SocketAddress {
    /// The four octets of the host, most significant first.
    pub a: u8,
    pub b: u8,
    pub c: u8,
    pub d: u8,
    /// The port.
    pub port: u16,
}

/// The ASCII code of `.`.
pub const DOT: u8 = 46;

/// The ASCII code of `:`.
pub const COLON: u8 = 58;

/// The ASCII code of `0`.
pub const ZERO: u8 = 48;

/// `b` is one of the ASCII digits `0` to `9`.
pub open spec fn is_digit(b: u8) -> bool {
    48 <= b <= 57
}

/// Every byte of `s` is an ASCII digit.
pub open spec fn all_digits(s: Seq<u8>) -> bool {
    forall|i: int| 0 <= i < s.len() ==> is_digit(#[trigger] s[i])
}

/// The number that the digits of `s` denote in base ten.
pub open spec fn decimal_value(s: Seq<u8>) -> nat
    decreases s.len(),
{
    if s.len() == 0 {
        0
    } else {
        (decimal_value(s.drop_last()) * 10 + (s.last() - 48)) as nat
    }
}

/// The digits of `n` in base ten, without leading zeros.
pub open spec fn decimal_digits(n: nat) -> Seq<u8>
    decreases n,
{
    if n < 10 {
        seq![(48 + n) as u8]
    } else {
        decimal_digits(n / 10).push((48 + n % 10) as u8)
    }
}

/// The octet that `s` denotes: one to three digits, no leading zero before
/// another digit, at most 255.
pub open spec fn octet_of(s: Seq<u8>) -> Option<u8> {
    if 1 <= s.len() <= 3 && all_digits(s) && (s.len() == 1 || s[0] != 48) && decimal_value(s)
        <= 255 {
        Some(decimal_value(s) as u8)
    } else {
        None
    }
}

/// The port that `s` denotes: one or more digits, at most 65535. Leading
/// zeros are accepted.
pub open spec fn port_of(s: Seq<u8>) -> Option<u16> {
    if 1 <= s.len() && all_digits(s) && decimal_value(s) <= 65535 {
        Some(decimal_value(s) as u16)
    } else {
        None
    }
}

/// The index of the first `b` in `s`, or the length of `s` if there is none.
pub open spec fn position(s: Seq<u8>, b: u8) -> int
    decreases s.len(),
{
    if s.len() == 0 || s[0] == b {
        0
    } else {
        1 + position(s.skip(1), b)
    }
}

/// What stands before the first `b` in `s`, and what stands after it.
pub open spec fn split_first(s: Seq<u8>, b: u8) -> Option<(Seq<u8>, Seq<u8>)> {
    let p = position(s, b);
    if p < s.len() {
        Some((s.take(p), s.skip(p + 1)))
    } else {
        None
    }
}

/// The address that the text `s` denotes, if it denotes one.
pub open spec fn parse_address(s: Seq<u8>) -> Option<SocketAddress> {
    match split_first(s, DOT) {
        Some((first, rest1)) => match split_first(rest1, DOT) {
            Some((second, rest2)) => match split_first(rest2, DOT) {
                Some((third, rest3)) => match split_first(rest3, COLON) {
                    Some((fourth, last)) => match (
                        octet_of(first),
                        octet_of(second),
                        octet_of(third),
                        octet_of(fourth),
                        port_of(last),
                    ) {
                        (Some(a), Some(b), Some(c), Some(d), Some(port)) => Some(
                            SocketAddress { a, b, c, d, port },
                        ),
                        _ => None,
                    },
                    None => None,
                },
                None => None,
            },
            None => None,
        },
        None => None,
    }
}

/// The text of `addr` as bytes.
pub open spec fn address_bytes(addr: SocketAddress) -> Seq<u8> {
    decimal_digits(addr.a as nat) + seq![DOT] + decimal_digits(addr.b as nat) + seq![DOT]
        + decimal_digits(addr.c as nat) + seq![DOT] + decimal_digits(addr.d as nat) + seq![COLON]
        + decimal_digits(addr.port as nat)
}

/// The characters that the ASCII bytes `s` stand for.
pub open spec fn ascii_chars(s: Seq<u8>) -> Seq<char> {
    Seq::new(s.len(), |i: int| s[i] as char)
}

/// The text of `addr`.
pub open spec fn address_text(addr: SocketAddress) -> Seq<char> {
    ascii_chars(address_bytes(addr))
}

/// `position` is the least index that holds `b`.
pub proof fn lemma_position(s: Seq<u8>, b: u8)
    ensures
        0 <= position(s, b) <= s.len(),
        position(s, b) < s.len() ==> s[position(s, b)] == b,
        forall|i: int| 0 <= i < position(s, b) ==> #[trigger] s[i] != b,
    decreases s.len(),
{
    if s.len() == 0 || s[0] == b {
    } else {
        let t = s.skip(1);
        lemma_position(t, b);
        assert forall|i: int| 0 <= i < position(s, b) implies #[trigger] s[i] != b by {
            if i > 0 {
                assert(s[i] == t[i - 1]);
            }
        }
    }
}

/// An index that holds `b` and has no `b` before it is `position`.
pub proof fn lemma_position_is(s: Seq<u8>, b: u8, p: int)
    requires
        0 <= p <= s.len(),
        p < s.len() ==> s[p] == b,
        forall|i: int| 0 <= i < p ==> #[trigger] s[i] != b,
    ensures
        position(s, b) == p,
{
    lemma_position(s, b);
    let q = position(s, b);
    if q < p {
        assert(s[q] != b);
    } else if p < q {
        assert(s[p] != b);
    }
}

/// The digits of a number are digits, start with no needless zero, and
/// denote that number.
pub proof fn lemma_decimal_digits(n: nat)
    ensures
        decimal_digits(n).len() >= 1,
        all_digits(decimal_digits(n)),
        decimal_digits(n).len() == 1 || decimal_digits(n)[0] != 48,
        decimal_value(decimal_digits(n)) == n,
        n < 10 ==> decimal_digits(n).len() == 1,
        10 <= n < 100 ==> decimal_digits(n).len() == 2,
        100 <= n < 1000 ==> decimal_digits(n).len() == 3,
    decreases n,
{
    let s = decimal_digits(n);
    if n < 10 {
        assert(s.drop_last() =~= Seq::<u8>::empty());
        assert(decimal_value(s.drop_last()) == 0);
    } else {
        let t = decimal_digits(n / 10);
        lemma_decimal_digits(n / 10);
        assert(s.drop_last() =~= t);
        assert(s.last() == (48 + n % 10) as u8);
        assert(s[0] == t[0]);
        if t.len() == 1 {
            assert(n / 10 < 10 ==> t[0] == (48 + n / 10) as u8);
            assert(decimal_value(t) == n / 10);
            assert(t.drop_last() =~= Seq::<u8>::empty());
            assert(decimal_value(t.drop_last()) == 0);
            assert(t[0] != 48);
        }
        assert forall|i: int| 0 <= i < s.len() implies is_digit(#[trigger] s[i]) by {
            if i < t.len() {
                assert(s[i] == t[i]);
            }
        }
    }
}

/// The digits of an octet denote that octet.
pub proof fn lemma_octet_digits(n: u8)
    ensures
        octet_of(decimal_digits(n as nat)) == Some(n),
        all_digits(decimal_digits(n as nat)),
{
    lemma_decimal_digits(n as nat);
}

/// The digits of a port denote that port.
pub proof fn lemma_port_digits(n: u16)
    ensures
        port_of(decimal_digits(n as nat)) == Some(n),
        all_digits(decimal_digits(n as nat)),
{
    lemma_decimal_digits(n as nat);
}

/// The text of an address reads back as that address.
pub proof fn lemma_address_round_trip(addr: SocketAddress)
    ensures
        parse_address(address_bytes(addr)) == Some(addr),
{
    let da = decimal_digits(addr.a as nat);
    let db = decimal_digits(addr.b as nat);
    let dc = decimal_digits(addr.c as nat);
    let dd = decimal_digits(addr.d as nat);
    let dp = decimal_digits(addr.port as nat);
    lemma_octet_digits(addr.a);
    lemma_octet_digits(addr.b);
    lemma_octet_digits(addr.c);
    lemma_octet_digits(addr.d);
    lemma_port_digits(addr.port);
    let s = address_bytes(addr);
    let rest3 = dd + seq![COLON] + dp;
    let rest2 = dc + seq![DOT] + rest3;
    let rest1 = db + seq![DOT] + rest2;
    assert(s =~= da + seq![DOT] + rest1);
    assert(split_first(s, DOT) == Some((da, rest1))) by {
        lemma_split_joined(da, DOT, rest1);
    }
    assert(split_first(rest1, DOT) == Some((db, rest2))) by {
        lemma_split_joined(db, DOT, rest2);
    }
    assert(split_first(rest2, DOT) == Some((dc, rest3))) by {
        lemma_split_joined(dc, DOT, rest3);
    }
    assert(split_first(rest3, COLON) == Some((dd, dp))) by {
        lemma_split_joined(dd, COLON, dp);
    }
}

/// Digits, a separator and more text split at that separator.
pub proof fn lemma_split_joined(head: Seq<u8>, b: u8, tail: Seq<u8>)
    requires
        all_digits(head),
        !is_digit(b),
    ensures
        split_first(head + seq![b] + tail, b) == Some((head, tail)),
{
    let s = head + seq![b] + tail;
    let p = head.len() as int;
    assert(s[p] == b);
    assert forall|i: int| 0 <= i < p implies #[trigger] s[i] != b by {
        assert(s[i] == head[i]);
        assert(is_digit(head[i]));
    }
    lemma_position_is(s, b, p);
    assert(s.take(p) =~= head);
    assert(s.skip(p + 1) =~= tail);
}

/// A number written in digits is at least what any of its prefixes denotes.
pub proof fn lemma_decimal_value_prefix(s: Seq<u8>, k: int)
    requires
        all_digits(s),
        0 <= k <= s.len(),
    ensures
        decimal_value(s.take(k)) <= decimal_value(s),
    decreases s.len() - k,
{
    if k == s.len() {
        assert(s.take(k) =~= s);
    } else {
        let t = s.drop_last();
        assert(t.take(k) =~= s.take(k));
        assert(all_digits(t)) by {
            assert forall|i: int| 0 <= i < t.len() implies is_digit(#[trigger] t[i]) by {
                assert(t[i] == s[i]);
            }
        }
        lemma_decimal_value_prefix(t, k);
        assert(is_digit(s[s.len() - 1]));
    }
}

/// The text of an address is ASCII, and its UTF-8 encoding is its bytes.
pub proof fn lemma_address_text_bytes(addr: SocketAddress)
    ensures
        is_ascii_chars(address_text(addr)),
        encode_utf8(address_text(addr)) == address_bytes(addr),
{
    let bytes = address_bytes(addr);
    let chars = address_text(addr);
    lemma_octet_digits(addr.a);
    lemma_octet_digits(addr.b);
    lemma_octet_digits(addr.c);
    lemma_octet_digits(addr.d);
    lemma_port_digits(addr.port);
    assert forall|i: int| 0 <= i < bytes.len() implies #[trigger] bytes[i] < 128 by {
        let da = decimal_digits(addr.a as nat);
        let db = decimal_digits(addr.b as nat);
        let dc = decimal_digits(addr.c as nat);
        let dd = decimal_digits(addr.d as nat);
        let dp = decimal_digits(addr.port as nat);
        let n1 = da.len();
        let n2 = n1 + 1 + db.len();
        let n3 = n2 + 1 + dc.len();
        let n4 = n3 + 1 + dd.len();
        if i < n1 {
            assert(is_digit(da[i]));
        } else if i == n1 {
        } else if i < n2 {
            assert(is_digit(db[i - n1 - 1]));
        } else if i == n2 {
        } else if i < n3 {
            assert(is_digit(dc[i - n2 - 1]));
        } else if i == n3 {
        } else if i < n4 {
            assert(is_digit(dd[i - n3 - 1]));
        } else if i == n4 {
        } else {
            assert(is_digit(dp[i - n4 - 1]));
        }
    }
    assert forall|i: int| 0 <= i < chars.len() implies '\0' <= #[trigger] chars[i] <= '\u{7f}' by {
        assert(bytes[i] < 128);
    }
    is_ascii_chars_encode_utf8(chars);
    assert forall|i: int| 0 <= i < chars.len() implies encode_utf8(chars)[i] == bytes[i] by {
        assert(chars[i] as u8 == encode_utf8(chars)[i]);
        assert(bytes[i] < 128);
        assert((bytes[i] as char) as u8 == bytes[i]);
    }
    assert(encode_utf8(chars) =~= bytes);
}

impl SocketAddress {
    /// The address with the host `a.b.c.d` and the given port.
    pub fn new(a: u8, b: u8, c: u8, d: u8, port: u16) -> (r: SocketAddress)
        ensures
            r == (SocketAddress { a, b, c, d, port }),
    {
        SocketAddress { a, b, c, d, port }
    }

    /// The text of the address as bytes, as a discovery reply carries it.
    pub fn to_bytes(&self) -> (r: Vec<u8>)
        ensures
            r@ == address_bytes(*self),
    {
        let mut out: Vec<u8> = Vec::new();
        push_decimal(&mut out, self.a as u16);
        out.push(DOT);
        push_decimal(&mut out, self.b as u16);
        out.push(DOT);
        push_decimal(&mut out, self.c as u16);
        out.push(DOT);
        push_decimal(&mut out, self.d as u16);
        out.push(COLON);
        push_decimal(&mut out, self.port);
        assert(out@ =~= address_bytes(*self));
        out
    }

    /// The text of the address, `a.b.c.d:port`.
    pub fn to_text(&self) -> (r: String)
        ensures
            r@ == address_text(*self),
    {
        let bytes = self.to_bytes();
        let mut out = String::new();
        let mut i: usize = 0;
        while i < bytes.len()
            invariant
                i <= bytes.len(),
                out@ == ascii_chars(bytes@.take(i as int)),
            decreases bytes.len() - i,
        {
            push_char(&mut out, bytes[i] as char);
            i = i + 1;
            assert(out@ =~= ascii_chars(bytes@.take(i as int)));
        }
        assert(bytes@.take(i as int) =~= bytes@);
        out
    }
}

/// Appends the decimal digits of `n` to `out`.
fn push_decimal(out: &mut Vec<u8>, n: u16)
    ensures
        final(out)@ == old(out)@ + decimal_digits(n as nat),
    decreases n,
{
    if n >= 10 {
        push_decimal(out, n / 10);
    }
    out.push(ZERO + (n % 10) as u8);
    assert(out@ =~= old(out)@ + decimal_digits(n as nat));
}

/// The index of the first `b` in `s` at or after `start`, or the length of
/// `s` if there is none.
fn find_byte(s: &[u8], start: usize, b: u8) -> (p: usize)
    requires
        start <= s.len(),
    ensures
        start <= p <= s.len(),
        p - start == position(s@.skip(start as int), b),
{
    let mut i: usize = start;
    while i < s.len() && s[i] != b
        invariant
            start <= i <= s.len(),
            forall|j: int| start <= j < i ==> #[trigger] s@[j] != b,
        decreases s.len() - i,
    {
        i = i + 1;
    }
    proof {
        let t = s@.skip(start as int);
        assert forall|j: int| 0 <= j < i - start implies #[trigger] t[j] != b by {
            assert(t[j] == s@[j + start]);
        }
        lemma_position_is(t, b, i - start);
    }
    i
}

/// The number that the bytes of `s` from `start` to `end` denote, if they
/// are digits, at least one, and the number is at most `limit`.
fn read_decimal(s: &[u8], start: usize, end: usize, limit: u32) -> (r: Option<u32>)
    requires
        start <= end <= s.len(),
        limit <= 65535,
    ensures
        r is Some <==> start < end && all_digits(s@.subrange(start as int, end as int))
            && decimal_value(s@.subrange(start as int, end as int)) <= limit,
        r is Some ==> r->0 == decimal_value(s@.subrange(start as int, end as int)),
{
    let ghost whole = s@.subrange(start as int, end as int);
    if start == end {
        return None;
    }
    let mut acc: u32 = 0;
    let mut i: usize = start;
    assert(s@.subrange(start as int, start as int) =~= Seq::<u8>::empty());
    while i < end
        invariant
            start <= i <= end <= s.len(),
            limit <= 65535,
            whole == s@.subrange(start as int, end as int),
            all_digits(s@.subrange(start as int, i as int)),
            acc == decimal_value(s@.subrange(start as int, i as int)),
            acc <= limit,
        decreases end - i,
    {
        let byte = s[i];
        if byte < ZERO || byte > ZERO + 9 {
            assert(whole[i - start] == byte);
            return None;
        }
        let ghost before = s@.subrange(start as int, i as int);
        let ghost now = s@.subrange(start as int, i + 1);
        assert(now.drop_last() =~= before);
        assert(now.last() == byte);
        assert(all_digits(now)) by {
            assert forall|j: int| 0 <= j < now.len() implies is_digit(#[trigger] now[j]) by {
                if j < before.len() {
                    assert(now[j] == before[j]);
                }
            }
        }
        acc = acc * 10 + (byte - ZERO) as u32;
        if acc > limit {
            proof {
                if all_digits(whole) {
                    assert(whole.take(i + 1 - start) =~= now);
                    lemma_decimal_value_prefix(whole, i + 1 - start);
                }
            }
            return None;
        }
        i = i + 1;
    }
    Some(acc)
}

/// The octet that the bytes of `s` from `start` to `end` denote.
fn read_octet(s: &[u8], start: usize, end: usize) -> (r: Option<u8>)
    requires
        start <= end <= s.len(),
    ensures
        r == octet_of(s@.subrange(start as int, end as int)),
{
    let ghost part = s@.subrange(start as int, end as int);
    if end - start > 3 {
        return None;
    }
    if end - start > 1 && s[start] == ZERO {
        assert(part[0] == s@[start as int]);
        return None;
    }
    match read_decimal(s, start, end, 255) {
        Some(v) => {
            assert(part[0] == s@[start as int]);
            Some(v as u8)
        },
        None => None,
    }
}

/// The port that the bytes of `s` from `start` to `end` denote.
fn read_port(s: &[u8], start: usize, end: usize) -> (r: Option<u16>)
    requires
        start <= end <= s.len(),
    ensures
        r == port_of(s@.subrange(start as int, end as int)),
{
    match read_decimal(s, start, end, 65535) {
        Some(v) => Some(v as u16),
        None => None,
    }
}

/// Reads an address from its text `a.b.c.d:port`.
///
/// Each octet is one to three digits without a leading zero before another
/// digit and at most 255; the port is one or more digits and at most 65535.
/// Any other text, and any text with a byte before or after the address,
/// denotes no address.
pub fn parse_socket_address(text: &[u8]) -> (r: Option<SocketAddress>)
    ensures
        r == parse_address(text@),
{
    let n = text.len();
    let ghost s = text@;
    let first_dot = find_byte(text, 0, DOT);
    assert(s.skip(0) =~= s);
    if first_dot >= n {
        return None;
    }
    let ghost rest1 = s.skip(first_dot + 1);
    assert(split_first(s, DOT) == Some((s.take(first_dot as int), rest1)));
    let second_dot = find_byte(text, first_dot + 1, DOT);
    if second_dot >= n {
        return None;
    }
    let ghost rest2 = s.skip(second_dot + 1);
    assert(rest1.take(second_dot - first_dot - 1) =~= s.subrange(first_dot + 1, second_dot as int));
    assert(rest1.skip(second_dot - first_dot) =~= rest2);
    assert(split_first(rest1, DOT) == Some((s.subrange(first_dot + 1, second_dot as int), rest2)));
    let third_dot = find_byte(text, second_dot + 1, DOT);
    if third_dot >= n {
        return None;
    }
    let ghost rest3 = s.skip(third_dot + 1);
    assert(rest2.take(third_dot - second_dot - 1) =~= s.subrange(second_dot + 1, third_dot as int));
    assert(rest2.skip(third_dot - second_dot) =~= rest3);
    assert(split_first(rest2, DOT) == Some((s.subrange(second_dot + 1, third_dot as int), rest3)));
    let colon = find_byte(text, third_dot + 1, COLON);
    if colon >= n {
        return None;
    }
    let ghost last = s.skip(colon + 1);
    assert(rest3.take(colon - third_dot - 1) =~= s.subrange(third_dot + 1, colon as int));
    assert(rest3.skip(colon - third_dot) =~= last);
    assert(split_first(rest3, COLON) == Some((s.subrange(third_dot + 1, colon as int), last)));
    assert(s.take(first_dot as int) =~= s.subrange(0, first_dot as int));
    assert(last =~= s.subrange(colon + 1, n as int));
    let a = read_octet(text, 0, first_dot);
    let b = read_octet(text, first_dot + 1, second_dot);
    let c = read_octet(text, second_dot + 1, third_dot);
    let d = read_octet(text, third_dot + 1, colon);
    let port = read_port(text, colon + 1, n);
    match (a, b, c, d, port) {
        (Some(a), Some(b), Some(c), Some(d), Some(port)) => Some(
            SocketAddress { a, b, c, d, port },
        ),
        _ => None,
    }
}

} // verus!
