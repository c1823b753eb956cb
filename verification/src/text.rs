//! Text: the editing of an input line, character by character, and the
//! trimming of white space from a line.

use vstd::prelude::*;

verus! {

/// Appends `c` to `s`.
///
/// Calls `String::push`, which is documented to append the given character
/// to the end of the string.
#[verifier::external_body]
pub(crate) fn push_char(s: &mut String, c: char)
    ensures
        final(s)@ == old(s)@.push(c),
{
    s.push(c)
}

/// Removes the last character of `s`, if there is one.
///
/// Calls `String::pop`, which is documented to remove the last character
/// from the string buffer and return it, or `None` if the string is empty.
#[verifier::external_body]
pub(crate) fn pop_char(s: &mut String) -> (r: Option<char>)
    ensures
        old(s)@.len() == 0 ==> r is None && final(s)@ == old(s)@,
        old(s)@.len() > 0 ==> r == Some(old(s)@.last()) && final(s)@ == old(s)@.drop_last(),
{
    s.pop()
}

/// `c` is white space: one of the characters with the Unicode property
/// `White_Space`.
pub open spec fn is_whitespace(c: char) -> bool {
    ||| '\u{9}' <= c <= '\u{d}'
    ||| c == ' '
    ||| c == '\u{85}'
    ||| c == '\u{a0}'
    ||| c == '\u{1680}'
    ||| '\u{2000}' <= c <= '\u{200a}'
    ||| c == '\u{2028}'
    ||| c == '\u{2029}'
    ||| c == '\u{202f}'
    ||| c == '\u{205f}'
    ||| c == '\u{3000}'
}

/// How many characters of white space `s` begins with.
pub open spec fn leading_whitespace(s: Seq<char>) -> nat
    decreases s.len(),
{
    if s.len() > 0 && is_whitespace(s[0]) {
        1 + leading_whitespace(s.skip(1))
    } else {
        0
    }
}

/// How many characters of white space `s` ends with.
pub open spec fn trailing_whitespace(s: Seq<char>) -> nat
    decreases s.len(),
{
    if s.len() > 0 && is_whitespace(s.last()) {
        1 + trailing_whitespace(s.drop_last())
    } else {
        0
    }
}

/// `s` without the white space at its two ends.
pub open spec fn trimmed(s: Seq<char>) -> Seq<char> {
    if leading_whitespace(s) == s.len() {
        Seq::empty()
    } else {
        s.subrange(leading_whitespace(s) as int, s.len() - trailing_whitespace(s))
    }
}

/// An index before which all is white space, and at which there is none, is
/// `leading_whitespace`.
pub proof fn lemma_leading_whitespace(s: Seq<char>, k: int)
    requires
        0 <= k <= s.len(),
        forall|j: int| 0 <= j < k ==> is_whitespace(#[trigger] s[j]),
        k < s.len() ==> !is_whitespace(s[k]),
    ensures
        leading_whitespace(s) == k,
    decreases k,
{
    if k > 0 {
        let t = s.skip(1);
        assert(is_whitespace(s[0]));
        assert forall|j: int| 0 <= j < k - 1 implies is_whitespace(#[trigger] t[j]) by {
            assert(t[j] == s[j + 1]);
        }
        lemma_leading_whitespace(t, k - 1);
    }
}

/// An index from which all is white space, and before which there is none,
/// marks `trailing_whitespace`.
pub proof fn lemma_trailing_whitespace(s: Seq<char>, k: int)
    requires
        0 <= k <= s.len(),
        forall|j: int| k <= j < s.len() ==> is_whitespace(#[trigger] s[j]),
        k > 0 ==> !is_whitespace(s[k - 1]),
    ensures
        trailing_whitespace(s) == s.len() - k,
    decreases s.len() - k,
{
    if k < s.len() {
        let t = s.drop_last();
        assert(is_whitespace(s[s.len() - 1]));
        assert forall|j: int| k <= j < t.len() implies is_whitespace(#[trigger] t[j]) by {
            assert(t[j] == s[j]);
        }
        lemma_trailing_whitespace(t, k);
    }
}

/// Whether `c` is white space.
pub fn char_is_whitespace(c: char) -> (r: bool)
    ensures
        r == is_whitespace(c),
{
    ('\u{9}' <= c && c <= '\u{d}') || c == ' ' || c == '\u{85}' || c == '\u{a0}' || c
        == '\u{1680}' || ('\u{2000}' <= c && c <= '\u{200a}') || c == '\u{2028}' || c
        == '\u{2029}' || c == '\u{202f}' || c == '\u{205f}' || c == '\u{3000}'
}

/// The characters of `s`.
pub fn chars_of(s: &str) -> (r: Vec<char>)
    ensures
        r@ == s@,
{
    let mut r: Vec<char> = Vec::new();
    for c in it: s.chars()
        invariant
            it.seq() == s@,
            r@ == s@.take(it.index()),
    {
        r.push(c);
        assert(r@ =~= s@.take(it.index() + 1));
    }
    assert(s@.take(s@.len() as int) =~= s@);
    r
}

/// `s` without the white space at its two ends.
pub fn trim(s: &str) -> (r: String)
    ensures
        r@ == trimmed(s@),
{
    let chars = chars_of(s);
    let n = chars.len();
    let mut start: usize = 0;
    while start < n && char_is_whitespace(chars[start])
        invariant
            start <= n,
            n == chars.len(),
            forall|j: int| 0 <= j < start ==> is_whitespace(#[trigger] chars@[j]),
        decreases n - start,
    {
        start = start + 1;
    }
    let mut end: usize = n;
    while end > start && char_is_whitespace(chars[end - 1])
        invariant
            start <= end <= n,
            n == chars.len(),
            forall|j: int| end <= j < n ==> is_whitespace(#[trigger] chars@[j]),
        decreases end,
    {
        end = end - 1;
    }
    proof {
        lemma_leading_whitespace(chars@, start as int);
        if start < n {
            lemma_trailing_whitespace(chars@, end as int);
        }
    }
    let mut r = String::new();
    let mut i: usize = start;
    while i < end
        invariant
            start <= i <= end <= n,
            n == chars.len(),
            r@ == chars@.subrange(start as int, i as int),
        decreases end - i,
    {
        push_char(&mut r, chars[i]);
        i = i + 1;
        assert(r@ =~= chars@.subrange(start as int, i as int));
    }
    assert(start == n ==> r@ =~= Seq::<char>::empty());
    r
}

} // verus!
