//! The `.`-separated segments of a token and base64url decoding of a segment.

use vstd::prelude::*;
use crate::error::CedarlingError;
use crate::jwt::{base64_standard, decode_base64_standard};
use crate::json::json_object_parses;
use crate::text::{chars_of, string_from_chars};

verus! {

/// Number of `.` separators in a token: a JWT has two, between three segments.
pub open spec fn dot_count(s: Seq<char>) -> nat
    decreases s.len(),
{
    if s.len() == 0 {
        0
    } else {
        dot_count(s.drop_last()) + if s.last() == '.' { 1nat } else { 0nat }
    }
}

pub(crate) fn count_dots(chars: &Vec<char>) -> (r: usize)
    ensures
        r == dot_count(chars@),
{
    let mut n: usize = 0;
    let mut i: usize = 0;
    while i < chars.len()
        invariant
            i <= chars@.len(),
            n == dot_count(chars@.subrange(0, i as int)),
            n <= i,
        decreases chars@.len() - i,
    {
        assert(chars@.subrange(0, i + 1).drop_last() =~= chars@.subrange(0, i as int));
        if chars[i] == '.' {
            n = n + 1;
        }
        i = i + 1;
    }
    assert(chars@.subrange(0, i as int) =~= chars@);
    n
}

/// Bounds of the second segment: the characters strictly between the first
/// `.` and the next `.` (or the end), if there is a `.` at all.
pub fn payload_bounds(chars: &Vec<char>) -> (r: Option<(usize, usize)>)
    ensures
        match r {
            Some((a, b)) => a < b <= chars@.len() && chars@[a as int] == '.'
                && (forall|j: int| 0 <= j < a ==> chars@[j] != '.')
                && (forall|j: int| a < j < b ==> chars@[j] != '.')
                && (b == chars@.len() || chars@[b as int] == '.'),
            None => forall|j: int| 0 <= j < chars@.len() ==> chars@[j] != '.',
        },
{
    let mut a: usize = 0;
    while a < chars.len() && chars[a] != '.'
        invariant
            a <= chars@.len(),
            forall|j: int| 0 <= j < a ==> chars@[j] != '.',
        decreases chars@.len() - a,
    {
        a = a + 1;
    }
    if a == chars.len() {
        return None;
    }
    let mut b: usize = a + 1;
    while b < chars.len() && chars[b] != '.'
        invariant
            a < b <= chars@.len(),
            forall|j: int| a < j < b ==> chars@[j] != '.',
        decreases chars@.len() - b,
    {
        b = b + 1;
    }
    Some((a, b))
}

pub open spec fn standard_alphabet_char(c: char) -> char {
    if c == '-' {
        '+'
    } else if c == '_' {
        '/'
    } else {
        c
    }
}

/// A base64url segment rewritten for the standard alphabet: `-` and `_`
/// become `+` and `/`, and `=` is appended up to a multiple of four.
pub open spec fn as_standard_base64(p: Seq<char>) -> Seq<char> {
    p.map_values(|c: char| standard_alphabet_char(c)) + Seq::new(((4 - p.len() % 4) % 4) as nat, |i: int| '=')
}

/// Decodes one base64url segment of a token.
pub fn base64_decode_jwt_part(part: &str) -> (r: Result<Vec<u8>, CedarlingError>)
    ensures
        match r {
            Ok(b) => base64_standard(as_standard_base64(part@)) == Some(b@),
            Err(e) => base64_standard(as_standard_base64(part@)) is None && e is TokenValidation,
        },
{
    let chars = chars_of(part);
    let mut out: Vec<char> = Vec::new();
    let mut i: usize = 0;
    while i < chars.len()
        invariant
            i <= chars@.len(),
            out@ =~= chars@.subrange(0, i as int).map_values(|c: char| standard_alphabet_char(c)),
        decreases chars@.len() - i,
    {
        let c = chars[i];
        let d = if c == '-' {
            '+'
        } else if c == '_' {
            '/'
        } else {
            c
        };
        out.push(d);
        i = i + 1;
    }
    assert(chars@.subrange(0, i as int) =~= chars@);
    let pad: usize = (4 - chars.len() % 4) % 4;
    let ghost mapped = out@;
    let mut k: usize = 0;
    while k < pad
        invariant
            k <= pad,
            out@ =~= mapped + Seq::new(k as nat, |j: int| '='),
        decreases pad - k,
    {
        out.push('=');
        k = k + 1;
    }
    let text = string_from_chars(&out);
    proof {
        assert(text@ =~= as_standard_base64(part@));
    }
    match decode_base64_standard(text.as_str()) {
        Ok(bytes) => Ok(bytes),
        Err(msg) => {
            let mut s = String::from_str("Failed to decode base64: ");
            s.append(msg.as_str());
            Err(CedarlingError::TokenValidation(s))
        },
    }
}

/// The characters before the first `.`, or all of them.
pub open spec fn before_dot(s: Seq<char>) -> Seq<char>
    decreases s.len(),
{
    if s.len() == 0 {
        s
    } else if s[0] == '.' {
        Seq::empty()
    } else {
        seq![s[0]] + before_dot(s.drop_first())
    }
}

/// The characters after the first `.`, if there is one.
pub open spec fn after_dot(s: Seq<char>) -> Option<Seq<char>>
    decreases s.len(),
{
    if s.len() == 0 {
        None
    } else if s[0] == '.' {
        Some(s.drop_first())
    } else {
        after_dot(s.drop_first())
    }
}

/// The second `.`-separated segment of a token, if it has one.
pub open spec fn payload_segment(s: Seq<char>) -> Option<Seq<char>> {
    match after_dot(s) {
        Some(rest) => Some(before_dot(rest)),
        None => None,
    }
}

/// The token has a second segment that decodes, as base64url, to the bytes
/// of one JSON object.
pub open spec fn payload_parses(t: Seq<char>) -> bool {
    match payload_segment(t) {
        Some(p) => match base64_standard(as_standard_base64(p)) {
            Some(b) => json_object_parses(b),
            None => false,
        },
        None => false,
    }
}

/// The bytes that the payload of a token decodes to (meaningful where
/// `payload_parses` holds).
pub open spec fn payload_bytes(t: Seq<char>) -> Seq<u8> {
    base64_standard(as_standard_base64(payload_segment(t)->Some_0))->Some_0
}

pub(crate) proof fn lemma_after_dot(s: Seq<char>, a: int)
    requires
        0 <= a <= s.len(),
        forall|j: int| 0 <= j < a ==> s[j] != '.',
        a == s.len() || s[a] == '.',
    ensures
        after_dot(s) == if a == s.len() { None } else { Some(s.subrange(a + 1, s.len() as int)) },
    decreases a,
{
    if a > 0 {
        lemma_after_dot(s.drop_first(), a - 1);
        if a < s.len() {
            assert(s.drop_first().subrange(a, s.len() - 1) =~= s.subrange(a + 1, s.len() as int));
        }
    } else if s.len() > 0 {
        assert(s.drop_first() =~= s.subrange(1, s.len() as int));
    }
}

pub(crate) proof fn lemma_before_dot(t: Seq<char>, m: int)
    requires
        0 <= m <= t.len(),
        forall|j: int| 0 <= j < m ==> t[j] != '.',
        m == t.len() || t[m] == '.',
    ensures
        before_dot(t) == t.subrange(0, m),
    decreases m,
{
    if m > 0 {
        lemma_before_dot(t.drop_first(), m - 1);
        assert(t.subrange(0, m) =~= seq![t[0]] + t.drop_first().subrange(0, m - 1));
    } else if t.len() > 0 {
        assert(t.subrange(0, m) =~= Seq::<char>::empty());
    } else {
        assert(t.subrange(0, m) =~= t);
    }
}

} // verus!
