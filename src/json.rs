//! JSON payloads: parsing an object, and how its fields read as claims.

use vstd::prelude::*;
use crate::claims::{Claim, ClaimValue, lookup, int_claim, str_claim};

verus! {

/// A JSON value, carried through the library without being looked into.
#[verifier::external_type_specification]
#[verifier::external_body]
pub struct ExJsonValue(serde_json::Value);

/// How one field of a JSON object reads: as an integer (a number that fits
/// in `i64`), else as a string, else as some other value.
pub enum FieldReading {
    Int(i64),
    Str(Seq<char>),
    Other,
}

/// Whether `bytes` parse as one JSON object.
pub uninterp spec fn json_object_parses(bytes: Seq<u8>) -> bool;

/// How the field `key` of the JSON object in `bytes` reads, if the object
/// has that field.
pub uninterp spec fn json_field(bytes: Seq<u8>, key: Seq<char>) -> Option<FieldReading>;

/// One field of a parsed JSON object, with its value read as an integer and
/// as a string.
#[derive(Debug)]
pub struct JsonEntry {
    pub key: String,
    pub integer: Option<i64>,
    pub text: Option<String>,
    pub value: serde_json::Value,
}

/// The entry's readings are those that `f` names.
pub open spec fn entry_reads(e: JsonEntry, f: Option<FieldReading>) -> bool {
    match f {
        Some(FieldReading::Int(i)) => e.integer == Some(i) && e.text is None,
        Some(FieldReading::Str(s)) => e.integer is None && e.text is Some && e.text->Some_0@ == s,
        Some(FieldReading::Other) => e.integer is None && e.text is None,
        None => false,
    }
}

/// The entries are the fields of the JSON object in `bytes`, one per name,
/// in an order left open.
pub open spec fn entries_read(e: Seq<JsonEntry>, bytes: Seq<u8>) -> bool {
    &&& forall|i: int, j: int| 0 <= i < j < e.len() ==> e[i].key@ != e[j].key@
    &&& forall|i: int| 0 <= i < e.len() ==> entry_reads(#[trigger] e[i], json_field(bytes, e[i].key@))
    &&& forall|k: Seq<char>| #[trigger] json_field(bytes, k) is Some ==> exists|i: int| 0 <= i < e.len() && e[i].key@ == k
}

/// Relies on `serde_json::from_slice` into a `HashMap<String, Value>`: it
/// succeeds exactly on the bytes of one JSON object, with one entry per
/// name; each value is read with `Value::as_i64` and `Value::as_str`.
#[verifier::external_body]
pub(crate) fn parse_json_object(bytes: &Vec<u8>) -> (r: Result<Vec<JsonEntry>, String>)
    ensures
        r is Ok <==> json_object_parses(bytes@),
        r is Ok ==> forall|i: int, j: int| 0 <= i < j < r->Ok_0@.len() ==> r->Ok_0@[i].key@ != r->Ok_0@[j].key@,
        r is Ok ==> forall|i: int| 0 <= i < r->Ok_0@.len()
            ==> entry_reads(#[trigger] r->Ok_0@[i], json_field(bytes@, r->Ok_0@[i].key@)),
        r is Ok ==> forall|k: Seq<char>| #[trigger] json_field(bytes@, k) is Some
            ==> exists|i: int| 0 <= i < r->Ok_0@.len() && r->Ok_0@[i].key@ == k,
{
    serde_json::from_slice::<std::collections::HashMap<String, serde_json::Value>>(bytes)
        .map(|m| m.into_iter().map(|(key, value)| JsonEntry {
            integer: value.as_i64(),
            text: value.as_str().map(|s| s.to_string()),
            key,
            value,
        }).collect())
        .map_err(|e| e.to_string())
}

pub open spec fn reading_of(v: ClaimValue) -> FieldReading {
    match v {
        ClaimValue::Int(i) => FieldReading::Int(i),
        ClaimValue::Str(s) => FieldReading::Str(s@),
        ClaimValue::Other(_) => FieldReading::Other,
    }
}

pub open spec fn claim_reading(v: Option<ClaimValue>) -> Option<FieldReading> {
    match v {
        Some(c) => Some(reading_of(c)),
        None => None,
    }
}

/// The claims read as the JSON object in `bytes` does, field by field.
pub open spec fn reads_payload(claims: Seq<Claim>, bytes: Seq<u8>) -> bool {
    forall|k: Seq<char>| #[trigger] claim_reading(lookup(claims, k)) == json_field(bytes, k)
}

/// The integer field `k` of the JSON object in `b`, if it reads as one.
pub open spec fn payload_int(b: Seq<u8>, k: Seq<char>) -> Option<i64> {
    match json_field(b, k) {
        Some(FieldReading::Int(i)) => Some(i),
        _ => None,
    }
}

/// The string field `k` of the JSON object in `b`, if it reads as one.
pub open spec fn payload_str(b: Seq<u8>, k: Seq<char>) -> Option<Seq<char>> {
    match json_field(b, k) {
        Some(FieldReading::Str(s)) => Some(s),
        _ => None,
    }
}

/// The JSON object in `b` has a field `k`.
pub open spec fn payload_has(b: Seq<u8>, k: Seq<char>) -> bool {
    json_field(b, k) is Some
}

/// Claims that read a payload agree with it on every name.
pub proof fn lemma_reads_field(c: Seq<Claim>, b: Seq<u8>, k: Seq<char>)
    requires
        reads_payload(c, b),
    ensures
        int_claim(c, k) == payload_int(b, k),
        str_claim(c, k) == payload_str(b, k),
        (lookup(c, k) is Some) == payload_has(b, k),
{
    assert(claim_reading(lookup(c, k)) == json_field(b, k));
}

/// The claim that an entry becomes: its integer reading first, else its
/// string reading, else its value as it is.
pub open spec fn claim_of(c: Claim, e: JsonEntry) -> bool {
    c.name@ == e.key@ && match e.integer {
        Some(i) => c.value == ClaimValue::Int(i),
        None => match e.text {
            Some(s) => c.value is Str && c.value->Str_0@ == s@,
            None => c.value is Other,
        },
    }
}

proof fn lemma_lookup_distinct(s: Seq<Claim>, k: Seq<char>, i: int)
    requires
        forall|a: int, b: int| 0 <= a < b < s.len() ==> s[a].name@ != s[b].name@,
        0 <= i < s.len(),
        s[i].name@ == k,
    ensures
        lookup(s, k) == Some(s[i].value),
    decreases s.len(),
{
    if i < s.len() - 1 {
        lemma_lookup_distinct(s.drop_last(), k, i);
    }
}

proof fn lemma_lookup_absent(s: Seq<Claim>, k: Seq<char>)
    requires
        forall|a: int| 0 <= a < s.len() ==> s[a].name@ != k,
    ensures
        lookup(s, k) is None,
    decreases s.len(),
{
    if s.len() > 0 {
        lemma_lookup_absent(s.drop_last(), k);
    }
}

fn claim_from_entry(e: JsonEntry) -> (c: Claim)
    ensures
        claim_of(c, e),
{
    let JsonEntry { key, integer, text, value } = e;
    let v = match integer {
        Some(i) => ClaimValue::Int(i),
        None => match text {
            Some(s) => ClaimValue::Str(s),
            None => ClaimValue::Other(value),
        },
    };
    Claim { name: key, value: v }
}

/// The claims of a list of JSON entries, in reverse order, each value read
/// as an integer where it is one, else as a string where it is one.
pub fn claims_from_entries(entries: Vec<JsonEntry>) -> (r: Vec<Claim>)
    ensures
        r@.len() == entries@.len(),
        forall|i: int| 0 <= i < r@.len() ==> claim_of(#[trigger] r@[i], entries@[entries@.len() - 1 - i]),
        forall|b: Seq<u8>| entries_read(entries@, b) ==> reads_payload(r@, b),
{
    let mut entries = entries;
    let ghost orig = entries@;
    let mut out: Vec<Claim> = Vec::new();
    while entries.len() > 0
        invariant
            entries@ == orig.subrange(0, entries@.len() as int),
            out@.len() + entries@.len() == orig.len(),
            forall|i: int| 0 <= i < out@.len() ==> claim_of(#[trigger] out@[i], orig[orig.len() - 1 - i]),
        decreases entries@.len(),
    {
        let e = entries.pop().unwrap();
        out.push(claim_from_entry(e));
    }
    proof {
        let n = orig.len();
        assert forall|b: Seq<u8>| entries_read(orig, b) implies reads_payload(out@, b) by {
            assert forall|x: int, y: int| 0 <= x < y < out@.len() implies out@[x].name@ != out@[y].name@ by {
                assert(claim_of(out@[x], orig[n - 1 - x]));
                assert(claim_of(out@[y], orig[n - 1 - y]));
            }
            assert forall|k: Seq<char>| #[trigger] claim_reading(lookup(out@, k)) == json_field(b, k) by {
                if json_field(b, k) is Some {
                    let i = choose|i: int| 0 <= i < orig.len() && orig[i].key@ == k;
                    let j = n - 1 - i;
                    assert(claim_of(out@[j], orig[n - 1 - j]));
                    assert(entry_reads(orig[i], json_field(b, orig[i].key@)));
                    lemma_lookup_distinct(out@, k, j);
                } else {
                    assert forall|a: int| 0 <= a < out@.len() implies out@[a].name@ != k by {
                        assert(claim_of(out@[a], orig[n - 1 - a]));
                        assert(entry_reads(orig[n - 1 - a], json_field(b, orig[n - 1 - a].key@)));
                    }
                    lemma_lookup_absent(out@, k);
                }
            }
        }
    }
    out
}

} // verus!

verus! {

/// Relies on the `serde_json::Value::String` variant: wraps a string as a
/// JSON string value.
#[verifier::external_body]
pub(crate) fn json_string(s: String) -> (r: serde_json::Value) {
    serde_json::Value::String(s)
}

} // verus!
