//! Claims of a token payload as the validators read them, and lookup by name.

use vstd::prelude::*;

verus! {

/// What the validators read of a claim's value: an integer (a JSON number
/// that fits in `i64`), a string, or any other JSON value, carried as is.
#[derive(Debug)]
pub enum ClaimValue {
    Int(i64),
    Str(String),
    Other(serde_json::Value),
}

/// One named claim of a token payload.
#[derive(Debug)]
pub struct Claim {
    pub name: String,
    pub value: ClaimValue,
}

/// The value bound to `key`: the last entry of that name, as a map built by
/// inserting the entries in order would hold it.
pub open spec fn lookup(claims: Seq<Claim>, key: Seq<char>) -> Option<ClaimValue>
    decreases claims.len(),
{
    if claims.len() == 0 {
        None
    } else if claims.last().name@ == key {
        Some(claims.last().value)
    } else {
        lookup(claims.drop_last(), key)
    }
}

/// The integer bound to `key`, if the claim is present and an integer.
pub open spec fn int_claim(claims: Seq<Claim>, key: Seq<char>) -> Option<i64> {
    match lookup(claims, key) {
        Some(ClaimValue::Int(i)) => Some(i),
        _ => None,
    }
}

/// The string bound to `key`, if the claim is present and a string.
pub open spec fn str_claim(claims: Seq<Claim>, key: Seq<char>) -> Option<Seq<char>> {
    match lookup(claims, key) {
        Some(ClaimValue::Str(s)) => Some(s@),
        _ => None,
    }
}

proof fn lemma_lookup_prefix(claims: Seq<Claim>, key: Seq<char>, i: int)
    requires
        0 <= i <= claims.len(),
        forall|j: int| i <= j < claims.len() ==> claims[j].name@ != key,
    ensures
        lookup(claims, key) == lookup(claims.subrange(0, i), key),
    decreases claims.len() - i,
{
    if i < claims.len() {
        assert(claims.drop_last() =~= claims.subrange(0, claims.len() - 1));
        lemma_lookup_prefix(claims.drop_last(), key, i);
        assert(claims.drop_last().subrange(0, i) =~= claims.subrange(0, i));
    } else {
        assert(claims.subrange(0, i) =~= claims);
    }
}

/// Index of the entry that `lookup` reads for `key`.
pub fn find_claim(claims: &Vec<Claim>, key: &String) -> (r: Option<usize>)
    ensures
        match r {
            Some(i) => i < claims@.len() && lookup(claims@, key@) == Some(claims@[i as int].value),
            None => lookup(claims@, key@) is None,
        },
{
    let mut i: usize = claims.len();
    while i > 0
        invariant
            i <= claims@.len(),
            forall|j: int| i <= j < claims@.len() ==> claims@[j].name@ != key@,
        decreases i,
    {
        if claims[i - 1].name == *key {
            proof {
                lemma_lookup_prefix(claims@, key@, i as int);
                let p = claims@.subrange(0, i as int);
                assert(p.last() == claims@[i - 1]);
            }
            return Some(i - 1);
        }
        i = i - 1;
    }
    proof {
        lemma_lookup_prefix(claims@, key@, 0);
    }
    None
}

/// The integer claim of that name, if there is one.
pub fn get_int(claims: &Vec<Claim>, key: &String) -> (r: Option<i64>)
    ensures
        r == int_claim(claims@, key@),
{
    match find_claim(claims, key) {
        Some(i) => match &claims[i].value {
            ClaimValue::Int(v) => Some(*v),
            _ => None,
        },
        None => None,
    }
}

/// The string claim of that name, if there is one.
pub fn get_str<'a>(claims: &'a Vec<Claim>, key: &String) -> (r: Option<&'a String>)
    ensures
        match r {
            Some(s) => str_claim(claims@, key@) == Some(s@),
            None => str_claim(claims@, key@) is None,
        },
{
    match find_claim(claims, key) {
        Some(i) => match &claims[i].value {
            ClaimValue::Str(s) => Some(s),
            _ => None,
        },
        None => None,
    }
}

} // verus!
