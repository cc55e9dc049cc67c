//! Token decoding, base64 and clock calls, and the signing-algorithm allow-list.

use vstd::prelude::*;
use base64::Engine;
use jsonwebtoken::Algorithm;
use crate::segments::{before_dot, dot_count, payload_bytes, payload_parses};
use crate::json::{entries_read, JsonEntry};

verus! {

/// A JWS signing algorithm named by a token's header.
#[verifier::external_type_specification]
pub struct ExAlgorithm(jsonwebtoken::Algorithm);

/// The algorithm named by a header segment, if it decodes.
pub uninterp spec fn header_segment_alg(header: Seq<char>) -> Option<jsonwebtoken::Algorithm>;

/// The algorithm named by the header of `token`: its first segment, where
/// the token has exactly three.
pub open spec fn header_alg(token: Seq<char>) -> Option<jsonwebtoken::Algorithm> {
    if dot_count(token) == 2 {
        header_segment_alg(before_dot(token))
    } else {
        None
    }
}

/// Relies on `jsonwebtoken::decode_header`: it takes the part before the
/// last two `.` as the header (so it fails unless there are at least two,
/// and fails where that part holds a `.`, which base64url cannot decode),
/// and reads it alone, without any signature check; the message of a
/// failure is returned as text.
#[verifier::external_body]
pub(crate) fn decode_header_alg(token: &str) -> (r: Result<jsonwebtoken::Algorithm, String>)
    ensures
        match r {
            Ok(a) => dot_count(token@) == 2 && header_segment_alg(before_dot(token@)) == Some(a),
            Err(_) => dot_count(token@) != 2 || header_segment_alg(before_dot(token@)) is None,
        },
{
    jsonwebtoken::decode_header(token).map(|h| h.alg).map_err(|e| e.to_string())
}

/// Relies on `jsonwebtoken::decode`, given a `Validation::new(HS256)` with
/// `insecure_disable_signature_validation` and a placeholder key from
/// `DecodingKey::from_secret` (never used, as no signature is checked): the
/// payload's entries, or the failure's message. Its own checks of `exp`
/// read the clock, so it may fail on any token. It succeeds only where the
/// header, the part before the last two `.`, decodes (so holds no `.`), and
/// the payload between them decodes with the unpadded URL-safe alphabet to
/// bytes that `serde_json::from_slice` reads as a map: the same bytes that
/// the standard alphabet gives after `-`/`_` are swapped and `=` appended.
/// The map's entries are read as `parse_json_object` reads them.
#[verifier::external_body]
pub(crate) fn decode_unverified(token: &str) -> (r: Result<Vec<JsonEntry>, String>)
    ensures
        r is Ok ==> payload_parses(token@) && entries_read(r->Ok_0@, payload_bytes(token@)),
{
    let mut validation = jsonwebtoken::Validation::new(jsonwebtoken::Algorithm::HS256);
    validation.insecure_disable_signature_validation();
    let key = jsonwebtoken::DecodingKey::from_secret(b"dummy");
    jsonwebtoken::decode::<std::collections::HashMap<String, serde_json::Value>>(token, &key, &validation)
        .map(|d| d.claims.into_iter().map(|(key, value)| JsonEntry {
            integer: value.as_i64(),
            text: value.as_str().map(|s| s.to_string()),
            key,
            value,
        }).collect())
        .map_err(|e| e.to_string())
}

/// What the standard base64 alphabet, with padding, decodes `text` to.
pub uninterp spec fn base64_standard(text: Seq<char>) -> Option<Seq<u8>>;

/// Relies on `base64`'s `general_purpose::STANDARD` engine `decode`: the
/// bytes, or the failure's message.
#[verifier::external_body]
pub(crate) fn decode_base64_standard(text: &str) -> (r: Result<Vec<u8>, String>)
    ensures
        match r {
            Ok(b) => base64_standard(text@) == Some(b@),
            Err(_) => base64_standard(text@) is None,
        },
{
    base64::engine::general_purpose::STANDARD.decode(text).map_err(|e| e.to_string())
}

} // verus!

verus! {

/// Relies on `chrono::Utc::now().timestamp()`: the wall clock in whole
/// seconds since the Unix epoch. Nothing is promised of its value.
#[verifier::external_body]
pub(crate) fn now_unix_seconds() -> (r: i64) {
    chrono::Utc::now().timestamp()
}

} // verus!

verus! {

/// How far a signing algorithm is trusted.
#[derive(Debug, Clone, Copy, PartialEq, Eq, Structural)]
pub enum AlgorithmTrust {
    /// Asymmetric: accepted silently.
    Preferred,
    /// Symmetric key: accepted with a warning.
    Symmetric,
    /// Rejected.
    Unsupported,
}

pub open spec fn trust_of(a: Algorithm) -> AlgorithmTrust {
    match a {
        Algorithm::RS256 | Algorithm::RS384 | Algorithm::RS512 | Algorithm::ES256
        | Algorithm::ES384 => AlgorithmTrust::Preferred,
        Algorithm::HS256 | Algorithm::HS384 | Algorithm::HS512 => AlgorithmTrust::Symmetric,
        _ => AlgorithmTrust::Unsupported,
    }
}

/// The algorithm allow-list.
pub fn algorithm_trust(a: Algorithm) -> (r: AlgorithmTrust)
    ensures
        r == trust_of(a),
{
    match a {
        Algorithm::RS256 | Algorithm::RS384 | Algorithm::RS512 | Algorithm::ES256
        | Algorithm::ES384 => AlgorithmTrust::Preferred,
        Algorithm::HS256 | Algorithm::HS384 | Algorithm::HS512 => AlgorithmTrust::Symmetric,
        _ => AlgorithmTrust::Unsupported,
    }
}

pub open spec fn algorithm_label(a: Algorithm) -> Seq<char> {
    match a {
        Algorithm::HS256 => "HS256"@,
        Algorithm::HS384 => "HS384"@,
        Algorithm::HS512 => "HS512"@,
        Algorithm::ES256 => "ES256"@,
        Algorithm::ES384 => "ES384"@,
        Algorithm::RS256 => "RS256"@,
        Algorithm::RS384 => "RS384"@,
        Algorithm::RS512 => "RS512"@,
        Algorithm::PS256 => "PS256"@,
        Algorithm::PS384 => "PS384"@,
        Algorithm::PS512 => "PS512"@,
        Algorithm::EdDSA => "EdDSA"@,
    }
}

/// The algorithm's registered name.
pub fn algorithm_name(a: Algorithm) -> (r: &'static str)
    ensures
        r@ == algorithm_label(a),
{
    match a {
        Algorithm::HS256 => "HS256",
        Algorithm::HS384 => "HS384",
        Algorithm::HS512 => "HS512",
        Algorithm::ES256 => "ES256",
        Algorithm::ES384 => "ES384",
        Algorithm::RS256 => "RS256",
        Algorithm::RS384 => "RS384",
        Algorithm::RS512 => "RS512",
        Algorithm::PS256 => "PS256",
        Algorithm::PS384 => "PS384",
        Algorithm::PS512 => "PS512",
        Algorithm::EdDSA => "EdDSA",
    }
}
} // verus!
