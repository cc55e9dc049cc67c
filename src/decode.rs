//! Structural checks of one token, extraction of its claims, and its validation.

use vstd::prelude::*;
use jsonwebtoken::Algorithm;
use crate::jwt::algorithm_label;
use crate::claims::Claim;
use crate::error::CedarlingError;
use crate::json::{claim_of, claims_from_entries, entries_read, json_object_parses, parse_json_object, reads_payload, JsonEntry};
use crate::jwt::{algorithm_name, algorithm_trust, base64_standard, decode_header_alg, decode_unverified, header_alg, trust_of, AlgorithmTrust};
use crate::segments::{before_dot, as_standard_base64, base64_decode_jwt_part, count_dots, dot_count, payload_bounds, payload_segment, payload_parses, payload_bytes, lemma_after_dot, lemma_before_dot};
use crate::standard::{lemma_payload_failure, payload_claims_failure, standard_claims_failure, standard_claims_warnings, token_error, validate_standard_claims, is_token_error, TokenWarning};
use crate::text::chars_of;
use crate::token::TokenKind;

verus! {

fn token_error_with(kind: TokenKind, before: &str, after: &str) -> (e: CedarlingError)
    ensures
        e is TokenValidation,
        e.detail_text() == before@ + kind.label() + after@,
{
    let mut s = String::from_str(before);
    s.append(kind.name());
    s.append(after);
    CedarlingError::TokenValidation(s)
}

/// `p` is a prefix of `s`.
pub open spec fn starts_with(s: Seq<char>, p: Seq<char>) -> bool {
    p.len() <= s.len() && s.subrange(0, p.len() as int) == p
}

/// A `TokenValidation` error for an undecodable header: its detail starts
/// with `Invalid <name> header: ` and goes on with the decoder's message.
pub open spec fn is_header_error(e: CedarlingError, kind: TokenKind) -> bool {
    e is TokenValidation && starts_with(e.detail_text(), "Invalid "@ + kind.label() + " header: "@)
}

/// The error for an algorithm outside the allow-list.
pub open spec fn is_algorithm_error(e: CedarlingError, kind: TokenKind, a: Algorithm) -> bool {
    e is TokenValidation && e.detail_text() == "Unsupported algorithm for "@ + kind.label() + ": "@
        + algorithm_label(a)
}

/// A `TokenValidation` error raised by one of the rules on a token's
/// standard claims.
pub open spec fn is_rule_failure(e: CedarlingError, kind: TokenKind) -> bool {
    e is TokenValidation && {
        let d = e.detail_text();
        let l = kind.label();
        d == l + " has invalid exp claim format"@ || d == l + " has expired"@
            || d == l + " not yet valid (nbf)"@ || d == l + " issued in the future (iat)"@
            || d == l + " has empty issuer"@ || d == l + " missing required iss claim"@
            || d == l + " has empty subject"@
    }
}

/// A token whose structure, header and algorithm pass and whose payload
/// parses: what remains to decide is its claims.
pub open spec fn token_readable(t: Seq<char>) -> bool {
    dot_count(t) == 2 && header_alg(t) is Some && trust_of(header_alg(t)->Some_0)
        != AlgorithmTrust::Unsupported && payload_parses(t)
}

/// Two tokens with the same header and payload segments are judged alike:
/// the signature segment is never read.
pub proof fn law_signature_segment_ignored(t1: Seq<char>, t2: Seq<char>)
    requires
        dot_count(t1) == 2,
        dot_count(t2) == 2,
        before_dot(t1) == before_dot(t2),
        payload_segment(t1) == payload_segment(t2),
    ensures
        header_alg(t1) == header_alg(t2),
        token_readable(t1) == token_readable(t2),
        payload_parses(t1) ==> payload_bytes(t1) == payload_bytes(t2),
{
}

/// Checks the structure of a token: three segments, and a header that decodes.
pub fn validate_jwt_format(token: &str, kind: TokenKind) -> (r: Result<(), CedarlingError>)
    ensures
        dot_count(token@) != 2 ==> r is Err && is_token_error(
            r->Err_0,
            kind,
            " does not have valid JWT format"@,
        ),
        dot_count(token@) == 2 ==> (r is Ok <==> header_alg(token@) is Some),
        dot_count(token@) == 2 && r is Err ==> is_header_error(r->Err_0, kind),
        r is Err ==> r->Err_0 is TokenValidation,
{
    let chars = chars_of(token);
    if count_dots(&chars) != 2 {
        return Err(token_error(kind, " does not have valid JWT format"));
    }
    match decode_header_alg(token) {
        Ok(_) => Ok(()),
        Err(msg) => {
            let mut e = token_error_with(kind, "Invalid ", " header: ");
            let ghost pre = e.detail_text();
            if let CedarlingError::TokenValidation(s) = &mut e {
                s.append(msg.as_str());
            }
            assert(e.detail_text().subrange(0, pre.len() as int) =~= pre);
            Err(e)
        },
    }
}

/// What the claims of a token are, given what the token decoder returned
/// for it: its entries where it succeeded; else the second segment, read as
/// base64url and parsed as a JSON object.
pub fn claims_from_decoded(token: &str, decoded: Result<Vec<JsonEntry>, String>) -> (r: Result<Vec<Claim>, CedarlingError>)
    ensures
        match decoded {
            Ok(entries) => r is Ok && r->Ok_0@.len() == entries@.len()
                && (forall|i: int| 0 <= i < entries@.len()
                    ==> claim_of(#[trigger] r->Ok_0@[i], entries@[entries@.len() - 1 - i]))
                && (forall|b: Seq<u8>| entries_read(entries@, b) ==> reads_payload(r->Ok_0@, b)),
            Err(_) => match payload_segment(token@) {
                None => r is Err && r->Err_0 is TokenValidation,
                Some(p) => match base64_standard(as_standard_base64(p)) {
                    None => r is Err && r->Err_0 is TokenValidation,
                    Some(bytes) => if json_object_parses(bytes) {
                        r is Ok && reads_payload(r->Ok_0@, bytes)
                    } else {
                        r is Err && r->Err_0 is JsonParsing
                    },
                },
            },
        },
{
    match decoded {
        Ok(entries) => Ok(claims_from_entries(entries)),
        Err(msg) => {
            let chars = chars_of(token);
            match payload_bounds(&chars) {
                Some((a, b)) => {
                    let payload = token.substring_char(a + 1, b);
                    proof {
                        lemma_after_dot(token@, a as int);
                        let rest = token@.subrange(a + 1, token@.len() as int);
                        lemma_before_dot(rest, b - a - 1);
                        assert(rest.subrange(0, b - a - 1) =~= payload@);
                    }
                    let bytes = match base64_decode_jwt_part(payload) {
                        Ok(bytes) => bytes,
                        Err(e) => {
                            return Err(e);
                        },
                    };
                    match parse_json_object(&bytes) {
                        Ok(entries) => Ok(claims_from_entries(entries)),
                        Err(m) => {
                            let mut s = String::from_str("Failed to parse JWT payload: ");
                            s.append(m.as_str());
                            Err(CedarlingError::JsonParsing(s))
                        },
                    }
                },
                None => {
                    proof {
                        lemma_after_dot(token@, token@.len() as int);
                    }
                    let mut s = String::from_str("Failed to decode JWT: ");
                    s.append(msg.as_str());
                    Err(CedarlingError::TokenValidation(s))
                },
            }
        },
    }
}

/// The claims of a token's payload, decoded without any signature check:
/// what `claims_from_decoded` makes of the token decoder's outcome.
/// It succeeds exactly where the payload parses, whatever the header, the
/// `exp` claim or the signature segment hold.
pub fn extract_jwt_claims(token: &str) -> (r: Result<Vec<Claim>, CedarlingError>)
    ensures
        r is Ok <==> payload_parses(token@),
        r is Ok ==> reads_payload(r->Ok_0@, payload_bytes(token@)),
        match payload_segment(token@) {
            None => r is Err && r->Err_0 is TokenValidation,
            Some(p) => match base64_standard(as_standard_base64(p)) {
                None => r is Err && r->Err_0 is TokenValidation,
                Some(bytes) => !json_object_parses(bytes) ==> r is Err && r->Err_0 is JsonParsing,
            },
        },
{
    claims_from_decoded(token, decode_unverified(token))
}

/// The warning that a token's algorithm raises, if any.
pub open spec fn algorithm_warnings(a: Algorithm, kind: TokenKind) -> Seq<TokenWarning> {
    if trust_of(a) == AlgorithmTrust::Symmetric {
        seq![TokenWarning::SymmetricAlgorithm(kind, a)]
    } else {
        Seq::empty()
    }
}

/// A token that passed validation: its claims and the warnings it raised.
#[derive(Debug)]
pub struct ValidatedToken {
    pub claims: Vec<Claim>,
    pub warnings: Vec<TokenWarning>,
}

/// Validates one token: its structure, its header's algorithm, and its
/// standard claims at time `now`.
///
/// No signature is verified: the claims are read unauthenticated. This is a
/// known capability gap, left open on purpose until key management (a JWKS
/// source, issuer trust, key rotation) is available. On success the token's claims come back,
/// with the warnings of the algorithm and of the claims.
pub fn validate_jwt_with_signature(token: &str, kind: TokenKind, now: i64) -> (r: Result<ValidatedToken, CedarlingError>)
    ensures
        dot_count(token@) != 2 ==> r is Err && is_token_error(
            r->Err_0,
            kind,
            " does not have valid JWT format"@,
        ),
        dot_count(token@) == 2 && header_alg(token@) is None ==> r is Err && is_header_error(r->Err_0, kind),
        dot_count(token@) == 2 && header_alg(token@) is Some && trust_of(header_alg(token@)->Some_0)
            == AlgorithmTrust::Unsupported ==> r is Err && is_algorithm_error(r->Err_0, kind, header_alg(token@)->Some_0),
        dot_count(token@) == 2 && header_alg(token@) is Some && trust_of(header_alg(token@)->Some_0)
            != AlgorithmTrust::Unsupported && !payload_parses(token@) ==> r is Err,
        token_readable(token@) ==> r is Ok || is_rule_failure(r->Err_0, kind),
        token_readable(token@) ==> match payload_claims_failure(payload_bytes(token@), kind, now) {
            None => r is Ok,
            Some(text) => r is Err && is_token_error(r->Err_0, kind, text),
        },
        r is Ok ==> reads_payload(r->Ok_0.claims@, payload_bytes(token@)),
        r is Ok ==> dot_count(token@) == 2 && header_alg(token@) is Some
            && trust_of(header_alg(token@)->Some_0) != AlgorithmTrust::Unsupported
            && standard_claims_failure(r->Ok_0.claims@, kind, now) is None
            && r->Ok_0.warnings@ == algorithm_warnings(header_alg(token@)->Some_0, kind)
                + standard_claims_warnings(r->Ok_0.claims@, kind, now),
        r is Err ==> r->Err_0 is TokenValidation || r->Err_0 is JsonParsing,
{
    match validate_jwt_format(token, kind) {
        Ok(()) => {},
        Err(e) => {
            return Err(e);
        },
    }
    let alg = match decode_header_alg(token) {
        Ok(a) => a,
        Err(msg) => {
            let mut e = token_error_with(kind, "Invalid ", " header: ");
            if let CedarlingError::TokenValidation(s) = &mut e {
                s.append(msg.as_str());
            }
            return Err(e);
        },
    };
    if algorithm_trust(alg) == AlgorithmTrust::Unsupported {
        let mut e = token_error_with(kind, "Unsupported algorithm for ", ": ");
        if let CedarlingError::TokenValidation(s) = &mut e {
            s.append(algorithm_name(alg));
        }
        return Err(e);
    }
    let claims = match extract_jwt_claims(token) {
        Ok(c) => c,
        Err(e) => {
            return Err(e);
        },
    };
    let mut warnings: Vec<TokenWarning> = Vec::new();
    if algorithm_trust(alg) == AlgorithmTrust::Symmetric {
        warnings.push(TokenWarning::SymmetricAlgorithm(kind, alg));
    }
    proof {
        lemma_payload_failure(claims@, payload_bytes(token@), kind, now);
    }
    match validate_standard_claims(&claims, kind, now) {
        Ok(mut w) => {
            warnings.append(&mut w);
            Ok(ValidatedToken { claims, warnings })
        },
        Err(e) => Err(e),
    }
}

} // verus!
