//! Validation of the standard claims of one token, and the warnings it raises.

use vstd::prelude::*;
use crate::claims::{Claim, lookup, int_claim, str_claim, get_int, get_str, find_claim};
use crate::error::CedarlingError;
use crate::jwt::{algorithm_label, algorithm_name};
use crate::token::TokenKind;
use crate::json::{lemma_reads_field, payload_has, payload_int, payload_str, reads_payload};
use jsonwebtoken::Algorithm;

verus! {
/// A `TokenValidation` error whose detail is the token's name followed by `text`.
pub open spec fn is_token_error(e: CedarlingError, kind: TokenKind, text: Seq<char>) -> bool {
    e is TokenValidation && e.detail_text() == kind.label() + text
}

pub(crate) fn token_error(kind: TokenKind, text: &str) -> (e: CedarlingError)
    ensures
        is_token_error(e, kind, text@),
{
    let mut s = String::from_str(kind.name());
    s.append(text);
    CedarlingError::TokenValidation(s)
}

/// Seconds that `iat` may lie ahead of the validation time.
pub const IAT_FUTURE_SKEW: i64 = 300;

/// Age in seconds past which a token's `iat` is reported as stale.
pub const STALE_AGE: i64 = 86400;

/// A finding that does not fail validation but is worth reporting.
#[derive(Debug, Clone, Copy)]
pub enum TokenWarning {
    /// The token is signed with a symmetric-key algorithm.
    SymmetricAlgorithm(TokenKind, Algorithm),
    /// The token has no `exp` claim.
    MissingExp(TokenKind),
    /// The token's `iat` lies more than a day before the validation time.
    Stale(TokenKind),
    /// An id or userinfo token has no `sub` claim.
    MissingSub(TokenKind),
    /// The access token and the id token name different issuers.
    IssuerMismatch,
}

/// The warnings that the standard-claims rules raise, in rule order.
pub open spec fn standard_claims_warnings(c: Seq<Claim>, kind: TokenKind, now: i64) -> Seq<TokenWarning> {
    (if lookup(c, "exp"@) is None {
        seq![TokenWarning::MissingExp(kind)]
    } else {
        Seq::empty()
    }) + (if int_claim(c, "iat"@) is Some && now - int_claim(c, "iat"@)->Some_0 > STALE_AGE {
        seq![TokenWarning::Stale(kind)]
    } else {
        Seq::empty()
    }) + (if lookup(c, "sub"@) is None && kind != TokenKind::Access {
        seq![TokenWarning::MissingSub(kind)]
    } else {
        Seq::empty()
    })
}

/// The first rule of the standard-claims table that the claims break, as the
/// text that follows the token's name in the error, or `None` if all hold.
pub open spec fn standard_claims_failure(c: Seq<Claim>, kind: TokenKind, now: i64) -> Option<Seq<char>> {
    if lookup(c, "exp"@) is Some && int_claim(c, "exp"@) is None {
        Some(" has invalid exp claim format"@)
    } else if int_claim(c, "exp"@) is Some && int_claim(c, "exp"@)->Some_0 < now {
        Some(" has expired"@)
    } else if int_claim(c, "nbf"@) is Some && int_claim(c, "nbf"@)->Some_0 > now {
        Some(" not yet valid (nbf)"@)
    } else if int_claim(c, "iat"@) is Some && int_claim(c, "iat"@)->Some_0 > now + IAT_FUTURE_SKEW {
        Some(" issued in the future (iat)"@)
    } else if str_claim(c, "iss"@) == Some(Seq::<char>::empty()) {
        Some(" has empty issuer"@)
    } else if lookup(c, "iss"@) is None && kind != TokenKind::Userinfo {
        Some(" missing required iss claim"@)
    } else if str_claim(c, "sub"@) == Some(Seq::<char>::empty()) {
        Some(" has empty subject"@)
    } else {
        None
    }
}

/// `standard_claims_failure` read off a JSON payload: the first rule that
/// the payload in `b` breaks.
pub open spec fn payload_claims_failure(b: Seq<u8>, kind: TokenKind, now: i64) -> Option<Seq<char>> {
    if payload_has(b, "exp"@) && payload_int(b, "exp"@) is None {
        Some(" has invalid exp claim format"@)
    } else if payload_int(b, "exp"@) is Some && payload_int(b, "exp"@)->Some_0 < now {
        Some(" has expired"@)
    } else if payload_int(b, "nbf"@) is Some && payload_int(b, "nbf"@)->Some_0 > now {
        Some(" not yet valid (nbf)"@)
    } else if payload_int(b, "iat"@) is Some && payload_int(b, "iat"@)->Some_0 > now + IAT_FUTURE_SKEW {
        Some(" issued in the future (iat)"@)
    } else if payload_str(b, "iss"@) == Some(Seq::<char>::empty()) {
        Some(" has empty issuer"@)
    } else if !payload_has(b, "iss"@) && kind != TokenKind::Userinfo {
        Some(" missing required iss claim"@)
    } else if payload_str(b, "sub"@) == Some(Seq::<char>::empty()) {
        Some(" has empty subject"@)
    } else {
        None
    }
}

/// Claims that read a payload break the same rule as the payload.
pub proof fn lemma_payload_failure(c: Seq<Claim>, b: Seq<u8>, kind: TokenKind, now: i64)
    requires
        reads_payload(c, b),
    ensures
        standard_claims_failure(c, kind, now) == payload_claims_failure(b, kind, now),
{
    lemma_reads_field(c, b, "exp"@);
    lemma_reads_field(c, b, "nbf"@);
    lemma_reads_field(c, b, "iat"@);
    lemma_reads_field(c, b, "iss"@);
    lemma_reads_field(c, b, "sub"@);
}

/// Checks the standard claims of one token against the validation time `now`.
/// On success the warnings of the rules come back.
pub fn validate_standard_claims(claims: &Vec<Claim>, kind: TokenKind, now: i64) -> (r: Result<Vec<TokenWarning>, CedarlingError>)
    ensures
        match standard_claims_failure(claims@, kind, now) {
            None => r is Ok && r->Ok_0@ == standard_claims_warnings(claims@, kind, now),
            Some(text) => r is Err && is_token_error(r->Err_0, kind, text),
        },
{
    let mut warnings: Vec<TokenWarning> = Vec::new();
    let exp_key = String::from_str("exp");
    match find_claim(claims, &exp_key) {
        Some(_) => match get_int(claims, &exp_key) {
            Some(exp) => {
                if exp < now {
                    return Err(token_error(kind, " has expired"));
                }
            },
            None => {
                return Err(token_error(kind, " has invalid exp claim format"));
            },
        },
        None => {
            warnings.push(TokenWarning::MissingExp(kind));
        },
    }
    let ghost w_exp = warnings@;
    let nbf_key = String::from_str("nbf");
    if let Some(nbf) = get_int(claims, &nbf_key) {
        if nbf > now {
            return Err(token_error(kind, " not yet valid (nbf)"));
        }
    }
    let iat_key = String::from_str("iat");
    if let Some(iat) = get_int(claims, &iat_key) {
        if (now as i128) - (iat as i128) > (STALE_AGE as i128) {
            warnings.push(TokenWarning::Stale(kind));
        }
        if (iat as i128) > (now as i128) + (IAT_FUTURE_SKEW as i128) {
            return Err(token_error(kind, " issued in the future (iat)"));
        }
    }
    let iss_key = String::from_str("iss");
    match find_claim(claims, &iss_key) {
        Some(_) => {
            if let Some(iss) = get_str(claims, &iss_key) {
                if iss.as_str().is_empty() {
                    assert(iss@ =~= Seq::<char>::empty());
                    return Err(token_error(kind, " has empty issuer"));
                }
            }
        },
        None => {
            if kind != TokenKind::Userinfo {
                return Err(token_error(kind, " missing required iss claim"));
            }
        },
    }
    let ghost w_iat = warnings@;
    let sub_key = String::from_str("sub");
    if let Some(sub) = get_str(claims, &sub_key) {
        if sub.as_str().is_empty() {
            assert(sub@ =~= Seq::<char>::empty());
            return Err(token_error(kind, " has empty subject"));
        }
    }
    if find_claim(claims, &sub_key).is_none() && kind != TokenKind::Access {
        warnings.push(TokenWarning::MissingSub(kind));
    }
    assert(warnings@ =~= standard_claims_warnings(claims@, kind, now));
    Ok(warnings)
}


/// A token whose integer `exp` lies before the validation time is rejected.
pub proof fn law_expired_token_rejected(claims: Seq<Claim>, kind: TokenKind, now: i64)
    requires
        int_claim(claims, "exp"@) is Some,
        int_claim(claims, "exp"@)->Some_0 < now,
    ensures
        standard_claims_failure(claims, kind, now) == Some(" has expired"@),
{
}

/// A token whose integer `iat` lies more than the allowed skew after the
/// validation time is rejected.
pub proof fn law_future_issue_rejected(claims: Seq<Claim>, kind: TokenKind, now: i64)
    requires
        int_claim(claims, "iat"@) is Some,
        int_claim(claims, "iat"@)->Some_0 > now + IAT_FUTURE_SKEW,
    ensures
        standard_claims_failure(claims, kind, now) is Some,
{
}

impl TokenWarning {
    pub open spec fn text(self) -> Seq<char> {
        match self {
            TokenWarning::SymmetricAlgorithm(k, a) => "Using symmetric algorithm for "@ + k.label() + ": "@
                + algorithm_label(a),
            TokenWarning::MissingExp(k) => k.label() + " missing exp claim"@,
            TokenWarning::Stale(k) => k.label() + " is older than 24 hours"@,
            TokenWarning::MissingSub(k) => k.label() + " missing sub claim"@,
            TokenWarning::IssuerMismatch => "Issuer mismatch between access_token and id_token"@,
        }
    }

    /// The warning as a log message.
    pub fn message(&self) -> (r: String)
        ensures
            r@ == self.text(),
    {
        match *self {
            TokenWarning::SymmetricAlgorithm(k, a) => {
                let mut s = String::from_str("Using symmetric algorithm for ");
                s.append(k.name());
                s.append(": ");
                s.append(algorithm_name(a));
                s
            },
            TokenWarning::MissingExp(k) => {
                let mut s = String::from_str(k.name());
                s.append(" missing exp claim");
                s
            },
            TokenWarning::Stale(k) => {
                let mut s = String::from_str(k.name());
                s.append(" is older than 24 hours");
                s
            },
            TokenWarning::MissingSub(k) => {
                let mut s = String::from_str(k.name());
                s.append(" missing sub claim");
                s
            },
            TokenWarning::IssuerMismatch => String::from_str("Issuer mismatch between access_token and id_token"),
        }
    }
}
} // verus!
