//! Token bundles: validation of all tokens present, and merging of their claims.

use vstd::prelude::*;
use crate::claims::{Claim, ClaimValue, lookup, find_claim};
use crate::consistency::{differs, lemma_payload_consistency, payload_consistency_failure, reads_opt, consistency_failure, consistency_warnings, validate_token_consistency};
use crate::decode::{algorithm_warnings, extract_jwt_claims, is_rule_failure, token_readable, validate_jwt_with_signature, ValidatedToken};
use crate::segments::{payload_bytes, payload_parses};
use crate::json::{payload_int, payload_str};
use crate::error::CedarlingError;
use crate::jwt::{header_alg, now_unix_seconds, trust_of, AlgorithmTrust};
use crate::segments::dot_count;
use crate::standard::{IAT_FUTURE_SKEW, payload_claims_failure, standard_claims_failure, standard_claims_warnings, TokenWarning};

verus! {

/// Which of the three tokens of a bundle a token is.
#[derive(Debug, Clone, Copy, PartialEq, Eq, Structural)]
pub enum TokenKind {
    Access,
    Id,
    Userinfo,
}

impl TokenKind {
    pub open spec fn label(self) -> Seq<char> {
        match self {
            TokenKind::Access => "access_token"@,
            TokenKind::Id => "id_token"@,
            TokenKind::Userinfo => "userinfo_token"@,
        }
    }

    /// The name the token goes by in messages and in claim prefixes.
    pub fn name(self) -> (r: &'static str)
        ensures
            r@ == self.label(),
    {
        match self {
            TokenKind::Access => "access_token",
            TokenKind::Id => "id_token",
            TokenKind::Userinfo => "userinfo_token",
        }
    }
}


} // verus!

verus! {

/// Bundle of bearer tokens supplied with a request; any of the three may be absent.
#[derive(Debug, Clone)]
pub struct TokenBundle {
    pub access_token: Option<String>,
    pub id_token: Option<String>,
    pub userinfo_token: Option<String>,
}

/// The claims of the tokens of a bundle that passed validation, one list per
/// token present.
#[derive(Debug)]
pub struct BundleClaims {
    pub access: Option<Vec<Claim>>,
    pub id: Option<Vec<Claim>>,
    pub userinfo: Option<Vec<Claim>>,
    /// Every warning raised, token by token in the order access, id,
    /// userinfo, then those of the consistency checks.
    pub warnings: Vec<TokenWarning>,
}

pub open spec fn owned_claims_view(c: Option<Vec<Claim>>) -> Option<Seq<Claim>> {
    match c {
        Some(v) => Some(v@),
        None => None,
    }
}

pub open spec fn string_view(s: Option<String>) -> Option<Seq<char>> {
    match s {
        Some(t) => Some(t@),
        None => None,
    }
}

/// The claims of one token passed every per-token check at time `now`.
pub open spec fn token_passed(token: Option<String>, claims: Option<Vec<Claim>>, kind: TokenKind, now: i64) -> bool {
    match token {
        None => claims is None,
        Some(t) => claims is Some && dot_count(t@) == 2 && header_alg(t@) is Some
            && trust_of(header_alg(t@)->Some_0) != AlgorithmTrust::Unsupported
            && standard_claims_failure(claims->Some_0@, kind, now) is None,
    }
}

/// The warnings that a token which passed raised.
pub open spec fn token_warnings(token: Option<String>, claims: Option<Vec<Claim>>, kind: TokenKind, now: i64) -> Seq<TokenWarning> {
    match token {
        None => Seq::empty(),
        Some(t) => algorithm_warnings(header_alg(t@)->Some_0, kind)
            + standard_claims_warnings(claims->Some_0@, kind, now),
    }
}

/// An absent token, or one that `token_readable` admits.
pub open spec fn readable_or_absent(t: Option<String>) -> bool {
    match t {
        Some(s) => token_readable(s@),
        None => true,
    }
}

/// An absent token, or one whose payload parses.
pub open spec fn parses_or_absent(t: Option<String>) -> bool {
    match t {
        Some(s) => payload_parses(s@),
        None => true,
    }
}

/// A `TokenValidation` error raised by one of the consistency checks.
pub open spec fn is_consistency_error(e: CedarlingError) -> bool {
    e is TokenValidation && {
        let d = e.detail_text();
        d == "access_token client_id does not match id_token aud"@
            || d == "id_token sub does not match userinfo_token sub"@
            || d == "id_token aud does not match userinfo_token aud"@
    }
}

/// An error that only the claims of readable tokens can cause: a rule on
/// the standard claims of one token, or a consistency check.
pub open spec fn is_claims_failure(e: CedarlingError) -> bool {
    is_rule_failure(e, TokenKind::Access) || is_rule_failure(e, TokenKind::Id)
        || is_rule_failure(e, TokenKind::Userinfo) || is_consistency_error(e)
}

/// The payload bytes of a token present.
pub open spec fn token_bytes(t: Option<String>) -> Option<Seq<u8>> {
    match t {
        Some(s) => Some(payload_bytes(s@)),
        None => None,
    }
}

/// The error detail of the first standard-claims rule that the payload of a
/// token present breaks at `now`.
pub open spec fn token_claims_failure(t: Option<String>, kind: TokenKind, now: i64) -> Option<Seq<char>> {
    match t {
        Some(s) => match payload_claims_failure(payload_bytes(s@), kind, now) {
            Some(text) => Some(kind.label() + text),
            None => None,
        },
        None => None,
    }
}

/// For a bundle whose tokens are all readable: the detail of the first
/// failure, checking the payloads of the access, id and userinfo tokens in
/// turn, then their consistency; `None` where every check passes.
pub open spec fn bundle_claims_failure(b: TokenBundle, now: i64) -> Option<Seq<char>> {
    if token_claims_failure(b.access_token, TokenKind::Access, now) is Some {
        token_claims_failure(b.access_token, TokenKind::Access, now)
    } else if token_claims_failure(b.id_token, TokenKind::Id, now) is Some {
        token_claims_failure(b.id_token, TokenKind::Id, now)
    } else if token_claims_failure(b.userinfo_token, TokenKind::Userinfo, now) is Some {
        token_claims_failure(b.userinfo_token, TokenKind::Userinfo, now)
    } else {
        payload_consistency_failure(token_bytes(b.access_token), token_bytes(b.id_token), token_bytes(b.userinfo_token))
    }
}

/// A token is present, every token present is readable, and every check
/// on the payloads passes at `now`.
pub open spec fn bundle_passes(b: TokenBundle, now: i64) -> bool {
    !b.is_empty_bundle() && b.all_readable() && bundle_claims_failure(b, now) is None
}

/// The token of that kind in the bundle.
pub open spec fn token_of(b: TokenBundle, kind: TokenKind) -> Option<String> {
    match kind {
        TokenKind::Access => b.access_token,
        TokenKind::Id => b.id_token,
        TokenKind::Userinfo => b.userinfo_token,
    }
}

/// A bundle with a token whose payload's integer `exp` lies before `now`
/// does not validate at `now`.
pub proof fn law_expired_token_fails_bundle(b: TokenBundle, kind: TokenKind, now: i64)
    requires
        token_of(b, kind) is Some,
        payload_int(payload_bytes(token_of(b, kind)->Some_0@), "exp"@) is Some,
        payload_int(payload_bytes(token_of(b, kind)->Some_0@), "exp"@)->Some_0 < now,
    ensures
        !bundle_passes(b, now),
{
}

/// A bundle with a token whose payload's integer `iat` lies more than the
/// allowed skew after `now` does not validate at `now`.
pub proof fn law_future_token_fails_bundle(b: TokenBundle, kind: TokenKind, now: i64)
    requires
        token_of(b, kind) is Some,
        payload_int(payload_bytes(token_of(b, kind)->Some_0@), "iat"@) is Some,
        payload_int(payload_bytes(token_of(b, kind)->Some_0@), "iat"@)->Some_0 > now + IAT_FUTURE_SKEW,
    ensures
        !bundle_passes(b, now),
{
}

/// An access token whose `client_id` differs from the id token's `aud` fails
/// the bundle; so do an id token and a userinfo token whose `sub`, or whose
/// `aud`, differ.
pub proof fn law_mismatch_fails_bundle(b: TokenBundle, now: i64)
    requires
        (b.access_token is Some && b.id_token is Some && differs(
            payload_str(payload_bytes(b.access_token->Some_0@), "client_id"@),
            payload_str(payload_bytes(b.id_token->Some_0@), "aud"@),
        )) || (b.id_token is Some && b.userinfo_token is Some && (differs(
            payload_str(payload_bytes(b.id_token->Some_0@), "sub"@),
            payload_str(payload_bytes(b.userinfo_token->Some_0@), "sub"@),
        ) || differs(
            payload_str(payload_bytes(b.id_token->Some_0@), "aud"@),
            payload_str(payload_bytes(b.userinfo_token->Some_0@), "aud"@),
        ))),
    ensures
        !bundle_passes(b, now),
{
}

/// An access token and an id token that are readable, pass the rules on
/// their own and agree on `client_id`/`aud` validate together, whatever
/// issuers they name.
pub proof fn law_issuer_drift_still_passes(b: TokenBundle, now: i64)
    requires
        b.access_token is Some,
        b.id_token is Some,
        b.userinfo_token is None,
        b.all_readable(),
        token_claims_failure(b.access_token, TokenKind::Access, now) is None,
        token_claims_failure(b.id_token, TokenKind::Id, now) is None,
        !differs(
            payload_str(payload_bytes(b.access_token->Some_0@), "client_id"@),
            payload_str(payload_bytes(b.id_token->Some_0@), "aud"@),
        ),
    ensures
        bundle_passes(b, now),
{
}

pub open spec fn err_of<T>(r: Result<T, CedarlingError>) -> Option<CedarlingError> {
    match r {
        Ok(_) => None,
        Err(e) => Some(e),
    }
}

/// What validating bundle `b` at time `now` yields: success exactly when a
/// token is present, every token present is readable and every check on
/// the payloads passes; the empty-bundle error; and, for a bundle whose
/// tokens are readable, the error of the first check that fails.
pub open spec fn validation_outcome(b: TokenBundle, now: i64, ok: bool, err: Option<CedarlingError>) -> bool {
    &&& ok <==> bundle_passes(b, now)
    &&& b.is_empty_bundle() ==> err is Some && err->Some_0 is TokenValidation
        && err->Some_0.detail_text() == "At least one token must be provided"@
    &&& (!b.is_empty_bundle() && b.all_readable() && bundle_claims_failure(b, now) is Some) ==> err is Some
        && err->Some_0 is TokenValidation && err->Some_0.detail_text() == bundle_claims_failure(b, now)->Some_0
}

fn validate_optional(token: &Option<String>, kind: TokenKind, now: i64, warnings: &mut Vec<TokenWarning>) -> (r: Result<Option<Vec<Claim>>, CedarlingError>)
    ensures
        readable_or_absent(*token) ==> match token_claims_failure(*token, kind, now) {
            None => r is Ok,
            Some(d) => r is Err && r->Err_0 is TokenValidation && r->Err_0.detail_text() == d,
        },
        r is Ok ==> reads_opt(owned_claims_view(r->Ok_0), token_bytes(*token)),
        readable_or_absent(*token) ==> r is Ok || is_rule_failure(r->Err_0, kind),
        !readable_or_absent(*token) ==> r is Err,
        r is Ok ==> token_passed(*token, r->Ok_0, kind, now)
            && final(warnings)@ == old(warnings)@ + token_warnings(*token, r->Ok_0, kind, now),
        r is Err ==> token is Some && (r->Err_0 is TokenValidation || r->Err_0 is JsonParsing),
{
    match token {
        Some(t) => match validate_jwt_with_signature(t.as_str(), kind, now) {
            Ok(v) => {
                let ValidatedToken { claims, warnings: mut w } = v;
                warnings.append(&mut w);
                Ok(Some(claims))
            },
            Err(e) => Err(e),
        },
        None => {
            assert(warnings@ =~= warnings@ + Seq::<TokenWarning>::empty());
            Ok(None)
        },
    }
}

impl TokenBundle {
    pub open spec fn is_empty_bundle(&self) -> bool {
        self.access_token is None && self.id_token is None && self.userinfo_token is None
    }

    /// Every token present has a valid structure, header and algorithm, and
    /// a payload that parses.
    pub open spec fn all_readable(&self) -> bool {
        readable_or_absent(self.access_token) && readable_or_absent(self.id_token)
            && readable_or_absent(self.userinfo_token)
    }

    /// Every token present has a payload that parses.
    pub open spec fn all_payloads_parse(&self) -> bool {
        parses_or_absent(self.access_token) && parses_or_absent(self.id_token)
            && parses_or_absent(self.userinfo_token)
    }

    /// A bundle with no token.
    pub fn new() -> (r: Self)
        ensures
            r.is_empty_bundle(),
    {
        TokenBundle { access_token: None, id_token: None, userinfo_token: None }
    }

    /// Validates every token present at time `now`, then their mutual
    /// consistency; hands back the claims that were read.
    pub fn validate_at(&self, now: i64) -> (r: Result<BundleClaims, CedarlingError>)
        ensures
            self.is_empty_bundle() ==> r is Err && r->Err_0 is TokenValidation
                && r->Err_0.detail_text() == "At least one token must be provided"@,
            !self.all_readable() ==> r is Err,
            !self.is_empty_bundle() && self.all_readable() ==> r is Ok || is_claims_failure(r->Err_0),
            r is Ok ==> !self.is_empty_bundle()
                && token_passed(self.access_token, r->Ok_0.access, TokenKind::Access, now)
                && token_passed(self.id_token, r->Ok_0.id, TokenKind::Id, now)
                && token_passed(self.userinfo_token, r->Ok_0.userinfo, TokenKind::Userinfo, now)
                && consistency_failure(
                    owned_claims_view(r->Ok_0.access),
                    owned_claims_view(r->Ok_0.id),
                    owned_claims_view(r->Ok_0.userinfo),
                ) is None
                && r->Ok_0.warnings@ == token_warnings(self.access_token, r->Ok_0.access, TokenKind::Access, now)
                    + token_warnings(self.id_token, r->Ok_0.id, TokenKind::Id, now)
                    + token_warnings(self.userinfo_token, r->Ok_0.userinfo, TokenKind::Userinfo, now)
                    + consistency_warnings(owned_claims_view(r->Ok_0.access), owned_claims_view(r->Ok_0.id)),
            r is Err ==> r->Err_0 is TokenValidation || r->Err_0 is JsonParsing,
            validation_outcome(*self, now, r is Ok, err_of(r)),
    {
        if self.access_token.is_none() && self.id_token.is_none() && self.userinfo_token.is_none() {
            return Err(CedarlingError::TokenValidation(
                String::from_str("At least one token must be provided"),
            ));
        }
        let mut warnings: Vec<TokenWarning> = Vec::new();
        let access = match validate_optional(&self.access_token, TokenKind::Access, now, &mut warnings) {
            Ok(c) => c,
            Err(e) => {
                return Err(e);
            },
        };
        let id = match validate_optional(&self.id_token, TokenKind::Id, now, &mut warnings) {
            Ok(c) => c,
            Err(e) => {
                return Err(e);
            },
        };
        let userinfo = match validate_optional(&self.userinfo_token, TokenKind::Userinfo, now, &mut warnings) {
            Ok(c) => c,
            Err(e) => {
                return Err(e);
            },
        };
        proof {
            lemma_payload_consistency(
                owned_claims_view(access), owned_claims_view(id), owned_claims_view(userinfo),
                token_bytes(self.access_token), token_bytes(self.id_token), token_bytes(self.userinfo_token),
            );
        }
        match validate_token_consistency(access.as_ref(), id.as_ref(), userinfo.as_ref()) {
            Ok(mut w) => {
                warnings.append(&mut w);
            },
            Err(e) => {
                return Err(e);
            },
        }
        Ok(BundleClaims { access, id, userinfo, warnings })
    }
}

} // verus!

verus! {

/// Claim names that the JWT standard defines; merged under their own name.
pub open spec fn is_standard_name(n: Seq<char>) -> bool {
    n == "sub"@ || n == "iss"@ || n == "aud"@ || n == "exp"@ || n == "nbf"@ || n == "iat"@
        || n == "jti"@
}

fn is_standard_claim_name(n: &String) -> (r: bool)
    ensures
        r == is_standard_name(n@),
{
    *n == String::from_str("sub") || *n == String::from_str("iss") || *n == String::from_str("aud")
        || *n == String::from_str("exp") || *n == String::from_str("nbf") || *n == String::from_str("iat")
        || *n == String::from_str("jti")
}

/// The standard claims among `s`, in order.
pub open spec fn standard_part(s: Seq<Claim>) -> Seq<Claim>
    decreases s.len(),
{
    if s.len() == 0 {
        Seq::empty()
    } else if is_standard_name(s.last().name@) {
        standard_part(s.drop_last()).push(s.last())
    } else {
        standard_part(s.drop_last())
    }
}

/// The other claims among `s`, in order, each named `<prefix>_<name>`.
pub open spec fn custom_part(s: Seq<Claim>, prefix: Seq<char>) -> Seq<(Seq<char>, ClaimValue)>
    decreases s.len(),
{
    if s.len() == 0 {
        Seq::empty()
    } else if is_standard_name(s.last().name@) {
        custom_part(s.drop_last(), prefix)
    } else {
        custom_part(s.drop_last(), prefix).push((prefix + "_"@ + s.last().name@, s.last().value))
    }
}

pub open spec fn entries(s: Seq<Claim>) -> Seq<(Seq<char>, ClaimValue)> {
    s.map_values(|c: Claim| (c.name@, c.value))
}

/// Adds the claims of one token: standard claims under their own name, the
/// others under the token's prefix. A name that is added again is read from
/// its last entry (see `lookup`), so the last writer wins.
pub fn merge_claims(
    standard_claims: &mut Vec<Claim>,
    custom_claims: &mut Vec<Claim>,
    token_claims: Vec<Claim>,
    token_prefix: &str,
)
    ensures
        final(standard_claims)@ == old(standard_claims)@ + standard_part(token_claims@),
        entries(final(custom_claims)@) == entries(old(custom_claims)@) + custom_part(token_claims@, token_prefix@),
{
    let ghost orig = token_claims@;
    let ghost std0 = standard_claims@;
    let ghost cus0 = entries(custom_claims@);
    let mut rest = token_claims;
    let total: usize = rest.len();
    let mut done: usize = 0;
    while rest.len() > 0
        invariant
            total == orig.len(),
            done + rest@.len() == orig.len(),
            rest@ == orig.subrange(done as int, orig.len() as int),
            standard_claims@ == std0 + standard_part(orig.subrange(0, done as int)),
            entries(custom_claims@) == cus0 + custom_part(orig.subrange(0, done as int), token_prefix@),
        decreases rest@.len(),
    {
        let c = rest.remove(0);
        proof {
            assert(orig.subrange(0, done + 1).drop_last() =~= orig.subrange(0, done as int));
            assert(orig.subrange(0, done + 1).last() == c);
            assert(rest@ =~= orig.subrange(done + 1, orig.len() as int));
        }
        if is_standard_claim_name(&c.name) {
            standard_claims.push(c);
        } else {
            let mut key = String::from_str(token_prefix);
            key.append("_");
            key.append(c.name.as_str());
            let ghost before = custom_claims@;
            custom_claims.push(Claim { name: key, value: c.value });
            proof {
                assert(entries(custom_claims@) =~= entries(before).push((key@, c.value)));
            }
        }
        done = done + 1;
    }
    assert(orig.subrange(0, done as int) =~= orig);
}

/// The claims of all tokens of a bundle, standard and custom apart.
#[derive(Debug)]
pub struct TokenClaims {
    pub standard_claims: Vec<Claim>,
    pub custom_claims: Vec<Claim>,
}

impl TokenBundle {
    /// Validates the bundle at the current wall-clock time, read once for
    /// all three tokens.
    pub fn validate(&self) -> (r: Result<(), CedarlingError>)
        ensures
            self.is_empty_bundle() ==> r is Err && r->Err_0 is TokenValidation
                && r->Err_0.detail_text() == "At least one token must be provided"@,
            !self.all_readable() ==> r is Err,
            !self.is_empty_bundle() && self.all_readable() ==> r is Ok || is_claims_failure(r->Err_0),
            r is Ok ==> !self.is_empty_bundle(),
            r is Err ==> r->Err_0 is TokenValidation || r->Err_0 is JsonParsing,
            exists|now: i64| #[trigger] validation_outcome(*self, now, r is Ok, err_of(r)),
    {
        let v = self.validate_now();
        let ghost t = choose|t: i64| #[trigger] validation_outcome(*self, t, v is Ok, err_of(v));
        let r: Result<(), CedarlingError> = match v {
            Ok(_) => Ok(()),
            Err(e) => Err(e),
        };
        assert(validation_outcome(*self, t, r is Ok, err_of(r)));
        r
    }

    /// Reads the claims of every token present, in the order access, id,
    /// userinfo, and merges them.
    pub fn extract_claims(&self) -> (r: Result<TokenClaims, CedarlingError>)
        ensures
            r is Ok <==> self.all_payloads_parse(),
            r is Ok ==> exists|a: Option<Vec<Claim>>, i: Option<Vec<Claim>>, u: Option<Vec<Claim>>|
                #[trigger] merged_from(r->Ok_0, a, i, u)
                    && reads_opt(owned_claims_view(a), token_bytes(self.access_token))
                    && reads_opt(owned_claims_view(i), token_bytes(self.id_token))
                    && reads_opt(owned_claims_view(u), token_bytes(self.userinfo_token)),
            self.is_empty_bundle() ==> r is Ok && r->Ok_0.standard_claims@.len() == 0
                && r->Ok_0.custom_claims@.len() == 0,
            r is Err ==> r->Err_0 is TokenValidation || r->Err_0 is JsonParsing,
    {
        let access = match &self.access_token {
            Some(token) => match extract_jwt_claims(token.as_str()) {
                Ok(c) => Some(c),
                Err(e) => {
                    return Err(e);
                },
            },
            None => None,
        };
        let id = match &self.id_token {
            Some(token) => match extract_jwt_claims(token.as_str()) {
                Ok(c) => Some(c),
                Err(e) => {
                    return Err(e);
                },
            },
            None => None,
        };
        let userinfo = match &self.userinfo_token {
            Some(token) => match extract_jwt_claims(token.as_str()) {
                Ok(c) => Some(c),
                Err(e) => {
                    return Err(e);
                },
            },
            None => None,
        };
        let ghost (ga, gi, gu) = (access, id, userinfo);
        let merged = TokenClaims::merge(access, id, userinfo);
        let result: Result<TokenClaims, CedarlingError> = Ok(merged);
        assert(merged_from(result->Ok_0, ga, gi, gu));
        assert(reads_opt(owned_claims_view(ga), token_bytes(self.access_token)));
        assert(reads_opt(owned_claims_view(gi), token_bytes(self.id_token)));
        assert(reads_opt(owned_claims_view(gu), token_bytes(self.userinfo_token)));
        result
    }
}

/// `c` is what `TokenClaims::merge` makes of these claims.
pub open spec fn merged_from(c: TokenClaims, a: Option<Vec<Claim>>, i: Option<Vec<Claim>>, u: Option<Vec<Claim>>) -> bool {
    c.standard_claims@ == standard_of(a) + standard_of(i) + standard_of(u)
        && entries(c.custom_claims@) == custom_of(a, TokenKind::Access) + custom_of(i, TokenKind::Id)
            + custom_of(u, TokenKind::Userinfo)
}

pub open spec fn standard_of(c: Option<Vec<Claim>>) -> Seq<Claim> {
    match c {
        Some(v) => standard_part(v@),
        None => Seq::empty(),
    }
}

pub open spec fn custom_of(c: Option<Vec<Claim>>, kind: TokenKind) -> Seq<(Seq<char>, ClaimValue)> {
    match c {
        Some(v) => custom_part(v@, kind.label()),
        None => Seq::empty(),
    }
}

impl TokenClaims {
    /// The standard claim of that name: the last one merged.
    pub fn standard_claim<'a>(&'a self, name: &str) -> (r: Option<&'a ClaimValue>)
        ensures
            match r {
                Some(v) => lookup(self.standard_claims@, name@) == Some(*v),
                None => lookup(self.standard_claims@, name@) is None,
            },
    {
        match find_claim(&self.standard_claims, &String::from_str(name)) {
            Some(i) => Some(&self.standard_claims[i].value),
            None => None,
        }
    }

    /// The custom claim of that (prefixed) name: the last one merged.
    pub fn custom_claim<'a>(&'a self, name: &str) -> (r: Option<&'a ClaimValue>)
        ensures
            match r {
                Some(v) => lookup(self.custom_claims@, name@) == Some(*v),
                None => lookup(self.custom_claims@, name@) is None,
            },
    {
        match find_claim(&self.custom_claims, &String::from_str(name)) {
            Some(i) => Some(&self.custom_claims[i].value),
            None => None,
        }
    }

    /// Merges the claims of the tokens of a bundle, in the order access, id,
    /// userinfo.
    pub fn merge(access: Option<Vec<Claim>>, id: Option<Vec<Claim>>, userinfo: Option<Vec<Claim>>) -> (r: TokenClaims)
        ensures
            r.standard_claims@ == standard_of(access) + standard_of(id) + standard_of(userinfo),
            entries(r.custom_claims@) == custom_of(access, TokenKind::Access) + custom_of(id, TokenKind::Id)
                + custom_of(userinfo, TokenKind::Userinfo),
    {
        let ghost (a, i, u) = (access, id, userinfo);
        let mut standard_claims: Vec<Claim> = Vec::new();
        let mut custom_claims: Vec<Claim> = Vec::new();
        assert(entries(custom_claims@) =~= Seq::empty());
        if let Some(c) = access {
            merge_claims(&mut standard_claims, &mut custom_claims, c, TokenKind::Access.name());
        }
        assert(standard_claims@ =~= standard_of(a));
        assert(entries(custom_claims@) =~= custom_of(a, TokenKind::Access));
        if let Some(c) = id {
            merge_claims(&mut standard_claims, &mut custom_claims, c, TokenKind::Id.name());
        }
        assert(standard_claims@ =~= standard_of(a) + standard_of(i));
        assert(entries(custom_claims@) =~= custom_of(a, TokenKind::Access) + custom_of(i, TokenKind::Id));
        if let Some(c) = userinfo {
            merge_claims(&mut standard_claims, &mut custom_claims, c, TokenKind::Userinfo.name());
        }
        assert(standard_claims@ =~= standard_of(a) + standard_of(i) + standard_of(u));
        assert(entries(custom_claims@) =~= custom_of(a, TokenKind::Access) + custom_of(i, TokenKind::Id)
            + custom_of(u, TokenKind::Userinfo));
        TokenClaims { standard_claims, custom_claims }
    }
}

} // verus!

verus! {
impl TokenBundle {
    /// Validates the bundle at the current wall-clock time, read once for
    /// all three tokens, and hands back the claims and warnings: the outcome
    /// is that of `validate_at` at one instant.
    pub fn validate_now(&self) -> (r: Result<BundleClaims, CedarlingError>)
        ensures
            self.is_empty_bundle() ==> r is Err && r->Err_0 is TokenValidation
                && r->Err_0.detail_text() == "At least one token must be provided"@,
            !self.all_readable() ==> r is Err,
            !self.is_empty_bundle() && self.all_readable() ==> r is Ok || is_claims_failure(r->Err_0),
            r is Ok ==> !self.is_empty_bundle(),
            r is Err ==> r->Err_0 is TokenValidation || r->Err_0 is JsonParsing,
            exists|now: i64| #[trigger] validation_outcome(*self, now, r is Ok, err_of(r)),
    {
        let t = now_unix_seconds();
        let r = self.validate_at(t);
        assert(validation_outcome(*self, t, r is Ok, err_of(r)));
        r
    }
}

} // verus!