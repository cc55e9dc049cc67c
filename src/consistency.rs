//! Consistency checks between the claims of the tokens of one bundle.

use vstd::prelude::*;
use crate::claims::{Claim, str_claim, get_str};
use crate::error::CedarlingError;
use crate::standard::TokenWarning;
use crate::json::{lemma_reads_field, payload_str, reads_payload};

verus! {

/// Both strings are present and differ.
pub open spec fn differs(a: Option<Seq<char>>, b: Option<Seq<char>>) -> bool {
    a is Some && b is Some && a != b
}

pub open spec fn claims_view(c: Option<&Vec<Claim>>) -> Option<Seq<Claim>> {
    match c {
        Some(v) => Some(v@),
        None => None,
    }
}

/// The first hard inconsistency between the claims of the tokens present,
/// as the error detail, or `None` if there is none. A differing issuer
/// between access and id token is no failure.
pub open spec fn consistency_failure(
    access: Option<Seq<Claim>>,
    id: Option<Seq<Claim>>,
    userinfo: Option<Seq<Claim>>,
) -> Option<Seq<char>> {
    if access is Some && id is Some && differs(
        str_claim(access->Some_0, "client_id"@),
        str_claim(id->Some_0, "aud"@),
    ) {
        Some("access_token client_id does not match id_token aud"@)
    } else if id is Some && userinfo is Some && differs(
        str_claim(id->Some_0, "sub"@),
        str_claim(userinfo->Some_0, "sub"@),
    ) {
        Some("id_token sub does not match userinfo_token sub"@)
    } else if id is Some && userinfo is Some && differs(
        str_claim(id->Some_0, "aud"@),
        str_claim(userinfo->Some_0, "aud"@),
    ) {
        Some("id_token aud does not match userinfo_token aud"@)
    } else {
        None
    }
}

/// The warnings of the consistency checks: a differing issuer between the
/// access token and the id token.
pub open spec fn consistency_warnings(access: Option<Seq<Claim>>, id: Option<Seq<Claim>>) -> Seq<TokenWarning> {
    if access is Some && id is Some && differs(str_claim(access->Some_0, "iss"@), str_claim(id->Some_0, "iss"@)) {
        seq![TokenWarning::IssuerMismatch]
    } else {
        Seq::empty()
    }
}

pub open spec fn payload_str_of(b: Option<Seq<u8>>, k: Seq<char>) -> Option<Seq<char>> {
    match b {
        Some(x) => payload_str(x, k),
        None => None,
    }
}

/// `consistency_failure` read off the payloads of the tokens present.
pub open spec fn payload_consistency_failure(
    access: Option<Seq<u8>>,
    id: Option<Seq<u8>>,
    userinfo: Option<Seq<u8>>,
) -> Option<Seq<char>> {
    if access is Some && id is Some && differs(payload_str_of(access, "client_id"@), payload_str_of(id, "aud"@)) {
        Some("access_token client_id does not match id_token aud"@)
    } else if id is Some && userinfo is Some && differs(payload_str_of(id, "sub"@), payload_str_of(userinfo, "sub"@)) {
        Some("id_token sub does not match userinfo_token sub"@)
    } else if id is Some && userinfo is Some && differs(payload_str_of(id, "aud"@), payload_str_of(userinfo, "aud"@)) {
        Some("id_token aud does not match userinfo_token aud"@)
    } else {
        None
    }
}

/// The claims of a token present read its payload; an absent token has
/// neither.
pub open spec fn reads_opt(c: Option<Seq<Claim>>, b: Option<Seq<u8>>) -> bool {
    match (c, b) {
        (Some(x), Some(y)) => reads_payload(x, y),
        (None, None) => true,
        _ => false,
    }
}

/// Claim lists that read the payloads fail the same consistency check.
pub proof fn lemma_payload_consistency(
    a: Option<Seq<Claim>>, i: Option<Seq<Claim>>, u: Option<Seq<Claim>>,
    ba: Option<Seq<u8>>, bi: Option<Seq<u8>>, bu: Option<Seq<u8>>,
)
    requires
        reads_opt(a, ba),
        reads_opt(i, bi),
        reads_opt(u, bu),
    ensures
        consistency_failure(a, i, u) == payload_consistency_failure(ba, bi, bu),
{
    if a is Some {
        lemma_reads_field(a->Some_0, ba->Some_0, "client_id"@);
    }
    if i is Some {
        lemma_reads_field(i->Some_0, bi->Some_0, "aud"@);
        lemma_reads_field(i->Some_0, bi->Some_0, "sub"@);
    }
    if u is Some {
        lemma_reads_field(u->Some_0, bu->Some_0, "aud"@);
        lemma_reads_field(u->Some_0, bu->Some_0, "sub"@);
    }
}

/// Whether the string claims `ka` of `a` and `kb` of `b` are both present and differ.
fn string_claims_differ(a: &Vec<Claim>, ka: &str, b: &Vec<Claim>, kb: &str) -> (r: bool)
    ensures
        r == differs(str_claim(a@, ka@), str_claim(b@, kb@)),
{
    let ka = String::from_str(ka);
    let kb = String::from_str(kb);
    match (get_str(a, &ka), get_str(b, &kb)) {
        (Some(x), Some(y)) => !(*x == *y),
        _ => false,
    }
}

/// Checks the claims of the tokens present in a bundle against one another.
pub fn validate_token_consistency(
    access: Option<&Vec<Claim>>,
    id: Option<&Vec<Claim>>,
    userinfo: Option<&Vec<Claim>>,
) -> (r: Result<Vec<TokenWarning>, CedarlingError>)
    ensures
        match consistency_failure(claims_view(access), claims_view(id), claims_view(userinfo)) {
            None => r is Ok && r->Ok_0@ == consistency_warnings(claims_view(access), claims_view(id)),
            Some(text) => r is Err && r->Err_0 is TokenValidation && r->Err_0.detail_text() == text,
        },
{
    let mut warnings: Vec<TokenWarning> = Vec::new();
    if let (Some(a), Some(i)) = (access, id) {
        if string_claims_differ(a, "client_id", i, "aud") {
            return Err(CedarlingError::TokenValidation(
                String::from_str("access_token client_id does not match id_token aud"),
            ));
        }
        if string_claims_differ(a, "iss", i, "iss") {
            warnings.push(TokenWarning::IssuerMismatch);
        }
    }
    if let (Some(i), Some(u)) = (id, userinfo) {
        if string_claims_differ(i, "sub", u, "sub") {
            return Err(CedarlingError::TokenValidation(
                String::from_str("id_token sub does not match userinfo_token sub"),
            ));
        }
        if string_claims_differ(i, "aud", u, "aud") {
            return Err(CedarlingError::TokenValidation(
                String::from_str("id_token aud does not match userinfo_token aud"),
            ));
        }
    }
    assert(warnings@ =~= consistency_warnings(claims_view(access), claims_view(id)));
    Ok(warnings)
}

/// An access token's `client_id` that differs from the id token's `aud`
/// fails the bundle; a differing issuer between the two does not, and is
/// reported as a warning.
pub proof fn law_access_id_consistency(access: Seq<Claim>, id: Seq<Claim>)
    ensures
        differs(str_claim(access, "iss"@), str_claim(id, "iss"@))
            ==> consistency_warnings(Some(access), Some(id)) == seq![TokenWarning::IssuerMismatch],
        differs(str_claim(access, "client_id"@), str_claim(id, "aud"@))
            ==> consistency_failure(Some(access), Some(id), None) is Some,
        !differs(str_claim(access, "client_id"@), str_claim(id, "aud"@))
            ==> consistency_failure(Some(access), Some(id), None) is None,
{
}

/// An id token and a userinfo token whose `sub`, or whose `aud`, differ fail
/// the bundle.
pub proof fn law_id_userinfo_consistency(access: Option<Seq<Claim>>, id: Seq<Claim>, userinfo: Seq<Claim>)
    requires
        differs(str_claim(id, "sub"@), str_claim(userinfo, "sub"@))
            || differs(str_claim(id, "aud"@), str_claim(userinfo, "aud"@)),
    ensures
        consistency_failure(access, Some(id), Some(userinfo)) is Some,
{
}

} // verus!
