use base64::Engine;
use cedarling_pg::claims::{Claim, ClaimValue};
use cedarling_pg::error::{CedarlingError, LogLevel};
use cedarling_pg::json::JsonEntry;
use cedarling_pg::consistency::validate_token_consistency;
use cedarling_pg::decode::{claims_from_decoded, extract_jwt_claims, validate_jwt_format};
use cedarling_pg::segments::base64_decode_jwt_part;
use cedarling_pg::standard::{validate_standard_claims, TokenWarning};
use cedarling_pg::token::{merge_claims, TokenBundle, TokenClaims, TokenKind};

fn now() -> i64 {
    std::time::SystemTime::now()
        .duration_since(std::time::UNIX_EPOCH)
        .unwrap()
        .as_secs() as i64
}

fn segment(json: &str) -> String {
    base64::engine::general_purpose::URL_SAFE_NO_PAD.encode(json.as_bytes())
}

fn jwt(alg: &str, payload: &str) -> String {
    let header = format!("{{\"alg\":\"{}\",\"typ\":\"JWT\"}}", alg);
    format!("{}.{}.c2ln", segment(&header), segment(payload))
}

fn int_claim(name: &str, v: i64) -> Claim {
    Claim { name: name.to_string(), value: ClaimValue::Int(v) }
}

fn str_claim(name: &str, v: &str) -> Claim {
    Claim { name: name.to_string(), value: ClaimValue::Str(v.to_string()) }
}

fn detail<T: std::fmt::Debug>(r: Result<T, CedarlingError>) -> String {
    match r {
        Err(CedarlingError::TokenValidation(s)) => s,
        other => panic!("expected a token validation error, got {:?}", other),
    }
}

fn sample_bundle(access_exp: i64) -> TokenBundle {
    let access = jwt(
        "RS256",
        &format!(
            "{{\"exp\":{},\"iss\":\"https://idp\",\"client_id\":\"abc\",\"scope\":\"read\"}}",
            access_exp
        ),
    );
    let id = jwt(
        "RS256",
        &format!("{{\"exp\":{},\"iss\":\"https://idp\",\"aud\":\"abc\",\"sub\":\"u1\"}}", now() + 3600),
    );
    TokenBundle { access_token: Some(access), id_token: Some(id), userinfo_token: None }
}

#[test]
fn empty_bundle_fails_validation() {
    let b = TokenBundle::new();
    let e = b.validate().unwrap_err();
    assert!(matches!(e, CedarlingError::TokenValidation(_)));
    assert_eq!(e.detail(), "At least one token must be provided");
    assert!(b.validate_at(0).is_err());
}

#[test]
fn valid_bundle_validates_and_merges_claims() {
    let b = sample_bundle(now() + 3600);
    assert!(b.validate().is_ok());
    let claims = b.validate_at(now()).unwrap();
    assert!(claims.access.is_some());
    assert!(claims.id.is_some());
    assert!(claims.userinfo.is_none());
    let merged = b.extract_claims().unwrap();
    let names: Vec<&str> = merged.standard_claims.iter().map(|c| c.name.as_str()).collect();
    assert!(names.contains(&"sub"));
    assert!(names.contains(&"aud"));
    let custom: Vec<&str> = merged.custom_claims.iter().map(|c| c.name.as_str()).collect();
    assert!(custom.contains(&"access_token_client_id"));
    assert!(custom.contains(&"access_token_scope"));
}

#[test]
fn expired_access_token_fails() {
    let b = sample_bundle(now() - 10);
    let e = b.validate().unwrap_err();
    assert!(matches!(e, CedarlingError::TokenValidation(_)));
    assert_eq!(e.detail(), "access_token has expired");
}

#[test]
fn expiry_before_validation_time_fails() {
    let c = vec![int_claim("exp", 99), str_claim("iss", "i")];
    assert_eq!(detail(validate_standard_claims(&c, TokenKind::Id, 100)), "id_token has expired");
    assert!(validate_standard_claims(&c, TokenKind::Id, 99).is_ok());
}

#[test]
fn issued_too_far_in_future_fails() {
    let c = vec![int_claim("iat", 1301), str_claim("iss", "i")];
    assert_eq!(
        detail(validate_standard_claims(&c, TokenKind::Access, 1000)),
        "access_token issued in the future (iat)"
    );
    let c = vec![int_claim("iat", 1300), str_claim("iss", "i")];
    assert!(validate_standard_claims(&c, TokenKind::Access, 1000).is_ok());
}

#[test]
fn standard_claim_rules() {
    let now = 1000;
    let c = vec![str_claim("exp", "soon"), str_claim("iss", "i")];
    assert_eq!(
        detail(validate_standard_claims(&c, TokenKind::Access, now)),
        "access_token has invalid exp claim format"
    );
    let c = vec![int_claim("nbf", 1001), str_claim("iss", "i")];
    assert_eq!(
        detail(validate_standard_claims(&c, TokenKind::Access, now)),
        "access_token not yet valid (nbf)"
    );
    let c = vec![str_claim("iss", "")];
    assert_eq!(
        detail(validate_standard_claims(&c, TokenKind::Id, now)),
        "id_token has empty issuer"
    );
    let c: Vec<Claim> = vec![];
    assert_eq!(
        detail(validate_standard_claims(&c, TokenKind::Access, now)),
        "access_token missing required iss claim"
    );
    assert!(validate_standard_claims(&c, TokenKind::Userinfo, now).is_ok());
    let c = vec![str_claim("iss", "i"), str_claim("sub", "")];
    assert_eq!(
        detail(validate_standard_claims(&c, TokenKind::Userinfo, now)),
        "userinfo_token has empty subject"
    );
    let c = vec![str_claim("iss", "i"), int_claim("iat", 0)];
    assert!(validate_standard_claims(&c, TokenKind::Id, now + 100_000).is_ok());
    let c = vec![int_claim("exp", 5), int_claim("exp", 2000), str_claim("iss", "i")];
    assert!(validate_standard_claims(&c, TokenKind::Id, now).is_ok());
}

#[test]
fn client_id_audience_mismatch_fails_but_issuer_drift_does_not() {
    let access = vec![str_claim("client_id", "abc"), str_claim("iss", "https://a")];
    let id = vec![str_claim("aud", "xyz"), str_claim("iss", "https://b")];
    assert_eq!(
        detail(validate_token_consistency(Some(&access), Some(&id), None)),
        "access_token client_id does not match id_token aud"
    );
    let id = vec![str_claim("aud", "abc"), str_claim("iss", "https://b")];
    assert!(validate_token_consistency(Some(&access), Some(&id), None).is_ok());
}

#[test]
fn id_userinfo_mismatch_fails() {
    let id = vec![str_claim("sub", "u1"), str_claim("aud", "abc")];
    let userinfo = vec![str_claim("sub", "u2"), str_claim("aud", "abc")];
    assert_eq!(
        detail(validate_token_consistency(None, Some(&id), Some(&userinfo))),
        "id_token sub does not match userinfo_token sub"
    );
    let userinfo = vec![str_claim("sub", "u1"), str_claim("aud", "other")];
    assert_eq!(
        detail(validate_token_consistency(None, Some(&id), Some(&userinfo))),
        "id_token aud does not match userinfo_token aud"
    );
    let userinfo = vec![str_claim("sub", "u1")];
    assert!(validate_token_consistency(None, Some(&id), Some(&userinfo)).is_ok());
}

#[test]
fn mismatched_userinfo_token_fails_bundle() {
    let t = now() + 3600;
    let id = jwt("RS256", &format!("{{\"exp\":{},\"iss\":\"i\",\"sub\":\"u1\"}}", t));
    let userinfo = jwt("RS256", &format!("{{\"exp\":{},\"sub\":\"u2\"}}", t));
    let b = TokenBundle { access_token: None, id_token: Some(id), userinfo_token: Some(userinfo) };
    let e = b.validate().unwrap_err();
    assert_eq!(e.detail(), "id_token sub does not match userinfo_token sub");
}

#[test]
fn token_format_is_checked() {
    assert_eq!(
        detail(validate_jwt_format("a.b", TokenKind::Access)),
        "access_token does not have valid JWT format"
    );
    assert_eq!(
        detail(validate_jwt_format("a.b.c.d", TokenKind::Id)),
        "id_token does not have valid JWT format"
    );
    let e = validate_jwt_format("!!.b.c", TokenKind::Id).unwrap_err();
    assert!(e.detail().starts_with("Invalid id_token header: "));
    assert!(validate_jwt_format(&jwt("RS256", "{}"), TokenKind::Id).is_ok());
}

#[test]
fn algorithm_allow_list() {
    let t = now() + 3600;
    let payload = format!("{{\"exp\":{},\"iss\":\"i\"}}", t);
    for alg in ["RS256", "RS384", "RS512", "ES256", "ES384", "HS256", "HS384", "HS512"] {
        let b = TokenBundle { access_token: Some(jwt(alg, &payload)), id_token: None, userinfo_token: None };
        assert!(b.validate().is_ok(), "{}", alg);
    }
    let b = TokenBundle { access_token: Some(jwt("PS256", &payload)), id_token: None, userinfo_token: None };
    assert_eq!(b.validate().unwrap_err().detail(), "Unsupported algorithm for access_token: PS256");
}

#[test]
fn base64url_segments_decode_with_padding_and_alphabet() {
    assert_eq!(base64_decode_jwt_part("aGk").unwrap(), b"hi".to_vec());
    assert_eq!(base64_decode_jwt_part("-_8").unwrap(), vec![0xfb, 0xff]);
    assert_eq!(base64_decode_jwt_part("").unwrap(), Vec::<u8>::new());
    let e = base64_decode_jwt_part("a").unwrap_err();
    assert!(matches!(e, CedarlingError::TokenValidation(_)));
    assert!(e.detail().starts_with("Failed to decode base64: "));
}

#[test]
fn claims_are_read_when_token_decoder_refuses() {
    let token = format!("{}.{}", segment("{\"alg\":\"none\"}"), segment("{\"sub\":\"u\",\"n\":7}"));
    let claims = extract_jwt_claims(&token).unwrap();
    assert_eq!(claims.len(), 2);
    for c in &claims {
        match (c.name.as_str(), &c.value) {
            ("sub", ClaimValue::Str(s)) => assert_eq!(s, "u"),
            ("n", ClaimValue::Int(7)) => {},
            other => panic!("unexpected claim {:?}", other),
        }
    }
    let e = extract_jwt_claims(&format!("x.{}.y", segment("not json"))).unwrap_err();
    assert!(matches!(e, CedarlingError::JsonParsing(_)));
    let e = extract_jwt_claims("nodots").unwrap_err();
    assert!(matches!(e, CedarlingError::TokenValidation(_)));
}

#[test]
fn merge_prefixes_custom_claims() {
    let mut standard = Vec::new();
    let mut custom = Vec::new();
    merge_claims(&mut standard, &mut custom, vec![str_claim("sub", "u"), str_claim("role", "admin")], "id_token");
    assert_eq!(standard.len(), 1);
    assert_eq!(standard[0].name, "sub");
    assert_eq!(custom.len(), 1);
    assert_eq!(custom[0].name, "id_token_role");
}

#[test]
fn error_kinds_carry_fixed_policy() {
    let cases = vec![
        (CedarlingError::TokenValidation("x".into()), true, LogLevel::Error, "token_validation"),
        (CedarlingError::AuthorizationDenied("x".into()), true, LogLevel::Info, "authorization_denied"),
        (CedarlingError::PolicyEvaluation("x".into()), true, LogLevel::Error, "policy_evaluation"),
        (CedarlingError::PolicyLoading("x".into()), true, LogLevel::Error, "policy_loading"),
        (CedarlingError::SchemaValidation("x".into()), true, LogLevel::Error, "schema_validation"),
        (CedarlingError::System("x".into()), true, LogLevel::Warning, "system"),
        (CedarlingError::Database("x".into()), true, LogLevel::Error, "database"),
        (CedarlingError::Network("x".into()), true, LogLevel::Warning, "network"),
        (CedarlingError::Timeout("x".into()), true, LogLevel::Warning, "timeout"),
        (CedarlingError::Configuration("x".into()), true, LogLevel::Error, "configuration"),
        (CedarlingError::ResourceConstruction("x".into()), false, LogLevel::Warning, "resource_construction"),
        (CedarlingError::JsonParsing("x".into()), false, LogLevel::Warning, "json_parsing"),
        (CedarlingError::Cache("x".into()), false, LogLevel::Debug, "cache"),
    ];
    for (e, deny, level, category) in cases {
        assert_eq!(e.should_deny(), deny);
        assert_eq!(e.log_level(), level);
        assert_eq!(e.category(), category);
    }
    assert_eq!(
        CedarlingError::JsonParsing("bad".into()).to_string(),
        "JSON parsing failed: bad"
    );
}

#[test]
fn audit_entry_records_the_error() {
    let e = CedarlingError::Cache("miss".into());
    let entry = e.to_audit_log(Some("ctx"));
    assert_eq!(entry.category, "cache");
    assert_eq!(entry.message, "Cache operation failed: miss");
    assert_eq!(entry.context.as_deref(), Some("ctx"));
    assert!(!entry.should_deny);
    assert_eq!(entry.log_level, "Debug");
    assert_eq!(entry.error_id.len(), 36);
    assert!((entry.timestamp.seconds - now()).abs() < 600);
    assert!(entry.timestamp.nanos < 2_000_000_000);
    let other = e.to_audit_log(None);
    assert_ne!(entry.error_id, other.error_id);
    assert!(other.context.is_none());
}

#[test]
fn warnings_do_not_fail_validation() {
    let now = 1_000_000;
    let c = vec![str_claim("iss", "i"), int_claim("iat", now - 90_000)];
    let w = validate_standard_claims(&c, TokenKind::Id, now).unwrap();
    assert_eq!(w.len(), 3);
    assert!(matches!(w[0], TokenWarning::MissingExp(TokenKind::Id)));
    assert!(matches!(w[1], TokenWarning::Stale(TokenKind::Id)));
    assert!(matches!(w[2], TokenWarning::MissingSub(TokenKind::Id)));
    assert_eq!(w[1].message(), "id_token is older than 24 hours");
    let c = vec![str_claim("iss", "i"), int_claim("exp", now + 10)];
    assert!(validate_standard_claims(&c, TokenKind::Access, now).unwrap().is_empty());

    let access = vec![str_claim("client_id", "abc"), str_claim("iss", "https://a")];
    let id = vec![str_claim("aud", "abc"), str_claim("iss", "https://b")];
    let w = validate_token_consistency(Some(&access), Some(&id), None).unwrap();
    assert_eq!(w.len(), 1);
    assert_eq!(w[0].message(), "Issuer mismatch between access_token and id_token");
}

#[test]
fn bundle_reports_symmetric_algorithm_and_issuer_drift() {
    let t = now() + 3600;
    let access = jwt("HS256", &format!("{{\"exp\":{},\"iss\":\"https://a\",\"client_id\":\"abc\"}}", t));
    let id = jwt("RS256", &format!("{{\"exp\":{},\"iss\":\"https://b\",\"aud\":\"abc\",\"sub\":\"u\"}}", t));
    let b = TokenBundle { access_token: Some(access), id_token: Some(id), userinfo_token: None };
    let v = b.validate_now().unwrap();
    let messages: Vec<String> = v.warnings.iter().map(|w| w.message()).collect();
    assert_eq!(
        messages,
        vec![
            "Using symmetric algorithm for access_token: HS256".to_string(),
            "Issuer mismatch between access_token and id_token".to_string()
        ]
    );
}

#[test]
fn merged_standard_claims_last_writer_wins() {
    let merged = TokenClaims::merge(
        Some(vec![str_claim("sub", "from_access"), int_claim("scope_count", 2)]),
        Some(vec![str_claim("sub", "from_id"), str_claim("email", "a@b")]),
        None,
    );
    match merged.standard_claim("sub") {
        Some(ClaimValue::Str(s)) => assert_eq!(s, "from_id"),
        other => panic!("unexpected {:?}", other),
    }
    assert!(matches!(merged.custom_claim("access_token_scope_count"), Some(ClaimValue::Int(2))));
    assert!(matches!(merged.custom_claim("id_token_email"), Some(ClaimValue::Str(_))));
    assert!(merged.custom_claim("email").is_none());
    assert!(merged.standard_claim("iss").is_none());
}

#[test]
fn decoder_outcome_decides_the_claims() {
    let entries = vec![
        JsonEntry {
            key: "a".to_string(),
            integer: None,
            text: None,
            value: serde_json::Value::Bool(true),
        },
        JsonEntry {
            key: "b".to_string(),
            integer: Some(5),
            text: None,
            value: serde_json::Value::from(5),
        },
    ];
    let c = claims_from_decoded("ignored", Ok(entries)).unwrap();
    assert_eq!(c.len(), 2);
    assert_eq!(c[0].name, "b");
    assert!(matches!(c[0].value, ClaimValue::Int(5)));
    assert!(matches!(c[1].value, ClaimValue::Other(serde_json::Value::Bool(true))));

    let token = format!("h.{}.s", segment("{\"iss\":\"x\"}"));
    let c = claims_from_decoded(&token, Err("refused".to_string())).unwrap();
    assert_eq!(c.len(), 1);
    let e = claims_from_decoded("no-dots", Err("refused".to_string())).unwrap_err();
    assert_eq!(e.detail(), "Failed to decode JWT: refused");
    let e = claims_from_decoded("h.***.s", Err("refused".to_string())).unwrap_err();
    assert!(matches!(e, CedarlingError::TokenValidation(_)));
    let e = claims_from_decoded(&format!("h.{}", segment("[1]")), Err("x".to_string())).unwrap_err();
    assert!(matches!(e, CedarlingError::JsonParsing(_)));
}

#[test]
fn extraction_succeeds_exactly_when_payloads_parse() {
    let good = jwt("RS256", "{\"sub\":\"u\",\"exp\":1}");
    assert!(extract_jwt_claims(&good).is_ok());
    let b = TokenBundle { access_token: Some(good.clone()), id_token: None, userinfo_token: None };
    let merged = b.extract_claims().unwrap();
    assert!(merged.standard_claim("sub").is_some());
    let bad = format!("{}.{}.s", segment("{\"alg\":\"RS256\"}"), segment("[1,2]"));
    let b = TokenBundle { access_token: Some(good), id_token: Some(bad), userinfo_token: None };
    assert!(matches!(b.extract_claims(), Err(CedarlingError::JsonParsing(_))));
    let b = TokenBundle { access_token: Some("nodots".to_string()), id_token: None, userinfo_token: None };
    assert!(matches!(b.extract_claims(), Err(CedarlingError::TokenValidation(_))));
}

#[test]
fn readable_bundle_fails_only_on_claim_rules() {
    let b = TokenBundle {
        access_token: None,
        id_token: Some(jwt("HS512", "{\"iss\":\"\"}")),
        userinfo_token: None,
    };
    assert_eq!(b.validate().unwrap_err().detail(), "id_token has empty issuer");
    let b = TokenBundle {
        access_token: None,
        id_token: Some(jwt("RS256", "not json")),
        userinfo_token: None,
    };
    assert!(b.validate().is_err());
}

#[test]
fn payload_values_reach_the_claims() {
    let token = jwt("RS256", "{\"exp\":12,\"iss\":\"https://idp\",\"big\":1e3,\"n\":null}");
    let claims = extract_jwt_claims(&token).unwrap();
    assert_eq!(claims.len(), 4);
    for c in &claims {
        match (c.name.as_str(), &c.value) {
            ("exp", ClaimValue::Int(12)) => {},
            ("iss", ClaimValue::Str(s)) => assert_eq!(s, "https://idp"),
            ("big", ClaimValue::Other(_)) => {},
            ("n", ClaimValue::Other(serde_json::Value::Null)) => {},
            other => panic!("unexpected claim {:?}", other),
        }
    }
}

#[test]
fn bundle_outcome_follows_payloads_at_one_instant() {
    let t = 2_000_000_000;
    let access = jwt("RS256", "{\"exp\":2000000100,\"iss\":\"a\",\"client_id\":\"abc\"}");
    let id = jwt("RS256", "{\"iss\":\"b\",\"aud\":\"abc\",\"sub\":\"u1\"}");
    let b = TokenBundle { access_token: Some(access), id_token: Some(id), userinfo_token: None };
    assert!(b.validate_at(t).is_ok());
    let e = b.validate_at(t + 101).unwrap_err();
    assert_eq!(e.detail(), "access_token has expired");
}
