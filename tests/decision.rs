use cedarling_pg::config::{
    fail_mode_from_setting, operation_mode_from_setting, ExtensionConfig, FailMode, OperationMode,
};
use cedarling_pg::decision::{filter_decision, request_tokens};
use cedarling_pg::token::TokenBundle;

#[test]
fn instrumentation_and_shadow_allow_a_denial() {
    assert!(filter_decision(Some(false), OperationMode::Instrumentation, FailMode::Closed));
    assert!(filter_decision(Some(false), OperationMode::Shadow, FailMode::Closed));
    assert!(filter_decision(Some(true), OperationMode::Shadow, FailMode::Open));
}

#[test]
fn enforcement_returns_the_decision() {
    assert!(!filter_decision(Some(false), OperationMode::Enforcement, FailMode::Open));
    assert!(filter_decision(Some(true), OperationMode::Enforcement, FailMode::Closed));
}

#[test]
fn engine_error_follows_fail_mode() {
    assert!(filter_decision(None, OperationMode::Enforcement, FailMode::Open));
    assert!(!filter_decision(None, OperationMode::Enforcement, FailMode::Closed));
    assert!(!filter_decision(None, OperationMode::Shadow, FailMode::Closed));
}

#[test]
fn shadow_mode_allows_denied_request() {
    let config = ExtensionConfig { mode: OperationMode::Shadow, fail_mode: FailMode::Closed };
    assert!(config.apply(Some(false)));
}

#[test]
fn fail_open_allows_on_engine_error() {
    let config = ExtensionConfig { mode: OperationMode::Enforcement, fail_mode: FailMode::Open };
    assert!(config.apply(None));
}

#[test]
fn default_config_is_enforcing_and_closed() {
    let config = ExtensionConfig::default();
    assert_eq!(config.mode, OperationMode::Enforcement);
    assert_eq!(config.fail_mode, FailMode::Closed);
    assert!(!config.apply(Some(false)));
    assert!(!config.apply(None));
}

#[test]
fn modes_parse_ignoring_case() {
    assert_eq!(OperationMode::parse("SHADOW").unwrap(), OperationMode::Shadow);
    assert_eq!(OperationMode::parse("Instrumentation").unwrap(), OperationMode::Instrumentation);
    assert_eq!(OperationMode::parse("enforcement").unwrap(), OperationMode::Enforcement);
    assert_eq!(FailMode::parse("OPEN").unwrap(), FailMode::Open);
    assert_eq!(FailMode::parse("closed").unwrap(), FailMode::Closed);
    assert_eq!("Open".parse::<FailMode>().unwrap(), FailMode::Open);
}

#[test]
fn invalid_modes_are_configuration_errors() {
    let e = OperationMode::parse("loud").unwrap_err();
    assert_eq!(e.category(), "configuration");
    assert_eq!(
        e.detail(),
        "Invalid operation mode: loud. Must be 'enforcement', 'instrumentation', or 'shadow'"
    );
    let e = FailMode::parse("ajar").unwrap_err();
    assert_eq!(e.detail(), "Invalid fail mode: ajar. Must be 'closed' or 'open'");
}

#[test]
fn settings_fall_back_to_safe_defaults() {
    assert_eq!(operation_mode_from_setting(None), OperationMode::Enforcement);
    assert_eq!(operation_mode_from_setting(Some("bogus")), OperationMode::Enforcement);
    assert_eq!(operation_mode_from_setting(Some("Shadow")), OperationMode::Shadow);
    assert_eq!(fail_mode_from_setting(None), FailMode::Closed);
    assert_eq!(fail_mode_from_setting(Some("bogus")), FailMode::Closed);
    assert_eq!(fail_mode_from_setting(Some("OPEN")), FailMode::Open);
}

#[test]
fn lowercase_lookup_is_exact() {
    assert_eq!(OperationMode::from_lowercase("shadow"), Some(OperationMode::Shadow));
    assert_eq!(OperationMode::from_lowercase("Shadow"), None);
    assert_eq!(FailMode::from_lowercase("open"), Some(FailMode::Open));
    assert_eq!(FailMode::from_lowercase(""), None);
}

#[test]
fn request_tokens_lists_present_tokens_in_order() {
    let mut b = TokenBundle::new();
    assert!(request_tokens(&b).is_empty());
    b.userinfo_token = Some("u".to_string());
    b.access_token = Some("a".to_string());
    let t = request_tokens(&b);
    assert_eq!(
        t,
        vec![
            ("access_token".to_string(), "a".to_string()),
            ("userinfo_token".to_string(), "u".to_string())
        ]
    );
}
