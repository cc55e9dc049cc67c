//! Error taxonomy: each kind with its denial default, severity and category.

use vstd::prelude::*;

verus! {

/// Severity with which an error is reported.
#[derive(Debug, Clone, Copy, PartialEq, Eq, Structural)]
pub enum LogLevel {
    Debug,
    Info,
    Warning,
    Error,
}

/// Every failure that the authorization gate can report, each with a
/// human-readable detail.
#[derive(Debug, Clone)]
pub enum CedarlingError {
    TokenValidation(String),
    ResourceConstruction(String),
    PolicyEvaluation(String),
    Configuration(String),
    System(String),
    Cache(String),
    JsonParsing(String),
    Database(String),
    AuthorizationDenied(String),
    PolicyLoading(String),
    SchemaValidation(String),
    Network(String),
    Timeout(String),
}

impl CedarlingError {
    /// Data-processing errors may be recovered from; every other kind denies.
    pub open spec fn denies_by_default(&self) -> bool {
        !(self is ResourceConstruction || self is JsonParsing || self is Cache)
    }

    pub open spec fn severity(&self) -> LogLevel {
        match self {
            CedarlingError::AuthorizationDenied(_) => LogLevel::Info,
            CedarlingError::Cache(_) => LogLevel::Debug,
            CedarlingError::System(_)
            | CedarlingError::Network(_)
            | CedarlingError::Timeout(_)
            | CedarlingError::ResourceConstruction(_)
            | CedarlingError::JsonParsing(_) => LogLevel::Warning,
            _ => LogLevel::Error,
        }
    }

    pub open spec fn category_name(&self) -> Seq<char> {
        match self {
            CedarlingError::TokenValidation(_) => "token_validation"@,
            CedarlingError::ResourceConstruction(_) => "resource_construction"@,
            CedarlingError::PolicyEvaluation(_) => "policy_evaluation"@,
            CedarlingError::Configuration(_) => "configuration"@,
            CedarlingError::System(_) => "system"@,
            CedarlingError::Cache(_) => "cache"@,
            CedarlingError::JsonParsing(_) => "json_parsing"@,
            CedarlingError::Database(_) => "database"@,
            CedarlingError::AuthorizationDenied(_) => "authorization_denied"@,
            CedarlingError::PolicyLoading(_) => "policy_loading"@,
            CedarlingError::SchemaValidation(_) => "schema_validation"@,
            CedarlingError::Network(_) => "network"@,
            CedarlingError::Timeout(_) => "timeout"@,
        }
    }

    pub open spec fn heading(&self) -> Seq<char> {
        match self {
            CedarlingError::TokenValidation(_) => "Token validation failed: "@,
            CedarlingError::ResourceConstruction(_) => "Resource construction failed: "@,
            CedarlingError::PolicyEvaluation(_) => "Policy evaluation failed: "@,
            CedarlingError::Configuration(_) => "Configuration error: "@,
            CedarlingError::System(_) => "System error: "@,
            CedarlingError::Cache(_) => "Cache operation failed: "@,
            CedarlingError::JsonParsing(_) => "JSON parsing failed: "@,
            CedarlingError::Database(_) => "Database operation failed: "@,
            CedarlingError::AuthorizationDenied(_) => "Authorization denied: "@,
            CedarlingError::PolicyLoading(_) => "Policy loading failed: "@,
            CedarlingError::SchemaValidation(_) => "Schema validation failed: "@,
            CedarlingError::Network(_) => "Network operation failed: "@,
            CedarlingError::Timeout(_) => "Timeout occurred: "@,
        }
    }

    pub open spec fn detail_text(&self) -> Seq<char> {
        match self {
            CedarlingError::TokenValidation(s) => s@,
            CedarlingError::ResourceConstruction(s) => s@,
            CedarlingError::PolicyEvaluation(s) => s@,
            CedarlingError::Configuration(s) => s@,
            CedarlingError::System(s) => s@,
            CedarlingError::Cache(s) => s@,
            CedarlingError::JsonParsing(s) => s@,
            CedarlingError::Database(s) => s@,
            CedarlingError::AuthorizationDenied(s) => s@,
            CedarlingError::PolicyLoading(s) => s@,
            CedarlingError::SchemaValidation(s) => s@,
            CedarlingError::Network(s) => s@,
            CedarlingError::Timeout(s) => s@,
        }
    }

    /// Whether this error results in access denial by default.
    pub fn should_deny(&self) -> (r: bool)
        ensures
            r == self.denies_by_default(),
    {
        match self {
            CedarlingError::ResourceConstruction(_) => false,
            CedarlingError::JsonParsing(_) => false,
            CedarlingError::Cache(_) => false,
            _ => true,
        }
    }

    /// The severity with which this error is logged.
    pub fn log_level(&self) -> (r: LogLevel)
        ensures
            r == self.severity(),
    {
        match self {
            CedarlingError::AuthorizationDenied(_) => LogLevel::Info,
            CedarlingError::Cache(_) => LogLevel::Debug,
            CedarlingError::System(_) => LogLevel::Warning,
            CedarlingError::Network(_) => LogLevel::Warning,
            CedarlingError::Timeout(_) => LogLevel::Warning,
            CedarlingError::ResourceConstruction(_) => LogLevel::Warning,
            CedarlingError::JsonParsing(_) => LogLevel::Warning,
            _ => LogLevel::Error,
        }
    }

    /// The category string used for metrics and audit.
    pub fn category(&self) -> (r: &'static str)
        ensures
            r@ == self.category_name(),
    {
        match self {
            CedarlingError::TokenValidation(_) => "token_validation",
            CedarlingError::ResourceConstruction(_) => "resource_construction",
            CedarlingError::PolicyEvaluation(_) => "policy_evaluation",
            CedarlingError::Configuration(_) => "configuration",
            CedarlingError::System(_) => "system",
            CedarlingError::Cache(_) => "cache",
            CedarlingError::JsonParsing(_) => "json_parsing",
            CedarlingError::Database(_) => "database",
            CedarlingError::AuthorizationDenied(_) => "authorization_denied",
            CedarlingError::PolicyLoading(_) => "policy_loading",
            CedarlingError::SchemaValidation(_) => "schema_validation",
            CedarlingError::Network(_) => "network",
            CedarlingError::Timeout(_) => "timeout",
        }
    }

    /// The detail that the error was raised with.
    pub fn detail(&self) -> (r: &String)
        ensures
            r@ == self.detail_text(),
    {
        match self {
            CedarlingError::TokenValidation(s) => s,
            CedarlingError::ResourceConstruction(s) => s,
            CedarlingError::PolicyEvaluation(s) => s,
            CedarlingError::Configuration(s) => s,
            CedarlingError::System(s) => s,
            CedarlingError::Cache(s) => s,
            CedarlingError::JsonParsing(s) => s,
            CedarlingError::Database(s) => s,
            CedarlingError::AuthorizationDenied(s) => s,
            CedarlingError::PolicyLoading(s) => s,
            CedarlingError::SchemaValidation(s) => s,
            CedarlingError::Network(s) => s,
            CedarlingError::Timeout(s) => s,
        }
    }

    fn heading_str(&self) -> (r: &'static str)
        ensures
            r@ == self.heading(),
    {
        match self {
            CedarlingError::TokenValidation(_) => "Token validation failed: ",
            CedarlingError::ResourceConstruction(_) => "Resource construction failed: ",
            CedarlingError::PolicyEvaluation(_) => "Policy evaluation failed: ",
            CedarlingError::Configuration(_) => "Configuration error: ",
            CedarlingError::System(_) => "System error: ",
            CedarlingError::Cache(_) => "Cache operation failed: ",
            CedarlingError::JsonParsing(_) => "JSON parsing failed: ",
            CedarlingError::Database(_) => "Database operation failed: ",
            CedarlingError::AuthorizationDenied(_) => "Authorization denied: ",
            CedarlingError::PolicyLoading(_) => "Policy loading failed: ",
            CedarlingError::SchemaValidation(_) => "Schema validation failed: ",
            CedarlingError::Network(_) => "Network operation failed: ",
            CedarlingError::Timeout(_) => "Timeout occurred: ",
        }
    }

    /// The full human-readable message: the kind's heading, then the detail.
    pub fn to_string(&self) -> (r: String)
        ensures
            r@ == self.heading() + self.detail_text(),
    {
        let mut s = String::from_str(self.heading_str());
        s.append(self.detail().as_str());
        s
    }
}

} // verus!
