//! Audit records of errors.

use vstd::prelude::*;
use crate::error::{CedarlingError, LogLevel};

verus! {

/// A point in time: whole seconds since the Unix epoch and the nanoseconds
/// past that second.
#[derive(Debug, Clone, Copy, PartialEq, Eq, Structural)]
pub struct Timestamp {
    pub seconds: i64,
    pub nanos: u32,
}

/// Record of one error as it crossed a validation or decision boundary.
#[derive(Debug, Clone)]
pub struct AuditLogEntry {
    pub timestamp: Timestamp,
    pub error_id: String,
    pub category: String,
    pub message: String,
    pub context: Option<String>,
    pub should_deny: bool,
    pub log_level: String,
}

impl LogLevel {
    pub open spec fn label(self) -> Seq<char> {
        match self {
            LogLevel::Debug => "Debug"@,
            LogLevel::Info => "Info"@,
            LogLevel::Warning => "Warning"@,
            LogLevel::Error => "Error"@,
        }
    }

    /// The level's name.
    pub fn name(self) -> (r: &'static str)
        ensures
            r@ == self.label(),
    {
        match self {
            LogLevel::Debug => "Debug",
            LogLevel::Info => "Info",
            LogLevel::Warning => "Warning",
            LogLevel::Error => "Error",
        }
    }
}

/// Relies on `uuid::Uuid::new_v4`, written as text (its `Display` is the
/// lower-case hyphenated form): a fresh random identifier of 36 characters.
#[verifier::external_body]
fn new_error_id() -> (r: String)
    ensures
        r@.len() == 36,
{
    uuid::Uuid::new_v4().to_string()
}

/// Relies on `chrono::Utc::now`: the wall clock, as seconds since the Unix
/// epoch and nanoseconds past the second. Nothing is promised of its value.
#[verifier::external_body]
fn now_timestamp() -> (r: Timestamp) {
    let t = chrono::Utc::now();
    Timestamp { seconds: t.timestamp(), nanos: t.timestamp_subsec_nanos() }
}

pub open spec fn opt_text(c: Option<&str>) -> Option<Seq<char>> {
    match c {
        Some(s) => Some(s@),
        None => None,
    }
}

pub open spec fn opt_string(c: Option<String>) -> Option<Seq<char>> {
    match c {
        Some(s) => Some(s@),
        None => None,
    }
}

/// The entry records the error's category, message, denial flag and
/// severity, with the given identifier, time and context.
pub open spec fn records(entry: AuditLogEntry, e: CedarlingError, context: Option<Seq<char>>, error_id: Seq<char>, timestamp: Timestamp) -> bool {
    &&& entry.timestamp == timestamp
    &&& entry.error_id@ == error_id
    &&& entry.category@ == e.category_name()
    &&& entry.message@ == e.heading() + e.detail_text()
    &&& opt_string(entry.context) == context
    &&& entry.should_deny == e.denies_by_default()
    &&& entry.log_level@ == e.severity().label()
}

impl CedarlingError {
    /// The audit entry for this error under a given identifier and time.
    pub fn audit_entry(&self, context: Option<&str>, error_id: String, timestamp: Timestamp) -> (r: AuditLogEntry)
        ensures
            records(r, *self, opt_text(context), error_id@, timestamp),
    {
        let ctx = match context {
            Some(s) => Some(String::from_str(s)),
            None => None,
        };
        AuditLogEntry {
            timestamp,
            error_id,
            category: String::from_str(self.category()),
            message: self.to_string(),
            context: ctx,
            should_deny: self.should_deny(),
            log_level: String::from_str(self.log_level().name()),
        }
    }

    /// The audit entry for this error, with a fresh identifier and the
    /// current time.
    pub fn to_audit_log(&self, context: Option<&str>) -> (r: AuditLogEntry)
        ensures
            records(r, *self, opt_text(context), r.error_id@, r.timestamp),
            r.error_id@.len() == 36,
    {
        let id = new_error_id();
        let now = now_timestamp();
        self.audit_entry(context, id, now)
    }
}

} // verus!
