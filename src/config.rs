//! Operational mode and fail mode, and how settings select them.

use vstd::prelude::*;
use crate::error::CedarlingError;
use crate::text::{lower_of, to_lowercase};

verus! {

/// How a policy decision is applied.
#[derive(Debug, Clone, Copy, PartialEq, Eq, Structural)]
pub enum OperationMode {
    /// The decision is returned as it is.
    Enforcement,
    /// The decision is logged and access is allowed.
    Instrumentation,
    /// The decision is logged at lower severity and access is allowed.
    Shadow,
}

/// What happens when the policy engine fails.
#[derive(Debug, Clone, Copy, PartialEq, Eq, Structural)]
pub enum FailMode {
    /// Deny.
    Closed,
    /// Allow.
    Open,
}

/// The mode that an already lower-cased setting names.
pub open spec fn mode_named(lower: Seq<char>) -> Option<OperationMode> {
    if lower == "enforcement"@ {
        Some(OperationMode::Enforcement)
    } else if lower == "instrumentation"@ {
        Some(OperationMode::Instrumentation)
    } else if lower == "shadow"@ {
        Some(OperationMode::Shadow)
    } else {
        None
    }
}

/// The fail mode that an already lower-cased setting names.
pub open spec fn fail_mode_named(lower: Seq<char>) -> Option<FailMode> {
    if lower == "closed"@ {
        Some(FailMode::Closed)
    } else if lower == "open"@ {
        Some(FailMode::Open)
    } else {
        None
    }
}

impl OperationMode {
    /// The mode named by a lower-cased setting, if any.
    pub fn from_lowercase(lower: &str) -> (r: Option<OperationMode>)
        ensures
            r == mode_named(lower@),
    {
        let s = String::from_str(lower);
        if s == String::from_str("enforcement") {
            Some(OperationMode::Enforcement)
        } else if s == String::from_str("instrumentation") {
            Some(OperationMode::Instrumentation)
        } else if s == String::from_str("shadow") {
            Some(OperationMode::Shadow)
        } else {
            None
        }
    }

    /// Parses a setting, ignoring case.
    pub fn parse(s: &str) -> (r: Result<OperationMode, CedarlingError>)
        ensures
            match mode_named(lower_of(s@)) {
                Some(m) => r == Ok::<OperationMode, CedarlingError>(m),
                None => r is Err && r->Err_0 is Configuration,
            },
    {
        let lower = to_lowercase(s);
        match OperationMode::from_lowercase(lower.as_str()) {
            Some(m) => Ok(m),
            None => {
                let mut msg = String::from_str("Invalid operation mode: ");
                msg.append(s);
                msg.append(". Must be 'enforcement', 'instrumentation', or 'shadow'");
                Err(CedarlingError::Configuration(msg))
            },
        }
    }
}

impl FailMode {
    /// The fail mode named by a lower-cased setting, if any.
    pub fn from_lowercase(lower: &str) -> (r: Option<FailMode>)
        ensures
            r == fail_mode_named(lower@),
    {
        let s = String::from_str(lower);
        if s == String::from_str("closed") {
            Some(FailMode::Closed)
        } else if s == String::from_str("open") {
            Some(FailMode::Open)
        } else {
            None
        }
    }

    /// Parses a setting, ignoring case.
    pub fn parse(s: &str) -> (r: Result<FailMode, CedarlingError>)
        ensures
            match fail_mode_named(lower_of(s@)) {
                Some(m) => r == Ok::<FailMode, CedarlingError>(m),
                None => r is Err && r->Err_0 is Configuration,
            },
    {
        let lower = to_lowercase(s);
        match FailMode::from_lowercase(lower.as_str()) {
            Some(m) => Ok(m),
            None => {
                let mut msg = String::from_str("Invalid fail mode: ");
                msg.append(s);
                msg.append(". Must be 'closed' or 'open'");
                Err(CedarlingError::Configuration(msg))
            },
        }
    }
}

impl std::str::FromStr for OperationMode {
    type Err = CedarlingError;

    fn from_str(s: &str) -> Result<Self, Self::Err> {
        OperationMode::parse(s)
    }
}

impl std::str::FromStr for FailMode {
    type Err = CedarlingError;

    fn from_str(s: &str) -> Result<Self, Self::Err> {
        FailMode::parse(s)
    }
}

/// The mode to apply, given the setting as read (`None` where it is unset
/// or empty): an unrecognised or missing setting falls back to enforcement.
pub fn operation_mode_from_setting(value: Option<&str>) -> (r: OperationMode)
    ensures
        r == match value {
            Some(s) => match mode_named(lower_of(s@)) {
                Some(m) => m,
                None => OperationMode::Enforcement,
            },
            None => OperationMode::Enforcement,
        },
{
    match value {
        Some(s) => match OperationMode::parse(s) {
            Ok(m) => m,
            Err(_) => OperationMode::Enforcement,
        },
        None => OperationMode::Enforcement,
    }
}

/// The fail mode to apply, given the setting as read (`None` where it is
/// unset or empty): an unrecognised or missing setting falls back to closed.
pub fn fail_mode_from_setting(value: Option<&str>) -> (r: FailMode)
    ensures
        r == match value {
            Some(s) => match fail_mode_named(lower_of(s@)) {
                Some(m) => m,
                None => FailMode::Closed,
            },
            None => FailMode::Closed,
        },
{
    match value {
        Some(s) => match FailMode::parse(s) {
            Ok(m) => m,
            Err(_) => FailMode::Closed,
        },
        None => FailMode::Closed,
    }
}

/// Operational configuration, passed explicitly to the decision filter.
#[derive(Debug, Clone, Copy)]
pub struct ExtensionConfig {
    pub mode: OperationMode,
    pub fail_mode: FailMode,
}

impl Default for ExtensionConfig {
    fn default() -> (r: Self)
        ensures
            r.mode == OperationMode::Enforcement,
            r.fail_mode == FailMode::Closed,
    {
        ExtensionConfig { mode: OperationMode::Enforcement, fail_mode: FailMode::Closed }
    }
}

} // verus!
