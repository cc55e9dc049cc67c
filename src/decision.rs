//! The decision filter, and the token entries of a request to the policy engine.

use vstd::prelude::*;
use crate::config::{FailMode, OperationMode, ExtensionConfig};
use crate::token::TokenBundle;

verus! {

/// The final effect of a policy-engine outcome: `Some(d)` for a decision
/// `d`, `None` for an evaluation error.
pub open spec fn final_effect(outcome: Option<bool>, mode: OperationMode, fail_mode: FailMode) -> bool {
    match outcome {
        Some(d) => match mode {
            OperationMode::Enforcement => d,
            OperationMode::Instrumentation => true,
            OperationMode::Shadow => true,
        },
        None => fail_mode == FailMode::Open,
    }
}

/// Applies the operational mode to a decision, and the fail mode to an
/// evaluation error.
pub fn filter_decision(outcome: Option<bool>, mode: OperationMode, fail_mode: FailMode) -> (r: bool)
    ensures
        r == final_effect(outcome, mode, fail_mode),
{
    match outcome {
        Some(decision) => match mode {
            OperationMode::Enforcement => decision,
            OperationMode::Instrumentation => true,
            OperationMode::Shadow => true,
        },
        None => match fail_mode {
            FailMode::Closed => false,
            FailMode::Open => true,
        },
    }
}

impl ExtensionConfig {
    /// The decision filter under this configuration.
    pub fn apply(&self, outcome: Option<bool>) -> (r: bool)
        ensures
            r == final_effect(outcome, self.mode, self.fail_mode),
    {
        filter_decision(outcome, self.mode, self.fail_mode)
    }
}

/// Under instrumentation or shadow mode every decision allows access, and
/// under enforcement the decision stands as the engine gave it.
pub proof fn law_mode_overrides_decision(d: bool)
    ensures
        final_effect(Some(d), OperationMode::Instrumentation, FailMode::Closed),
        final_effect(Some(d), OperationMode::Instrumentation, FailMode::Open),
        final_effect(Some(d), OperationMode::Shadow, FailMode::Closed),
        final_effect(Some(d), OperationMode::Shadow, FailMode::Open),
        forall|f: FailMode| final_effect(Some(d), OperationMode::Enforcement, f) == d,
{
}

/// An evaluation error allows access under fail-open and denies it under
/// fail-closed, whatever the operational mode.
pub proof fn law_fail_mode_on_error(mode: OperationMode)
    ensures
        final_effect(None, mode, FailMode::Open),
        !final_effect(None, mode, FailMode::Closed),
{
}

/// The tokens handed to the policy engine: each token present, under its
/// name, in the order access, id, userinfo.
pub open spec fn engine_tokens(b: TokenBundle) -> Seq<(Seq<char>, Seq<char>)> {
    (match b.access_token {
        Some(t) => seq![("access_token"@, t@)],
        None => Seq::empty(),
    }) + (match b.id_token {
        Some(t) => seq![("id_token"@, t@)],
        None => Seq::empty(),
    }) + (match b.userinfo_token {
        Some(t) => seq![("userinfo_token"@, t@)],
        None => Seq::empty(),
    })
}

pub open spec fn pair_views(v: Seq<(String, String)>) -> Seq<(Seq<char>, Seq<char>)> {
    v.map_values(|p: (String, String)| (p.0@, p.1@))
}

/// Builds the token entries of a request to the policy engine.
pub fn request_tokens(bundle: &TokenBundle) -> (r: Vec<(String, String)>)
    ensures
        pair_views(r@) == engine_tokens(*bundle),
{
    let mut out: Vec<(String, String)> = Vec::new();
    if let Some(t) = &bundle.access_token {
        out.push((String::from_str("access_token"), t.clone()));
    }
    if let Some(t) = &bundle.id_token {
        out.push((String::from_str("id_token"), t.clone()));
    }
    if let Some(t) = &bundle.userinfo_token {
        out.push((String::from_str("userinfo_token"), t.clone()));
    }
    proof {
        assert(pair_views(out@) =~= engine_tokens(*bundle));
    }
    out
}

} // verus!
