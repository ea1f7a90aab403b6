//! The permission gate.
//!
//! Some platforms gate global input monitoring behind explicit user
//! consent; on the others no consent is ever needed.  The host queries
//! the platform's consent state once at startup and hands the observation
//! here; the decision — proceed, exit cleanly with guidance, or abort —
//! is made by the library, so that nothing downstream ever branches on
//! platform identity directly.

use vstd::prelude::*;

verus! {

/// Whether the platform gates global input monitoring behind user
/// consent.  Chosen once at startup from the platform identity.
#[derive(Clone, Copy, PartialEq, Eq, Structural, Debug)]
pub enum PermissionGate {
    /// No consent concept on this platform; monitoring is always
    /// allowed.
    Ungated,
    /// Consent must have been granted before any hotkey registration is
    /// attempted.
    Gated,
}

/// What startup must do after the consent state was observed.
#[derive(Clone, Copy, PartialEq, Eq, Structural, Debug)]
pub enum StartupDecision {
    /// Register the hotkeys and enter the dispatch loop.
    Proceed,
    /// Consent is denied: print the guidance message and exit cleanly
    /// with code zero, registering nothing.  A recognized terminal
    /// state, not an error.
    ExitPermissionDenied,
    /// The consent state could not even be queried: a fatal startup
    /// error, exit nonzero.
    AbortPermissionQuery,
}

/// Decides startup from the platform kind and the observed consent state:
/// `observed` is `None` when the query mechanism itself failed, and the
/// observation at call time otherwise.  An ungated platform always
/// proceeds and needs no observation.
pub fn evaluate_permission(gate: PermissionGate, observed: Option<bool>) -> (d: StartupDecision)
    ensures
        gate is Ungated ==> d is Proceed,
        gate is Gated && observed == Some(true) ==> d is Proceed,
        gate is Gated && observed == Some(false) ==> d is ExitPermissionDenied,
        gate is Gated && observed is None ==> d is AbortPermissionQuery,
{
    match gate {
        PermissionGate::Ungated => StartupDecision::Proceed,
        PermissionGate::Gated => match observed {
            Some(true) => StartupDecision::Proceed,
            Some(false) => StartupDecision::ExitPermissionDenied,
            None => StartupDecision::AbortPermissionQuery,
        },
    }
}

/// The instruction printed when consent is denied.
pub fn guidance_message() -> (s: String)
    ensures
        s@
            == "Accessibility is not allowed. Please enable accessibility in System Preferences."@,
{
    "Accessibility is not allowed. Please enable accessibility in System Preferences.".to_owned()
}

} // verus!
