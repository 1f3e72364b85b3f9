//! Setup lifecycle decisions.
//!
//! Trusted setup is run at most once per relation; afterwards its artifacts
//! live in storage. The decision below says what a setup request must do
//! given which artifacts are already present.

use vstd::prelude::*;

verus! {

/// What a setup request performs.
#[derive(Clone, Copy, PartialEq, Eq, Structural, Debug)]
pub enum SetupAction {
    /// Both artifacts exist: nothing is recomputed or rewritten.
    NoOp,
    /// Parameters exist but no verifying key: derive the key from the stored
    /// parameters instead of re-running setup.
    DeriveVerifyingKey,
    /// No parameters exist: run trusted setup and persist both artifacts.
    RunSetup,
}

/// Decides what setup must do, from which artifacts are present in storage.
/// Setup is idempotent: once the parameters exist they are never recomputed,
/// and once both artifacts exist nothing is written at all.
pub fn setup_action(params_present: bool, vk_present: bool) -> (r: SetupAction)
    ensures
        r == (if params_present && vk_present {
            SetupAction::NoOp
        } else if params_present {
            SetupAction::DeriveVerifyingKey
        } else {
            SetupAction::RunSetup
        }),
{
    if params_present {
        if vk_present {
            SetupAction::NoOp
        } else {
            SetupAction::DeriveVerifyingKey
        }
    } else {
        SetupAction::RunSetup
    }
}

} // verus!
