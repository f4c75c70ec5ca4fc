//! The one choice that the host has to make by name.

use vstd::prelude::*;
use crate::callbacks::CallbackStatus;

verus! {

/// What to do where no verdict can be had: where a deferred decision
/// runs out of time, or where the host has no probe for memory.  There
/// is no default; whoever needs the choice is handed it.
#[derive(Clone, Copy, Debug, PartialEq, Eq, Structural)]
pub enum FailSafe {
    /// Go on as if the missing verdict had been favourable.
    FailOpen,
    /// Go on as if the missing verdict had been unfavourable.
    FailClosed,
}

impl FailSafe {
    /// The decision that stands in for a missing verdict.
    pub open spec fn spec_decision(self) -> CallbackStatus {
        match self {
            FailSafe::FailOpen => CallbackStatus::Allow,
            FailSafe::FailClosed => CallbackStatus::Block,
        }
    }

    /// The decision that stands in where none could be had.  It is to
    /// allow under `FailOpen` and to block under `FailClosed`.
    #[verifier::when_used_as_spec(spec_decision)]
    pub fn decision(self) -> (status: CallbackStatus)
        ensures
            status == self.spec_decision(),
            status != CallbackStatus::Pending,
    {
        match self {
            FailSafe::FailOpen => CallbackStatus::Allow,
            FailSafe::FailClosed => CallbackStatus::Block,
        }
    }
}

} // verus!
