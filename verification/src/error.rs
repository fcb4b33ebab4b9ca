//! The failures that a command of the supervisor reports to its caller.

use vstd::prelude::*;
use crate::text::joined;

verus! {

/// Why a command of the supervisor failed. Every failure is handed back to
/// the caller as a value; none ends the hosting process.
#[derive(Debug, PartialEq, Eq)]
pub enum SupervisorError {
    /// The process could not be launched; `cause` says why.
    SpawnFailed { cause: String },
    /// The lock that guards the registry could not be taken; `cause` says why.
    LockFailure { cause: String },
}

/// An error with its text as a sequence of characters.
pub enum SupervisorErrorView {
    SpawnFailed { cause: Seq<char> },
    LockFailure { cause: Seq<char> },
}

impl View for SupervisorError {
    type V = SupervisorErrorView;

    open spec fn view(&self) -> SupervisorErrorView {
        match *self {
            SupervisorError::SpawnFailed { cause } => SupervisorErrorView::SpawnFailed {
                cause: cause@,
            },
            SupervisorError::LockFailure { cause } => SupervisorErrorView::LockFailure {
                cause: cause@,
            },
        }
    }
}

impl SupervisorErrorView {
    /// The message that a person reads.
    pub open spec fn message(self) -> Seq<char> {
        match self {
            SupervisorErrorView::SpawnFailed { cause } => "Failed to spawn CLI: "@ + cause,
            SupervisorErrorView::LockFailure { cause } => cause,
        }
    }
}

impl SupervisorError {
    /// The error for a lock that could not be taken.
    pub fn lock_failure(cause: String) -> (error: SupervisorError)
        ensures
            error@ == (SupervisorErrorView::LockFailure { cause: cause@ }),
    {
        SupervisorError::LockFailure { cause }
    }

    /// The message that a person reads: for a failed launch the cause after
    /// a few words that say what failed, for a failed lock the cause alone.
    pub fn message(&self) -> (message: String)
        ensures
            message@ == self@.message(),
    {
        match self {
            SupervisorError::SpawnFailed { cause } => joined("Failed to spawn CLI: ", cause.as_str()),
            SupervisorError::LockFailure { cause } => cause.clone(),
        }
    }
}

} // verus!
