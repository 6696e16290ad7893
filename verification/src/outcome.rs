//! The failure taxonomy of a launch attempt and how it surfaces to the user.
//!
//! A command either could not be created or could not be waited on; the
//! attempt as a whole either succeeded or failed in one of three places. Every
//! failure becomes exactly one toast; success becomes none.

use vstd::prelude::*;

use crate::policy::UIDirective;

verus! {

/// Why a single external command failed. Exit codes are not failures here:
/// callers that care about them must check them explicitly.
#[derive(Debug, Clone, PartialEq, Eq)]
pub enum CommandError {
    /// The process could not be created.
    SpawnFailed(String),
    /// The exit status could not be retrieved.
    WaitFailed(String),
}

impl CommandError {
    /// The human-readable description carried by the error.
    pub fn message(&self) -> (r: &String)
        ensures
            r@ == self.spec_message(),
    {
        match self {
            CommandError::SpawnFailed(m) => m,
            CommandError::WaitFailed(m) => m,
        }
    }

    /// The description carried by the error.
    pub open spec fn spec_message(self) -> Seq<char> {
        match self {
            CommandError::SpawnFailed(m) => m@,
            CommandError::WaitFailed(m) => m@,
        }
    }
}

/// The result of one whole launch attempt, produced exactly once.
#[derive(Debug, Clone, PartialEq, Eq)]
pub enum LaunchOutcome {
    /// Every preparation step ran, the program started and the wait returned.
    Succeeded,
    /// A preparation step failed; later steps and the program start were
    /// skipped.
    FailedDuringPreparation { step: String, cause: CommandError },
    /// The program itself could not be started.
    FailedToStart { cause: CommandError },
    /// The program started but could not be waited on.
    FailedDuringExecution { cause: CommandError },
}

impl LaunchOutcome {
    /// Whether the attempt failed in any of the three places.
    pub open spec fn spec_is_failure(self) -> bool {
        !(self is Succeeded)
    }

    /// Whether the attempt failed in any of the three places.
    pub fn is_failure(&self) -> (r: bool)
        ensures
            r == self.spec_is_failure(),
    {
        !matches!(self, LaunchOutcome::Succeeded)
    }

    /// The cause of the failure, if the attempt failed.
    pub open spec fn spec_cause(self) -> Option<CommandError> {
        match self {
            LaunchOutcome::Succeeded => None,
            LaunchOutcome::FailedDuringPreparation { cause, .. } => Some(cause),
            LaunchOutcome::FailedToStart { cause } => Some(cause),
            LaunchOutcome::FailedDuringExecution { cause } => Some(cause),
        }
    }
}

/// Whether `d` is the toast a failed attempt with outcome `o` owes the user:
/// a fixed title and the cause's description as detail. No directive is the
/// toast of a successful attempt.
pub open spec fn is_failure_toast(d: UIDirective, o: LaunchOutcome) -> bool {
    match o.spec_cause() {
        Some(c) => d matches UIDirective::Toast { title, detail }
            && (title@ == "launch failed"@ && (detail matches Some(m)
                && m@ == c.spec_message())),
        None => false,
    }
}

/// The toast a concluded attempt owes: one for each failure variant, carrying
/// the failure's description; none on success.
pub fn toast_for(o: &LaunchOutcome) -> (r: Option<UIDirective>)
    ensures
        o.spec_is_failure() <==> (r matches Some(d) && is_failure_toast(d, *o)),
        !o.spec_is_failure() ==> r is None,
{
    let cause = match o {
        LaunchOutcome::Succeeded => None,
        LaunchOutcome::FailedDuringPreparation { cause, .. } => Some(cause),
        LaunchOutcome::FailedToStart { cause } => Some(cause),
        LaunchOutcome::FailedDuringExecution { cause } => Some(cause),
    };
    match cause {
        None => None,
        Some(c) => Some(UIDirective::Toast {
            title: "launch failed".to_owned(),
            detail: Some(c.message().clone()),
        }),
    }
}

} // verus!
