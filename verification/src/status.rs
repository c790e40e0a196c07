//! Exit outcomes and the policy that matches them.
use vstd::prelude::*;

verus! {

/// How the process of a command ended, as far as the supervisor could tell.
#[derive(Debug, PartialEq, Eq)]
pub enum ExitOutcome {
    /// The process ended and its status was read. `code` is the exit code that the
    /// operating system reported, or `None` where the process ended without one
    /// (on Unix: where a signal terminated it).
    Exited { code: Option<i32> },
    /// Waiting on the process failed, so its status is not known. `error` is the
    /// text of the failure.
    Undetermined { error: String },
}

impl ExitOutcome {
    /// A clean exit: the status was read and its code is zero.
    pub open spec fn succeeded(self) -> bool {
        self == (ExitOutcome::Exited { code: Some(0i32) })
    }

    /// The exit code, where the status was read and carries one.
    pub open spec fn exit_code(self) -> Option<i32> {
        match self {
            ExitOutcome::Exited { code } => code,
            ExitOutcome::Undetermined { .. } => None,
        }
    }

    /// Whether the command exited cleanly.
    pub fn success(&self) -> (r: bool)
        ensures
            r == self.succeeded(),
    {
        match self {
            ExitOutcome::Exited { code: Some(c) } => *c == 0,
            _ => false,
        }
    }

    /// The exit code of the command, if one is known.
    pub fn code(&self) -> (r: Option<i32>)
        ensures
            r == self.exit_code(),
    {
        match self {
            ExitOutcome::Exited { code } => *code,
            ExitOutcome::Undetermined { .. } => None,
        }
    }
}

impl Clone for ExitOutcome {
    fn clone(&self) -> (copy: Self)
        ensures
            copy == *self,
    {
        match self {
            ExitOutcome::Exited { code } => ExitOutcome::Exited { code: *code },
            ExitOutcome::Undetermined { error } => ExitOutcome::Undetermined {
                error: error.clone(),
            },
        }
    }
}

/// A predicate over exit outcomes.
#[derive(Clone, Copy, Debug, PartialEq, Eq, Structural)]
pub enum ExitStatusPattern {
    /// Matches a clean exit.
    Success,
    /// Matches every exit that is not clean, an undetermined one included.
    Failed,
    /// Matches an exit with exactly this code.
    StatusCode(i32),
}

impl ExitStatusPattern {
    /// The outcomes that the pattern matches.
    pub open spec fn accepts(self, outcome: ExitOutcome) -> bool {
        match self {
            ExitStatusPattern::Success => outcome.succeeded(),
            ExitStatusPattern::Failed => !outcome.succeeded(),
            ExitStatusPattern::StatusCode(code) => outcome.exit_code() == Some(code),
        }
    }

    /// Whether the pattern matches `outcome`.
    pub fn is_match(&self, outcome: &ExitOutcome) -> (r: bool)
        ensures
            r == self.accepts(*outcome),
    {
        match self {
            ExitStatusPattern::Success => outcome.success(),
            ExitStatusPattern::Failed => !outcome.success(),
            ExitStatusPattern::StatusCode(code) => match outcome.code() {
                Some(c) => c == *code,
                None => false,
            },
        }
    }
}

/// When the exit of one command terminates all the others.
#[derive(Clone, Copy, Debug, PartialEq, Eq, Structural)]
pub enum KillBehavior {
    /// No exit terminates the others.
    Never,
    /// Every exit terminates the others.
    WhenAnyExited,
    /// An exit terminates the others where its outcome matches the pattern.
    WhenAnyExitedWithStatus(ExitStatusPattern),
}

impl KillBehavior {
    /// The outcomes on which the others are terminated.
    pub open spec fn kills_on(self, outcome: ExitOutcome) -> bool {
        match self {
            KillBehavior::Never => false,
            KillBehavior::WhenAnyExited => true,
            KillBehavior::WhenAnyExitedWithStatus(pattern) => pattern.accepts(outcome),
        }
    }

    /// Whether a command that exits with `outcome` terminates the others.
    pub fn should_kill_all(&self, outcome: &ExitOutcome) -> (r: bool)
        ensures
            r == self.kills_on(*outcome),
    {
        match self {
            KillBehavior::Never => false,
            KillBehavior::WhenAnyExited => true,
            KillBehavior::WhenAnyExitedWithStatus(pattern) => pattern.is_match(outcome),
        }
    }
}

} // verus!
