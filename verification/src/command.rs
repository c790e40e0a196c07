//! The life cycle of one command: running, then stopped, with the reason it was
//! told to terminate, if it was.
use crate::status::ExitOutcome;
use std::sync::Arc;
use vstd::prelude::*;

verus! {

/// Why a command was told to terminate.
#[derive(Debug)]
pub enum KillReason<T> {
    /// Another command exited and the policy asked for the termination of the
    /// rest. The record is that of the command that exited.
    OtherCommandExited(Arc<CommandStopped<T>>),
    /// The termination was requested from outside the supervisor.
    ExternalSignal,
}

/// The final record of a command: what is known of it once it has stopped. It is
/// shared between the supervisor, its observers, and the reasons recorded on the
/// commands that were terminated because of it.
#[derive(Debug)]
pub struct CommandStopped<T> {
    /// The data that the command carried while it ran.
    pub data: T,
    /// How its process ended.
    pub exit: ExitOutcome,
    /// The reason it was told to terminate, if it was told to before it stopped.
    pub killed: Option<KillReason<T>>,
}

/// The handle through which a running command is told to terminate. It is made
/// to be used once: it keeps the reason of the first request.
#[derive(Debug)]
pub struct CommandKiller<T> {
    /// The reason of the request, once there was one.
    pub reason: Option<KillReason<T>>,
}

/// The state of one command.
#[derive(Debug)]
pub enum CommandState<T> {
    /// Held only while the command is being moved from `Spawned` to `Stopped`;
    /// no command rests in this state.
    Processing,
    /// The command is running.
    Spawned { data: T, killer: CommandKiller<T> },
    /// The command has stopped; the state is final.
    Stopped(Arc<CommandStopped<T>>),
}

/// `Arc::clone`, which returns a second handle to the same allocation: the value
/// behind the result is the value behind the argument.
#[verifier::external_body]
pub(crate) fn share<T>(handle: &Arc<T>) -> (shared: Arc<T>)
    ensures
        shared == *handle,
{
    Arc::clone(handle)
}

impl<T> Clone for KillReason<T> {
    /// A reason is copied by sharing the record it refers to.
    fn clone(&self) -> (copy: Self)
        ensures
            copy == *self,
    {
        match self {
            KillReason::OtherCommandExited(record) => KillReason::OtherCommandExited(share(record)),
            KillReason::ExternalSignal => KillReason::ExternalSignal,
        }
    }
}

impl<T> CommandKiller<T> {
    /// A handle that has not been used.
    pub fn new() -> (killer: Self)
        ensures
            killer.reason is None,
    {
        CommandKiller { reason: None }
    }

    /// The handle after a request to terminate for `reason`.
    pub open spec fn after_kill(self, reason: KillReason<T>) -> Self {
        if self.reason is None {
            CommandKiller { reason: Some(reason) }
        } else {
            self
        }
    }

    /// Asks the command to terminate and records `reason`. Returns whether this
    /// call is the one that terminates the command: `false` means that an earlier
    /// call already did, and nothing changed.
    pub fn kill(&mut self, reason: KillReason<T>) -> (first: bool)
        ensures
            *final(self) == old(self).after_kill(reason),
            first == (old(self).reason is None),
    {
        if self.reason.is_none() {
            self.reason = Some(reason);
            true
        } else {
            false
        }
    }
}

impl<T> CommandState<T> {
    /// The reason the command was told to terminate, if it was: the one its
    /// handle holds while it runs, the one in its record once it has stopped.
    pub open spec fn kill_reason(self) -> Option<KillReason<T>> {
        match self {
            CommandState::Processing => None,
            CommandState::Spawned { killer, .. } => killer.reason,
            CommandState::Stopped(record) => record.killed,
        }
    }

    /// The state after a request to terminate for `reason`: a running command
    /// records it, a stopped one is left as it is.
    pub open spec fn after_kill(self, reason: KillReason<T>) -> Self {
        match self {
            CommandState::Spawned { data, killer } => CommandState::Spawned {
                data,
                killer: killer.after_kill(reason),
            },
            _ => self,
        }
    }

    /// The record that a running command leaves when its process ends with `exit`.
    pub open spec fn record_on_exit(self, exit: ExitOutcome) -> CommandStopped<T>
        recommends
            self is Spawned,
    {
        CommandStopped { data: self->data, exit, killed: self->killer.reason }
    }

    /// The state of a command that has just been started.
    pub fn spawned(data: T) -> (state: Self)
        ensures
            state == (CommandState::Spawned { data, killer: CommandKiller { reason: None } }),
    {
        CommandState::Spawned { data, killer: CommandKiller::new() }
    }

    /// Whether the command is running.
    pub fn is_spawned(&self) -> (r: bool)
        ensures
            r == (*self is Spawned),
    {
        match self {
            CommandState::Spawned { .. } => true,
            _ => false,
        }
    }

    /// Whether the command has stopped.
    pub fn is_stopped(&self) -> (r: bool)
        ensures
            r == (*self is Stopped),
    {
        match self {
            CommandState::Stopped(_) => true,
            _ => false,
        }
    }

    /// The final record of the command, once it has stopped.
    pub fn stopped(&self) -> (r: Option<Arc<CommandStopped<T>>>)
        ensures
            match *self {
                CommandState::Stopped(record) => r == Some(record),
                _ => r is None,
            },
    {
        match self {
            CommandState::Stopped(record) => Some(share(record)),
            _ => None,
        }
    }

    /// Tells the command to terminate for `reason`. A running command records the
    /// reason; a stopped one is left untouched. Returns whether the command has to
    /// be terminated on account of this call.
    pub fn kill(&mut self, reason: KillReason<T>) -> (first: bool)
        ensures
            *final(self) == old(self).after_kill(reason),
            first == (*old(self) is Spawned && old(self).kill_reason() is None),
    {
        match self {
            CommandState::Spawned { killer, .. } => killer.kill(reason),
            _ => false,
        }
    }

    /// Moves a running command to `Stopped` when its process has ended with
    /// `exit`, and returns its final record.
    pub fn stop(&mut self, exit: ExitOutcome) -> (record: Arc<CommandStopped<T>>)
        requires
            *old(self) is Spawned,
        ensures
            *final(self) == CommandState::Stopped(record),
            *record == old(self).record_on_exit(exit),
    {
        let mut taken = CommandState::Processing;
        std::mem::swap(self, &mut taken);
        match taken {
            CommandState::Spawned { data, killer } => {
                let record = Arc::new(CommandStopped { data, exit, killed: killer.reason });
                *self = CommandState::Stopped(share(&record));
                record
            },
            _ => vstd::pervasive::unreached(),
        }
    }
}

} // verus!
