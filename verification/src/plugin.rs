//! The observer that the supervisor is run with.
use crate::channel::{sender_is_closed, Request};
use crate::command::{share, CommandStopped};
use std::sync::Arc;
use tokio::process::{ChildStderr, ChildStdout};
use tokio::sync::mpsc::Sender;
use tokio::task::JoinHandle;
use vstd::prelude::*;

verus! {

/// The captured standard output of a child process (`tokio`).
#[verifier::external_type_specification]
#[verifier::external_body]
pub struct ExChildStdout(tokio::process::ChildStdout);

/// The captured standard error of a child process (`tokio`).
#[verifier::external_type_specification]
#[verifier::external_body]
pub struct ExChildStderr(tokio::process::ChildStderr);

/// The failure of a task of the `tokio` runtime. No contract speaks of it: it is
/// declared because a `JoinHandle` is a future that yields it, and the verifier
/// asks for every type that a declared type names in that way.
#[verifier::external_type_specification]
#[verifier::external_body]
pub struct ExJoinError(tokio::task::JoinError);

/// The handle of a task of the `tokio` runtime.
#[verifier::external_type_specification]
#[verifier::external_body]
#[verifier::reject_recursive_types(T)]
pub struct ExJoinHandle<T>(tokio::task::JoinHandle<T>);

/// What the supervisor needs from the code that observes the commands.
pub trait CommandSystemPlugin<T>: Send + Sync + 'static + Sized {
    /// What each command is started with, before the plugin has seen its output.
    type CommandInitialData;

    /// Makes the data that a command carries, from what it was started with and
    /// its two output streams. Called once for each command, as it is started.
    fn initialize_command_data(
        &self,
        data: Self::CommandInitialData,
        stdout: ChildStdout,
        stderr: ChildStderr,
    ) -> T;

    /// Called once for each command, after it has stopped.
    fn on_command_exited(&self, _cmd: Arc<CommandStopped<T>>) {
    }

    /// A task of the plugin that is to be awaited once all commands have stopped.
    /// A plugin that does not say otherwise has none.
    fn join(&self) -> (task: Option<JoinHandle<()>>)
        default_ensures
            task is None,
    {
        None
    }
}

/// The report that a stopped command owes the coordinator: its record while the
/// decision channel is open, nothing once it is closed.
pub open spec fn report_for<T>(record: Arc<CommandStopped<T>>, channel_closed: bool) -> Option<
    Request<T>,
> {
    if channel_closed {
        None
    } else {
        Some(Request::CommandExited(record))
    }
}

/// The report to submit for a command that has stopped with `record`, given
/// whether the decision channel is closed.
pub fn exit_report<T>(record: Arc<CommandStopped<T>>, channel_closed: bool) -> (report: Option<
    Request<T>,
>)
    ensures
        report == report_for(record, channel_closed),
{
    if channel_closed {
        None
    } else {
        Some(Request::CommandExited(record))
    }
}

/// What the stop of a command owes, whatever the state of the decision channel:
/// the plugin is told of `notify`, and `report` is the record that goes to the
/// coordinator while the channel is open. Both are the final record of the
/// command.
#[derive(Debug)]
pub struct ExitNotice<T> {
    /// The record that the plugin is told of.
    pub notify: Arc<CommandStopped<T>>,
    /// The record to report to the coordinator.
    pub report: Arc<CommandStopped<T>>,
}

/// What is owed for a command that has stopped with `record`.
pub fn exit_notice<T>(record: Arc<CommandStopped<T>>) -> (notice: ExitNotice<T>)
    ensures
        notice.notify == record,
        notice.report == record,
{
    ExitNotice { notify: share(&record), report: record }
}

/// What follows the stop of a command: the plugin is told of it, whatever the
/// state of the decision channel, and then the report for the coordinator is
/// returned, if one is still owed. What the plugin is told of and what is
/// reported are fixed by `exit_notice` and `exit_report`.
pub fn report_exit<T, P: CommandSystemPlugin<T>>(
    plugin: &P,
    record: Arc<CommandStopped<T>>,
    sender: &Sender<Request<T>>,
) -> (report: Option<Request<T>>)
    ensures
        report is None || report == Some(Request::CommandExited(record)),
{
    let notice = exit_notice(record);
    plugin.on_command_exited(notice.notify);
    let closed = sender_is_closed(sender);
    exit_report(notice.report, closed)
}

} // verus!
