//! The supervisor as a whole: the states of all commands, the policy, and the one
//! decision to terminate that is ever acted upon.
use crate::channel::{clone_sender, decision_channel_slots, open_channel, Request};
use crate::command::{share, CommandKiller, CommandState, CommandStopped, KillReason};
use crate::plugin::CommandSystemPlugin;
use crate::status::{ExitOutcome, KillBehavior};
use std::sync::Arc;
use tokio::sync::mpsc::{Receiver, Sender};
use vstd::prelude::*;

verus! {

/// The decision that a request calls for under a policy, while the decision
/// channel is open: a request to terminate everything always calls for one, the
/// report of an exit where the policy matches its outcome.
pub open spec fn decision_on<T>(kill_behavior: KillBehavior, request: Request<T>) -> Option<
    KillReason<T>,
> {
    match request {
        Request::KillAll => Some(KillReason::ExternalSignal),
        Request::CommandExited(record) => if kill_behavior.kills_on(record.exit) {
            Some(KillReason::OtherCommandExited(record))
        } else {
            None
        },
    }
}

/// The decision that `request` calls for under `kill_behavior`.
pub fn decide<T>(kill_behavior: &KillBehavior, request: &Request<T>) -> (decision: Option<
    KillReason<T>,
>)
    ensures
        decision == decision_on(*kill_behavior, *request),
{
    match request {
        Request::KillAll => Some(KillReason::ExternalSignal),
        Request::CommandExited(record) => if kill_behavior.should_kill_all(&record.exit) {
            Some(KillReason::OtherCommandExited(share(record)))
        } else {
            None
        },
    }
}

/// The indices below `n` of the commands that are running, in rising order.
pub open spec fn spawned_below<T>(commands: Seq<CommandState<T>>, n: int) -> Seq<usize>
    decreases n,
{
    if n <= 0 {
        Seq::empty()
    } else if commands[n - 1] is Spawned {
        spawned_below(commands, n - 1).push((n - 1) as usize)
    } else {
        spawned_below(commands, n - 1)
    }
}

/// What the supervisor is, to its contracts.
pub struct SystemView<T> {
    /// The state of each command, in the order in which the commands were given.
    pub commands: Seq<CommandState<T>>,
    /// The policy of the run.
    pub kill_behavior: KillBehavior,
    /// The reason of the decision to terminate, once it has been taken. From then
    /// on the decision channel is closed.
    pub decision: Option<KillReason<T>>,
}

impl<T> SystemView<T> {
    /// Whether the reason recorded on a command agrees with the decision: none
    /// before the decision; after it, its reason on every running command, and
    /// on a stopped one that reason or none.
    pub open spec fn agrees_with(self, command: CommandState<T>) -> bool {
        match self.decision {
            None => command.kill_reason() is None,
            Some(reason) => command.kill_reason() == Some(reason) || (command is Stopped
                && command.kill_reason() is None),
        }
    }

    /// The invariant of the supervisor: the commands can be counted, none rests
    /// in `Processing`, and what is recorded on each agrees with the decision.
    pub open spec fn wf(self) -> bool {
        &&& self.commands.len() <= usize::MAX
        &&& forall|i: int|
            0 <= i < self.commands.len() ==> {
                &&& !(#[trigger] self.commands[i] is Processing)
                &&& self.agrees_with(self.commands[i])
            }
    }

    /// The commands that an order to terminate names: those that are running,
    /// by index, in rising order.
    pub open spec fn targets(self) -> Seq<usize> {
        spawned_below(self.commands, self.commands.len() as int)
    }

    /// Whether every command is running.
    pub open spec fn all_spawned(self) -> bool {
        forall|i: int| 0 <= i < self.commands.len() ==> #[trigger] self.commands[i] is Spawned
    }

    /// Whether every command has stopped.
    pub open spec fn all_stopped(self) -> bool {
        forall|i: int| 0 <= i < self.commands.len() ==> #[trigger] self.commands[i] is Stopped
    }

    /// The final records of the commands, in their order.
    pub open spec fn records(self) -> Seq<Arc<CommandStopped<T>>>
        recommends
            self.all_stopped(),
    {
        Seq::new(self.commands.len(), |i: int| self.commands[i]->Stopped_0)
    }

    /// The reason for which the coordinator decides to terminate on `request`, if
    /// it does: none once a decision has been taken.
    pub open spec fn verdict(self, request: Request<T>) -> Option<KillReason<T>> {
        if self.decision is Some {
            None
        } else {
            decision_on(self.kill_behavior, request)
        }
    }

    /// The supervisor after the coordinator has handled `request`.
    pub open spec fn after_request(self, request: Request<T>) -> Self {
        match self.verdict(request) {
            None => self,
            Some(reason) => SystemView {
                commands: Seq::new(
                    self.commands.len(),
                    |i: int| self.commands[i].after_kill(reason),
                ),
                kill_behavior: self.kill_behavior,
                decision: Some(reason),
            },
        }
    }

    /// The supervisor after command `index` has stopped with `exit`.
    pub open spec fn after_exit(self, index: int, exit: ExitOutcome) -> Self
        recommends
            0 <= index < self.commands.len(),
            self.commands[index] is Spawned,
    {
        SystemView {
            commands: self.commands.update(
                index,
                CommandState::Stopped(Arc::new(self.commands[index].record_on_exit(exit))),
            ),
            kill_behavior: self.kill_behavior,
            decision: self.decision,
        }
    }
}

impl<T> SystemView<T> {
    /// The supervisor of commands that have just been started with `data`.
    pub open spec fn initial(data: Seq<T>, kill_behavior: KillBehavior) -> Self {
        SystemView {
            commands: Seq::new(
                data.len(),
                |i: int|
                    CommandState::Spawned { data: data[i], killer: CommandKiller { reason: None } },
            ),
            kill_behavior,
            decision: None,
        }
    }
}

/// A handle that asks the supervisor to terminate everything. It can be copied
/// and given to code that does not own the supervisor.
#[verifier::reject_recursive_types(T)]
pub struct CommandSystemKiller<T>(Sender<Request<T>>);

impl<T> CommandSystemKiller<T> {
    /// The decision channel that the handle sends into, as its sending half.
    pub closed spec fn channel(&self) -> Sender<Request<T>> {
        self.0
    }

    /// The request that terminates everything. Sending it through `sender` is
    /// left to the caller; sending it more than once, or after the decision
    /// channel is closed, changes nothing.
    pub fn kill_all(&self) -> (request: Request<T>)
        ensures
            request is KillAll,
    {
        Request::KillAll
    }

    /// The sending half of the decision channel that the handle sends into.
    pub fn sender(&self) -> (sender: &Sender<Request<T>>)
        ensures
            *sender == self.channel(),
    {
        &self.0
    }
}

impl<T> Clone for CommandSystemKiller<T> {
    /// A copy of the handle sends into the same decision channel.
    fn clone(&self) -> (copy: Self)
        ensures
            copy.channel() == self.channel(),
    {
        CommandSystemKiller(clone_sender(&self.0))
    }
}

/// The order that follows a decision to terminate. Whoever carries it out closes
/// the decision channel first, so that no report is taken while the commands are
/// being terminated, and stops coordinating afterwards.
#[derive(Debug)]
pub struct KillOrder<T> {
    /// Why the commands are terminated.
    pub reason: KillReason<T>,
    /// The commands to terminate: those that were running when the decision was
    /// taken, by index, in rising order.
    pub targets: Vec<usize>,
}

/// The supervisor of a set of commands that have been started.
#[verifier::reject_recursive_types(T)]
pub struct CommandSystem<T, P: CommandSystemPlugin<T>> {
    commands: Vec<CommandState<T>>,
    kill_behavior: KillBehavior,
    decision: Option<KillReason<T>>,
    killer: CommandSystemKiller<T>,
    plugin: Arc<P>,
}

impl<T, P: CommandSystemPlugin<T>> View for CommandSystem<T, P> {
    type V = SystemView<T>;

    closed spec fn view(&self) -> SystemView<T> {
        SystemView {
            commands: self.commands@,
            kill_behavior: self.kill_behavior,
            decision: self.decision,
        }
    }
}

impl<T, P: CommandSystemPlugin<T>> CommandSystem<T, P> {
    /// The plugin that the supervisor is run with.
    pub closed spec fn plugin_of(&self) -> P {
        *self.plugin
    }

    /// The decision channel of the supervisor, as its sending half.
    pub closed spec fn channel(&self) -> Sender<Request<T>> {
        self.killer.channel()
    }

    /// Takes charge of commands that have just been started, one for each item
    /// of `data`, and opens the decision channel. The receiving half of the
    /// channel is returned for the coordinator.
    ///
    /// There may be no command at all: the supervisor then has nothing to watch,
    /// every command of it has stopped, and its final records are none. Its
    /// channel is opened with one slot like any other, though the capacity for
    /// no command is none.
    pub fn new(data: Vec<T>, kill_behavior: KillBehavior, plugin: P) -> (made: (
        Self,
        Receiver<Request<T>>,
    ))
        ensures
            made.0@ == SystemView::initial(data@, kill_behavior),
            made.0@.wf(),
            made.0.plugin_of() == plugin,
    {
        let (sender, receiver) = open_channel(decision_channel_slots(data.len()));
        let mut commands: Vec<CommandState<T>> = Vec::new();
        let ghost all = data@;
        for item in it: data
            invariant
                it.seq() == all,
                commands@ == SystemView::initial(all.take(it.index() as int), kill_behavior).commands,
        {
            commands.push(CommandState::spawned(item));
        }
        assert(commands@ =~= SystemView::initial(all, kill_behavior).commands);
        let system = CommandSystem {
            commands,
            kill_behavior,
            decision: None,
            killer: CommandSystemKiller(sender),
            plugin: Arc::new(plugin),
        };
        (system, receiver)
    }

    /// The number of commands.
    pub fn len(&self) -> (n: usize)
        ensures
            n == self@.commands.len(),
    {
        self.commands.len()
    }

    /// The policy of the run.
    pub fn kill_behavior(&self) -> (kill_behavior: KillBehavior)
        ensures
            kill_behavior == self@.kill_behavior,
    {
        self.kill_behavior
    }

    /// The plugin that the supervisor is run with.
    pub fn plugin(&self) -> (plugin: Arc<P>)
        ensures
            *plugin == self.plugin_of(),
    {
        share(&self.plugin)
    }

    /// Whether the decision to terminate has been taken.
    pub fn is_decided(&self) -> (decided: bool)
        ensures
            decided == (self@.decision is Some),
    {
        self.decision.is_some()
    }

    /// Whether command `index` is running.
    pub fn is_spawned(&self, index: usize) -> (running: bool)
        ensures
            running == (index < self@.commands.len() && self@.commands[index as int] is Spawned),
    {
        index < self.commands.len() && self.commands[index].is_spawned()
    }

    /// Whether every command has stopped.
    pub fn all_stopped(&self) -> (stopped: bool)
        ensures
            stopped == self@.all_stopped(),
    {
        let mut i: usize = 0;
        while i < self.commands.len()
            invariant
                i <= self.commands.len(),
                forall|j: int| 0 <= j < i ==> #[trigger] self.commands@[j] is Stopped,
            decreases self.commands.len() - i,
        {
            if !self.commands[i].is_stopped() {
                return false;
            }
            i += 1;
        }
        true
    }

    /// A handle that asks this supervisor to terminate everything: it sends into
    /// the decision channel of the supervisor.
    pub fn share_killer(&self) -> (killer: CommandSystemKiller<T>)
        ensures
            killer.channel() == self.channel(),
    {
        self.killer.clone()
    }

    /// The request that terminates everything, as `CommandSystemKiller::kill_all`
    /// gives it.
    pub fn kill_all(&self) -> (request: Request<T>)
        ensures
            request is KillAll,
    {
        self.killer.kill_all()
    }

    /// Moves command `index` to `Stopped` when its process has ended with `exit`.
    /// Returns the final record of the command, which holds the data it ran
    /// with, `exit`, and the reason it was told to terminate, if it was.
    pub fn command_exited(&mut self, index: usize, exit: ExitOutcome) -> (record: Arc<
        CommandStopped<T>,
    >)
        requires
            old(self)@.wf(),
            index < old(self)@.commands.len(),
            old(self)@.commands[index as int] is Spawned,
        ensures
            final(self)@ == old(self)@.after_exit(index as int, exit),
            final(self)@.commands[index as int] == CommandState::Stopped(record),
            final(self)@.wf(),
            final(self).plugin_of() == old(self).plugin_of(),
            final(self).channel() == old(self).channel(),
    {
        let record = self.commands[index].stop(exit);
        record
    }

    /// Handles one request as the coordinator. While no decision has been taken,
    /// a request that calls for one makes it: every running command records the
    /// reason, and the order that is returned names those commands. On any other
    /// request, and on every request after the decision, nothing changes and
    /// nothing is returned.
    pub fn handle_request(&mut self, request: Request<T>) -> (order: Option<KillOrder<T>>)
        requires
            old(self)@.wf(),
        ensures
            final(self)@ == old(self)@.after_request(request),
            final(self)@.wf(),
            final(self).plugin_of() == old(self).plugin_of(),
            final(self).channel() == old(self).channel(),
            match order {
                None => old(self)@.verdict(request) is None,
                Some(order) => {
                    &&& old(self)@.verdict(request) == Some(order.reason)
                    &&& order.targets@ == old(self)@.targets()
                },
            },
    {
        if self.decision.is_some() {
            return None;
        }
        match decide(&self.kill_behavior, &request) {
            None => None,
            Some(reason) => {
                let mut targets: Vec<usize> = Vec::new();
                let n = self.commands.len();
                let mut i: usize = 0;
                while i < n
                    invariant
                        i <= n,
                        n == self.commands@.len(),
                        n == old(self)@.commands.len(),
                        old(self)@.wf(),
                        old(self)@.decision is None,
                        self.kill_behavior == old(self)@.kill_behavior,
                        self.decision == old(self)@.decision,
                        self.plugin == old(self).plugin,
                        self.killer == old(self).killer,
                        forall|j: int|
                            0 <= j < i ==> #[trigger] self.commands@[j] == old(
                                self,
                            )@.commands[j].after_kill(reason),
                        forall|j: int|
                            i <= j < n ==> #[trigger] self.commands@[j] == old(self)@.commands[j],
                        targets@ == spawned_below(old(self)@.commands, i as int),
                    decreases n - i,
                {
                    let first = self.commands[i].kill(reason.clone());
                    if first {
                        targets.push(i);
                    }
                    i += 1;
                }
                self.decision = Some(reason.clone());
                assert(self@.commands =~= old(self)@.after_request(request).commands);
                Some(KillOrder { reason, targets })
            },
        }
    }

    /// The final records of the commands, one for each command, in the order in
    /// which the commands were given.
    pub fn wait_into_stopped_commands(&self) -> (records: Vec<Arc<CommandStopped<T>>>)
        requires
            self@.all_stopped(),
        ensures
            records@ == self@.records(),
    {
        let mut records: Vec<Arc<CommandStopped<T>>> = Vec::new();
        let mut i: usize = 0;
        while i < self.commands.len()
            invariant
                i <= self.commands.len(),
                self@.all_stopped(),
                records@ == self@.records().take(i as int),
            decreases self.commands.len() - i,
        {
            match &self.commands[i] {
                CommandState::Stopped(record) => records.push(share(record)),
                _ => {},
            }
            i += 1;
        }
        records
    }
}

} // verus!
