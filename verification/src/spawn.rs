//! The start of the commands of a run, one after the other. The processes are
//! started by the program that embeds the crate; what it does next is decided
//! here.
use crate::channel::Request;
use crate::config::{merge_envs, merged_envs, CommandSpec, Label, LabeledCommandData, RunConfig};
use crate::plugin::CommandSystemPlugin;
use crate::status::KillBehavior;
use crate::system::{CommandSystem, SystemView};
use tokio::sync::mpsc::Receiver;
use vstd::prelude::*;

verus! {

/// What is to be done next for a batch of commands.
#[derive(Debug)]
pub enum SpawnStep<D> {
    /// Start the command `spec`, make its data from `data`, and report how the
    /// start went.
    Start { spec: CommandSpec, data: D },
    /// A start has failed. The commands that were started before it, the first
    /// `started` of the batch, are to be terminated; the rest is never started,
    /// and the batch makes no supervisor.
    Abort { started: usize },
    /// Every command of the batch runs.
    Complete,
}

/// What a batch is, to its contracts.
pub struct SpawnView<T, D> {
    /// The number of commands of the batch.
    pub total: nat,
    /// The commands that are still to be started, in their order.
    pub pending: Seq<(CommandSpec, D)>,
    /// Whether a command has been handed out whose start is not reported yet.
    pub in_flight: bool,
    /// The data of the commands that run, in their order.
    pub started: Seq<T>,
    /// Whether a start has failed.
    pub failed: bool,
    /// The policy of the run.
    pub kill_behavior: KillBehavior,
}

impl<T, D> SpawnView<T, D> {
    /// The invariant of a batch: each of its commands is waiting, being started,
    /// running, or the one whose start has failed.
    pub open spec fn wf(self) -> bool {
        &&& self.total <= usize::MAX
        &&& !(self.in_flight && self.failed)
        &&& self.started.len() + self.pending.len() + (if self.in_flight {
            1nat
        } else {
            0nat
        }) + (if self.failed {
            1nat
        } else {
            0nat
        }) == self.total
    }

    /// The batch of `commands` before any of them is started.
    pub open spec fn fresh(commands: Seq<(CommandSpec, D)>, kill_behavior: KillBehavior) -> Self {
        SpawnView {
            total: commands.len(),
            pending: commands,
            in_flight: false,
            started: Seq::empty(),
            failed: false,
            kill_behavior,
        }
    }

    /// What is to be done next: after a failure, nothing but to give up; else
    /// the first command that is waiting; else nothing more.
    pub open spec fn next_step(self) -> SpawnStep<D> {
        if self.failed {
            SpawnStep::Abort { started: self.started.len() as usize }
        } else if self.pending.len() > 0 {
            SpawnStep::Start { spec: self.pending[0].0, data: self.pending[0].1 }
        } else {
            SpawnStep::Complete
        }
    }

    /// The batch after its next step has been handed out.
    pub open spec fn after_next_step(self) -> Self {
        if !self.failed && self.pending.len() > 0 {
            SpawnView { pending: self.pending.drop_first(), in_flight: true, ..self }
        } else {
            self
        }
    }

    /// The batch after the command that was handed out has started with `data`.
    pub open spec fn after_started(self, data: T) -> Self {
        SpawnView { in_flight: false, started: self.started.push(data), ..self }
    }

    /// The batch after the start of the command that was handed out has failed.
    pub open spec fn after_failed(self) -> Self {
        SpawnView { in_flight: false, failed: true, ..self }
    }
}

/// Once a start has failed, the batch starts nothing more: the only step left is
/// to give up, it names the commands that were started before the failure, and
/// asking for it again changes nothing. No supervisor is made of such a batch.
pub proof fn failed_batch_starts_nothing<T, D>(batch: SpawnView<T, D>)
    requires
        batch.wf(),
        batch.failed,
    ensures
        batch.next_step() == (SpawnStep::<D>::Abort { started: batch.started.len() as usize }),
        batch.after_next_step() == batch,
        !(batch.next_step() is Complete),
        batch.started.len() < batch.total,
{
}

/// A batch of commands that is being started.
#[verifier::reject_recursive_types(T)]
pub struct SpawnBatch<T, P: CommandSystemPlugin<T>> {
    total: usize,
    pending: Vec<(CommandSpec, P::CommandInitialData)>,
    in_flight: bool,
    started: Vec<T>,
    failed: bool,
    kill_behavior: KillBehavior,
    plugin: P,
}

impl<T, P: CommandSystemPlugin<T>> View for SpawnBatch<T, P> {
    type V = SpawnView<T, P::CommandInitialData>;

    closed spec fn view(&self) -> Self::V {
        SpawnView {
            total: self.total as nat,
            pending: self.pending@,
            in_flight: self.in_flight,
            started: self.started@,
            failed: self.failed,
            kill_behavior: self.kill_behavior,
        }
    }
}

impl<T, P: CommandSystemPlugin<T>> SpawnBatch<T, P> {
    /// The plugin that the run was given.
    pub closed spec fn plugin_of(&self) -> P {
        self.plugin
    }

    /// The plugin that the run was given.
    pub fn plugin(&self) -> (plugin: &P)
        ensures
            *plugin == self.plugin_of(),
    {
        &self.plugin
    }

    /// Whether a command has been handed out whose start is not reported yet.
    pub fn is_in_flight(&self) -> (in_flight: bool)
        ensures
            in_flight == self@.in_flight,
    {
        self.in_flight
    }

    /// Hands out the next step. A `Start` is to be answered with `started` or
    /// `failed` before the next step is asked for.
    pub fn next_step(&mut self) -> (step: SpawnStep<P::CommandInitialData>)
        requires
            old(self)@.wf(),
            !old(self)@.in_flight,
        ensures
            step == old(self)@.next_step(),
            final(self)@ == old(self)@.after_next_step(),
            final(self)@.wf(),
            final(self).plugin_of() == old(self).plugin_of(),
    {
        if self.failed {
            SpawnStep::Abort { started: self.started.len() }
        } else if self.pending.len() > 0 {
            let (spec, data) = self.pending.remove(0);
            self.in_flight = true;
            assert(self.pending@ =~= old(self).pending@.drop_first());
            SpawnStep::Start { spec, data }
        } else {
            SpawnStep::Complete
        }
    }

    /// Records that the command that was handed out runs, with `data`.
    pub fn started(&mut self, data: T)
        requires
            old(self)@.wf(),
            old(self)@.in_flight,
        ensures
            final(self)@ == old(self)@.after_started(data),
            final(self)@.wf(),
            final(self).plugin_of() == old(self).plugin_of(),
    {
        self.started.push(data);
        self.in_flight = false;
    }

    /// Records that the command that was handed out could not be started. From
    /// then on the only step is `Abort`.
    pub fn failed(&mut self)
        requires
            old(self)@.wf(),
            old(self)@.in_flight,
        ensures
            final(self)@ == old(self)@.after_failed(),
            final(self)@.wf(),
            final(self).plugin_of() == old(self).plugin_of(),
    {
        self.failed = true;
        self.in_flight = false;
    }

    /// Makes the supervisor of the batch once every command runs, and opens its
    /// decision channel.
    pub fn finish(self) -> (made: (CommandSystem<T, P>, Receiver<Request<T>>))
        requires
            self@.wf(),
            !self@.in_flight,
            self@.next_step() is Complete,
        ensures
            made.0@ == SystemView::initial(self@.started, self@.kill_behavior),
            made.0@.wf(),
            made.0.plugin_of() == self.plugin_of(),
    {
        CommandSystem::new(self.started, self.kill_behavior, self.plugin)
    }
}

impl<T, P: CommandSystemPlugin<T>> CommandSystem<T, P> {
    /// Begins the start of `commands` under the policy `kill_behavior`. Each
    /// command comes with what the plugin makes its data from. A batch of no
    /// commands is complete from the start.
    pub fn spawn_with_plugin(
        commands: Vec<(CommandSpec, P::CommandInitialData)>,
        kill_behavior: KillBehavior,
        plugin: P,
    ) -> (batch: SpawnBatch<T, P>)
        ensures
            batch@ == SpawnView::<T, P::CommandInitialData>::fresh(commands@, kill_behavior),
            batch@.wf(),
            batch.plugin_of() == plugin,
    {
        SpawnBatch {
            total: commands.len(),
            pending: commands,
            in_flight: false,
            started: Vec::new(),
            failed: false,
            kill_behavior,
            plugin,
        }
    }
}

/// Whether `launch` is what command `command` of a run is started as: the
/// command itself, with the variables of the run put before its own, and its
/// label held to the width of the run.
pub open spec fn launches(
    launch: (CommandSpec, LabeledCommandData),
    command: CommandSpec,
    shared: Option<Vec<(String, String)>>,
    max_label_length: usize,
) -> bool {
    &&& launch.0.program == command.program
    &&& launch.0.args == command.args
    &&& launch.0.envs@ == merged_envs(shared, command.envs@)
    &&& launch.0.label == command.label
    &&& launch.1.label.text() == command.label@
    &&& launch.1.label.width() == max_label_length
}

/// Begins the start of the commands of `run_config`, in their order, under its
/// policy: the batch is the one that `CommandSystem::spawn_with_plugin` makes of
/// the commands as they are launched, each with its label as its data.
pub fn spawn_from_run_config_with_plugin<T, P>(run_config: RunConfig, plugin: P) -> (batch:
    SpawnBatch<T, P>) where P: CommandSystemPlugin<T, CommandInitialData = LabeledCommandData>
    ensures
        batch@.wf(),
        batch@ == SpawnView::<T, LabeledCommandData>::fresh(batch@.pending, run_config.kill),
        batch@.pending.len() == run_config.commands.len(),
        forall|i: int|
            0 <= i < run_config.commands.len() ==> launches(
                #[trigger] batch@.pending[i],
                run_config.commands[i],
                run_config.envs,
                run_config.max_label_length,
            ),
        batch.plugin_of() == plugin,
{
    let RunConfig { commands, max_label_length, envs, kill } = run_config;
    let ghost all = commands@;
    let mut launched: Vec<(CommandSpec, LabeledCommandData)> = Vec::new();
    for command in it: commands
        invariant
            it.seq() == all,
            launched.len() == it.index(),
            forall|i: int|
                0 <= i < it.index() ==> launches(
                    #[trigger] launched@[i],
                    all[i],
                    envs,
                    max_label_length,
                ),
    {
        let CommandSpec { program, args, envs: own, label } = command;
        let data = LabeledCommandData { label: Label::from_label(label.clone(), max_label_length) };
        let spec = CommandSpec { program, args, envs: merge_envs(&envs, own), label };
        launched.push((spec, data));
    }
    CommandSystem::spawn_with_plugin(launched, kill, plugin)
}

} // verus!
