//! Runs of the supervisor: the events that reach it, one after the other, and
//! what holds of every run.
use crate::channel::Request;
use crate::command::{CommandState, CommandStopped, KillReason};
use crate::status::{ExitOutcome, ExitStatusPattern, KillBehavior};
use crate::system::{spawned_below, SystemView};
use std::sync::Arc;
use vstd::prelude::*;

verus! {

/// One thing that happens to the supervisor.
pub enum Event<T> {
    /// The process of command `index` has ended with `exit`.
    Exited { index: int, exit: ExitOutcome },
    /// The coordinator has taken `request` from the decision channel.
    Received { request: Request<T> },
}

impl<T> SystemView<T> {
    /// Whether `event` makes the coordinator decide to terminate.
    pub open spec fn decides_on(self, event: Event<T>) -> bool {
        event matches Event::Received { request } && self.verdict(request) is Some
    }

    /// The supervisor after `event`. The exit of a command that is not running
    /// does not occur, and leaves the supervisor as it is.
    pub open spec fn step(self, event: Event<T>) -> Self {
        match event {
            Event::Exited { index, exit } => if 0 <= index < self.commands.len()
                && self.commands[index] is Spawned {
                self.after_exit(index, exit)
            } else {
                self
            },
            Event::Received { request } => self.after_request(request),
        }
    }

    /// The supervisor after `events`, in their order.
    pub open spec fn run(self, events: Seq<Event<T>>) -> Self
        decreases events.len(),
    {
        if events.len() == 0 {
            self
        } else {
            self.run(events.drop_last()).step(events.last())
        }
    }

    /// Whether the reports among `events` are true: each report of an exit
    /// that the coordinator takes carries the final record of a command that
    /// has stopped by then.
    pub open spec fn reports_are_true(self, events: Seq<Event<T>>) -> bool
        decreases events.len(),
    {
        events.len() > 0 ==> {
            &&& self.reports_are_true(events.drop_last())
            &&& events.last() matches Event::Received { request: Request::CommandExited(record) }
                ==> self.run(events.drop_last()).holds_record(record)
        }
    }

    /// Whether `record` is the final record of one of the commands.
    pub open spec fn holds_record(self, record: Arc<CommandStopped<T>>) -> bool {
        exists|i: int|
            0 <= i < self.commands.len() && #[trigger] self.commands[i] == CommandState::Stopped(
                record,
            )
    }

    /// The number of decisions to terminate that are taken during `events`.
    pub open spec fn decisions(self, events: Seq<Event<T>>) -> nat
        decreases events.len(),
    {
        if events.len() == 0 {
            0
        } else {
            let taken = self.decisions(events.drop_last());
            if self.run(events.drop_last()).decides_on(events.last()) {
                taken + 1
            } else {
                taken
            }
        }
    }
}

/// The order to terminate names exactly the commands that are running, each
/// once, in rising order.
pub proof fn targets_are_the_running_commands<T>(commands: Seq<CommandState<T>>, n: int)
    requires
        0 <= n <= commands.len() <= usize::MAX,
    ensures
        forall|k: usize|
            spawned_below(commands, n).contains(k) <==> (k < n && commands[k as int] is Spawned),
        forall|a: int, b: int|
            0 <= a < b < spawned_below(commands, n).len() ==> spawned_below(commands, n)[a]
                < spawned_below(commands, n)[b],
        forall|a: int|
            0 <= a < spawned_below(commands, n).len() ==> #[trigger] spawned_below(commands, n)[a]
                < n,
    decreases n,
{
    if n > 0 {
        targets_are_the_running_commands(commands, n - 1);
        let before = spawned_below(commands, n - 1);
        let now = spawned_below(commands, n);
        let last = (n - 1) as usize;
        if commands[n - 1] is Spawned {
            assert(now == before.push(last));
            assert(now[now.len() - 1] == last);
            assert forall|k: usize| now.contains(k) <==> (k < n && commands[k as int] is Spawned) by {
                if now.contains(k) {
                    let a = choose|a: int| 0 <= a < now.len() && now[a] == k;
                    if a < before.len() {
                        assert(before[a] == k);
                        assert(before.contains(k));
                    }
                }
                if k < n && commands[k as int] is Spawned {
                    if k == last {
                        assert(now[now.len() - 1] == k);
                    } else {
                        assert(before.contains(k));
                        let a = choose|a: int| 0 <= a < before.len() && before[a] == k;
                        assert(now[a] == k);
                    }
                }
            }
        } else {
            assert(now == before);
        }
    }
}

/// Each step keeps the invariant of the supervisor.
pub proof fn step_keeps_invariant<T>(system: SystemView<T>, event: Event<T>)
    requires
        system.wf(),
    ensures
        system.step(event).wf(),
        system.step(event).commands.len() == system.commands.len(),
        system.step(event).kill_behavior == system.kill_behavior,
{
}

/// Each run keeps the invariant of the supervisor, the number of its commands and
/// its policy.
pub proof fn run_keeps_invariant<T>(system: SystemView<T>, events: Seq<Event<T>>)
    requires
        system.wf(),
    ensures
        system.run(events).wf(),
        system.run(events).commands.len() == system.commands.len(),
        system.run(events).kill_behavior == system.kill_behavior,
    decreases events.len(),
{
    if events.len() > 0 {
        run_keeps_invariant(system, events.drop_last());
        step_keeps_invariant(system.run(events.drop_last()), events.last());
    }
}

/// A command that has stopped stays as it is, whatever happens next: each
/// command makes one transition, from running to stopped.
pub proof fn stopped_is_final<T>(system: SystemView<T>, events: Seq<Event<T>>, index: int)
    requires
        0 <= index < system.commands.len(),
        system.commands[index] is Stopped,
    ensures
        system.run(events).commands.len() == system.commands.len(),
        system.run(events).commands[index] == system.commands[index],
    decreases events.len(),
{
    if events.len() > 0 {
        stopped_is_final(system, events.drop_last(), index);
    }
}

/// Once the decision to terminate has been taken it stands: no later event
/// changes its reason, and no later request makes the coordinator decide again.
pub proof fn decision_is_final<T>(system: SystemView<T>, events: Seq<Event<T>>)
    requires
        system.decision is Some,
    ensures
        system.run(events).decision == system.decision,
        system.decisions(events) == 0,
    decreases events.len(),
{
    if events.len() > 0 {
        decision_is_final(system, events.drop_last());
    }
}

/// A request that arrives after the decision changes nothing and orders
/// nothing, whichever handle sent it.
pub proof fn request_after_decision_is_moot<T>(system: SystemView<T>, request: Request<T>)
    requires
        system.decision is Some,
    ensures
        system.verdict(request) is None,
        system.after_request(request) == system,
{
}

/// Whatever requests arrive, and however often everything is asked to
/// terminate, the coordinator decides at most once in a run.
pub proof fn at_most_one_decision<T>(system: SystemView<T>, events: Seq<Event<T>>)
    ensures
        system.decisions(events) <= 1,
        system.decisions(events) == 1 ==> system.run(events).decision is Some,
        system.decision is None && system.decisions(events) == 0 ==> system.run(
            events,
        ).decision is None,
    decreases events.len(),
{
    if events.len() > 0 {
        at_most_one_decision(system, events.drop_last());
        if system.decision is Some {
            decision_is_final(system, events);
            decision_is_final(system, events.drop_last());
        }
    }
}

/// A request to terminate everything that is handled while every command runs
/// and nothing has been decided is acted upon under every policy: the reason is
/// `ExternalSignal`, the order names every command, and each command carries
/// that reason from then on, into its final record.
pub proof fn kill_all_reaches_every_command<T>(system: SystemView<T>, events: Seq<Event<T>>)
    requires
        system.wf(),
        system.all_spawned(),
        system.decision is None,
    ensures
        system.verdict(Request::KillAll) == Some(KillReason::<T>::ExternalSignal),
        system.targets() == Seq::new(system.commands.len(), |i: int| i as usize),
        forall|i: int|
            0 <= i < system.commands.len() ==> (#[trigger] system.after_request(
                Request::KillAll,
            ).run(events).commands[i]).kill_reason() == Some(KillReason::<T>::ExternalSignal),
        forall|i: int|
            0 <= i < system.commands.len() ==> (#[trigger] system.after_request(
                Request::KillAll,
            ).run(events).commands[i] matches CommandState::Stopped(record) ==> record.killed
                == Some(KillReason::<T>::ExternalSignal)),
{
    let n = system.commands.len() as int;
    every_running_command_is_a_target(system.commands, n);
    let killed = system.after_request(Request::KillAll);
    assert forall|i: int| 0 <= i < n implies (#[trigger] killed.run(
        events,
    ).commands[i]).kill_reason() == Some(KillReason::<T>::ExternalSignal) by {
        assert(system.commands[i] is Spawned);
        assert(system.agrees_with(system.commands[i]));
        reason_is_kept(killed, events, i);
    }
}

/// Where every command below `n` is running, the order names each of them.
proof fn every_running_command_is_a_target<T>(commands: Seq<CommandState<T>>, n: int)
    requires
        0 <= n <= commands.len() <= usize::MAX,
        forall|i: int| 0 <= i < n ==> #[trigger] commands[i] is Spawned,
    ensures
        spawned_below(commands, n) == Seq::new(n as nat, |i: int| i as usize),
    decreases n,
{
    if n > 0 {
        every_running_command_is_a_target(commands, n - 1);
        assert(commands[n - 1] is Spawned);
    }
    assert(spawned_below(commands, n) =~= Seq::new(n as nat, |i: int| i as usize));
}

/// The reason recorded on a command stays on it, whatever happens next, and
/// goes into its final record.
pub proof fn reason_is_kept<T>(system: SystemView<T>, events: Seq<Event<T>>, index: int)
    requires
        0 <= index < system.commands.len(),
        system.commands[index].kill_reason() is Some,
    ensures
        system.run(events).commands.len() == system.commands.len(),
        system.run(events).commands[index].kill_reason() == system.commands[index].kill_reason(),
    decreases events.len(),
{
    if events.len() > 0 {
        reason_is_kept(system, events.drop_last(), index);
    }
}

/// Under `WhenAnyExited` the first report of an exit that the coordinator
/// handles makes it decide, with the record of that exit as the reason. The
/// order names every command that is still running and no other; a command that
/// has stopped is left as it is.
pub proof fn any_exit_terminates_the_rest<T>(
    system: SystemView<T>,
    record: Arc<CommandStopped<T>>,
)
    requires
        system.wf(),
        system.decision is None,
        system.kill_behavior == KillBehavior::WhenAnyExited,
    ensures
        system.verdict(Request::CommandExited(record)) == Some(
            KillReason::OtherCommandExited(record),
        ),
        forall|i: int|
            0 <= i < system.commands.len() ==> {
                let before = #[trigger] system.commands[i];
                let after = system.after_request(Request::CommandExited(record)).commands[i];
                if before is Spawned {
                    &&& system.targets().contains(i as usize)
                    &&& after is Spawned
                    &&& after.kill_reason() == Some(KillReason::OtherCommandExited(record))
                } else {
                    &&& !system.targets().contains(i as usize)
                    &&& after == before
                }
            },
{
    targets_are_the_running_commands(system.commands, system.commands.len() as int);
    assert forall|i: int| 0 <= i < system.commands.len() implies {
        let before = #[trigger] system.commands[i];
        let after = system.after_request(Request::CommandExited(record)).commands[i];
        if before is Spawned {
            &&& system.targets().contains(i as usize)
            &&& after is Spawned
            &&& after.kill_reason() == Some(KillReason::OtherCommandExited(record))
        } else {
            &&& !system.targets().contains(i as usize)
            &&& after == before
        }
    } by {
        assert(system.agrees_with(system.commands[i]));
    }
}

/// Where every command has stopped before a decision is taken, no command is
/// ordered to terminate and no state changes, whatever the request and the
/// policy.
pub proof fn nothing_to_terminate_once_all_stopped<T>(system: SystemView<T>, request: Request<T>)
    requires
        system.wf(),
        system.all_stopped(),
    ensures
        system.targets() == Seq::<usize>::empty(),
        system.after_request(request).commands == system.commands,
{
    targets_are_the_running_commands(system.commands, system.commands.len() as int);
    let targets = system.targets();
    if targets.len() > 0 {
        assert(targets.contains(targets[0]));
        assert(system.commands[targets[0] as int] is Stopped);
    }
    assert(targets =~= Seq::<usize>::empty());
    assert(system.after_request(request).commands =~= system.commands);
}

/// Under `WhenAnyExitedWithStatus(Success)` a command terminates the others
/// exactly where it exits cleanly, with the code zero: an exit with another
/// code, one without a code and one whose status is not known never do.
pub proof fn success_pattern_matches_clean_exits_only(outcome: ExitOutcome)
    ensures
        KillBehavior::WhenAnyExitedWithStatus(ExitStatusPattern::Success).kills_on(outcome) <==> outcome
            == (ExitOutcome::Exited { code: Some(0i32) }),
        outcome is Undetermined ==> !KillBehavior::WhenAnyExitedWithStatus(
            ExitStatusPattern::Success,
        ).kills_on(outcome),
{
}

/// Under `WhenAnyExitedWithStatus(Failed)` a command terminates the others
/// exactly where it does not exit cleanly; an exit whose status is not known
/// counts as a failure.
pub proof fn failed_pattern_matches_every_other_exit(outcome: ExitOutcome)
    ensures
        KillBehavior::WhenAnyExitedWithStatus(ExitStatusPattern::Failed).kills_on(outcome) <==> outcome
            != (ExitOutcome::Exited { code: Some(0i32) }),
        outcome is Undetermined ==> KillBehavior::WhenAnyExitedWithStatus(
            ExitStatusPattern::Failed,
        ).kills_on(outcome),
{
}

/// Under `WhenAnyExitedWithStatus(StatusCode(code))` a command terminates the
/// others exactly where it exits with that code: another code, no code, and a
/// status that is not known never match.
pub proof fn status_code_pattern_matches_that_code_only(code: i32, outcome: ExitOutcome)
    ensures
        KillBehavior::WhenAnyExitedWithStatus(ExitStatusPattern::StatusCode(code)).kills_on(
            outcome,
        ) <==> outcome == (ExitOutcome::Exited { code: Some(code) }),
        outcome is Undetermined ==> !KillBehavior::WhenAnyExitedWithStatus(
            ExitStatusPattern::StatusCode(code),
        ).kills_on(outcome),
{
}

/// However a run goes, the supervisor holds one state for each command it was
/// given, in the order in which they were given, and a command that has stopped
/// has one record, with the data that the command was started with. Once all
/// have stopped, the final records are these, one for each command, in that
/// order.
pub proof fn one_record_for_each_command<T>(
    data: Seq<T>,
    kill_behavior: KillBehavior,
    events: Seq<Event<T>>,
)
    requires
        data.len() <= usize::MAX,
    ensures
        SystemView::initial(data, kill_behavior).wf(),
        SystemView::initial(data, kill_behavior).run(events).commands.len() == data.len(),
        forall|i: int|
            0 <= i < data.len() ==> (#[trigger] SystemView::initial(data, kill_behavior).run(
                events,
            ).commands[i] matches CommandState::Stopped(record) ==> record.data == data[i]),
        SystemView::initial(data, kill_behavior).run(events).all_stopped() ==> {
            let records = SystemView::initial(data, kill_behavior).run(events).records();
            &&& records.len() == data.len()
            &&& forall|i: int| 0 <= i < data.len() ==> (#[trigger] records[i]).data == data[i]
        },
{
    let start = SystemView::initial(data, kill_behavior);
    run_keeps_invariant(start, events);
    assert forall|i: int| 0 <= i < data.len() implies data_is_kept(
        start.run(events).commands[i],
        data[i],
    ) by {
        data_stays(start, events, i);
        assert(data_is_kept(start.commands[i], data[i]));
    }
}

/// In a run whose reports are true, a decision that follows an exit names a
/// command of the run: the record in its reason is the final record of one of
/// the commands, and that command was not itself told to terminate.
pub proof fn cause_is_a_command_of_the_run<T>(
    data: Seq<T>,
    kill_behavior: KillBehavior,
    events: Seq<Event<T>>,
)
    requires
        data.len() <= usize::MAX,
        SystemView::initial(data, kill_behavior).reports_are_true(events),
    ensures
        SystemView::initial(data, kill_behavior).run(events).decision matches Some(
            KillReason::OtherCommandExited(record),
        ) ==> {
            &&& SystemView::initial(data, kill_behavior).run(events).holds_record(record)
            &&& record.killed is None
        },
    decreases events.len(),
{
    let start = SystemView::initial(data, kill_behavior);
    if events.len() > 0 {
        let before = start.run(events.drop_last());
        let after = start.run(events);
        cause_is_a_command_of_the_run(data, kill_behavior, events.drop_last());
        run_keeps_invariant(start, events.drop_last());
        match after.decision {
            Some(KillReason::OtherCommandExited(record)) => {
                if before.decision is None {
                    assert(events.last() == Event::Received {
                        request: Request::CommandExited(record),
                    });
                }
                let i = choose|i: int|
                    0 <= i < before.commands.len() && #[trigger] before.commands[i]
                        == CommandState::Stopped(record);
                assert(before.agrees_with(before.commands[i]));
                assert(after.commands[i] == CommandState::Stopped(record));
            },
            _ => {},
        }
    }
}

/// Whether a command carries `data`: as a running command, or in its record.
pub open spec fn data_is_kept<T>(command: CommandState<T>, data: T) -> bool {
    match command {
        CommandState::Processing => false,
        CommandState::Spawned { data: held, .. } => held == data,
        CommandState::Stopped(record) => record.data == data,
    }
}

/// The data of a command stays with it through every run.
pub proof fn data_stays<T>(system: SystemView<T>, events: Seq<Event<T>>, index: int)
    requires
        0 <= index < system.commands.len(),
        !(system.commands[index] is Processing),
    ensures
        system.run(events).commands.len() == system.commands.len(),
        forall|data: T|
            data_is_kept(system.commands[index], data) ==> data_is_kept(
                system.run(events).commands[index],
                data,
            ),
        !(system.run(events).commands[index] is Processing),
    decreases events.len(),
{
    if events.len() > 0 {
        data_stays(system, events.drop_last(), index);
    }
}

} // verus!
