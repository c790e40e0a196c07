use runcc::channel::Request;
use runcc::command::{CommandStopped, KillReason};
use runcc::plugin::{exit_notice, exit_report, report_exit};
use runcc::status::ExitOutcome;
use runcc::system::{decide, KillOrder};
use runcc::{
    CommandSystem, CommandSystemPlugin, ExitStatusPattern, KillBehavior, LabeledCommandData,
};
use std::sync::{Arc, Mutex};
use tokio::process::{ChildStderr, ChildStdout};
use tokio::sync::mpsc::error::TryRecvError;
use tokio::sync::mpsc::Receiver;

struct Recorder {
    exited: Mutex<Vec<&'static str>>,
}

impl Recorder {
    fn new() -> Recorder {
        Recorder { exited: Mutex::new(Vec::new()) }
    }

    fn exited(&self) -> Vec<&'static str> {
        self.exited.lock().unwrap().clone()
    }
}

impl CommandSystemPlugin<&'static str> for Recorder {
    type CommandInitialData = LabeledCommandData;

    fn initialize_command_data(
        &self,
        _data: LabeledCommandData,
        _stdout: ChildStdout,
        _stderr: ChildStderr,
    ) -> &'static str {
        "initialized"
    }

    fn on_command_exited(&self, cmd: Arc<CommandStopped<&'static str>>) {
        self.exited.lock().unwrap().push(cmd.data);
    }
}

struct Silent;

impl CommandSystemPlugin<&'static str> for Silent {
    type CommandInitialData = ();

    fn initialize_command_data(
        &self,
        _data: (),
        _stdout: ChildStdout,
        _stderr: ChildStderr,
    ) -> &'static str {
        "silent"
    }
}

type System = CommandSystem<&'static str, Recorder>;

fn system_of(
    names: Vec<&'static str>,
    policy: KillBehavior,
) -> (System, Receiver<Request<&'static str>>) {
    CommandSystem::new(names, policy, Recorder::new())
}

fn exited(code: i32) -> ExitOutcome {
    ExitOutcome::Exited { code: Some(code) }
}

fn policies() -> Vec<KillBehavior> {
    vec![
        KillBehavior::Never,
        KillBehavior::WhenAnyExited,
        KillBehavior::WhenAnyExitedWithStatus(ExitStatusPattern::Success),
        KillBehavior::WhenAnyExitedWithStatus(ExitStatusPattern::Failed),
        KillBehavior::WhenAnyExitedWithStatus(ExitStatusPattern::StatusCode(9)),
    ]
}

fn caused_by(record: &CommandStopped<&'static str>, cause: &Arc<CommandStopped<&'static str>>) -> bool {
    match &record.killed {
        Some(KillReason::OtherCommandExited(other)) => Arc::ptr_eq(other, cause),
        _ => false,
    }
}

#[test]
fn new_system_runs_every_command() {
    let (system, _rx) = system_of(vec!["a", "b", "c"], KillBehavior::WhenAnyExited);
    assert_eq!(system.len(), 3);
    assert_eq!(system.kill_behavior(), KillBehavior::WhenAnyExited);
    assert!(system.is_spawned(0));
    assert!(system.is_spawned(1));
    assert!(system.is_spawned(2));
    assert!(!system.is_spawned(3));
    assert!(!system.is_spawned(usize::MAX));
    assert!(!system.is_decided());
    assert!(!system.all_stopped());
}

#[test]
fn decision_channel_has_one_slot() {
    let (one, _rx1) = system_of(vec!["a"], KillBehavior::Never);
    assert_eq!(one.share_killer().sender().max_capacity(), 1);
    let (many, _rx2) = system_of(vec!["a", "b", "c", "d"], KillBehavior::Never);
    assert_eq!(many.share_killer().sender().max_capacity(), 1);
}

#[test]
fn kill_all_is_the_request_to_terminate_everything() {
    let (system, _rx) = system_of(vec!["a"], KillBehavior::Never);
    assert!(matches!(system.kill_all(), Request::KillAll));
    assert!(matches!(system.share_killer().kill_all(), Request::KillAll));
    assert!(matches!(system.share_killer().clone().kill_all(), Request::KillAll));
}

#[test]
fn shared_killer_sends_into_the_decision_channel() {
    let (system, mut rx) = system_of(vec!["a", "b"], KillBehavior::Never);
    let killer = system.share_killer();
    assert!(matches!(rx.try_recv(), Err(TryRecvError::Empty)));
    killer.sender().try_send(killer.kill_all()).expect("the channel is open and empty");
    assert!(matches!(rx.try_recv(), Ok(Request::KillAll)));
    let copy = killer.clone();
    copy.sender().try_send(copy.kill_all()).expect("the channel is open and empty");
    assert!(matches!(rx.try_recv(), Ok(Request::KillAll)));
}

#[test]
fn decide_on_kill_all_is_external_signal_under_every_policy() {
    for policy in policies() {
        let decision = decide::<&'static str>(&policy, &Request::KillAll);
        assert!(matches!(decision, Some(KillReason::ExternalSignal)));
    }
}

#[test]
fn decide_on_an_exit_follows_the_policy() {
    let record =
        Arc::new(CommandStopped { data: "a", exit: exited(9), killed: None });
    let request = Request::CommandExited(record.clone());
    assert!(decide(&KillBehavior::Never, &request).is_none());
    assert!(decide(&KillBehavior::WhenAnyExitedWithStatus(ExitStatusPattern::Success), &request)
        .is_none());
    for policy in [
        KillBehavior::WhenAnyExited,
        KillBehavior::WhenAnyExitedWithStatus(ExitStatusPattern::Failed),
        KillBehavior::WhenAnyExitedWithStatus(ExitStatusPattern::StatusCode(9)),
    ] {
        match decide(&policy, &request) {
            Some(KillReason::OtherCommandExited(cause)) => assert!(Arc::ptr_eq(&cause, &record)),
            _ => panic!("no decision under {:?}", policy),
        }
    }
}

#[test]
fn command_exited_makes_the_final_record() {
    let (mut system, _rx) = system_of(vec!["a", "b"], KillBehavior::Never);
    let record = system.command_exited(1, exited(4));
    assert_eq!(record.data, "b");
    assert_eq!(record.exit, exited(4));
    assert!(record.killed.is_none());
    assert!(system.is_spawned(0));
    assert!(!system.is_spawned(1));
    assert!(!system.all_stopped());
    assert!(!system.is_decided());
}

#[test]
fn kill_all_before_any_exit_reaches_every_command() {
    for policy in policies() {
        let (mut system, _rx) = system_of(vec!["a", "b", "c"], policy);
        let request = system.kill_all();
        let order: KillOrder<&'static str> =
            system.handle_request(request).expect("a request to terminate everything decides");
        assert!(matches!(order.reason, KillReason::ExternalSignal));
        assert_eq!(order.targets, vec![0, 1, 2]);
        assert!(system.is_decided());
        assert!(system.is_spawned(0) && system.is_spawned(1) && system.is_spawned(2));
        system.command_exited(2, ExitOutcome::Exited { code: None });
        system.command_exited(0, exited(0));
        system.command_exited(1, ExitOutcome::Undetermined { error: String::from("gone") });
        assert!(system.all_stopped());
        let records = system.wait_into_stopped_commands();
        assert_eq!(records.len(), 3);
        for record in &records {
            assert!(matches!(record.killed, Some(KillReason::ExternalSignal)));
        }
    }
}

#[test]
fn kill_all_spares_the_commands_that_have_stopped() {
    let (mut system, _rx) = system_of(vec!["a", "b", "c"], KillBehavior::Never);
    let first = system.command_exited(1, exited(0));
    assert!(system.handle_request(Request::CommandExited(first.clone())).is_none());
    let order = system.handle_request(Request::KillAll).expect("decides");
    assert_eq!(order.targets, vec![0, 2]);
    system.command_exited(0, exited(0));
    system.command_exited(2, exited(0));
    let records = system.wait_into_stopped_commands();
    assert!(matches!(records[0].killed, Some(KillReason::ExternalSignal)));
    assert!(records[1].killed.is_none());
    assert!(Arc::ptr_eq(&records[1], &first));
    assert!(matches!(records[2].killed, Some(KillReason::ExternalSignal)));
}

#[test]
fn when_any_exited_the_first_exit_terminates_the_rest() {
    let (mut system, _rx) = system_of(vec!["a", "b", "c", "d"], KillBehavior::WhenAnyExited);
    let first = system.command_exited(2, exited(0));
    let order =
        system.handle_request(Request::CommandExited(first.clone())).expect("every exit decides");
    match &order.reason {
        KillReason::OtherCommandExited(cause) => assert!(Arc::ptr_eq(cause, &first)),
        KillReason::ExternalSignal => panic!("the wrong reason"),
    }
    assert_eq!(order.targets, vec![0, 1, 3]);
    let a = system.command_exited(0, ExitOutcome::Exited { code: None });
    assert!(caused_by(&a, &first));
    assert!(system.handle_request(Request::CommandExited(a)).is_none());
}

#[test]
fn when_all_exit_before_the_decision_nothing_is_terminated() {
    let (mut system, _rx) = system_of(vec!["a", "b"], KillBehavior::WhenAnyExited);
    let a = system.command_exited(0, exited(0));
    let b = system.command_exited(1, exited(0));
    assert!(system.all_stopped());
    let order = system.handle_request(Request::CommandExited(a)).expect("every exit decides");
    assert!(order.targets.is_empty());
    assert!(system.handle_request(Request::CommandExited(b)).is_none());
    let records = system.wait_into_stopped_commands();
    assert!(records[0].killed.is_none());
    assert!(records[1].killed.is_none());
}

#[test]
fn never_policy_with_all_exits_decides_nothing() {
    let (mut system, _rx) = system_of(vec!["a", "b"], KillBehavior::Never);
    let a = system.command_exited(0, exited(1));
    assert!(system.handle_request(Request::CommandExited(a)).is_none());
    let b = system.command_exited(1, ExitOutcome::Undetermined { error: String::new() });
    assert!(system.handle_request(Request::CommandExited(b)).is_none());
    assert!(!system.is_decided());
    assert!(system.all_stopped());
}

#[test]
fn success_policy_ignores_a_failed_exit_and_acts_on_a_clean_one() {
    let policy = KillBehavior::WhenAnyExitedWithStatus(ExitStatusPattern::Success);
    let (mut system, _rx) = system_of(vec!["a", "b", "c"], policy);
    let failed = system.command_exited(0, exited(1));
    assert!(system.handle_request(Request::CommandExited(failed)).is_none());
    assert!(!system.is_decided());
    assert!(system.is_spawned(1) && system.is_spawned(2));
    let clean = system.command_exited(1, exited(0));
    let order = system.handle_request(Request::CommandExited(clean.clone())).expect("decides");
    assert_eq!(order.targets, vec![2]);
    let last = system.command_exited(2, ExitOutcome::Exited { code: None });
    assert!(caused_by(&last, &clean));
}

#[test]
fn success_policy_ignores_an_undetermined_exit() {
    let policy = KillBehavior::WhenAnyExitedWithStatus(ExitStatusPattern::Success);
    let (mut system, _rx) = system_of(vec!["a", "b"], policy);
    let lost = system.command_exited(0, ExitOutcome::Undetermined { error: String::from("?") });
    assert!(system.handle_request(Request::CommandExited(lost)).is_none());
    assert!(system.is_spawned(1));
}

#[test]
fn status_code_policy_acts_on_the_exact_code_only() {
    let policy = KillBehavior::WhenAnyExitedWithStatus(ExitStatusPattern::StatusCode(9));
    let (mut system, _rx) = system_of(vec!["a", "b", "c", "d"], policy);
    let near = system.command_exited(0, exited(8));
    assert!(system.handle_request(Request::CommandExited(near)).is_none());
    let lost = system.command_exited(1, ExitOutcome::Undetermined { error: String::from("?") });
    assert!(system.handle_request(Request::CommandExited(lost)).is_none());
    assert!(!system.is_decided());
    let exact = system.command_exited(2, exited(9));
    let order = system.handle_request(Request::CommandExited(exact)).expect("decides");
    assert_eq!(order.targets, vec![3]);
}

#[test]
fn failed_policy_acts_on_an_undetermined_exit() {
    let policy = KillBehavior::WhenAnyExitedWithStatus(ExitStatusPattern::Failed);
    let (mut system, _rx) = system_of(vec!["a", "b"], policy);
    let lost = system.command_exited(1, ExitOutcome::Undetermined { error: String::from("?") });
    let order = system.handle_request(Request::CommandExited(lost)).expect("decides");
    assert_eq!(order.targets, vec![0]);
}

#[test]
fn repeated_kill_all_is_acted_upon_once() {
    let (mut system, _rx) = system_of(vec!["a", "b"], KillBehavior::Never);
    let killer = system.share_killer();
    let copy = killer.clone();
    assert!(system.handle_request(killer.kill_all()).is_some());
    assert!(system.handle_request(killer.kill_all()).is_none());
    assert!(system.handle_request(copy.kill_all()).is_none());
    assert!(system.handle_request(system.kill_all()).is_none());
    assert!(system.is_spawned(0) && system.is_spawned(1));
    let a = system.command_exited(0, exited(0));
    assert!(matches!(a.killed, Some(KillReason::ExternalSignal)));
}

#[test]
fn kill_all_after_an_exit_decision_changes_nothing() {
    let (mut system, _rx) = system_of(vec!["a", "b", "c"], KillBehavior::WhenAnyExited);
    let first = system.command_exited(0, exited(3));
    assert!(system.handle_request(Request::CommandExited(first.clone())).is_some());
    assert!(system.handle_request(Request::KillAll).is_none());
    let b = system.command_exited(1, exited(0));
    let c = system.command_exited(2, exited(0));
    assert!(caused_by(&b, &first));
    assert!(caused_by(&c, &first));
}

#[test]
fn wait_returns_one_record_for_each_command_in_order() {
    let (mut system, _rx) = system_of(vec!["a", "b", "c", "d"], KillBehavior::Never);
    let d = system.command_exited(3, exited(3));
    let b = system.command_exited(1, exited(1));
    let a = system.command_exited(0, exited(0));
    assert!(!system.all_stopped());
    let c = system.command_exited(2, exited(2));
    assert!(system.all_stopped());
    let records = system.wait_into_stopped_commands();
    assert_eq!(records.len(), 4);
    assert!(Arc::ptr_eq(&records[0], &a));
    assert!(Arc::ptr_eq(&records[1], &b));
    assert!(Arc::ptr_eq(&records[2], &c));
    assert!(Arc::ptr_eq(&records[3], &d));
    let names: Vec<&str> = records.iter().map(|record| record.data).collect();
    assert_eq!(names, vec!["a", "b", "c", "d"]);
    let codes: Vec<Option<i32>> = records.iter().map(|record| record.exit.code()).collect();
    assert_eq!(codes, vec![Some(0), Some(1), Some(2), Some(3)]);
}

#[test]
fn three_commands_one_fails_and_the_others_are_terminated() {
    let policy = KillBehavior::WhenAnyExitedWithStatus(ExitStatusPattern::Failed);
    let (mut system, _rx) = system_of(vec!["A", "B", "C"], policy);
    let b = system.command_exited(1, exited(1));
    let order = system.handle_request(Request::CommandExited(b.clone())).expect("B failed");
    match &order.reason {
        KillReason::OtherCommandExited(cause) => assert!(Arc::ptr_eq(cause, &b)),
        KillReason::ExternalSignal => panic!("the wrong reason"),
    }
    assert_eq!(order.targets, vec![0, 2]);
    system.command_exited(0, ExitOutcome::Exited { code: None });
    system.command_exited(2, ExitOutcome::Exited { code: None });
    assert!(system.all_stopped());
    let records = system.wait_into_stopped_commands();
    assert_eq!(records.len(), 3);
    assert!(caused_by(&records[0], &b));
    assert!(records[1].killed.is_none());
    assert!(caused_by(&records[2], &b));
    assert!(Arc::ptr_eq(&records[1], &b));
    assert_eq!(records[0].exit, ExitOutcome::Exited { code: None });
    assert_eq!(records[1].exit, exited(1));
    assert_eq!(records[2].exit, ExitOutcome::Exited { code: None });
}

#[test]
fn one_command_exits_cleanly_and_nothing_is_terminated() {
    let (mut system, _rx) = system_of(vec!["only"], KillBehavior::Never);
    let record = system.command_exited(0, exited(0));
    assert!(system.handle_request(Request::CommandExited(record)).is_none());
    assert!(!system.is_decided());
    let records = system.wait_into_stopped_commands();
    assert_eq!(records.len(), 1);
    assert!(records[0].exit.success());
    assert!(records[0].killed.is_none());
    assert_eq!(records[0].data, "only");
}

#[test]
fn exit_report_is_owed_while_the_channel_is_open() {
    let record = Arc::new(CommandStopped { data: "a", exit: exited(0), killed: None });
    match exit_report(record.clone(), false) {
        Some(Request::CommandExited(report)) => assert!(Arc::ptr_eq(&report, &record)),
        _ => panic!("no report"),
    }
    assert!(exit_report(record, true).is_none());
}

#[test]
fn report_exit_tells_the_plugin_and_reports_while_the_channel_is_open() {
    let (mut system, _rx) = system_of(vec!["a", "b"], KillBehavior::Never);
    let killer = system.share_killer();
    let plugin = system.plugin();
    let record = system.command_exited(1, exited(0));
    match report_exit(&*plugin, record.clone(), killer.sender()) {
        Some(Request::CommandExited(report)) => assert!(Arc::ptr_eq(&report, &record)),
        _ => panic!("no report"),
    }
    assert_eq!(plugin.exited(), vec!["b"]);
}

#[test]
fn report_exit_tells_the_plugin_and_keeps_quiet_once_the_channel_is_closed() {
    let (mut system, rx) = system_of(vec!["a", "b"], KillBehavior::Never);
    let killer = system.share_killer();
    let plugin = system.plugin();
    drop(rx);
    let a = system.command_exited(0, exited(0));
    assert!(report_exit(&*plugin, a, killer.sender()).is_none());
    let b = system.command_exited(1, exited(1));
    assert!(report_exit(&*plugin, b, killer.sender()).is_none());
    assert_eq!(plugin.exited(), vec!["a", "b"]);
}

#[test]
fn plugin_defaults_do_nothing() {
    let (mut system, _rx) = CommandSystem::new(vec!["a"], KillBehavior::Never, Silent);
    let plugin = system.plugin();
    assert!(plugin.join().is_none());
    let record = system.command_exited(0, exited(0));
    let killer = system.share_killer();
    assert!(report_exit(&*plugin, record, killer.sender()).is_some());
}

#[test]
fn shared_killers_send_into_the_channel_of_their_supervisor() {
    let (system, _rx) = system_of(vec!["a", "b"], KillBehavior::Never);
    let (other, _other_rx) = system_of(vec!["c"], KillBehavior::Never);
    let killer = system.share_killer();
    let copy = killer.clone();
    assert!(killer.sender().same_channel(copy.sender()));
    assert!(system.share_killer().sender().same_channel(copy.sender()));
    assert!(!other.share_killer().sender().same_channel(killer.sender()));
}

#[test]
fn copy_of_a_killer_reaches_the_same_receiver() {
    let (system, mut rx) = system_of(vec!["a"], KillBehavior::Never);
    let copy = system.share_killer().clone();
    copy.sender().try_send(Request::KillAll).expect("the channel is open and empty");
    assert!(matches!(rx.try_recv(), Ok(Request::KillAll)));
    drop(rx);
    assert!(copy.sender().is_closed());
    assert!(system.share_killer().sender().is_closed());
}

#[test]
fn exit_notice_owes_the_record_to_the_plugin_and_to_the_coordinator() {
    let record = Arc::new(CommandStopped { data: "a", exit: exited(5), killed: None });
    let notice = exit_notice(record.clone());
    assert!(Arc::ptr_eq(&notice.notify, &record));
    assert!(Arc::ptr_eq(&notice.report, &record));
}

#[test]
fn report_exit_tells_the_plugin_of_the_record_that_stopped() {
    let (mut system, rx) = system_of(vec!["a", "b", "c"], KillBehavior::Never);
    let killer = system.share_killer();
    let plugin = system.plugin();
    let c = system.command_exited(2, exited(0));
    assert!(report_exit(&*plugin, c, killer.sender()).is_some());
    assert_eq!(plugin.exited(), vec!["c"]);
    drop(rx);
    let a = system.command_exited(0, exited(1));
    assert!(report_exit(&*plugin, a, killer.sender()).is_none());
    assert_eq!(plugin.exited(), vec!["c", "a"]);
}

#[test]
fn supervisor_of_no_commands_has_nothing_to_wait_for() {
    for policy in policies() {
        let (system, _rx) = system_of(Vec::new(), policy);
        assert_eq!(system.len(), 0);
        assert_eq!(system.kill_behavior(), policy);
        assert!(!system.is_spawned(0));
        assert!(!system.is_decided());
        assert!(system.all_stopped());
        assert!(system.wait_into_stopped_commands().is_empty());
        assert!(system.plugin().exited().is_empty());
    }
}

#[test]
fn supervisor_of_no_commands_has_a_channel_of_one_slot() {
    let (system, mut rx) = system_of(Vec::new(), KillBehavior::Never);
    let killer = system.share_killer();
    assert_eq!(killer.sender().max_capacity(), 1);
    killer.sender().try_send(killer.kill_all()).expect("the channel is open and empty");
    assert!(matches!(rx.try_recv(), Ok(Request::KillAll)));
}

#[test]
fn kill_all_with_no_commands_decides_and_names_nothing() {
    let (mut system, _rx) = system_of(Vec::new(), KillBehavior::WhenAnyExited);
    let order = system.handle_request(Request::KillAll).expect("decides");
    assert!(matches!(order.reason, KillReason::ExternalSignal));
    assert!(order.targets.is_empty());
    assert!(system.is_decided());
    assert!(system.handle_request(Request::KillAll).is_none());
    assert!(system.wait_into_stopped_commands().is_empty());
}
