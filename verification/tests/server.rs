use igniter::config;
use igniter::manager::job;
use igniter::manager::job::{Desired, Error, Phase, Probe, Status};
use igniter::manager::server::{State, TICK_MILLIS};
use igniter::rpc::{Message, TransportError};

fn launch(program: &str, args: &[&str]) -> config::Process {
    config::Process {
        program: program.to_string(),
        args: args.iter().map(|a| a.to_string()).collect(),
    }
}

fn start(name: &str, program: &str, args: &[&str]) -> Message {
    Message::Start(name.to_string(), launch(program, args))
}

fn stop(name: &str) -> Message {
    Message::Stop(name.to_string())
}

/// Phase, desired status and retries of each record, in table order.
fn snapshot(state: &State) -> Vec<(String, Phase, Desired, u32)> {
    (0..state.len())
        .map(|i| {
            let p = state.process(i);
            (p.name().to_string(), p.job().phase(), p.desired_status(), p.retries())
        })
        .collect()
}

#[test]
fn new_table_is_empty() {
    let state = State::new();
    assert_eq!(state.len(), 0);
    assert!(!state.quit_requested());
    assert_eq!(state.max_retries(), 0);
    assert_eq!(TICK_MILLIS, 100);
}

#[test]
fn start_message_creates_a_record_asked_to_run() {
    let mut state = State::new().with_max_retries(4);
    state.handle(start("web", "sleep", &["100"]));
    assert_eq!(state.len(), 1);
    let record = state.process(0);
    assert_eq!(record.name(), "web");
    assert_eq!(record.job().program(), "sleep");
    assert_eq!(record.job().args(), &vec!["100".to_string()]);
    assert_eq!(record.desired_status(), Desired::Running);
    assert_eq!(record.job().phase(), Phase::NotStarted);
    assert_eq!(record.retries(), 0);
    assert_eq!(record.max_retries(), 4);
    assert_eq!(state.position(&"web".to_string()), Some(0));
    assert_eq!(state.position(&"db".to_string()), None);
}

#[test]
fn start_message_spawns_nothing_until_the_next_tick() {
    let mut state = State::new();
    // tick T: nothing to reconcile, then the message arrives.
    let decisions = state.reconcile(&Vec::new());
    assert!(decisions.is_empty());
    state.receive(Ok(Some(start("web", "sleep", &["100"]))));
    assert_eq!(state.process(0).job().child(), None);
    assert_eq!(state.process(0).job().last_status(), Status::NotStarted);
    // tick T+1: the launch is asked for.
    let decisions = state.reconcile(&vec![Probe::Alive]);
    assert_eq!(decisions, vec![Ok(Some(job::Action::Start))]);
    state.start(0, Some(77)).unwrap();
    assert_eq!(state.process(0).job().phase(), Phase::Running(77));
}

#[test]
fn second_start_with_same_name_changes_nothing() {
    let mut state = State::new();
    state.handle(start("web", "sleep", &["100"]));
    state.reconcile(&vec![Probe::Alive]);
    state.start(0, Some(5)).unwrap();
    let before = snapshot(&state);
    state.handle(start("web", "yes", &[]));
    assert_eq!(state.len(), 1);
    assert_eq!(snapshot(&state), before);
    assert_eq!(state.process(0).job().program(), "sleep");
    assert_eq!(state.process(0).job().args(), &vec!["100".to_string()]);
    assert_eq!(state.reconcile(&vec![Probe::Alive]), vec![Ok(None)]);
    assert_eq!(state.process(0).job().child(), Some(5));
}

#[test]
fn names_stay_unique_over_many_messages() {
    let mut state = State::new();
    for name in ["a", "b", "a", "c", "b", "a"] {
        state.handle(start(name, "x", &[]));
        state.handle(stop(name));
        state.handle(start(name, "y", &[]));
    }
    assert_eq!(state.len(), 3);
    let names: Vec<String> = snapshot(&state).into_iter().map(|r| r.0).collect();
    assert_eq!(names, vec!["a".to_string(), "b".to_string(), "c".to_string()]);
    assert_eq!(state.process(0).job().program(), "x");
}

#[test]
fn stop_of_unknown_name_is_a_no_op() {
    let mut state = State::new();
    state.handle(stop("ghost"));
    assert_eq!(state.len(), 0);
    state.handle(start("web", "sleep", &[]));
    let before = snapshot(&state);
    state.handle(stop("ghost"));
    assert_eq!(snapshot(&state), before);
}

#[test]
fn stop_is_idempotent_and_never_spawns() {
    let mut state = State::new();
    state.handle(start("web", "sleep", &[]));
    state.handle(stop("web"));
    let once = snapshot(&state);
    assert_eq!(once[0].2, Desired::Stopped);
    assert_eq!(once[0].1, Phase::NotStarted);
    state.handle(stop("web"));
    assert_eq!(snapshot(&state), once);
    for probe in [Probe::Alive, Probe::Exited(Some(1)), Probe::Failed] {
        assert_eq!(state.reconcile(&vec![probe]), vec![Ok(None)]);
        assert_eq!(snapshot(&state), once);
    }
}

#[test]
fn stop_touches_only_the_named_job() {
    let mut state = State::new();
    state.handle(start("web", "sleep", &[]));
    state.handle(start("db", "sleep", &[]));
    state.handle(stop("db"));
    assert_eq!(state.process(0).desired_status(), Desired::Running);
    assert_eq!(state.process(1).desired_status(), Desired::Stopped);
}

#[test]
fn status_message_changes_nothing() {
    let mut state = State::new();
    state.handle(start("web", "sleep", &[]));
    state.reconcile(&vec![Probe::Alive]);
    state.start(0, Some(5)).unwrap();
    let before = snapshot(&state);
    state.handle(Message::Status);
    assert_eq!(snapshot(&state), before);
    assert!(!state.quit_requested());
}

#[test]
fn stopped_job_is_taken_up_again_by_start() {
    let mut state = State::new();
    state.handle(start("web", "sleep", &[]));
    state.reconcile(&vec![Probe::Alive]);
    state.start(0, Some(5)).unwrap();
    state.handle(stop("web"));
    assert_eq!(state.reconcile(&vec![Probe::Alive]), vec![Ok(Some(job::Action::Stop))]);
    assert_eq!(state.stop(0, true), Ok(()));
    assert_eq!(state.reconcile(&vec![Probe::Exited(None)]), vec![Ok(None)]);
    state.handle(start("web", "other", &["arg"]));
    assert_eq!(state.len(), 1);
    assert_eq!(state.process(0).desired_status(), Desired::Running);
    assert_eq!(state.process(0).job().program(), "sleep");
    assert_eq!(state.reconcile(&vec![Probe::Alive]), vec![Ok(Some(job::Action::Start))]);
    state.start(0, Some(6)).unwrap();
    assert_eq!(state.process(0).job().phase(), Phase::Running(6));
    assert_eq!(state.process(0).retries(), 0);
}

#[test]
fn scenario_normal_run() {
    let mut declared = config::Config::new();
    declared.insert("web".to_string(), launch("sleep", &["100"]));
    let mut state = State::new();
    state.load(&declared);
    assert_eq!(state.len(), 1);
    assert_eq!(state.process(0).desired_status(), Desired::Running);

    assert_eq!(state.reconcile(&vec![Probe::Alive]), vec![Ok(Some(job::Action::Start))]);
    state.start(0, Some(300)).unwrap();
    state.receive(Ok(Some(Message::Status)));
    assert_eq!(state.process(0).job().last_status(), Status::Running);

    assert_eq!(state.reconcile(&vec![Probe::Alive]), vec![Ok(None)]);
    state.receive(Ok(Some(stop("web"))));
    assert_eq!(state.process(0).job().last_status(), Status::Running);

    // first tick after the stop: the signal goes out
    assert_eq!(state.reconcile(&vec![Probe::Alive]), vec![Ok(Some(job::Action::Stop))]);
    assert_eq!(state.stop(0, true), Ok(()));
    state.receive(Ok(None));
    // second tick: the exit is seen
    assert_eq!(state.reconcile(&vec![Probe::Exited(None)]), vec![Ok(None)]);
    assert_eq!(state.process(0).job().last_status(), Status::Exited(None));
    assert_eq!(state.process(0).desired_status(), Desired::Stopped);
    assert_eq!(state.reconcile(&vec![Probe::Alive]), vec![Ok(None)]);
    assert_eq!(state.process(0).desired_status(), Desired::Stopped);
}

#[test]
fn scenario_crash_loop_bounded() {
    let mut state = State::new().with_max_retries(2);
    state.handle(start("flaky", "false", &[]));
    assert_eq!(state.reconcile(&vec![Probe::Alive]), vec![Ok(Some(job::Action::Start))]);
    state.start(0, Some(1)).unwrap();

    let mut restarts = 0;
    for tick in 0..3u32 {
        let decisions = state.reconcile(&vec![Probe::Exited(Some(1))]);
        if decisions[0] == Ok(Some(job::Action::Start)) {
            restarts += 1;
            state.start(0, Some(2 + tick)).unwrap();
        }
        state.receive(Ok(None));
    }
    assert_eq!(restarts, 2);
    assert_eq!(state.process(0).job().last_status(), Status::Exited(Some(1)));
    assert_eq!(state.process(0).desired_status(), Desired::Running);
    assert!(state.process(0).is_exhausted());
    assert_eq!(
        state.reconcile(&vec![Probe::Alive]),
        vec![Err(Error::RetryBudgetExhausted)]
    );
    assert_eq!(state.process(0).retries(), 2);
}

#[test]
fn scenario_graceful_quit() {
    let mut state = State::new();
    state.handle(start("a", "sleep", &["100"]));
    state.handle(start("b", "sleep", &["100"]));
    state.reconcile(&vec![Probe::Alive, Probe::Alive]);
    state.start(0, Some(10)).unwrap();
    state.start(1, Some(11)).unwrap();

    let mut ticks = 0;
    let mut inbox = vec![Ok(Some(Message::Quit)), Ok(None)];
    while !state.quit_requested() {
        state.reconcile(&vec![Probe::Alive, Probe::Alive]);
        state.receive(inbox.pop().unwrap());
        ticks += 1;
    }
    assert_eq!(ticks, 2);
    assert!(state.quit_requested());
    assert_eq!(state.process(0).job().phase(), Phase::Running(10));
    assert_eq!(state.process(1).job().phase(), Phase::Running(11));
    assert_eq!(state.process(0).desired_status(), Desired::Running);
}

#[test]
fn quit_keeps_the_table() {
    let mut state = State::new();
    state.handle(start("a", "sleep", &[]));
    let before = snapshot(&state);
    state.handle(Message::Quit);
    assert!(state.quit_requested());
    assert_eq!(snapshot(&state), before);
}

#[test]
fn one_job_failing_does_not_affect_another() {
    let mut state = State::new().with_max_retries(1);
    state.handle(start("good", "sleep", &[]));
    state.handle(start("bad", "false", &[]));
    state.reconcile(&vec![Probe::Alive, Probe::Alive]);
    state.start(0, Some(1)).unwrap();
    assert_eq!(state.start(1, None), Err(Error::Spawn));
    state.start(1, Some(2)).unwrap();
    let decisions = state.reconcile(&vec![Probe::Alive, Probe::Failed]);
    assert_eq!(decisions, vec![Ok(None), Err(Error::Poll)]);
    let decisions = state.reconcile(&vec![Probe::Alive, Probe::Exited(Some(1))]);
    assert_eq!(decisions, vec![Ok(None), Ok(Some(job::Action::Start))]);
    assert_eq!(state.process(0).retries(), 0);
    assert_eq!(state.process(1).retries(), 1);
    assert_eq!(state.process(0).job().phase(), Phase::Running(1));
}

#[test]
fn single_reconciliation_agrees_with_the_whole_pass() {
    let mut one = State::new();
    let mut all = State::new();
    for state in [&mut one, &mut all] {
        state.handle(start("a", "x", &[]));
        state.handle(start("b", "y", &[]));
    }
    let first = one.try_reconciliate(0, Probe::Alive);
    let second = one.try_reconciliate(1, Probe::Failed);
    assert_eq!(all.reconcile(&vec![Probe::Alive, Probe::Failed]), vec![first, second]);
    assert_eq!(snapshot(&one), snapshot(&all));
}

#[test]
fn transport_failures_change_nothing() {
    let mut state = State::new();
    state.handle(start("a", "sleep", &[]));
    let before = snapshot(&state);
    state.receive(Ok(None));
    state.receive(Err(TransportError::Accept));
    state.receive(Err(TransportError::Read));
    state.receive(Err(TransportError::Decode));
    assert_eq!(snapshot(&state), before);
    assert!(!state.quit_requested());
}

#[test]
fn load_declares_every_process_once() {
    let mut declared = config::Config::new();
    declared.insert("web".to_string(), launch("sleep", &["1"]));
    declared.insert("db".to_string(), launch("sleep", &["2"]));
    let mut state = State::new().with_max_retries(3);
    state.handle(start("db", "first", &[]));
    state.load(&declared);
    assert_eq!(state.len(), 2);
    assert_eq!(state.process(0).name(), "db");
    assert_eq!(state.process(0).job().program(), "first");
    assert_eq!(state.process(1).name(), "web");
    assert_eq!(state.process(1).max_retries(), 3);
    assert_eq!(state.process(1).desired_status(), Desired::Running);
}

#[test]
fn undelivered_signal_is_reported_and_changes_nothing() {
    let mut state = State::new();
    state.handle(start("web", "sleep", &[]));
    assert_eq!(state.stop(0, false), Ok(()));
    state.reconcile(&vec![Probe::Alive]);
    state.start(0, Some(5)).unwrap();
    state.handle(stop("web"));
    assert_eq!(state.reconcile(&vec![Probe::Alive]), vec![Ok(Some(job::Action::Stop))]);
    let before = snapshot(&state);
    assert_eq!(state.stop(0, false), Err(Error::Signal));
    assert_eq!(snapshot(&state), before);
    // the next tick asks again
    assert_eq!(state.reconcile(&vec![Probe::Alive]), vec![Ok(Some(job::Action::Stop))]);
}

#[test]
fn whole_ticks_carry_a_start_to_the_next_tick() {
    let mut state = State::new();
    state.handle(start("old", "sleep", &[]));
    // tick T
    let decisions = state.reconcile(&vec![Probe::Alive]);
    assert_eq!(decisions, vec![Ok(Some(job::Action::Start))]);
    state.start(0, Some(1)).unwrap();
    state.receive(Ok(Some(start("new", "sleep", &[]))));
    assert_eq!(state.len(), 2);
    assert_eq!(state.process(1).job().phase(), Phase::NotStarted);
    // tick T + 1
    let decisions = state.reconcile(&vec![Probe::Alive, Probe::Exited(Some(1))]);
    assert_eq!(decisions, vec![Ok(None), Ok(Some(job::Action::Start))]);
    assert_eq!(state.start(1, None), Err(Error::Spawn));
    assert_eq!(state.process(1).job().phase(), Phase::NotStarted);
    // tick T + 2
    let decisions = state.reconcile(&vec![Probe::Alive, Probe::Alive]);
    assert_eq!(decisions, vec![Ok(None), Ok(Some(job::Action::Start))]);
    state.start(1, Some(2)).unwrap();
    assert_eq!(state.process(1).job().phase(), Phase::Running(2));
}
