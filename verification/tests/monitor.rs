use igniter::monitor::file::{path_from_name, path_from_pid, procs_path};
use igniter::monitor::process::{build_args, build_env_vars};
use igniter::monitor::{start, Ending, Process, ProcessData, Verdict};
use igniter::settings::Settings;

fn strings(items: &[&str]) -> Vec<String> {
    items.iter().map(|s| s.to_string()).collect()
}

fn record(retries: i32, max_retries: i32) -> ProcessData {
    ProcessData {
        name: "worker".to_string(),
        cmd: "run".to_string(),
        monitor_pid: 0,
        child_pid: 0,
        args: vec![strings(&["--listen", "80"]), strings(&["-v"])],
        env: vec![strings(&["HOME", "/root"]), strings(&["LANG", "C", "ignored"])],
        retries,
        max_retries,
    }
}

#[test]
fn procs_path_is_under_home() {
    assert_eq!(procs_path("/home/u"), "/home/u/.igniter/procs");
    assert_eq!(procs_path(""), "/.igniter/procs");
}

#[test]
fn path_from_pid_names_the_record_by_number() {
    assert_eq!(path_from_pid("/home/u", 4711), "/home/u/.igniter/procs/4711.json");
    assert_eq!(path_from_pid("/home/u", 0), "/home/u/.igniter/procs/0.json");
    assert_eq!(path_from_pid("/home/u", -5), "/home/u/.igniter/procs/-5.json");
    assert_eq!(
        path_from_pid("/root", i32::MIN),
        "/root/.igniter/procs/-2147483648.json"
    );
}

#[test]
fn path_from_name_names_the_record_by_name() {
    assert_eq!(
        path_from_name("/home/u", "worker".to_string()),
        "/home/u/.igniter/procs/worker.json"
    );
    assert_eq!(path_from_name("/home/u", String::new()), "/home/u/.igniter/procs/.json");
}

#[test]
fn setters_record_the_pids() {
    let mut process = Process { data: record(0, 0) };
    process.monitor_pid(10);
    process.child_pid(11);
    assert_eq!(process.data.monitor_pid, 10);
    assert_eq!(process.data.child_pid, 11);
    assert_eq!(process.data.name, "worker");
    assert_eq!(process.data.retries, 0);
}

#[test]
fn increment_adds_exactly_one() {
    let mut process = Process { data: record(0, 3) };
    process.increment_retries();
    assert_eq!(process.data.retries, 1);
    process.increment_retries();
    assert_eq!(process.data.retries, 2);
    assert_eq!(process.data.max_retries, 3);
}

#[test]
fn should_retry_while_the_budget_is_not_spent() {
    assert!(!Process { data: record(0, 0) }.should_retry());
    assert!(Process { data: record(0, 1) }.should_retry());
    assert!(Process { data: record(2, 3) }.should_retry());
    assert!(!Process { data: record(3, 3) }.should_retry());
    assert!(!Process { data: record(4, 3) }.should_retry());
    assert!(!Process { data: record(0, -1) }.should_retry());
}

#[test]
fn build_args_lays_groups_out_in_order() {
    let args = vec![strings(&["--listen", "80"]), Vec::new(), strings(&["-v"])];
    assert_eq!(build_args(&args), strings(&["--listen", "80", "-v"]));
    assert!(build_args(&Vec::new()).is_empty());
    assert!(build_args(&vec![Vec::new(), Vec::new()]).is_empty());
}

#[test]
fn build_env_vars_takes_name_and_value() {
    let vars = vec![strings(&["HOME", "/root"]), strings(&["LANG", "C", "ignored"])];
    assert_eq!(
        build_env_vars(&vars),
        vec![
            ("HOME".to_string(), "/root".to_string()),
            ("LANG".to_string(), "C".to_string())
        ]
    );
    assert!(build_env_vars(&Vec::new()).is_empty());
}

#[test]
fn clone_copies_every_field() {
    let first = record(1, 2);
    let copy = first.clone();
    assert_eq!(copy.name, first.name);
    assert_eq!(copy.cmd, first.cmd);
    assert_eq!(copy.args, first.args);
    assert_eq!(copy.env, first.env);
    assert_eq!(copy.retries, 1);
    assert_eq!(copy.max_retries, 2);
}

#[test]
fn verdict_for_each_ending() {
    let mut process = Process { data: record(0, 1) };
    assert_eq!(start(&mut process, Ending::NotSpawned), Verdict::NotSpawned);
    assert_eq!(start(&mut process, Ending::NotAwaited), Verdict::NotStarted);
    assert_eq!(start(&mut process, Ending::Exited(Some(0))), Verdict::Finished);
    assert_eq!(process.data.retries, 0);
    assert_eq!(start(&mut process, Ending::Exited(Some(2))), Verdict::Retry);
    assert_eq!(process.data.retries, 1);
    assert_eq!(start(&mut process, Ending::Exited(Some(2))), Verdict::TooManyRetries);
    assert_eq!(process.data.retries, 1);
    assert_eq!(process.data.max_retries, 1);
}

#[test]
fn signal_and_negative_code_are_crashes() {
    let mut by_signal = Process { data: record(0, 1) };
    assert_eq!(start(&mut by_signal, Ending::Exited(None)), Verdict::Retry);
    assert_eq!(by_signal.data.retries, 1);
    assert_eq!(start(&mut by_signal, Ending::Exited(None)), Verdict::TooManyRetries);
    assert_eq!(by_signal.data.retries, 1);

    let mut by_code = Process { data: record(0, 1) };
    assert_eq!(start(&mut by_code, Ending::Exited(Some(-1))), Verdict::Retry);
    assert_eq!(by_code.data.retries, 1);
}

#[test]
fn three_crashes_with_a_budget_of_two() {
    let mut process = Process { data: record(0, 2) };
    process.data.name = "flaky".to_string();
    let verdicts: Vec<Verdict> =
        (0..3).map(|_| start(&mut process, Ending::Exited(Some(1)))).collect();
    assert_eq!(verdicts, vec![Verdict::Retry, Verdict::Retry, Verdict::TooManyRetries]);
    assert_eq!(process.data.retries, 2);
    assert_eq!(process.data.max_retries, 2);
}

#[test]
fn count_at_the_machine_limit_does_not_overflow() {
    let mut process = Process { data: record(i32::MAX, i32::MAX) };
    assert_eq!(start(&mut process, Ending::Exited(Some(1))), Verdict::TooManyRetries);
    assert_eq!(process.data.retries, i32::MAX);
    let mut below = Process { data: record(i32::MAX - 1, i32::MAX) };
    assert_eq!(start(&mut below, Ending::Exited(Some(1))), Verdict::Retry);
    assert_eq!(below.data.retries, i32::MAX);
}

#[test]
fn watch_relaunches_as_often_as_allowed() {
    for max in 0..5 {
        let mut process = Process { data: record(0, max) };
        let mut launches = 1;
        while start(&mut process, Ending::Exited(Some(1))) == Verdict::Retry {
            launches += 1;
        }
        assert_eq!(launches, max + 1);
        assert_eq!(process.data.retries, max);
        assert_eq!(process.data.max_retries, max);
    }
}

#[test]
fn list_procs_copies_the_records_in_order() {
    let mut second = record(2, 5);
    second.name = "second".to_string();
    let settings = Settings { process: vec![record(0, 1), second] };
    let procs = settings.list_procs();
    assert_eq!(procs.len(), 2);
    assert_eq!(procs[0].data.name, "worker");
    assert_eq!(procs[1].data.name, "second");
    assert_eq!(procs[1].data.retries, 2);
    assert_eq!(procs[1].data.max_retries, 5);
    assert_eq!(procs[0].data.args, settings.process[0].args);
    assert_eq!(settings.process.len(), 2);
    assert!(Settings { process: Vec::new() }.list_procs().is_empty());
}
