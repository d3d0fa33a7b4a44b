use pony_playground::docker::{
    create_args, kill_args, remove_args, start_args, Action, ChildResult, Container, Event,
    ExecError, RunResult, Stage,
};

fn strings(v: &[&str]) -> Vec<String> {
    v.iter().map(|s| s.to_string()).collect()
}

fn fresh() -> Container {
    Container::new("/usr/local/bin/evaluate.sh", &[], &[], "ponylang-playpen")
}

fn started() -> Container {
    let mut c = fresh();
    assert_eq!(c.step(Event::Created { stdout: b"c0ffee\n".to_vec() }), Action::Start);
    assert_eq!(c.step(Event::Started), Action::Wait);
    c
}

#[test]
fn disposition_from_status() {
    assert_eq!(ChildResult::from_status(Some(0), None), Some(ChildResult::ExitCode(0)));
    assert_eq!(ChildResult::from_status(Some(3), Some(9)), Some(ChildResult::ExitCode(3)));
    assert_eq!(ChildResult::from_status(None, Some(9)), Some(ChildResult::Signal(9)));
    assert_eq!(ChildResult::from_status(None, None), None);
}

#[test]
fn run_result_success() {
    let ok = RunResult { result: ChildResult::ExitCode(0), stdout: vec![1], stderr: vec![2] };
    assert!(ok.success());
    assert_eq!(ok.stdout(), &[1u8][..]);
    assert_eq!(ok.stderr(), &[2u8][..]);
    let failed = RunResult { result: ChildResult::ExitCode(1), stdout: vec![], stderr: vec![] };
    assert!(!failed.success());
    let killed = RunResult { result: ChildResult::Signal(0), stdout: vec![], stderr: vec![] };
    assert!(!killed.success());
    let late = RunResult::timed_out(b"so far".to_vec(), vec![]);
    assert_eq!(late.result, ChildResult::TimedOut);
    assert!(!late.success());
    assert_eq!(late.stdout(), b"so far");
}

#[test]
fn create_arguments_confine_the_environment() {
    let env = vec![("A".to_string(), "1".to_string()), ("B".to_string(), "x=y".to_string())];
    let args = strings(&["--pass=asm"]);
    let got = create_args("/usr/local/bin/compile.sh", &args, &env, "ponylang-playpen");
    assert_eq!(
        got,
        strings(&[
            "create",
            "--cap-drop=ALL",
            "--memory=1024m",
            "--net=none",
            "--pids-limit=20",
            "--security-opt=no-new-privileges",
            "--interactive",
            "--env=A=1",
            "--env=B=x=y",
            "ponylang-playpen",
            "/usr/local/bin/compile.sh",
            "--pass=asm",
        ])
    );
}

#[test]
fn lifecycle_arguments() {
    assert_eq!(start_args("abc"), strings(&["start", "--attach", "--interactive", "abc"]));
    assert_eq!(kill_args("abc"), strings(&["kill", "abc"]));
    assert_eq!(remove_args("abc"), strings(&["rm", "--force", "abc"]));
    let c = started();
    assert_eq!(c.id, "c0ffee");
    assert_eq!(c.start_args(), strings(&["start", "--attach", "--interactive", "c0ffee"]));
    assert_eq!(c.kill_args(), strings(&["kill", "c0ffee"]));
    assert_eq!(c.remove_args(), strings(&["rm", "--force", "c0ffee"]));
    assert_eq!(fresh().create_args()[0], "create");
}

#[test]
fn normal_exit_tears_down_once() {
    let mut c = started();
    let a = c.step(Event::Exited {
        code: Some(0),
        signal: None,
        stdout: b"out".to_vec(),
        stderr: b"err".to_vec(),
    });
    assert_eq!(a, Action::Teardown);
    assert_eq!(c.stage, Stage::Finished);
    assert_eq!(c.teardowns, 1);
    let r = c.outcome.as_ref().unwrap().as_ref().unwrap();
    assert_eq!(r.result, ChildResult::ExitCode(0));
    assert_eq!(r.stdout, b"out".to_vec());
    assert_eq!(r.stderr, b"err".to_vec());
    assert_eq!(c.step(Event::Failed), Action::Report);
    assert_eq!(c.step(Event::Started), Action::Report);
    assert_eq!(c.teardowns, 1);
    assert!(c.outcome.as_ref().unwrap().is_ok());
}

#[test]
fn signal_exit_is_reported() {
    let mut c = started();
    let a = c.step(Event::Exited { code: None, signal: Some(9), stdout: vec![], stderr: vec![] });
    assert_eq!(a, Action::Teardown);
    let r = c.outcome.as_ref().unwrap().as_ref().unwrap();
    assert_eq!(r.result, ChildResult::Signal(9));
}

#[test]
fn exit_without_disposition_fails() {
    let mut c = started();
    let a = c.step(Event::Exited { code: None, signal: None, stdout: vec![], stderr: vec![] });
    assert_eq!(a, Action::Teardown);
    assert_eq!(c.teardowns, 1);
    assert!(matches!(c.outcome, Some(Err(ExecError::NoDisposition))));
}

#[test]
fn failed_creation_needs_no_teardown() {
    let mut c = fresh();
    assert_eq!(c.stage, Stage::Creating);
    assert_eq!(c.step(Event::Failed), Action::Report);
    assert!(!c.created);
    assert_eq!(c.teardowns, 0);
    assert!(matches!(c.outcome, Some(Err(ExecError::Create))));
    assert_eq!(c.step(Event::Failed), Action::Report);
    assert_eq!(c.teardowns, 0);
}

#[test]
fn failed_start_tears_down() {
    let mut c = fresh();
    c.step(Event::Created { stdout: b"id1".to_vec() });
    assert_eq!(c.step(Event::Failed), Action::Teardown);
    assert_eq!(c.teardowns, 1);
    assert!(matches!(c.outcome, Some(Err(ExecError::Start))));
}

#[test]
fn failed_wait_tears_down() {
    let mut c = started();
    assert_eq!(c.step(Event::Failed), Action::Teardown);
    assert_eq!(c.teardowns, 1);
    assert!(matches!(c.outcome, Some(Err(ExecError::Wait))));
}

#[test]
fn unexpected_event_counts_as_failure() {
    let mut c = fresh();
    c.step(Event::Created { stdout: b"id1".to_vec() });
    assert_eq!(c.step(Event::Killed), Action::Teardown);
    assert!(matches!(c.outcome, Some(Err(ExecError::Start))));
}

#[test]
fn timeout_keeps_early_output() {
    let mut c = started();
    let a = c.step(Event::DeadlineReached { stdout: b"tick\n".to_vec(), stderr: b"e1".to_vec() });
    assert_eq!(a, Action::Kill);
    assert_eq!(c.teardowns, 0);
    assert_eq!(c.step(Event::Killed), Action::Flush);
    let a = c.step(Event::Flushed { stdout: b"tock\n".to_vec(), stderr: b"e2".to_vec() });
    assert_eq!(a, Action::Teardown);
    assert_eq!(c.teardowns, 1);
    let r = c.outcome.as_ref().unwrap().as_ref().unwrap();
    assert_eq!(r.result, ChildResult::TimedOut);
    assert_eq!(r.stdout, b"tick\ntock\n".to_vec());
    assert_eq!(r.stderr, b"e1e2".to_vec());
    assert!(!r.success());
}

#[test]
fn timeout_with_nothing_after_the_deadline() {
    let mut c = started();
    c.step(Event::DeadlineReached { stdout: b"partial".to_vec(), stderr: vec![] });
    c.step(Event::Killed);
    c.step(Event::Flushed { stdout: vec![], stderr: vec![] });
    let r = c.outcome.as_ref().unwrap().as_ref().unwrap();
    assert_eq!(r.result, ChildResult::TimedOut);
    assert_eq!(r.stdout, b"partial".to_vec());
}

#[test]
fn failed_kill_tears_down() {
    let mut c = started();
    c.step(Event::DeadlineReached { stdout: vec![], stderr: vec![] });
    assert_eq!(c.step(Event::Failed), Action::Teardown);
    assert_eq!(c.teardowns, 1);
    assert!(matches!(c.outcome, Some(Err(ExecError::Kill))));
}

#[test]
fn failed_flush_tears_down() {
    let mut c = started();
    c.step(Event::DeadlineReached { stdout: vec![], stderr: vec![] });
    c.step(Event::Killed);
    assert_eq!(c.step(Event::Failed), Action::Teardown);
    assert_eq!(c.teardowns, 1);
    assert!(matches!(c.outcome, Some(Err(ExecError::Flush))));
}
