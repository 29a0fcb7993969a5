use std::cell::RefCell;

use daybegin::application::{launch_application, launch_applications, wait_for_applications};
use daybegin::config::Config;
use daybegin::process::{
    finish, process_output, ExitStatus, Invocation, Platform, RawOutput, RunError, RunStep,
    SpawnErrorKind, SpawnFailure,
};
use daybegin::routine::{next_stage, planned_stages, Stage};
use daybegin::shell::{execute_shell_command, execute_shell_commands};
use daybegin::text::decimal_text;

fn raw(code: Option<i32>, stdout: &str, stderr: &str) -> RawOutput {
    RawOutput {
        status: ExitStatus { code },
        stdout: stdout.as_bytes().to_vec(),
        stderr: stderr.as_bytes().to_vec(),
    }
}

fn config_with(commands: &[&str], applications: &[&str], branch: &str) -> Config {
    let mut c = Config::default_for(Platform::Other);
    c.shell_commands = commands.iter().map(|s| s.to_string()).collect();
    c.applications = applications.iter().map(|s| s.to_string()).collect();
    c.git_branch = branch.to_string();
    c
}

/// A stand-in for starting processes: `true` succeeds, `false` fails with
/// exit code 1, `quiet-fail` fails with no output, `missing` cannot start,
/// and every call is recorded.
struct FakeSpawn {
    calls: RefCell<Vec<Vec<String>>>,
}

impl FakeSpawn {
    fn new() -> FakeSpawn {
        FakeSpawn { calls: RefCell::new(Vec::new()) }
    }

    fn spawn(&self, inv: &Invocation) -> Result<RawOutput, SpawnFailure> {
        let mut all = vec![inv.program.clone()];
        all.extend(inv.args.iter().cloned());
        self.calls.borrow_mut().push(all);
        let last = inv.args.last().cloned().unwrap_or_default();
        match last.as_str() {
            "true" => Ok(raw(Some(0), "", "")),
            "false" => Ok(raw(Some(1), "", "  it went wrong\n")),
            "quiet-fail" => Ok(raw(Some(1), "", "")),
            "missing" => Err(SpawnFailure {
                kind: SpawnErrorKind::NotFound,
                reason: "No such file or directory".to_string(),
            }),
            _ => Ok(raw(Some(0), " ok \n", "")),
        }
    }

    fn count(&self) -> usize {
        self.calls.borrow().len()
    }
}

/// Drives a run of steps the way the program does: start what is asked for,
/// hand back how it ended, and stop when told to.
fn drive(
    items: &[String],
    launch: bool,
    fake: &FakeSpawn,
    step: impl Fn(usize, Option<Result<(), RunError>>) -> RunStep,
) -> Result<(), RunError> {
    let mut done = 0;
    let mut last = None;
    loop {
        match step(done, last) {
            RunStep::Start(inv) => {
                let spawned = fake.spawn(&inv);
                last = Some(finish(&items[done], launch, spawned).map(|_| ()));
                done += 1;
            }
            RunStep::Stop(r) => return r,
        }
    }
}

fn run_shell(c: &Config, fake: &FakeSpawn) -> Result<(), RunError> {
    drive(&c.shell_commands, false, fake, |d, l| execute_shell_commands(c, Platform::Other, d, l))
}

#[test]
fn exit_status_success_is_zero_code() {
    assert!(ExitStatus { code: Some(0) }.success());
    assert!(!ExitStatus { code: Some(2) }.success());
    assert!(!ExitStatus { code: None }.success());
}

#[test]
fn process_output_decodes_and_trims() {
    let r = process_output(raw(Some(0), "  hello\n", "\twarn \n"));
    assert_eq!(r.stdout, "hello");
    assert_eq!(r.stderr, "warn");
    let bad = RawOutput { status: ExitStatus { code: Some(0) }, stdout: vec![b'a', 0xff], stderr: vec![] };
    assert_eq!(process_output(bad).stdout, "a\u{fffd}");
}

#[test]
fn decimal_text_writes_integers() {
    assert_eq!(decimal_text(0), "0");
    assert_eq!(decimal_text(1), "1");
    assert_eq!(decimal_text(127), "127");
    assert_eq!(decimal_text(-15), "-15");
    assert_eq!(decimal_text(i32::MAX), "2147483647");
    assert_eq!(decimal_text(i32::MIN), "-2147483648");
}

#[test]
fn finish_tells_the_three_outcomes_apart() {
    assert!(matches!(finish("ls", false, Ok(raw(Some(0), "x", ""))), Ok(r) if r.stdout == "x"));
    match finish("ls", false, Ok(raw(Some(3), "", "boom\n"))) {
        Err(e @ RunError::Failed { .. }) => {
            assert_eq!(e.message(), "Command 'ls' failed with exit code 3: boom");
            match e {
                RunError::Failed { command, code, stderr } => {
                    assert_eq!(command, "ls");
                    assert_eq!(code, Some(3));
                    assert_eq!(stderr, "boom");
                }
                _ => unreachable!(),
            }
        }
        _ => panic!("expected a failure"),
    }
    let denied = SpawnFailure { kind: SpawnErrorKind::PermissionDenied, reason: "denied".to_string() };
    match finish("Docker.app", true, Err(denied.clone())) {
        Err(e @ RunError::Spawn { kind: SpawnErrorKind::PermissionDenied, launch: true, .. }) => {
            assert_eq!(e.message(), "Failed to execute application 'Docker.app': denied")
        }
        _ => panic!("expected a spawn error"),
    }
    match finish("make", false, Err(denied)) {
        Err(e @ RunError::Spawn { kind: SpawnErrorKind::PermissionDenied, launch: false, .. }) => {
            assert_eq!(e.message(), "denied")
        }
        _ => panic!("expected a spawn error"),
    }
}

#[test]
fn signal_end_is_reported_as_code_zero() {
    let e = finish("sleep 9", false, Ok(raw(None, "", ""))).err().unwrap();
    assert_eq!(e.message(), "Command 'sleep 9' failed with exit code 0: ");
}

#[test]
fn invocation_templates_per_platform() {
    let mut c = Config::default_for(Platform::MacOs);
    let mac = launch_application("Docker.app", &c, Platform::MacOs).ok().unwrap();
    assert_eq!(mac.program, "open");
    assert_eq!(mac.args, vec!["Docker.app".to_string()]);
    assert_eq!(mac.dir, Some("/Applications".to_string()));
    c.app_dir = "C:\\Program Files".to_string();
    let win = launch_application("notepad", &c, Platform::Windows).ok().unwrap();
    assert_eq!(win.program, "cmd");
    assert_eq!(win.args, vec!["/C".to_string(), "notepad".to_string()]);
    assert_eq!(win.dir, None);
    let other = launch_application("app.sh", &c, Platform::Other).ok().unwrap();
    assert_eq!(other.program, "sh");
    assert_eq!(other.args, vec!["app.sh".to_string()]);
    let sh = execute_shell_command("make build", Platform::Other).ok().unwrap();
    assert_eq!(sh.program, "sh");
    assert_eq!(sh.args, vec!["-c".to_string(), "make build".to_string()]);
    let cmd = execute_shell_command("dir", Platform::Windows).ok().unwrap();
    assert_eq!(cmd.args, vec!["/C".to_string(), "dir".to_string()]);
}

#[test]
fn empty_command_fails_without_spawning() {
    let fake = FakeSpawn::new();
    let r = execute_shell_command("", Platform::Other);
    assert!(matches!(r, Err(RunError::InvalidInput)));
    assert_eq!(r.err().unwrap().message(), "Empty command");
    let c = Config::default_for(Platform::Other);
    assert!(matches!(launch_application("", &c, Platform::Other), Err(RunError::InvalidInput)));
    let only_empty = config_with(&[""], &[], "");
    assert!(matches!(run_shell(&only_empty, &fake), Err(RunError::InvalidInput)));
    assert_eq!(fake.count(), 0);
}

#[test]
fn exit_zero_gives_success_with_empty_stderr() {
    let inv = execute_shell_command("true", Platform::Other).ok().unwrap();
    let fake = FakeSpawn::new();
    let r = finish("true", false, fake.spawn(&inv)).ok().unwrap();
    assert!(r.exit_status.success());
    assert_eq!(r.stderr, "");
    assert_eq!(fake.count(), 1);
}

#[test]
fn nonzero_exit_reports_stderr_in_message() {
    let fake = FakeSpawn::new();
    let c = config_with(&["false"], &[], "");
    let e = run_shell(&c, &fake).err().unwrap();
    assert!(matches!(e, RunError::Failed { code: Some(1), .. }));
    assert!(e.message().contains("it went wrong"));
    assert_eq!(e.message(), "Command 'false' failed with exit code 1: it went wrong");
}

#[test]
fn quiet_failure_names_the_exit_code() {
    let fake = FakeSpawn::new();
    let c = config_with(&["quiet-fail"], &[], "");
    let e = run_shell(&c, &fake).err().unwrap();
    assert_eq!(e.message(), "Command 'quiet-fail' failed with exit code 1: ");
}

#[test]
fn spawn_failure_is_distinct_from_nonzero_exit() {
    let fake = FakeSpawn::new();
    let c = config_with(&["missing"], &[], "");
    let e = run_shell(&c, &fake).err().unwrap();
    assert!(matches!(e, RunError::Spawn { kind: SpawnErrorKind::NotFound, launch: false, .. }));
    assert_eq!(e.message(), "No such file or directory");
}

#[test]
fn empty_command_list_runs_nothing() {
    let fake = FakeSpawn::new();
    let c = config_with(&[], &[], "");
    assert!(run_shell(&c, &fake).is_ok());
    assert_eq!(fake.count(), 0);
    assert!(matches!(execute_shell_commands(&c, Platform::Other, 0, None), RunStep::Stop(Ok(()))));
}

#[test]
fn shell_commands_stop_at_first_failure() {
    let fake = FakeSpawn::new();
    let c = config_with(&["true", "false", "true"], &[], "");
    let e = run_shell(&c, &fake).err().unwrap();
    match e {
        RunError::Failed { command, code, .. } => {
            assert_eq!(command, "false");
            assert_eq!(code, Some(1));
        }
        _ => panic!("expected the second command to fail"),
    }
    let calls = fake.calls.borrow();
    assert_eq!(calls.len(), 2);
    assert_eq!(calls[0], vec!["sh", "-c", "true"]);
    assert_eq!(calls[1], vec!["sh", "-c", "false"]);
}

#[test]
fn all_shell_commands_run_once_in_order() {
    let fake = FakeSpawn::new();
    let c = config_with(&["true", "make", "true"], &[], "");
    assert!(run_shell(&c, &fake).is_ok());
    let calls = fake.calls.borrow();
    assert_eq!(calls.len(), 3);
    assert_eq!(calls[1], vec!["sh", "-c", "make"]);
}

#[test]
fn a_failure_ends_the_run_whatever_remains() {
    let c = config_with(&["true", "true", "true"], &[], "");
    let step = execute_shell_commands(&c, Platform::Other, 1, Some(Err(RunError::InvalidInput)));
    assert!(matches!(step, RunStep::Stop(Err(RunError::InvalidInput))));
}

#[test]
fn applications_launch_in_order_and_stop_at_failure() {
    let fake = FakeSpawn::new();
    let c = config_with(&[], &["true", "false", "true"], "");
    let e = drive(&c.applications, true, &fake, |d, l| launch_applications(&c, Platform::Other, d, l))
        .err()
        .unwrap();
    assert!(matches!(e, RunError::Failed { .. }));
    assert_eq!(fake.count(), 2);
    assert_eq!(fake.calls.borrow()[0], vec!["sh", "true"]);
}

#[test]
fn waiting_for_applications() {
    let fake = FakeSpawn::new();
    let c = config_with(&[], &[], "");
    let apps = vec!["true".to_string(), "Docker.app".to_string()];
    assert!(drive(&apps, true, &fake, |d, l| wait_for_applications(&apps, &c, Platform::MacOs, d, l)).is_ok());
    assert_eq!(fake.calls.borrow()[1], vec!["open", "Docker.app"]);
    assert!(drive(&[], true, &fake, |d, l| wait_for_applications(&[], &c, Platform::MacOs, d, l)).is_ok());
    assert_eq!(fake.count(), 2);
    let bad = vec!["missing".to_string(), "true".to_string()];
    let e = drive(&bad, true, &fake, |d, l| wait_for_applications(&bad, &c, Platform::Other, d, l))
        .err()
        .unwrap();
    assert_eq!(e.message(), "Failed to execute application 'missing': No such file or directory");
    assert_eq!(fake.count(), 3);
    let gap = vec!["true".to_string(), String::new(), "true".to_string()];
    let e = drive(&gap, true, &fake, |d, l| wait_for_applications(&gap, &c, Platform::Other, d, l))
        .err()
        .unwrap();
    assert!(matches!(e, RunError::InvalidInput));
    assert_eq!(fake.count(), 4);
}

#[test]
fn stages_follow_the_configuration() {
    let all = config_with(&["make"], &["Docker.app"], "main");
    assert_eq!(
        planned_stages(&all),
        vec![Stage::GitSync, Stage::LaunchApplications, Stage::WaitForApplications, Stage::ShellCommands]
    );
    assert_eq!(planned_stages(&config_with(&[], &[], "")), Vec::<Stage>::new());
    assert_eq!(planned_stages(&config_with(&["make"], &[], "")), vec![Stage::ShellCommands]);
}

#[test]
fn a_failed_stage_halts_the_routine() {
    let all = config_with(&["make"], &["Docker.app"], "main");
    assert_eq!(next_stage(&all, 0, false), Some(Stage::GitSync));
    assert_eq!(next_stage(&all, 2, false), Some(Stage::WaitForApplications));
    assert_eq!(next_stage(&all, 1, true), None);
    assert_eq!(next_stage(&all, 4, false), None);
}
