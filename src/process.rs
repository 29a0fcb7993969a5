use vstd::prelude::*;
use vstd::string::*;

use crate::text::{
    decimal, decimal_text, decode_lossy, lossy_text, owned, texts, trim, trimmed,
};

verus! {

/// The operating systems whose ways of starting a program differ.
#[derive(Clone, Copy, Debug, PartialEq, Eq, Structural)]
pub enum Platform {
    Windows,
    MacOs,
    Other,
}

/// How a child process ended: its exit code, or none when a signal ended it.
#[derive(Clone, Copy, Debug)]
pub struct ExitStatus {
    pub code: Option<i32>,
}

impl ExitStatus {
    /// Success is a zero exit code; an end by signal is no success.
    pub open spec fn spec_success(&self) -> bool {
        self.code == Some(0i32)
    }

    #[verifier::when_used_as_spec(spec_success)]
    pub fn success(&self) -> (r: bool)
        ensures
            r == self.spec_success(),
    {
        match self.code {
            Some(c) => c == 0,
            None => false,
        }
    }
}

/// What a finished child process handed back, as raw bytes.
#[derive(Clone, Debug)]
pub struct RawOutput {
    pub status: ExitStatus,
    pub stdout: Vec<u8>,
    pub stderr: Vec<u8>,
}

/// The outcome of one process invocation, with its output decoded and trimmed.
#[derive(Clone, Debug)]
pub struct CommandResult {
    pub exit_status: ExitStatus,
    pub stdout: String,
    pub stderr: String,
}

/// Why a process could not be started.
#[derive(Clone, Copy, Debug, PartialEq, Eq, Structural)]
pub enum SpawnErrorKind {
    /// The program was not found.
    NotFound,
    /// The program may not be run.
    PermissionDenied,
    /// Any other reason.
    Other,
}

/// A process that could not be started: the kind of error and its description.
#[derive(Clone, Debug)]
pub struct SpawnFailure {
    pub kind: SpawnErrorKind,
    pub reason: String,
}

/// Why running a command did not succeed.
#[derive(Clone, Debug)]
pub enum RunError {
    /// The command string was empty: nothing was started.
    InvalidInput,
    /// The process could not be started; `launch` tells an application launch
    /// from a shell command.
    Spawn { command: String, launch: bool, kind: SpawnErrorKind, reason: String },
    /// The process ran and reported failure.
    Failed { command: String, code: Option<i32>, stderr: String },
}

/// The next thing to do in a run of several processes.
pub enum RunStep {
    /// Start this invocation, wait for it, and report how it ended.
    Start(Invocation),
    /// The run is over, with this result.
    Stop(Result<(), RunError>),
}

/// The program to start, its arguments, and the directory to start it in.
pub struct Invocation {
    pub program: String,
    pub args: Vec<String>,
    pub dir: Option<String>,
}

/// An invocation as plain text.
pub ghost struct InvocationView {
    pub program: Seq<char>,
    pub args: Seq<Seq<char>>,
    pub dir: Option<Seq<char>>,
}

impl View for Invocation {
    type V = InvocationView;

    open spec fn view(&self) -> InvocationView {
        InvocationView {
            program: self.program@,
            args: texts(self.args@),
            dir: match self.dir {
                Some(d) => Some(d@),
                None => None,
            },
        }
    }
}

/// The way an application is started on each platform: through `cmd /C` on
/// Windows, through `open` inside the application directory on macOS, and
/// through `sh` elsewhere.
pub open spec fn launch_plan(application: Seq<char>, app_dir: Seq<char>, platform: Platform) -> InvocationView {
    match platform {
        Platform::Windows => InvocationView {
            program: "cmd"@,
            args: seq!["/C"@, application],
            dir: None,
        },
        Platform::MacOs => InvocationView { program: "open"@, args: seq![application], dir: Some(app_dir) },
        Platform::Other => InvocationView { program: "sh"@, args: seq![application], dir: None },
    }
}

/// The way a shell command is run on each platform: `cmd /C` on Windows, `sh -c`
/// elsewhere.
pub open spec fn shell_plan(command: Seq<char>, platform: Platform) -> InvocationView {
    match platform {
        Platform::Windows => InvocationView {
            program: "cmd"@,
            args: seq!["/C"@, command],
            dir: None,
        },
        _ => InvocationView { program: "sh"@, args: seq!["-c"@, command], dir: None },
    }
}

/// The exit code a failure is reported with; an end by signal counts as zero.
pub open spec fn reported_code(code: Option<i32>) -> int {
    match code {
        Some(c) => c as int,
        None => 0,
    }
}

/// The text of an error message. A shell command that cannot be started is
/// reported by the reason alone; an application names itself.
pub open spec fn message_text(e: RunError) -> Seq<char> {
    match e {
        RunError::InvalidInput => "Empty command"@,
        RunError::Spawn { command, launch, reason, .. } => if launch {
            "Failed to execute application '"@ + command@ + "': "@ + reason@
        } else {
            reason@
        },
        RunError::Failed { command, code, stderr } => "Command '"@ + command@
            + "' failed with exit code "@ + decimal(reported_code(code)) + ": "@ + stderr@,
    }
}

/// Whether `r` is what [`finish`] makes of a command and what starting it gave.
pub open spec fn finished(
    command: Seq<char>,
    launch: bool,
    spawned: Result<RawOutput, SpawnFailure>,
    r: Result<CommandResult, RunError>,
) -> bool {
    match spawned {
        Err(f) => match r {
            Err(RunError::Spawn { command: c, launch: l, kind, reason }) => {
                &&& c@ == command
                &&& l == launch
                &&& kind == f.kind
                &&& reason@ == f.reason@
            },
            _ => false,
        },
        Ok(out) => if out.status.spec_success() {
            match r {
                Ok(res) => {
                    &&& res.exit_status == out.status
                    &&& res.stdout@ == trimmed(lossy_text(out.stdout@))
                    &&& res.stderr@ == trimmed(lossy_text(out.stderr@))
                },
                _ => false,
            }
        } else {
            match r {
                Err(RunError::Failed { command: c, code, stderr }) => {
                    &&& c@ == command
                    &&& code == out.status.code
                    &&& stderr@ == trimmed(lossy_text(out.stderr@))
                },
                _ => false,
            }
        },
    }
}

impl RunError {
    /// A human-readable account of the error.
    pub fn message(&self) -> (r: String)
        ensures
            r@ == message_text(*self),
    {
        match self {
            RunError::InvalidInput => owned("Empty command"),
            RunError::Spawn { command, launch, reason, .. } => {
                if *launch {
                    let mut m = owned("Failed to execute application '");
                    m.append(command.as_str());
                    m.append("': ");
                    m.append(reason.as_str());
                    m
                } else {
                    reason.clone()
                }
            },
            RunError::Failed { command, code, stderr } => {
                let c: i32 = match code {
                    Some(c) => *c,
                    None => 0,
                };
                let mut m = owned("Command '");
                m.append(command.as_str());
                m.append("' failed with exit code ");
                m.append(decimal_text(c).as_str());
                m.append(": ");
                m.append(stderr.as_str());
                m
            },
        }
    }
}

/// Decodes and trims what a process wrote.
pub fn process_output(output: RawOutput) -> (r: CommandResult)
    ensures
        r.exit_status == output.status,
        r.stdout@ == trimmed(lossy_text(output.stdout@)),
        r.stderr@ == trimmed(lossy_text(output.stderr@)),
{
    let out = decode_lossy(&output.stdout);
    let err = decode_lossy(&output.stderr);
    CommandResult {
        exit_status: output.status,
        stdout: trim(out.as_str()),
        stderr: trim(err.as_str()),
    }
}

/// Turns what starting `command` gave into its outcome: a start that failed is a
/// spawn error that keeps the error's kind, an unsuccessful exit is a failure
/// carrying the exit code and the captured standard error, and a successful
/// exit is the decoded result. `launch` tells an application launch from a
/// shell command.
pub fn finish(command: &str, launch: bool, spawned: Result<RawOutput, SpawnFailure>) -> (r: Result<
    CommandResult,
    RunError,
>)
    ensures
        finished(command@, launch, spawned, r),
{
    match spawned {
        Err(f) => Err(RunError::Spawn { command: owned(command), launch, kind: f.kind, reason: f.reason }),
        Ok(out) => {
            let res = process_output(out);
            if res.exit_status.success() {
                Ok(res)
            } else {
                Err(RunError::Failed { command: owned(command), code: res.exit_status.code, stderr: res.stderr })
            }
        },
    }
}

/// A command that ran and exited unsuccessfully is reported as a failure whose
/// message ends with the text the command wrote to standard error.
pub proof fn failure_message_includes_stderr(
    command: Seq<char>,
    launch: bool,
    out: RawOutput,
    r: Result<CommandResult, RunError>,
)
    requires
        !out.status.spec_success(),
        finished(command, launch, Ok(out), r),
    ensures
        r matches Err(e) && e is Failed && ({
            let m = message_text(e);
            let s = trimmed(lossy_text(out.stderr@));
            s.len() <= m.len() && m.subrange(m.len() - s.len(), m.len() as int) == s
        }),
{
    let e = r->Err_0;
    let m = message_text(e);
    let s = e->Failed_stderr@;
    assert(m.subrange(m.len() - s.len(), m.len() as int) =~= s);
}

} // verus!
