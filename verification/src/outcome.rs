//! Stage outcomes and their mapping to the final result shape.
//!
//! The build and run stages are driven by an unverified shell that performs
//! the filesystem and subprocess work; it reports what happened as an event,
//! and the functions here decide, deterministically, the status and message
//! that every possible event produces.

use vstd::prelude::*;
use vstd::string::StringExecFns;

use crate::text::dec_rep;
use crate::text::trim_str;
use crate::text::trimmed;
use crate::text::u64_to_string;

verus! {

/// The fixed time budget for the compile stage, in seconds. It is a
/// service-side constant, independent of the caller's requested run timeout:
/// compilation cost is not user-controlled.
pub const COMPILE_BUDGET_SECONDS: u64 = 30;

/// The exit code the generated watchdog uses to signal that it terminated
/// the process itself: distinguished from ordinary failure exits so that a
/// self-imposed timeout is reported as a timeout, not an error.
pub const WATCHDOG_EXIT_CODE: i32 = 124;

/// The normalized outcome of a request: exactly one of three values.
#[derive(Clone, Copy, PartialEq, Eq, Structural, Debug)]
pub enum Status {
    Success,
    Error,
    Timeout,
}

/// The wire label of each status value.
pub open spec fn status_label(s: Status) -> Seq<char> {
    match s {
        Status::Success => "success"@,
        Status::Error => "error"@,
        Status::Timeout => "timeout"@,
    }
}

impl Status {
    /// Render the status as its wire label.
    pub fn label(&self) -> (r: String)
        ensures
            r@ == status_label(*self),
    {
        let mut s = String::new();
        match self {
            Status::Success => {
                s.append("success");
                proof {
                    assert(s@ =~= status_label(*self));
                }
            },
            Status::Error => {
                s.append("error");
                proof {
                    assert(s@ =~= status_label(*self));
                }
            },
            Status::Timeout => {
                s.append("timeout");
                proof {
                    assert(s@ =~= status_label(*self));
                }
            },
        }
        s
    }
}

/// Captured text plus the status a stage decided on.
pub struct StageOutput {
    pub output: String,
    pub error: String,
    pub status: Status,
}

/// The final response shape: captured text, status, and wall-clock time in
/// milliseconds from request acceptance to assembly.
pub struct ExecutionResult {
    pub output: String,
    pub error: String,
    pub status: Status,
    pub elapsed_ms: u64,
}

/// The filesystem steps that materialize a workspace, in pipeline order.
#[derive(Clone, Copy, PartialEq, Eq, Structural, Debug)]
pub enum WorkspaceStep {
    CreateTempDir,
    CreateSrcDir,
    WriteManifest,
    WriteSource,
}

/// The message prefix reported when a workspace step fails.
pub open spec fn workspace_failure_prefix(step: WorkspaceStep) -> Seq<char> {
    match step {
        WorkspaceStep::CreateTempDir => "Failed to create temp directory: "@,
        WorkspaceStep::CreateSrcDir => "Failed to create src directory: "@,
        WorkspaceStep::WriteManifest => "Failed to create Cargo.toml: "@,
        WorkspaceStep::WriteSource => "Failed to write main.rs: "@,
    }
}

/// The full message reported when a workspace step fails with `detail`.
pub open spec fn workspace_failure_message(step: WorkspaceStep, detail: Seq<char>) -> Seq<char> {
    workspace_failure_prefix(step) + detail
}

fn workspace_failure_text(step: WorkspaceStep, detail: &str) -> (r: String)
    ensures
        r@ == workspace_failure_message(step, detail@),
{
    let mut m = String::new();
    match step {
        WorkspaceStep::CreateTempDir => m.append("Failed to create temp directory: "),
        WorkspaceStep::CreateSrcDir => m.append("Failed to create src directory: "),
        WorkspaceStep::WriteManifest => m.append("Failed to create Cargo.toml: "),
        WorkspaceStep::WriteSource => m.append("Failed to write main.rs: "),
    }
    m.append(detail);
    proof {
        assert(m@ =~= workspace_failure_message(step, detail@));
    }
    m
}

/// The terminal result when materializing the workspace fails: empty output,
/// a message naming the failed step, and an error status.
pub fn workspace_failure(step: WorkspaceStep, detail: &str, elapsed_ms: u64) -> (r:
    ExecutionResult)
    ensures
        r.output@ == Seq::<char>::empty(),
        r.error@ == workspace_failure_message(step, detail@),
        r.status == Status::Error,
        r.elapsed_ms == elapsed_ms,
{
    ExecutionResult {
        output: String::new(),
        error: workspace_failure_text(step, detail),
        status: Status::Error,
        elapsed_ms,
    }
}

/// What the shell observed of the bounded compiler invocation.
pub enum BuildEvent {
    /// The compiler could not be launched at all.
    LaunchFailed { detail: String },
    /// The fixed compile budget elapsed before the compiler finished.
    TimedOut,
    /// The compiler finished; `success` is its exit status, `stderr` its
    /// captured diagnostic text.
    Completed { success: bool, stderr: String },
}

pub open spec fn build_launch_failure_prefix() -> Seq<char> {
    "Failed to execute cargo build: "@
}

pub open spec fn compile_timeout_message() -> Seq<char> {
    "Compilation timed out"@
}

pub open spec fn compile_error_prefix() -> Seq<char> {
    "Compilation error: "@
}

/// Decide the build stage's outcome: `None` means the artifact was produced
/// and the run stage is next; `Some` is the terminal failure output.
pub fn build_transition(ev: &BuildEvent) -> (r: Option<StageOutput>)
    ensures
        match *ev {
            BuildEvent::LaunchFailed { detail } => r matches Some(o) && o.output@ == Seq::<
                char,
            >::empty() && o.error@ == build_launch_failure_prefix() + detail@ && o.status
                == Status::Error,
            BuildEvent::TimedOut => r matches Some(o) && o.output@ == Seq::<char>::empty()
                && o.error@ == compile_timeout_message() && o.status == Status::Error,
            BuildEvent::Completed { success, stderr } => if success {
                r is None
            } else {
                r matches Some(o) && o.output@ == Seq::<char>::empty() && o.error@
                    == compile_error_prefix() + stderr@ && o.status == Status::Error
            },
        },
{
    match ev {
        BuildEvent::LaunchFailed { detail } => {
            let mut m = String::new();
            m.append("Failed to execute cargo build: ");
            m.append(detail.as_str());
            proof {
                assert(m@ =~= build_launch_failure_prefix() + detail@);
            }
            Some(StageOutput { output: String::new(), error: m, status: Status::Error })
        },
        BuildEvent::TimedOut => {
            let mut m = String::new();
            m.append("Compilation timed out");
            proof {
                assert(m@ =~= compile_timeout_message());
            }
            Some(StageOutput { output: String::new(), error: m, status: Status::Error })
        },
        BuildEvent::Completed { success, stderr } => {
            if *success {
                None
            } else {
                let mut m = String::new();
                m.append("Compilation error: ");
                m.append(stderr.as_str());
                proof {
                    assert(m@ =~= compile_error_prefix() + stderr@);
                }
                Some(StageOutput { output: String::new(), error: m, status: Status::Error })
            }
        },
    }
}

/// What the shell observed of the bounded artifact run.
pub enum RunEvent {
    /// The artifact process could not be spawned.
    SpawnFailed { detail: String },
    /// The process was spawned but awaiting its output failed.
    AwaitFailed { detail: String },
    /// The outer time budget elapsed before the process completed.
    TimedOut,
    /// The process completed within the budget with the given exit status,
    /// exit code (when one exists), and captured text.
    Completed { exit_success: bool, exit_code: Option<i32>, stdout: String, stderr: String },
}

pub open spec fn spawn_failure_prefix() -> Seq<char> {
    "Failed to spawn process: "@
}

pub open spec fn process_error_prefix() -> Seq<char> {
    "Process error: "@
}

/// The message reported when the outer run budget of `t` seconds elapses.
pub open spec fn run_timeout_message(t: nat) -> Seq<char> {
    "Code execution timed out after "@ + dec_rep(t) + " seconds"@
}

/// The status a completed process maps to: success on a zero exit; the
/// watchdog's sentinel exit code means the in-artifact timeout fired; any
/// other exit is an error.
pub open spec fn exit_status(exit_success: bool, exit_code: Option<i32>) -> Status {
    if exit_success {
        Status::Success
    } else if exit_code == Some(WATCHDOG_EXIT_CODE) {
        Status::Timeout
    } else {
        Status::Error
    }
}

/// What the run stage must decide for each event: which text is kept (the
/// captured text of a completed process, trimmed of surrounding whitespace),
/// which message is reported, and which status the outcome maps to.
pub open spec fn run_decision(ev: RunEvent, timeout_seconds: u64, r: StageOutput) -> bool {
    match ev {
        RunEvent::SpawnFailed { detail } => r.output@ == Seq::<char>::empty() && r.error@
            == spawn_failure_prefix() + detail@ && r.status == Status::Error,
        RunEvent::AwaitFailed { detail } => r.output@ == Seq::<char>::empty() && r.error@
            == process_error_prefix() + detail@ && r.status == Status::Error,
        RunEvent::TimedOut => r.output@ == Seq::<char>::empty() && r.error@
            == run_timeout_message(timeout_seconds as nat) && r.status == Status::Timeout,
        RunEvent::Completed { exit_success, exit_code, stdout, stderr } => r.output@ == trimmed(
            stdout@,
        ) && r.error@ == trimmed(stderr@) && r.status == exit_status(exit_success, exit_code),
    }
}

/// Decide the run stage's terminal output for every possible event.
pub fn run_transition(ev: &RunEvent, timeout_seconds: u64) -> (r: StageOutput)
    ensures
        run_decision(*ev, timeout_seconds, r),
{
    match ev {
        RunEvent::SpawnFailed { detail } => {
            let mut m = String::new();
            m.append("Failed to spawn process: ");
            m.append(detail.as_str());
            proof {
                assert(m@ =~= spawn_failure_prefix() + detail@);
            }
            StageOutput { output: String::new(), error: m, status: Status::Error }
        },
        RunEvent::AwaitFailed { detail } => {
            let mut m = String::new();
            m.append("Process error: ");
            m.append(detail.as_str());
            proof {
                assert(m@ =~= process_error_prefix() + detail@);
            }
            StageOutput { output: String::new(), error: m, status: Status::Error }
        },
        RunEvent::TimedOut => {
            let mut m = String::new();
            m.append("Code execution timed out after ");
            let d = u64_to_string(timeout_seconds);
            m.append(d.as_str());
            m.append(" seconds");
            proof {
                assert(m@ =~= run_timeout_message(timeout_seconds as nat));
            }
            StageOutput { output: String::new(), error: m, status: Status::Timeout }
        },
        RunEvent::Completed { exit_success, exit_code, stdout, stderr } => {
            let status = if *exit_success {
                Status::Success
            } else {
                match exit_code {
                    Some(c) => if *c == WATCHDOG_EXIT_CODE {
                        Status::Timeout
                    } else {
                        Status::Error
                    },
                    None => Status::Error,
                }
            };
            StageOutput {
                output: trim_str(stdout.as_str()),
                error: trim_str(stderr.as_str()),
                status,
            }
        },
    }
}

/// Fold a stage's terminal output and the measured wall-clock time into the
/// final response shape. Pure assembly: nothing is recomputed or altered.
pub fn assemble(stage: StageOutput, elapsed_ms: u64) -> (r: ExecutionResult)
    ensures
        r.output@ == stage.output@,
        r.error@ == stage.error@,
        r.status == stage.status,
        r.elapsed_ms == elapsed_ms,
{
    ExecutionResult { output: stage.output, error: stage.error, status: stage.status, elapsed_ms }
}

} // verus!
