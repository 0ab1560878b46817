//! The compile-only validation path: a snippet is wrapped into a minimal
//! buildable unit (no watchdog, no failure boundary — the program is never
//! run), checked under a fixed budget, and the check's outcome is mapped to
//! a verdict. This path has no size guard and never reaches a run stage, so
//! a verdict carries no captured program output.

use vstd::prelude::*;
use vstd::string::StringExecFns;

use crate::RustExecutor;
use crate::harness::has_entry_point;
use crate::outcome::WorkspaceStep;
use crate::outcome::workspace_failure_message;
use crate::outcome::workspace_failure_prefix;
use crate::text::contains_str;

verus! {

/// The fixed time budget for the compile-only check, in seconds.
pub const CHECK_BUDGET_SECONDS: u64 = 10;

/// The import prelude placed before every snippet on the validation path.
pub open spec fn validation_prelude() -> Seq<char> {
    "use std::io;\nuse std::collections::{HashMap, HashSet, BTreeMap, BTreeSet};\n\n"@
}

/// The complete source unit produced for the validation path: a
/// self-contained snippet is only prefixed with imports; a bare one is
/// embedded in a plain entry point.
pub open spec fn validation_source(code: Seq<char>) -> Seq<char> {
    if has_entry_point(code) {
        validation_prelude() + code
    } else {
        validation_prelude() + "fn main() {\n"@ + code + "\n}"@
    }
}

/// The build manifest written into a validation workspace: one binary
/// target, no dependency table.
pub open spec fn validation_manifest_text() -> Seq<char> {
    "[package]\nname = \"rust_validate\"\nversion = \"0.1.0\"\nedition = \"2021\"\n\n[[bin]]\nname = \"main\"\npath = \"src/main.rs\"\n"@
}

/// The verdict of the validation path.
pub struct ValidationVerdict {
    /// True only when the compile check succeeded with no diagnostics.
    pub is_valid: bool,
    /// The raw diagnostic or failure text, in order; empty when valid.
    pub errors: Vec<String>,
    /// Reserved; always empty.
    pub warnings: Vec<String>,
}

/// What the shell needs to materialize a validation workspace.
pub struct ValidationPlan {
    pub manifest: String,
    pub source: String,
}

impl RustExecutor {
    /// Build the validation plan: the fixed manifest and the wrapped source.
    pub fn begin_validation(&self, code: &str) -> (p: ValidationPlan)
        ensures
            p.manifest@ == validation_manifest_text(),
            p.source@ == validation_source(code@),
    {
        let mut manifest = String::new();
        manifest.append(
            "[package]\nname = \"rust_validate\"\nversion = \"0.1.0\"\nedition = \"2021\"\n\n[[bin]]\nname = \"main\"\npath = \"src/main.rs\"\n",
        );
        proof {
            assert(manifest@ =~= validation_manifest_text());
        }
        let mut source = String::new();
        source.append("use std::io;\nuse std::collections::{HashMap, HashSet, BTreeMap, BTreeSet};\n\n");
        if contains_str(code, "fn main()") {
            source.append(code);
            proof {
                assert(source@ =~= validation_source(code@));
            }
        } else {
            source.append("fn main() {\n");
            source.append(code);
            source.append("\n}");
            proof {
                assert(source@ =~= validation_source(code@));
            }
        }
        ValidationPlan { manifest, source }
    }
}

/// The verdict when materializing the validation workspace fails: invalid,
/// with the step's message as the only error and no warnings.
pub fn validation_workspace_failure(step: WorkspaceStep, detail: &str) -> (r: ValidationVerdict)
    ensures
        !r.is_valid,
        r.errors@.len() == 1,
        r.errors@[0]@ == workspace_failure_message(step, detail@),
        r.warnings@.len() == 0,
{
    let mut m = String::new();
    match step {
        WorkspaceStep::CreateTempDir => m.append("Failed to create temp directory: "),
        WorkspaceStep::CreateSrcDir => m.append("Failed to create src directory: "),
        WorkspaceStep::WriteManifest => m.append("Failed to create Cargo.toml: "),
        WorkspaceStep::WriteSource => m.append("Failed to write main.rs: "),
    }
    m.append(detail);
    proof {
        assert(m@ =~= workspace_failure_prefix(step) + detail@);
    }
    let mut errors: Vec<String> = Vec::new();
    errors.push(m);
    ValidationVerdict { is_valid: false, errors, warnings: Vec::new() }
}

/// What the shell observed of the bounded compile check.
pub enum CheckEvent {
    /// The checker could not be launched at all.
    LaunchFailed { detail: String },
    /// The fixed check budget elapsed before the checker finished.
    TimedOut,
    /// The checker finished; `success` is its exit status, `stderr` its
    /// captured diagnostic text.
    Completed { success: bool, stderr: String },
}

pub open spec fn check_launch_failure_prefix() -> Seq<char> {
    "Failed to execute cargo check: "@
}

pub open spec fn check_timeout_message() -> Seq<char> {
    "Syntax check timed out"@
}

/// Decide what the bounded compile step's result means: valid exactly when
/// it succeeded, with the raw diagnostic text as the only error otherwise,
/// and warnings always empty.
pub fn check_transition(ev: &CheckEvent) -> (r: ValidationVerdict)
    ensures
        r.warnings@.len() == 0,
        match *ev {
            CheckEvent::LaunchFailed { detail } => !r.is_valid && r.errors@.len() == 1
                && r.errors@[0]@ == check_launch_failure_prefix() + detail@,
            CheckEvent::TimedOut => !r.is_valid && r.errors@.len() == 1 && r.errors@[0]@
                == check_timeout_message(),
            CheckEvent::Completed { success, stderr } => if success {
                r.is_valid && r.errors@.len() == 0
            } else {
                !r.is_valid && r.errors@.len() == 1 && r.errors@[0]@ == stderr@
            },
        },
{
    match ev {
        CheckEvent::LaunchFailed { detail } => {
            let mut m = String::new();
            m.append("Failed to execute cargo check: ");
            m.append(detail.as_str());
            proof {
                assert(m@ =~= check_launch_failure_prefix() + detail@);
            }
            let mut errors: Vec<String> = Vec::new();
            errors.push(m);
            ValidationVerdict { is_valid: false, errors, warnings: Vec::new() }
        },
        CheckEvent::TimedOut => {
            let mut m = String::new();
            m.append("Syntax check timed out");
            proof {
                assert(m@ =~= check_timeout_message());
            }
            let mut errors: Vec<String> = Vec::new();
            errors.push(m);
            ValidationVerdict { is_valid: false, errors, warnings: Vec::new() }
        },
        CheckEvent::Completed { success, stderr } => {
            if *success {
                ValidationVerdict { is_valid: true, errors: Vec::new(), warnings: Vec::new() }
            } else {
                let mut errors: Vec<String> = Vec::new();
                errors.push(stderr.clone());
                ValidationVerdict { is_valid: false, errors, warnings: Vec::new() }
            }
        },
    }
}

} // verus!
