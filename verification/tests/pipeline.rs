use rust_executor::RustExecutor;
use rust_executor::available_libraries;
use rust_executor::execute::ExecutionGate;
use rust_executor::outcome::BuildEvent;
use rust_executor::outcome::RunEvent;
use rust_executor::outcome::StageOutput;
use rust_executor::outcome::Status;
use rust_executor::outcome::WorkspaceStep;
use rust_executor::outcome::assemble;
use rust_executor::outcome::build_transition;
use rust_executor::outcome::run_transition;
use rust_executor::outcome::workspace_failure;

#[test]
fn default_config() {
    let executor = RustExecutor::new();
    assert_eq!(executor.max_execution_time, 30);
    assert_eq!(executor.max_memory_mb, 128);
    assert_eq!(executor.max_code_size_kb, 50);
}

#[test]
fn timeout_override_in_range_is_used() {
    let executor = RustExecutor::new();
    assert_eq!(executor.resolve_timeout(Some(1)), 1);
    assert_eq!(executor.resolve_timeout(Some(10)), 10);
    assert_eq!(executor.resolve_timeout(Some(60)), 60);
}

#[test]
fn timeout_override_above_ceiling_falls_back() {
    let executor = RustExecutor::new();
    assert_eq!(executor.resolve_timeout(Some(61)), 30);
    assert_eq!(executor.resolve_timeout(Some(u64::MAX)), 30);
    assert_eq!(executor.resolve_timeout(None), 30);
}

#[test]
fn timeout_override_zero_is_kept() {
    let executor = RustExecutor::new();
    assert_eq!(executor.resolve_timeout(Some(0)), 0);
}

#[test]
fn oversize_snippet_is_rejected_before_any_workspace() {
    let executor = RustExecutor::new();
    let code = "a".repeat(50 * 1024 + 1);
    match executor.begin_execution(&code, None) {
        ExecutionGate::Rejected { result } => {
            assert_eq!(result.status, Status::Error);
            assert_eq!(result.output, "");
            assert_eq!(result.elapsed_ms, 0);
            assert_eq!(
                result.error,
                "Code size (50.0KB) exceeds maximum allowed size (50KB)"
            );
        }
        ExecutionGate::Admitted { .. } => panic!("oversize snippet was admitted"),
    }
}

#[test]
fn size_message_names_both_sizes() {
    let executor = RustExecutor::new();
    let code = "b".repeat(100 * 1024);
    match executor.begin_execution(&code, None) {
        ExecutionGate::Rejected { result } => {
            assert_eq!(
                result.error,
                "Code size (100.0KB) exceeds maximum allowed size (50KB)"
            );
        }
        ExecutionGate::Admitted { .. } => panic!("oversize snippet was admitted"),
    }
}

#[test]
fn snippet_at_the_ceiling_is_admitted() {
    let executor = RustExecutor::new();
    let mut code = "fn main() {}".to_string();
    code.push_str(&" ".repeat(50 * 1024 - code.len()));
    match executor.begin_execution(&code, Some(5)) {
        ExecutionGate::Admitted { plan } => {
            assert_eq!(plan.timeout_seconds, 5);
        }
        ExecutionGate::Rejected { .. } => panic!("snippet at the ceiling was rejected"),
    }
}

#[test]
fn admitted_plan_carries_manifest_and_wrapped_source() {
    let executor = RustExecutor::new();
    let gate = executor.begin_execution("println!(\"hi\");", Some(2));
    match gate {
        ExecutionGate::Admitted { plan } => {
            assert_eq!(plan.timeout_seconds, 2);
            assert_eq!(
                plan.manifest,
                "[package]\nname = \"rust_exec\"\nversion = \"0.1.0\"\nedition = \"2021\"\n\n[[bin]]\nname = \"main\"\npath = \"src/main.rs\"\n\n[dependencies]\n"
            );
            assert_eq!(plan.source, executor.create_restricted_code("println!(\"hi\");", 2));
        }
        ExecutionGate::Rejected { .. } => panic!("small snippet was rejected"),
    }
}

#[test]
fn bare_snippet_gets_watchdog_and_failure_boundary() {
    let executor = RustExecutor::new();
    let wrapped = executor.create_restricted_code("println!(\"hi\");", 7);
    assert!(wrapped.starts_with(
        "use std::io;\nuse std::io::prelude::*;\nuse std::collections::{HashMap, HashSet, BTreeMap, BTreeSet, VecDeque};\nuse std::time::{Duration, Instant};\nuse std::thread;\n\nfn main() {"
    ));
    assert!(wrapped.contains("let timeout = Duration::from_secs(7);"));
    assert!(wrapped.contains("std::process::exit(124);"));
    assert!(wrapped.contains("std::panic::catch_unwind"));
    assert!(wrapped.contains("\n        // User code starts here\nprintln!(\"hi\");\n"));
    assert!(wrapped.contains("std::process::exit(1);"));
    assert!(wrapped.ends_with("}"));
}

#[test]
fn self_contained_snippet_only_gets_imports() {
    let executor = RustExecutor::new();
    let code = "fn main() { println!(\"own entry\"); }";
    let wrapped = executor.create_restricted_code(code, 7);
    let expected = format!(
        "use std::io;\nuse std::io::prelude::*;\nuse std::collections::{{HashMap, HashSet, BTreeMap, BTreeSet, VecDeque}};\nuse std::time::{{Duration, Instant}};\nuse std::thread;\n\n{}",
        code
    );
    assert_eq!(wrapped, expected);
    assert!(!wrapped.contains("catch_unwind"));
}

#[test]
fn entry_point_marker_is_textual() {
    // Classification is by the literal marker, even inside a comment.
    let executor = RustExecutor::new();
    let code = "// fn main() is mentioned here only\nprintln!(\"hi\");";
    let wrapped = executor.create_restricted_code(code, 3);
    assert!(!wrapped.contains("catch_unwind"));
}

#[test]
fn workspace_failure_messages_name_the_step() {
    let r = workspace_failure(WorkspaceStep::CreateTempDir, "disk full", 12);
    assert_eq!(r.error, "Failed to create temp directory: disk full");
    assert_eq!(r.status, Status::Error);
    assert_eq!(r.output, "");
    assert_eq!(r.elapsed_ms, 12);
    let r = workspace_failure(WorkspaceStep::CreateSrcDir, "denied", 0);
    assert_eq!(r.error, "Failed to create src directory: denied");
    let r = workspace_failure(WorkspaceStep::WriteManifest, "denied", 0);
    assert_eq!(r.error, "Failed to create Cargo.toml: denied");
    let r = workspace_failure(WorkspaceStep::WriteSource, "denied", 0);
    assert_eq!(r.error, "Failed to write main.rs: denied");
}

#[test]
fn build_launch_failure_is_an_error() {
    let out = build_transition(&BuildEvent::LaunchFailed { detail: "not found".to_string() })
        .expect("launch failure must end the pipeline");
    assert_eq!(out.error, "Failed to execute cargo build: not found");
    assert_eq!(out.status, Status::Error);
    assert_eq!(out.output, "");
}

#[test]
fn build_timeout_is_an_error() {
    let out = build_transition(&BuildEvent::TimedOut).expect("timeout must end the pipeline");
    assert_eq!(out.error, "Compilation timed out");
    assert_eq!(out.status, Status::Error);
}

#[test]
fn build_diagnostics_are_wrapped_verbatim() {
    let diag = "error[E0425]: cannot find value `x` in this scope\n".to_string();
    let out = build_transition(&BuildEvent::Completed { success: false, stderr: diag.clone() })
        .expect("a failed build must end the pipeline");
    assert_eq!(out.error, format!("Compilation error: {}", diag));
    assert_eq!(out.status, Status::Error);
    assert!(!out.error.is_empty());
}

#[test]
fn successful_build_proceeds_to_run() {
    let next = build_transition(&BuildEvent::Completed { success: true, stderr: String::new() });
    assert!(next.is_none());
}

#[test]
fn clean_exit_with_printed_text_is_success() {
    let out = run_transition(
        &RunEvent::Completed {
            exit_success: true,
            exit_code: Some(0),
            stdout: "Hello, World!\n".to_string(),
            stderr: "".to_string(),
        },
        30,
    );
    assert_eq!(out.status, Status::Success);
    assert_eq!(out.output, "Hello, World!");
    assert_eq!(out.error, "");
}

#[test]
fn captured_text_is_trimmed_on_every_outcome() {
    let out = run_transition(
        &RunEvent::Completed {
            exit_success: false,
            exit_code: Some(3),
            stdout: "  spaced out  \n".to_string(),
            stderr: "\u{00A0}wide\u{00A0}".to_string(),
        },
        30,
    );
    assert_eq!(out.output, "spaced out");
    assert_eq!(out.error, "wide");
    assert_eq!(out.status, Status::Error);
}

#[test]
fn sentinel_exit_maps_to_timeout() {
    let out = run_transition(
        &RunEvent::Completed {
            exit_success: false,
            exit_code: Some(124),
            stdout: String::new(),
            stderr: "TIMEOUT: Code execution exceeded time limit\n".to_string(),
        },
        1,
    );
    assert_eq!(out.status, Status::Timeout);
    assert_eq!(out.error, "TIMEOUT: Code execution exceeded time limit");
}

#[test]
fn abnormal_abort_maps_to_error_with_description() {
    let out = run_transition(
        &RunEvent::Completed {
            exit_success: false,
            exit_code: Some(1),
            stdout: String::new(),
            stderr: "Error: assertion failed: boom\n".to_string(),
        },
        30,
    );
    assert_eq!(out.status, Status::Error);
    assert!(out.error.contains("assertion failed: boom"));
}

#[test]
fn exit_without_code_is_an_error() {
    let out = run_transition(
        &RunEvent::Completed {
            exit_success: false,
            exit_code: None,
            stdout: String::new(),
            stderr: String::new(),
        },
        30,
    );
    assert_eq!(out.status, Status::Error);
}

#[test]
fn outer_budget_elapsing_maps_to_timeout() {
    let out = run_transition(&RunEvent::TimedOut, 1);
    assert_eq!(out.status, Status::Timeout);
    assert_eq!(out.error, "Code execution timed out after 1 seconds");
    assert_eq!(out.output, "");
}

#[test]
fn spawn_failure_names_the_failure() {
    let out = run_transition(&RunEvent::SpawnFailed { detail: "No such file".to_string() }, 30);
    assert_eq!(out.status, Status::Error);
    assert_eq!(out.error, "Failed to spawn process: No such file");
}

#[test]
fn await_failure_names_the_failure() {
    let out = run_transition(&RunEvent::AwaitFailed { detail: "broken pipe".to_string() }, 30);
    assert_eq!(out.status, Status::Error);
    assert_eq!(out.error, "Process error: broken pipe");
}

#[test]
fn assembly_preserves_the_stage_outcome() {
    let stage = StageOutput {
        output: "out".to_string(),
        error: "err".to_string(),
        status: Status::Success,
    };
    let r = assemble(stage, 250);
    assert_eq!(r.output, "out");
    assert_eq!(r.error, "err");
    assert_eq!(r.status, Status::Success);
    assert_eq!(r.elapsed_ms, 250);
}

#[test]
fn status_labels() {
    assert_eq!(Status::Success.label(), "success");
    assert_eq!(Status::Error.label(), "error");
    assert_eq!(Status::Timeout.label(), "timeout");
}

#[test]
fn short_override_and_elapsed_budget_give_a_timeout_result() {
    let executor = RustExecutor::new();
    let plan = match executor.begin_execution("loop {}", Some(1)) {
        ExecutionGate::Admitted { plan } => plan,
        ExecutionGate::Rejected { .. } => panic!("small snippet was rejected"),
    };
    assert_eq!(plan.timeout_seconds, 1);
    assert!(build_transition(&BuildEvent::Completed { success: true, stderr: String::new() })
        .is_none());
    let stage = run_transition(&RunEvent::TimedOut, plan.timeout_seconds);
    let result = assemble(stage, 1050);
    assert_eq!(result.status, Status::Timeout);
    assert_eq!(result.error, "Code execution timed out after 1 seconds");
    assert_eq!(result.output, "");
    assert_eq!(result.elapsed_ms, 1050);
}

#[test]
fn identical_requests_decide_identically() {
    let executor = RustExecutor::new();
    let code = "println!(\"same\");";
    let a = executor.begin_execution(code, Some(4));
    let b = executor.begin_execution(code, Some(4));
    match (a, b) {
        (ExecutionGate::Admitted { plan: p1 }, ExecutionGate::Admitted { plan: p2 }) => {
            assert_eq!(p1.timeout_seconds, p2.timeout_seconds);
            assert_eq!(p1.manifest, p2.manifest);
            assert_eq!(p1.source, p2.source);
        }
        _ => panic!("identical small snippets must both be admitted"),
    }
}

#[test]
fn library_surface_is_declared() {
    let libs = available_libraries();
    assert_eq!(
        libs,
        vec![
            "std::io".to_string(),
            "std::collections".to_string(),
            "std::time".to_string(),
            "std::thread".to_string(),
            "std::fs".to_string(),
            "std::path".to_string(),
        ]
    );
}
