use rust_executor::RustExecutor;
use rust_executor::outcome::WorkspaceStep;
use rust_executor::text::contains_str;
use rust_executor::text::trim_str;
use rust_executor::text::u64_to_string;
use rust_executor::validation::CheckEvent;
use rust_executor::validation::check_transition;
use rust_executor::validation::validation_workspace_failure;

#[test]
fn validation_wraps_a_bare_snippet_in_a_plain_entry_point() {
    let executor = RustExecutor::new();
    let plan = executor.begin_validation("let x = 1;");
    assert_eq!(
        plan.source,
        "use std::io;\nuse std::collections::{HashMap, HashSet, BTreeMap, BTreeSet};\n\nfn main() {\nlet x = 1;\n}"
    );
    assert!(!plan.source.contains("catch_unwind"));
    assert!(!plan.source.contains("from_secs"));
}

#[test]
fn validation_keeps_a_self_contained_snippet() {
    let executor = RustExecutor::new();
    let code = "fn main() { let y = 2; }";
    let plan = executor.begin_validation(code);
    assert_eq!(
        plan.source,
        format!(
            "use std::io;\nuse std::collections::{{HashMap, HashSet, BTreeMap, BTreeSet}};\n\n{}",
            code
        )
    );
}

#[test]
fn validation_manifest_declares_one_binary() {
    let executor = RustExecutor::new();
    let plan = executor.begin_validation("let x = 1;");
    assert_eq!(
        plan.manifest,
        "[package]\nname = \"rust_validate\"\nversion = \"0.1.0\"\nedition = \"2021\"\n\n[[bin]]\nname = \"main\"\npath = \"src/main.rs\"\n"
    );
}

#[test]
fn clean_check_is_valid_with_no_diagnostics() {
    let v = check_transition(&CheckEvent::Completed { success: true, stderr: String::new() });
    assert!(v.is_valid);
    assert!(v.errors.is_empty());
    assert!(v.warnings.is_empty());
}

#[test]
fn failed_check_carries_the_raw_diagnostics() {
    let diag = "error: expected `;`, found `}`\n".to_string();
    let v = check_transition(&CheckEvent::Completed { success: false, stderr: diag.clone() });
    assert!(!v.is_valid);
    assert_eq!(v.errors, vec![diag]);
    assert!(v.warnings.is_empty());
    assert!(!v.errors[0].is_empty());
}

#[test]
fn syntax_error_surfaces_on_both_paths() {
    let diag = "error: expected one of `!` or `::`, found `main`\n".to_string();
    let build = rust_executor::outcome::build_transition(
        &rust_executor::outcome::BuildEvent::Completed { success: false, stderr: diag.clone() },
    )
    .expect("a failed build must end the pipeline");
    assert_eq!(build.status, rust_executor::outcome::Status::Error);
    assert!(!build.error.is_empty());
    assert!(build.error.contains(&diag));
    let verdict = check_transition(&CheckEvent::Completed { success: false, stderr: diag.clone() });
    assert!(!verdict.is_valid);
    assert_eq!(verdict.errors, vec![diag]);
}

#[test]
fn check_launch_failure_is_invalid() {
    let v = check_transition(&CheckEvent::LaunchFailed { detail: "not found".to_string() });
    assert!(!v.is_valid);
    assert_eq!(v.errors, vec!["Failed to execute cargo check: not found".to_string()]);
    assert!(v.warnings.is_empty());
}

#[test]
fn check_timeout_is_invalid() {
    let v = check_transition(&CheckEvent::TimedOut);
    assert!(!v.is_valid);
    assert_eq!(v.errors, vec!["Syntax check timed out".to_string()]);
    assert!(v.warnings.is_empty());
}

#[test]
fn validation_workspace_failure_names_the_step() {
    let v = validation_workspace_failure(WorkspaceStep::CreateTempDir, "disk full");
    assert!(!v.is_valid);
    assert_eq!(v.errors, vec!["Failed to create temp directory: disk full".to_string()]);
    assert!(v.warnings.is_empty());
}

#[test]
fn trim_removes_surrounding_whitespace_only() {
    assert_eq!(trim_str("  a b  "), "a b");
    assert_eq!(trim_str("\t\r\nx\n"), "x");
    assert_eq!(trim_str(""), "");
    assert_eq!(trim_str(" \n\t "), "");
    assert_eq!(trim_str("inner  space"), "inner  space");
    assert_eq!(trim_str("\u{3000}ideographic\u{2028}"), "ideographic");
}

#[test]
fn substring_search_finds_the_marker() {
    assert!(contains_str("fn main() {}", "fn main()"));
    assert!(contains_str("xx fn main() xx", "fn main()"));
    assert!(!contains_str("fn main ()", "fn main()"));
    assert!(!contains_str("", "fn main()"));
    assert!(contains_str("anything", ""));
}

#[test]
fn decimal_rendering_is_exact() {
    assert_eq!(u64_to_string(0), "0");
    assert_eq!(u64_to_string(7), "7");
    assert_eq!(u64_to_string(124), "124");
    assert_eq!(u64_to_string(18446744073709551615), "18446744073709551615");
}
