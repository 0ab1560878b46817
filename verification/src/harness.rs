//! Harness templating: wraps a raw snippet into a complete, buildable unit.
//!
//! A snippet that already defines its own entry point only gets a prelude of
//! standard-library imports. A bare snippet is embedded in a generated entry
//! point that starts a watchdog thread (which force-exits the process with a
//! sentinel code when the time budget elapses) and runs the snippet inside a
//! failure boundary that turns an abrupt abort into a captured message and a
//! non-zero, non-sentinel exit.

use vstd::prelude::*;
use vstd::string::StringExecFns;

use crate::RustExecutor;
use crate::text::contains_seq;
use crate::text::contains_str;
use crate::text::dec_rep;
use crate::text::u64_to_string;

verus! {

/// The marker whose presence classifies a snippet as self-contained.
pub open spec fn entry_point_marker() -> Seq<char> {
    "fn main()"@
}

/// A snippet is self-contained when it carries the entry-point marker.
pub open spec fn has_entry_point(code: Seq<char>) -> bool {
    contains_seq(code, entry_point_marker())
}

/// The import prelude placed before every snippet on the execution path.
pub open spec fn exec_prelude() -> Seq<char> {
    "use std::io;\nuse std::io::prelude::*;\nuse std::collections::{HashMap, HashSet, BTreeMap, BTreeSet, VecDeque};\nuse std::time::{Duration, Instant};\nuse std::thread;\n\n"@
}

/// Generated entry point, up to the watchdog's sleep duration in seconds.
pub open spec fn watchdog_head() -> Seq<char> {
    "fn main() {\n    // Set execution timeout\n    let start_time = Instant::now();\n    let timeout = Duration::from_secs("@
}

/// Generated entry point, between the sleep duration and the embedded snippet.
pub open spec fn watchdog_mid() -> Seq<char> {
    ");\n    \n    // Spawn timeout checker\n    let timeout_checker = thread::spawn(move || {\n        thread::sleep(timeout);\n        eprintln!(\"TIMEOUT: Code execution exceeded time limit\");\n        std::process::exit(124);\n    });\n    \n    // User code wrapper\n    let result = std::panic::catch_unwind(|| {\n        // User code starts here\n"@
}

/// Generated entry point after the embedded snippet: the failure boundary.
pub open spec fn watchdog_tail() -> Seq<char> {
    "\n    });\n    \n    match result {\n        Ok(_) => {\n            // Success - try to kill timeout checker gracefully\n            // Note: We can't actually kill the thread, but process will exit normally\n        }\n        Err(e) => {\n            if let Some(s) = e.downcast_ref::<&str>() {\n                eprintln!(\"Error: {}\", s);\n            } else if let Some(s) = e.downcast_ref::<String>() {\n                eprintln!(\"Error: {}\", s);\n            } else {\n                eprintln!(\"Error: panic occurred\");\n            }\n            std::process::exit(1);\n        }\n    }\n}"@
}

/// The complete source unit produced for the execution path.
pub open spec fn restricted_code(code: Seq<char>, timeout_seconds: nat) -> Seq<char> {
    if has_entry_point(code) {
        exec_prelude() + code
    } else {
        exec_prelude() + watchdog_head() + dec_rep(timeout_seconds) + watchdog_mid() + code
            + watchdog_tail()
    }
}

impl RustExecutor {
    /// Wrap a raw snippet into the source unit the build stage compiles.
    pub fn create_restricted_code(&self, user_code: &str, timeout_seconds: u64) -> (r: String)
        ensures
            r@ == restricted_code(user_code@, timeout_seconds as nat),
    {
        let mut s = String::new();
        s.append(
            "use std::io;\nuse std::io::prelude::*;\nuse std::collections::{HashMap, HashSet, BTreeMap, BTreeSet, VecDeque};\nuse std::time::{Duration, Instant};\nuse std::thread;\n\n",
        );
        if contains_str(user_code, "fn main()") {
            s.append(user_code);
            proof {
                assert(s@ =~= restricted_code(user_code@, timeout_seconds as nat));
            }
        } else {
            s.append(
                "fn main() {\n    // Set execution timeout\n    let start_time = Instant::now();\n    let timeout = Duration::from_secs(",
            );
            let d = u64_to_string(timeout_seconds);
            s.append(d.as_str());
            s.append(
                ");\n    \n    // Spawn timeout checker\n    let timeout_checker = thread::spawn(move || {\n        thread::sleep(timeout);\n        eprintln!(\"TIMEOUT: Code execution exceeded time limit\");\n        std::process::exit(124);\n    });\n    \n    // User code wrapper\n    let result = std::panic::catch_unwind(|| {\n        // User code starts here\n",
            );
            s.append(user_code);
            s.append(
                "\n    });\n    \n    match result {\n        Ok(_) => {\n            // Success - try to kill timeout checker gracefully\n            // Note: We can't actually kill the thread, but process will exit normally\n        }\n        Err(e) => {\n            if let Some(s) = e.downcast_ref::<&str>() {\n                eprintln!(\"Error: {}\", s);\n            } else if let Some(s) = e.downcast_ref::<String>() {\n                eprintln!(\"Error: {}\", s);\n            } else {\n                eprintln!(\"Error: panic occurred\");\n            }\n            std::process::exit(1);\n        }\n    }\n}",
            );
            proof {
                assert(s@ =~= restricted_code(user_code@, timeout_seconds as nat));
            }
        }
        s
    }
}

/// The build manifest written into every execution workspace: one binary
/// target and no dependencies.
pub open spec fn exec_manifest_text() -> Seq<char> {
    "[package]\nname = \"rust_exec\"\nversion = \"0.1.0\"\nedition = \"2021\"\n\n[[bin]]\nname = \"main\"\npath = \"src/main.rs\"\n\n[dependencies]\n"@
}

/// Produce the build manifest for an execution workspace.
pub fn exec_manifest() -> (r: String)
    ensures
        r@ == exec_manifest_text(),
{
    let mut s = String::new();
    s.append(
        "[package]\nname = \"rust_exec\"\nversion = \"0.1.0\"\nedition = \"2021\"\n\n[[bin]]\nname = \"main\"\npath = \"src/main.rs\"\n\n[dependencies]\n",
    );
    proof {
        assert(s@ =~= exec_manifest_text());
    }
    s
}

} // verus!
