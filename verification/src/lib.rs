//! Verified core of a bounded code-execution service.
//!
//! Untrusted source snippets are wrapped into a buildable unit, compiled
//! under a fixed time budget, and run under a caller-configurable budget.
//! The decision logic lives here: the size guard, timeout resolution,
//! harness templating, and the mapping of every stage outcome to a final
//! status and message. The surrounding process work (filesystem, child
//! processes, HTTP transport) is left to an unverified shell that feeds
//! events into these functions.

use vstd::prelude::*;

pub mod execute;
pub mod harness;
pub mod laws;
pub mod outcome;
pub mod text;
pub mod validation;

verus! {

/// Process-wide configuration: immutable after construction.
#[derive(Clone, Copy, Debug)]
pub struct RustExecutor {
    /// Default execution timeout in seconds, used when no valid override is given.
    pub max_execution_time: u64,
    /// Declared memory ceiling in megabytes (advisory; not enforced at spawn).
    pub max_memory_mb: u32,
    /// Largest accepted snippet, in kilobytes.
    pub max_code_size_kb: u32,
}

impl RustExecutor {
    pub fn new() -> (r: Self)
        ensures
            r.max_execution_time == 30,
            r.max_memory_mb == 128,
            r.max_code_size_kb == 50,
    {
        RustExecutor { max_execution_time: 30, max_memory_mb: 128, max_code_size_kb: 50 }
    }
}

/// The declared standard-library surface reported by the read-only status
/// endpoint: which module trees a snippet may lean on.
pub fn available_libraries() -> (r: Vec<String>)
    ensures
        r@.len() == 6,
        r@[0]@ == "std::io"@,
        r@[1]@ == "std::collections"@,
        r@[2]@ == "std::time"@,
        r@[3]@ == "std::thread"@,
        r@[4]@ == "std::fs"@,
        r@[5]@ == "std::path"@,
{
    let mut v: Vec<String> = Vec::new();
    v.push("std::io".to_owned());
    v.push("std::collections".to_owned());
    v.push("std::time".to_owned());
    v.push("std::thread".to_owned());
    v.push("std::fs".to_owned());
    v.push("std::path".to_owned());
    v
}

} // verus!
