//! The entry of the execution pipeline: timeout resolution and the size
//! guard. The guard is the only stage that can end a request before any
//! filesystem or process side effect; when it admits a snippet, it hands the
//! shell a complete plan (resolved timeout, build manifest, wrapped source)
//! so that every later decision is already fixed.

use vstd::prelude::*;
use vstd::arithmetic::div_mod::lemma_div_is_ordered;
use vstd::string::StrSliceExecFns;
use vstd::string::StringExecFns;
use vstd::string::StringSliceAdditionalSpecFns;

use crate::RustExecutor;
use crate::harness::exec_manifest;
use crate::harness::exec_manifest_text;
use crate::harness::restricted_code;
use crate::outcome::ExecutionResult;
use crate::outcome::Status;
use crate::text::dec_rep;
use crate::text::u64_to_string;

verus! {

broadcast use vstd::slice::group_slice_axioms;

/// The hard ceiling on a caller-supplied timeout override, in seconds.
pub const TIMEOUT_OVERRIDE_CEILING: u64 = 60;

/// The timeout the run stage uses: the override when one is given and does
/// not exceed the ceiling, the configured default otherwise.
pub open spec fn resolved_timeout(default: u64, timeout_override: Option<u64>) -> u64 {
    match timeout_override {
        Some(t) => if t <= TIMEOUT_OVERRIDE_CEILING {
            t
        } else {
            default
        },
        None => default,
    }
}

impl RustExecutor {
    /// Resolve the caller's optional timeout override against the ceiling.
    pub fn resolve_timeout(&self, timeout_override: Option<u64>) -> (t: u64)
        ensures
            t == resolved_timeout(self.max_execution_time, timeout_override),
    {
        match timeout_override {
            Some(t) => if t <= TIMEOUT_OVERRIDE_CEILING {
                t
            } else {
                self.max_execution_time
            },
            None => self.max_execution_time,
        }
    }
}

/// A snippet of `len` bytes exceeds a ceiling of `max_kb` kilobytes.
pub open spec fn oversize(len: nat, max_kb: nat) -> bool {
    len > max_kb * 1024
}

/// The snippet's size in tenths of a kilobyte, rounded to the nearest tenth.
pub open spec fn size_tenths(len: nat) -> nat {
    (10 * len + 512) / 1024
}

/// The message the size guard reports, naming the actual size (to a tenth of
/// a kilobyte) and the allowed size.
pub open spec fn size_error_message(len: nat, max_kb: nat) -> Seq<char> {
    "Code size ("@ + dec_rep(size_tenths(len) / 10) + "."@ + dec_rep(size_tenths(len) % 10)
        + "KB) exceeds maximum allowed size ("@ + dec_rep(max_kb) + "KB)"@
}

/// Everything the shell needs to materialize a workspace and run the later
/// stages: the resolved run timeout, the build manifest, and the wrapped
/// source unit.
pub struct ExecutionPlan {
    pub timeout_seconds: u64,
    pub manifest: String,
    pub source: String,
}

/// The size guard's verdict on a request.
pub enum ExecutionGate {
    /// The snippet was oversize: the request ends here, with this result and
    /// zero elapsed time, before any workspace exists.
    Rejected { result: ExecutionResult },
    /// The snippet was admitted; the plan fixes all later decisions.
    Admitted { plan: ExecutionPlan },
}

fn size_error_text(len_bytes: usize, max_kb: u32) -> (r: String)
    ensures
        r@ == size_error_message(len_bytes as nat, max_kb as nat),
{
    let t: u128 = (10 * (len_bytes as u128) + 512) / 1024;
    proof {
        assert(len_bytes as u128 <= 0xFFFF_FFFF_FFFF_FFFFu128);
        lemma_div_is_ordered(
            10 * (len_bytes as int) + 512,
            10 * 0xFFFF_FFFF_FFFF_FFFFint + 512,
            1024,
        );
        assert((10 * 0xFFFF_FFFF_FFFF_FFFFint + 512) / 1024 < 0x1_0000_0000_0000_0000int);
        assert(t < 0x1_0000_0000_0000_0000u128);
    }
    let whole: u64 = (t / 10) as u64;
    let tenth: u64 = (t % 10) as u64;
    let mut m = String::new();
    m.append("Code size (");
    let d0 = u64_to_string(whole);
    m.append(d0.as_str());
    m.append(".");
    let d1 = u64_to_string(tenth);
    m.append(d1.as_str());
    m.append("KB) exceeds maximum allowed size (");
    let d2 = u64_to_string(max_kb as u64);
    m.append(d2.as_str());
    m.append("KB)");
    proof {
        assert(t as nat == size_tenths(len_bytes as nat));
        assert(m@ =~= size_error_message(len_bytes as nat, max_kb as nat));
    }
    m
}

/// What the size guard must decide for a snippet of `code_bytes` bytes whose
/// characters are `code`: an oversize snippet is rejected — with an error
/// status, the message naming both sizes, and zero elapsed time — before any
/// workspace exists; an admitted one gets the resolved timeout, the fixed
/// build manifest, and the harness-wrapped source.
pub open spec fn gate_decision(
    cfg: RustExecutor,
    code_bytes: nat,
    code: Seq<char>,
    timeout_override: Option<u64>,
    g: ExecutionGate,
) -> bool {
    &&& (oversize(code_bytes, cfg.max_code_size_kb as nat) <==> (g matches
    ExecutionGate::Rejected { result: _ }))
    &&& (g matches ExecutionGate::Rejected { result } ==> result.output@ == Seq::<char>::empty()
        && result.error@ == size_error_message(code_bytes, cfg.max_code_size_kb as nat)
        && result.status == Status::Error && result.elapsed_ms == 0)
    &&& (g matches ExecutionGate::Admitted { plan } ==> plan.timeout_seconds == resolved_timeout(
        cfg.max_execution_time,
        timeout_override,
    ) && plan.manifest@ == exec_manifest_text() && plan.source@ == restricted_code(
        code,
        plan.timeout_seconds as nat,
    ))
}

impl RustExecutor {
    /// Run the size guard and, when the snippet is admitted, build the
    /// execution plan.
    pub fn begin_execution(&self, code: &str, timeout_override: Option<u64>) -> (g: ExecutionGate)
        ensures
            gate_decision(*self, code.spec_bytes().len(), code@, timeout_override, g),
    {
        let len: usize = code.as_bytes().len();
        proof {
            assert(len == code.spec_bytes().len());
        }
        let limit: u64 = (self.max_code_size_kb as u64) * 1024;
        if (len as u64) > limit {
            ExecutionGate::Rejected {
                result: ExecutionResult {
                    output: String::new(),
                    error: size_error_text(len, self.max_code_size_kb),
                    status: Status::Error,
                    elapsed_ms: 0,
                },
            }
        } else {
            let timeout_seconds = self.resolve_timeout(timeout_override);
            ExecutionGate::Admitted {
                plan: ExecutionPlan {
                    timeout_seconds,
                    manifest: exec_manifest(),
                    source: self.create_restricted_code(code, timeout_seconds),
                },
            }
        }
    }
}

} // verus!
