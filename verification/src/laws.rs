//! Laws of the pipeline, proved once over the stage decisions: how the
//! timeout override resolves, what the size guard forces, and that every
//! decision is a function of its inputs alone — the ground for serving
//! concurrent requests with no shared mutable state.

use vstd::prelude::*;

use crate::RustExecutor;
use crate::execute::ExecutionGate;
use crate::execute::gate_decision;
use crate::execute::oversize;
use crate::execute::resolved_timeout;
use crate::execute::size_error_message;
use crate::outcome::RunEvent;
use crate::outcome::StageOutput;
use crate::outcome::Status;
use crate::outcome::run_decision;

verus! {

/// An override in (0, 60] is used as given: the resolved timeout equals the
/// override, whatever the configured default.
pub proof fn lemma_timeout_override_in_range(default: u64, t: u64)
    requires
        0 < t <= 60,
    ensures
        resolved_timeout(default, Some(t)) == t,
{
}

/// An absent override, or one above the ceiling of 60, falls back to the
/// configured default.
pub proof fn lemma_timeout_override_out_of_range(default: u64, timeout_override: Option<u64>)
    requires
        timeout_override matches Some(t) ==> t > 60,
    ensures
        resolved_timeout(default, timeout_override) == default,
{
}

/// A snippet over the size ceiling is turned away before any workspace
/// exists: the result carries an error status, the message naming both
/// sizes, no output, and zero elapsed time.
pub proof fn lemma_oversize_rejected(
    cfg: RustExecutor,
    code_bytes: nat,
    code: Seq<char>,
    timeout_override: Option<u64>,
    g: ExecutionGate,
)
    requires
        gate_decision(cfg, code_bytes, code, timeout_override, g),
        oversize(code_bytes, cfg.max_code_size_kb as nat),
    ensures
        g matches ExecutionGate::Rejected { result } && result.output@ == Seq::<char>::empty()
            && result.error@ == size_error_message(code_bytes, cfg.max_code_size_kb as nat)
            && result.status == Status::Error && result.elapsed_ms == 0,
{
}

/// The size guard's decisions are a function of the request alone: two gate
/// verdicts for the same configuration and snippet agree in kind and, piece
/// by piece, in content. Requests never share state, so concurrent identical
/// requests cannot influence one another's verdict.
pub proof fn lemma_gate_deterministic(
    cfg: RustExecutor,
    code_bytes: nat,
    code: Seq<char>,
    timeout_override: Option<u64>,
    g1: ExecutionGate,
    g2: ExecutionGate,
)
    requires
        gate_decision(cfg, code_bytes, code, timeout_override, g1),
        gate_decision(cfg, code_bytes, code, timeout_override, g2),
    ensures
        (g1 matches ExecutionGate::Rejected { result: _ }) <==> (g2 matches
        ExecutionGate::Rejected { result: _ }),
        g1 matches ExecutionGate::Rejected { result: r1 } ==> (g2 matches ExecutionGate::Rejected {
            result: r2,
        } ==> r1.output@ == r2.output@ && r1.error@ == r2.error@ && r1.status == r2.status
            && r1.elapsed_ms == r2.elapsed_ms),
        g1 matches ExecutionGate::Admitted { plan: p1 } ==> (g2 matches ExecutionGate::Admitted {
            plan: p2,
        } ==> p1.timeout_seconds == p2.timeout_seconds && p1.manifest@ == p2.manifest@
            && p1.source@ == p2.source@),
{
}

/// Compiler diagnostics are never silently dropped: the message a failed
/// build reports — the diagnostic text behind its fixed prefix — is
/// non-empty even when the compiler itself printed nothing.
pub proof fn lemma_compile_diagnostics_nonempty(stderr: Seq<char>)
    ensures
        (crate::outcome::compile_error_prefix() + stderr).len() > 0,
{
    reveal_strlit("Compilation error: ");
}

/// The run stage's decision is a function of the observed event and the
/// resolved budget alone: two outputs decided for the same event agree in
/// text and status.
pub proof fn lemma_run_deterministic(ev: RunEvent, timeout_seconds: u64, r1: StageOutput, r2:
    StageOutput)
    requires
        run_decision(ev, timeout_seconds, r1),
        run_decision(ev, timeout_seconds, r2),
    ensures
        r1.output@ == r2.output@,
        r1.error@ == r2.error@,
        r1.status == r2.status,
{
}

} // verus!
