//! The result encoder: the pure mapping from a pipeline outcome to the two
//! public result records consumed by front ends.
//!
//! Both records carry a success flag, optional payload fields, an optional
//! error message, and optional per-stage timings.  The encoder guarantees
//! that flag, payload and error are never inconsistent: on success every
//! payload field of the flow is present and the error is absent; on failure
//! every payload field is absent and the error is present.

use vstd::prelude::*;

verus! {

/// The stage of the pipeline at which a failure arose.
#[derive(Clone, Copy, PartialEq, Eq, Structural, Debug)]
pub enum Stage {
    /// The engine's compiler could not be configured.
    Configure,
    /// The input specification could not be decoded.
    Inputs,
    /// The program source failed to assemble.
    Compile,
    /// The compiled program faulted while running.
    Execute,
    /// The proof system failed to produce a proof.
    Prove,
}

/// Elapsed wall-clock durations in whole milliseconds, one per named phase;
/// a duration is present only if its phase was reached.
pub struct StageTiming {
    /// Time spent assembling the program.
    pub compilation_ms: Option<u64>,
    /// Time spent executing, or proving, the compiled program.
    pub work_ms: Option<u64>,
    /// Time from request to result.
    pub total_ms: Option<u64>,
}

/// The successful payload of the execute flow.
pub struct ExecSuccess {
    /// The first elements of the final operand stack, top first, as decimal
    /// strings.
    pub stack_outputs: Vec<String>,
    /// The compiled program's identity hash.
    pub program_hash: String,
    /// The number of machine cycles the run took.
    pub cycles: u32,
}

/// The outcome of the execute flow.
pub enum ExecOutcome {
    Success(ExecSuccess),
    Failure(Stage, String),
}

/// The successful payload of the prove flow.
pub struct ProveSuccess {
    /// The serialized proof.
    pub proof_bytes: Vec<u8>,
    /// The compiled program's identity hash.
    pub program_hash: String,
    /// The first elements of the final operand stack, top first, as decimal
    /// strings.
    pub stack_outputs: Vec<String>,
}

/// The outcome of the prove flow.
pub enum ProveOutcome {
    Success(ProveSuccess),
    Failure(Stage, String),
}

/// The public record answering an execute request.
pub struct ExecutionResult {
    pub success: bool,
    pub stack_outputs: Option<Vec<String>>,
    pub program_hash: Option<String>,
    pub cycles: Option<u32>,
    pub error: Option<String>,
    pub compilation_time_ms: Option<u64>,
    pub execution_time_ms: Option<u64>,
    pub total_time_ms: Option<u64>,
}

/// The public record answering a prove request.
pub struct ProofResult {
    pub success: bool,
    pub proof_bytes: Option<Vec<u8>>,
    pub program_hash: Option<String>,
    pub stack_outputs: Option<Vec<String>>,
    pub error: Option<String>,
    pub compilation_time_ms: Option<u64>,
    pub proving_time_ms: Option<u64>,
    pub total_time_ms: Option<u64>,
}

/// Success flag, payload presence and error presence agree with one another.
pub open spec fn execution_result_consistent(r: ExecutionResult) -> bool {
    &&& r.success <==> r.stack_outputs is Some
    &&& r.success <==> r.program_hash is Some
    &&& r.success <==> r.cycles is Some
    &&& r.success <==> r.error is None
}

/// Success flag, payload presence and error presence agree with one another.
pub open spec fn proof_result_consistent(r: ProofResult) -> bool {
    &&& r.success <==> r.proof_bytes is Some
    &&& r.success <==> r.program_hash is Some
    &&& r.success <==> r.stack_outputs is Some
    &&& r.success <==> r.error is None
}

/// Encode an execute-flow outcome and its timings as the public record.
pub fn encode_execution(outcome: ExecOutcome, timing: StageTiming) -> (r: ExecutionResult)
    ensures
        execution_result_consistent(r),
        outcome matches ExecOutcome::Success(s) ==> {
            &&& r.success
            &&& r.stack_outputs == Option::Some(s.stack_outputs)
            &&& r.program_hash == Option::Some(s.program_hash)
            &&& r.cycles == Option::Some(s.cycles)
        },
        outcome matches ExecOutcome::Failure(_, m) ==> {
            &&& !r.success
            &&& r.error == Option::Some(m)
        },
        r.compilation_time_ms == timing.compilation_ms,
        r.execution_time_ms == timing.work_ms,
        r.total_time_ms == timing.total_ms,
{
    match outcome {
        ExecOutcome::Success(s) => ExecutionResult {
            success: true,
            stack_outputs: Option::Some(s.stack_outputs),
            program_hash: Option::Some(s.program_hash),
            cycles: Option::Some(s.cycles),
            error: Option::None,
            compilation_time_ms: timing.compilation_ms,
            execution_time_ms: timing.work_ms,
            total_time_ms: timing.total_ms,
        },
        ExecOutcome::Failure(_, m) => ExecutionResult {
            success: false,
            stack_outputs: Option::None,
            program_hash: Option::None,
            cycles: Option::None,
            error: Option::Some(m),
            compilation_time_ms: timing.compilation_ms,
            execution_time_ms: timing.work_ms,
            total_time_ms: timing.total_ms,
        },
    }
}

/// Encode a prove-flow outcome and its timings as the public record.
pub fn encode_proof(outcome: ProveOutcome, timing: StageTiming) -> (r: ProofResult)
    ensures
        proof_result_consistent(r),
        outcome matches ProveOutcome::Success(s) ==> {
            &&& r.success
            &&& r.proof_bytes == Option::Some(s.proof_bytes)
            &&& r.program_hash == Option::Some(s.program_hash)
            &&& r.stack_outputs == Option::Some(s.stack_outputs)
        },
        outcome matches ProveOutcome::Failure(_, m) ==> {
            &&& !r.success
            &&& r.error == Option::Some(m)
        },
        r.compilation_time_ms == timing.compilation_ms,
        r.proving_time_ms == timing.work_ms,
        r.total_time_ms == timing.total_ms,
{
    match outcome {
        ProveOutcome::Success(s) => ProofResult {
            success: true,
            proof_bytes: Option::Some(s.proof_bytes),
            program_hash: Option::Some(s.program_hash),
            stack_outputs: Option::Some(s.stack_outputs),
            error: Option::None,
            compilation_time_ms: timing.compilation_ms,
            proving_time_ms: timing.work_ms,
            total_time_ms: timing.total_ms,
        },
        ProveOutcome::Failure(_, m) => ProofResult {
            success: false,
            proof_bytes: Option::None,
            program_hash: Option::None,
            stack_outputs: Option::None,
            error: Option::Some(m),
            compilation_time_ms: timing.compilation_ms,
            proving_time_ms: timing.work_ms,
            total_time_ms: timing.total_ms,
        },
    }
}

} // verus!
