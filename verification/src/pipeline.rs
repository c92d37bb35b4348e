//! The pipeline: orchestrates the input decoder, the engine's compile and
//! execute / prove operations, and the stage timers into one of two flows,
//! producing a structured result.
//!
//! Both flows run the same Configure → Decode → Compile prefix and then
//! diverge: the execute flow runs the artifact and reports a trace summary,
//! the prove flow proves it and reports a serialized proof.  Any stage may
//! terminate the flow early with a classified failure; stages after the
//! failure are never reached and their timings stay absent.  Every stage's
//! outcome is a named function of the request, so each flow's whole result —
//! success, payload, error message, timing presence — is pinned by its
//! contract ([`execute_contract`], [`prove_contract`]); only the timing
//! values themselves, which are wall-clock, are not.

use vstd::prelude::*;
use vstd::string::StringExecFns;

use crate::decode::{decode_error_message, decode_spec, decode_stack_inputs, raw_view};
use crate::engine::{
    assembles, assembly_error_of, compile_program, configure_assembler, cycles_of,
    execution_error_of, executes_ok, program_hash_of, prove_trace, proves_ok,
    proving_error_of, run_trace, stack_input_error_of, stack_top_of, to_stack_inputs,
    valid_stack_inputs, MachineInputs, MAX_STACK_INPUTS,
};
use crate::results::{
    encode_execution, encode_proof, execution_result_consistent, proof_result_consistent,
    ExecOutcome, ExecSuccess, ExecutionResult, ProofResult, ProveOutcome, ProveSuccess,
    Stage, StageTiming,
};
use crate::timing::StageTimer;

verus! {

/// The logical request shape both front ends accept: program source text and
/// an optional JSON input specification, as raw text.
pub struct ExecutionRequest {
    pub program: String,
    pub inputs: Option<String>,
}

/// A successful execution record carries exactly what the engine computes
/// for this source and these decoded inputs: its identity hash, its 16
/// leading final-stack elements, and its cycle count.
pub open spec fn reports_execution_of(
    r: ExecutionResult,
    source: Seq<char>,
    vals: Seq<u64>,
) -> bool {
    &&& r.program_hash matches Some(h) && h@ == program_hash_of(source)
    &&& r.stack_outputs matches Some(o) && o@.len() == MAX_STACK_INPUTS
        && o@.map_values(|s: String| s@) == stack_top_of(source, vals)
    &&& r.cycles == Some(cycles_of(source, vals))
}

/// A successful proof record carries exactly what the engine computes for
/// this source and these decoded inputs: its identity hash, its 16 leading
/// final-stack elements, and a non-empty serialized proof.
pub open spec fn reports_proof_of(r: ProofResult, source: Seq<char>, vals: Seq<u64>) -> bool {
    &&& r.program_hash matches Some(h) && h@ == program_hash_of(source)
    &&& r.stack_outputs matches Some(o) && o@.len() == MAX_STACK_INPUTS
        && o@.map_values(|s: String| s@) == stack_top_of(source, vals)
    &&& r.proof_bytes matches Some(b) && b@.len() > 0
}

/// The whole observable behaviour of the execute flow on one request, but
/// for the wall-clock timing values: when it succeeds, what a success
/// carries, which stage a failure is charged to with which message, and
/// which timings are present.
pub open spec fn execute_contract(
    r: ExecutionResult,
    source: Seq<char>,
    raw: Option<Seq<char>>,
) -> bool {
    &&& execution_result_consistent(r)
    &&& r.total_time_ms is Some
    &&& (r.execution_time_ms is Some <==> r.success)
    &&& !r.success ==> (r.error matches Some(m) && m@.len() > 0)
    &&& match decode_spec(raw) {
        Ok(vals) => {
            &&& (r.success <==> valid_stack_inputs(vals) && assembles(source) && executes_ok(
                source,
                vals,
            ))
            &&& r.success ==> reports_execution_of(r, source, vals)
            &&& (r.compilation_time_ms is Some <==> valid_stack_inputs(vals))
            &&& !valid_stack_inputs(vals) ==> (r.error matches Some(m) && m@
                == "Failed to create stack inputs: "@ + stack_input_error_of(vals))
            &&& valid_stack_inputs(vals) && !assembles(source) ==> (r.error matches Some(m)
                && m@ == "Assembly error: "@ + assembly_error_of(source))
            &&& valid_stack_inputs(vals) && assembles(source) && !executes_ok(source, vals)
                ==> (r.error matches Some(m) && m@ == "Execution error: "@
                + execution_error_of(source, vals))
        },
        Err(e) => {
            &&& !r.success
            &&& r.compilation_time_ms is None
            &&& r.error matches Some(m) && m@ == decode_error_message(e)
        },
    }
}

/// The whole observable behaviour of the prove flow on one request, but for
/// the wall-clock timing values and the serialized proof's exact bytes.
pub open spec fn prove_contract(
    r: ProofResult,
    source: Seq<char>,
    raw: Option<Seq<char>>,
) -> bool {
    &&& proof_result_consistent(r)
    &&& r.total_time_ms is Some
    &&& (r.proving_time_ms is Some <==> r.success)
    &&& !r.success ==> (r.error matches Some(m) && m@.len() > 0)
    &&& match decode_spec(raw) {
        Ok(vals) => {
            &&& (r.success <==> valid_stack_inputs(vals) && assembles(source) && proves_ok(
                source,
                vals,
            ))
            &&& r.success ==> reports_proof_of(r, source, vals) && executes_ok(source, vals)
            &&& (r.compilation_time_ms is Some <==> valid_stack_inputs(vals))
            &&& !valid_stack_inputs(vals) ==> (r.error matches Some(m) && m@
                == "Failed to create stack inputs: "@ + stack_input_error_of(vals))
            &&& valid_stack_inputs(vals) && !assembles(source) ==> (r.error matches Some(m)
                && m@ == "Assembly error: "@ + assembly_error_of(source))
            &&& valid_stack_inputs(vals) && assembles(source) && !proves_ok(source, vals)
                ==> (r.error matches Some(m) && m@ == "Proving error: "@ + proving_error_of(
                source,
                vals,
            ))
        },
        Err(e) => {
            &&& !r.success
            &&& r.compilation_time_ms is None
            &&& r.error matches Some(m) && m@ == decode_error_message(e)
        },
    }
}

/// Parse a JSON input specification and stage its values as the engine's
/// initial stack.  Fails on malformed JSON, on an unparsable numeral, and on
/// values the engine's field rejects; a missing or malformed
/// `operand_stack` envelope yields no inputs.
pub fn parse_stack_inputs(inputs_json: &str) -> (r: Result<MachineInputs, String>)
    ensures
        match decode_spec(Some(inputs_json@)) {
            Ok(vals) => {
                &&& valid_stack_inputs(vals) ==> (r matches Ok(m) && m.values() == vals)
                &&& !valid_stack_inputs(vals) ==> (r matches Err(m) && m@
                    == "Failed to create stack inputs: "@ + stack_input_error_of(vals))
            },
            Err(e) => r matches Err(m) && m@ == decode_error_message(e),
        },
{
    let vals = match decode_stack_inputs(Some(inputs_json)) {
        Ok(v) => v,
        Err(e) => {
            return Err(e.message());
        },
    };
    match to_stack_inputs(&vals) {
        Ok(m) => Ok(m),
        Err(e) => Err(String::from_str("Failed to create stack inputs: ").concat(e.as_str())),
    }
}

/// The decode stage shared by both flows: an absent payload yields the
/// engine's default (empty) stack, a present one is parsed and staged.
fn decode_inputs(inputs_json: Option<&str>) -> (r: Result<MachineInputs, String>)
    ensures
        match decode_spec(raw_view(inputs_json)) {
            Ok(vals) => {
                &&& valid_stack_inputs(vals) ==> (r matches Ok(m) && m.values() == vals)
                &&& !valid_stack_inputs(vals) ==> (r matches Err(m) && m@
                    == "Failed to create stack inputs: "@ + stack_input_error_of(vals))
            },
            Err(e) => r matches Err(m) && m@ == decode_error_message(e),
        },
        r matches Err(m) ==> (m@.len() > 0),
{
    proof {
        reveal_strlit("Invalid JSON: ");
        reveal_strlit("Invalid number '");
        reveal_strlit("Failed to create stack inputs: ");
    }
    match inputs_json {
        Option::None => {
            let empty: Vec<u64> = Vec::new();
            match to_stack_inputs(&empty) {
                Ok(m) => Ok(m),
                Err(e) => Err(e),
            }
        },
        Option::Some(s) => parse_stack_inputs(s),
    }
}

/// The execute flow: configure the engine's compiler, decode the inputs,
/// compile the source, run the artifact; package the outcome with per-stage
/// timings.  [`execute_contract`] pins the whole record but for the
/// wall-clock values: success exactly when the inputs decode and are valid,
/// the source assembles and the run completes; the engine's outputs, hash
/// and cycle count on success; the stage-classified message and the absent
/// timings on failure.
pub fn execute_program_impl(program: &str, inputs_json: Option<&str>) -> (r: ExecutionResult)
    ensures
        execute_contract(r, program@, raw_view(inputs_json)),
{
    proof {
        reveal_strlit("Assembly error: ");
        reveal_strlit("Execution error: ");
    }
    let total = StageTimer::start();
    let assembler = match configure_assembler() {
        Ok(a) => a,
        Err(e) => {
            let msg = String::from_str("Failed to configure assembler: ").concat(e.as_str());
            return encode_execution(
                ExecOutcome::Failure(Stage::Configure, msg),
                StageTiming {
                    compilation_ms: Option::None,
                    work_ms: Option::None,
                    total_ms: Option::Some(total.elapsed_ms()),
                },
            );
        },
    };
    let ins = match decode_inputs(inputs_json) {
        Ok(m) => m,
        Err(msg) => {
            return encode_execution(
                ExecOutcome::Failure(Stage::Inputs, msg),
                StageTiming {
                    compilation_ms: Option::None,
                    work_ms: Option::None,
                    total_ms: Option::Some(total.elapsed_ms()),
                },
            );
        },
    };
    let compile_timer = StageTimer::start();
    let art = match compile_program(&assembler, program) {
        Ok(a) => a,
        Err(e) => {
            let msg = String::from_str("Assembly error: ").concat(e.as_str());
            return encode_execution(
                ExecOutcome::Failure(Stage::Compile, msg),
                StageTiming {
                    compilation_ms: Option::Some(compile_timer.elapsed_ms()),
                    work_ms: Option::None,
                    total_ms: Option::Some(total.elapsed_ms()),
                },
            );
        },
    };
    let compilation_ms = compile_timer.elapsed_ms();
    let execute_timer = StageTimer::start();
    let summary = match run_trace(&art, &ins) {
        Ok(t) => t,
        Err(e) => {
            let msg = String::from_str("Execution error: ").concat(e.as_str());
            return encode_execution(
                ExecOutcome::Failure(Stage::Execute, msg),
                StageTiming {
                    compilation_ms: Option::Some(compilation_ms),
                    work_ms: Option::None,
                    total_ms: Option::Some(total.elapsed_ms()),
                },
            );
        },
    };
    let execution_ms = execute_timer.elapsed_ms();
    encode_execution(
        ExecOutcome::Success(
            ExecSuccess {
                stack_outputs: summary.outputs,
                program_hash: art.into_hash(),
                cycles: summary.cycles,
            },
        ),
        StageTiming {
            compilation_ms: Option::Some(compilation_ms),
            work_ms: Option::Some(execution_ms),
            total_ms: Option::Some(total.elapsed_ms()),
        },
    )
}

/// The prove flow: the same Configure → Decode → Compile prefix as the
/// execute flow, then the engine's prover instead of its executor.
/// [`prove_contract`] pins the whole record but for the wall-clock values
/// and the proof's exact bytes: success exactly when the inputs decode and
/// are valid, the source assembles and the prover delivers; the engine's
/// outputs, hash and a non-empty proof on success; the stage-classified
/// message and the absent timings on failure.
pub fn generate_proof_impl(program: &str, inputs_json: Option<&str>) -> (r: ProofResult)
    ensures
        prove_contract(r, program@, raw_view(inputs_json)),
{
    proof {
        reveal_strlit("Assembly error: ");
        reveal_strlit("Proving error: ");
    }
    let total = StageTimer::start();
    let assembler = match configure_assembler() {
        Ok(a) => a,
        Err(e) => {
            let msg = String::from_str("Failed to configure assembler: ").concat(e.as_str());
            return encode_proof(
                ProveOutcome::Failure(Stage::Configure, msg),
                StageTiming {
                    compilation_ms: Option::None,
                    work_ms: Option::None,
                    total_ms: Option::Some(total.elapsed_ms()),
                },
            );
        },
    };
    let ins = match decode_inputs(inputs_json) {
        Ok(m) => m,
        Err(msg) => {
            return encode_proof(
                ProveOutcome::Failure(Stage::Inputs, msg),
                StageTiming {
                    compilation_ms: Option::None,
                    work_ms: Option::None,
                    total_ms: Option::Some(total.elapsed_ms()),
                },
            );
        },
    };
    let compile_timer = StageTimer::start();
    let art = match compile_program(&assembler, program) {
        Ok(a) => a,
        Err(e) => {
            let msg = String::from_str("Assembly error: ").concat(e.as_str());
            return encode_proof(
                ProveOutcome::Failure(Stage::Compile, msg),
                StageTiming {
                    compilation_ms: Option::Some(compile_timer.elapsed_ms()),
                    work_ms: Option::None,
                    total_ms: Option::Some(total.elapsed_ms()),
                },
            );
        },
    };
    let compilation_ms = compile_timer.elapsed_ms();
    let prove_timer = StageTimer::start();
    let summary = match prove_trace(&art, &ins) {
        Ok(p) => p,
        Err(e) => {
            let msg = String::from_str("Proving error: ").concat(e.as_str());
            return encode_proof(
                ProveOutcome::Failure(Stage::Prove, msg),
                StageTiming {
                    compilation_ms: Option::Some(compilation_ms),
                    work_ms: Option::None,
                    total_ms: Option::Some(total.elapsed_ms()),
                },
            );
        },
    };
    let proving_ms = prove_timer.elapsed_ms();
    encode_proof(
        ProveOutcome::Success(
            ProveSuccess {
                proof_bytes: summary.proof_bytes,
                program_hash: art.into_hash(),
                stack_outputs: summary.outputs,
            },
        ),
        StageTiming {
            compilation_ms: Option::Some(compilation_ms),
            work_ms: Option::Some(proving_ms),
            total_ms: Option::Some(total.elapsed_ms()),
        },
    )
}

/// Proving does not alter execution semantics: whenever a prove request
/// succeeds, an execute request for the same source and the same raw inputs
/// succeeds as well, and the two records report the same program hash and
/// the same leading stack-output values.
pub proof fn lemma_prove_agrees_with_execute(
    er: ExecutionResult,
    pr: ProofResult,
    source: Seq<char>,
    raw: Option<Seq<char>>,
)
    requires
        execute_contract(er, source, raw),
        prove_contract(pr, source, raw),
        pr.success,
    ensures
        er.success,
        er.program_hash->Some_0@ == pr.program_hash->Some_0@,
        er.stack_outputs->Some_0@.map_values(|s: String| s@) == pr.stack_outputs->Some_0@
            .map_values(|s: String| s@),
{
}

/// Each request is handled independently and every stage's outcome is a
/// function of the request alone, so two execute records for identical
/// requests agree on success, outputs, hash, cycle count and error; only
/// the wall-clock timing values may differ.
pub proof fn lemma_identical_requests_agree(
    r1: ExecutionResult,
    r2: ExecutionResult,
    source: Seq<char>,
    raw: Option<Seq<char>>,
)
    requires
        execute_contract(r1, source, raw),
        execute_contract(r2, source, raw),
    ensures
        r1.success == r2.success,
        r1.cycles == r2.cycles,
        r1.program_hash is Some <==> r2.program_hash is Some,
        r1.program_hash matches Some(h1) ==> (r2.program_hash matches Some(h2) && h1@
            == h2@),
        r1.stack_outputs matches Some(o1) ==> (r2.stack_outputs matches Some(o2) && o1@
            .map_values(|s: String| s@) == o2@.map_values(|s: String| s@)),
        r1.error is Some <==> r2.error is Some,
        r1.error matches Some(m1) ==> (r2.error matches Some(m2) && m1@ == m2@),
{
}

} // verus!
