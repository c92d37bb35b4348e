//! The boundary to the external engine: the assembler, the executor and the
//! prover.
//!
//! The engine is a black box with four operations — configure a compiler,
//! compile source to an artifact, execute an artifact, prove an artifact —
//! and this module wraps each behind a small trusted function.  Every one of
//! those operations is deterministic in the program source and the stack
//! inputs, so each outcome — whether the stage succeeds, and what it yields
//! or reports — is named by an uninterpreted function of those values, and
//! the pipeline's contracts speak of the names.

use vstd::prelude::*;

verus! {

#[verifier::external_type_specification]
#[verifier::external_body]
pub struct ExAssembler(miden_vm::Assembler);

#[verifier::external_type_specification]
#[verifier::external_body]
pub struct ExProgram(miden_vm::Program);

#[verifier::external_type_specification]
#[verifier::external_body]
pub struct ExStackInputs(miden_vm::StackInputs);

#[verifier::external_type_specification]
#[verifier::external_body]
pub struct ExFelt(miden_processor::Felt);

/// The number of operand-stack slots the machine starts with; more initial
/// values than this are rejected.
pub const MAX_STACK_INPUTS: usize = 16;

/// The machine's field modulus: every stack value must lie below it.
pub const FIELD_MODULUS: u64 = 0xFFFF_FFFF_0000_0001;

/// Whether a decoded value sequence is accepted as initial stack state:
/// at most [`MAX_STACK_INPUTS`] values, each a valid field element.
pub open spec fn valid_stack_inputs(vals: Seq<u64>) -> bool {
    &&& vals.len() <= MAX_STACK_INPUTS
    &&& forall|i: int| 0 <= i < vals.len() ==> vals[i] < FIELD_MODULUS
}

/// The message with which the engine rejects a value sequence it does not
/// accept as initial stack state.  It names either the first value at or
/// above the field modulus or the sequence's length, so it is a function of
/// the values alone.
pub uninterp spec fn stack_input_error_of(vals: Seq<u64>) -> Seq<char>;

/// Whether the standard compiler configuration assembles `source` into a
/// program.  Assembly is deterministic in the source.
pub uninterp spec fn assembles(source: Seq<char>) -> bool;

/// The message with which the standard compiler configuration rejects
/// `source`, when it does not assemble.
pub uninterp spec fn assembly_error_of(source: Seq<char>) -> Seq<char>;

/// The identity hash that the engine reports for the program assembled from
/// `source`, rendered as a string.  Assembly by the standard compiler
/// configuration is content-addressed and deterministic, so the hash is a
/// function of the source alone.
pub uninterp spec fn program_hash_of(source: Seq<char>) -> Seq<char>;

/// Whether the program assembled from `source` runs to completion on the
/// initial stack `inputs`.  Execution is deterministic in the program and
/// its inputs.
pub uninterp spec fn executes_ok(source: Seq<char>, inputs: Seq<u64>) -> bool;

/// The first [`MAX_STACK_INPUTS`] elements of the final operand stack — top
/// of stack first, each rendered as a decimal string — after the program
/// assembled from `source` runs on the initial stack `inputs`.  Proving
/// executes the very same program, so both flows report this sequence.
pub uninterp spec fn stack_top_of(source: Seq<char>, inputs: Seq<u64>) -> Seq<Seq<char>>;

/// The trace length — how many machine cycles the run took — of the program
/// assembled from `source` on the initial stack `inputs`.
pub uninterp spec fn cycles_of(source: Seq<char>, inputs: Seq<u64>) -> u32;

/// The message with which a run of the program assembled from `source` on
/// the initial stack `inputs` faults, when it does not complete.
pub uninterp spec fn execution_error_of(source: Seq<char>, inputs: Seq<u64>) -> Seq<char>;

/// Whether the prover produces a proof for the program assembled from
/// `source` on the initial stack `inputs`.  Proving runs the program and
/// then generates the proof; both steps are deterministic in program and
/// inputs, and the first succeeding is necessary, so proving success implies
/// execution success.
pub uninterp spec fn proves_ok(source: Seq<char>, inputs: Seq<u64>) -> bool;

/// The message with which proving the program assembled from `source` on
/// the initial stack `inputs` fails, when it does.
pub uninterp spec fn proving_error_of(source: Seq<char>, inputs: Seq<u64>) -> Seq<char>;

/// The engine's compiler, configured once per request: the default assembler
/// in debug mode with the standard procedure library statically linked.
/// Only [`configure_assembler`] creates values of this type, so every value
/// carries that one configuration.
pub struct EngineAssembler {
    inner: miden_vm::Assembler,
}

/// A compiled, content-addressed artifact, owned by one pipeline invocation:
/// the engine's program together with its identity hash, remembering (in
/// ghost state) which source it was assembled from.
pub struct Artifact {
    prog: miden_vm::Program,
    hash: String,
    src: Ghost<Seq<char>>,
}

impl Artifact {
    /// The source this artifact was assembled from.
    pub closed spec fn source(&self) -> Seq<char> {
        self.src@
    }

    /// The rendered identity hash this artifact carries.
    pub closed spec fn hash_text(&self) -> Seq<char> {
        self.hash@
    }

    /// Hand out the rendered identity hash for result reporting.
    pub(crate) fn into_hash(self) -> (h: String)
        ensures
            h@ == self.hash_text(),
    {
        self.hash
    }
}

/// The engine's initial-stack value, remembering (in ghost state) which
/// decoded values it was built from.
pub struct MachineInputs {
    inner: miden_vm::StackInputs,
    vals: Ghost<Seq<u64>>,
}

impl MachineInputs {
    /// The decoded values this initial stack was built from, in push order.
    pub closed spec fn values(&self) -> Seq<u64> {
        self.vals@
    }
}

/// The plain payload extracted from a completed execution trace.
pub struct TraceSummary {
    /// The leading final-stack elements, top first, as decimal strings.
    pub outputs: Vec<String>,
    /// The trace length: how many machine cycles the run took.
    pub cycles: u32,
}

/// The plain payload extracted from a completed proving run.
pub struct ProofSummary {
    /// The serialized proof.
    pub proof_bytes: Vec<u8>,
    /// The leading final-stack elements, top first, as decimal strings.
    pub outputs: Vec<String>,
}

/// Relies on `miden_vm::Assembler::default`, `Assembler::with_debug_mode`,
/// `miden_stdlib::StdLibrary::default` and `Assembler::with_static_library`.
/// The attachment always succeeds: linking can fail only on a module-path
/// conflict, and a fresh default linker holding nothing but the one standard
/// library has none (its per-procedure registration is infallible).  The
/// `Result` shape is kept because the builder returns one.
#[verifier::external_body]
pub(crate) fn configure_assembler() -> (r: Result<EngineAssembler, String>)
    ensures
        r is Ok,
{
    match miden_vm::Assembler::default()
        .with_debug_mode(true)
        .with_static_library(&miden_stdlib::StdLibrary::default())
    {
        Ok(a) => Ok(EngineAssembler { inner: a }),
        Err(e) => Err(e.to_string()),
    }
}

/// Relies on `miden_vm::Assembler::assemble_program` and `Program::hash`:
/// compiles `source` and renders the program's content digest.  Every
/// [`EngineAssembler`] holds the same standard configuration, so whether the
/// source assembles, the digest of a compiled program, and the message of a
/// rejection are each a function of the source alone, named [`assembles`],
/// [`program_hash_of`] and [`assembly_error_of`].
#[verifier::external_body]
fn assemble_source(assembler: &EngineAssembler, source: &str) -> (r: Result<
    (miden_vm::Program, String),
    String,
>)
    ensures
        r is Ok <==> assembles(source@),
        r matches Ok(p) ==> p.1@ == program_hash_of(source@),
        r matches Err(m) ==> m@ == assembly_error_of(source@),
{
    match assembler.inner.clone().assemble_program(source) {
        Ok(prog) => {
            let hash = prog.hash().to_string();
            Ok((prog, hash))
        },
        Err(e) => Err(e.to_string()),
    }
}

/// The engine's compile operation: assemble `source` into an [`Artifact`]
/// carrying the program, its identity hash and (as ghost state) its source.
pub(crate) fn compile_program(assembler: &EngineAssembler, source: &str) -> (r: Result<
    Artifact,
    String,
>)
    ensures
        r is Ok <==> assembles(source@),
        r matches Ok(a) ==> a.source() == source@ && a.hash_text() == program_hash_of(
            source@,
        ),
        r matches Err(m) ==> m@ == assembly_error_of(source@),
{
    match assemble_source(assembler, source) {
        Ok((prog, hash)) => Ok(Artifact { prog, hash, src: Ghost(source@) }),
        Err(e) => Err(e),
    }
}

/// Relies on `miden_vm::StackInputs::try_from_ints`, whose source accepts an
/// input sequence exactly when every value is below the field modulus and at
/// most 16 values are given, and otherwise reports either the first value
/// that is no field element or the offending length — a message that is a
/// function of the values alone, named [`stack_input_error_of`].
#[verifier::external_body]
fn make_stack_inputs(values: &Vec<u64>) -> (r: Result<miden_vm::StackInputs, String>)
    ensures
        r is Ok <==> valid_stack_inputs(values@),
        r matches Err(m) ==> m@ == stack_input_error_of(values@),
{
    miden_vm::StackInputs::try_from_ints(values.iter().copied()).map_err(|e| e.to_string())
}

/// Stage decoded values as the engine's initial stack, remembering them as
/// ghost state.  Succeeds exactly when the engine accepts the values.
pub(crate) fn to_stack_inputs(values: &Vec<u64>) -> (r: Result<MachineInputs, String>)
    ensures
        r is Ok <==> valid_stack_inputs(values@),
        r matches Ok(m) ==> m.values() == values@,
        r matches Err(m) ==> m@ == stack_input_error_of(values@),
{
    match make_stack_inputs(values) {
        Ok(inner) => Ok(MachineInputs { inner, vals: Ghost(values@) }),
        Err(e) => Err(e),
    }
}

/// Relies on `miden_processor::execute` with default advice inputs, host and
/// execution options: runs the artifact on the given initial stack and
/// summarizes the trace through `ExecutionTrace::stack_outputs`,
/// `StackOutputs::stack_truncated` and `ExecutionTrace::get_trace_len`.
/// Execution is deterministic in the program and the inputs, so whether it
/// completes, the 16 rendered final-stack elements, the trace length and a
/// fault's message are named functions of the artifact's source and the
/// input values.
#[verifier::external_body]
pub(crate) fn run_trace(art: &Artifact, ins: &MachineInputs) -> (r: Result<
    TraceSummary,
    String,
>)
    ensures
        r is Ok <==> executes_ok(art.source(), ins.values()),
        r matches Ok(t) ==> t.outputs@.map_values(|s: String| s@) == stack_top_of(
            art.source(),
            ins.values(),
        ),
        r matches Ok(t) ==> t.outputs@.len() == 16 && t.cycles == cycles_of(
            art.source(),
            ins.values(),
        ),
        r matches Err(m) ==> m@ == execution_error_of(art.source(), ins.values()),
{
    let res = miden_vm::execute(
        &art.prog,
        ins.inner.clone(),
        miden_vm::AdviceInputs::default(),
        &mut miden_vm::DefaultHost::default(),
        miden_processor::ExecutionOptions::default(),
    );
    match res {
        Ok(trace) => Ok(TraceSummary {
            outputs: trace.stack_outputs().stack_truncated(16).iter().map(|f| f.to_string()).collect(),
            cycles: trace.get_trace_len() as u32,
        }),
        Err(e) => Err(e.to_string()),
    }
}

/// Relies on `miden_prover::prove` with default advice inputs, host and
/// proving options, and on `ExecutionProof::to_bytes`: proves the artifact
/// on the given initial stack.  The prover's source executes the very same
/// program first, returns that run's final stack, and then generates the
/// proof, which may itself fail — so proving success implies execution
/// success, a successful proof's rendered outputs are [`stack_top_of`] the
/// artifact's source and the input values, and success and the failure
/// message are named functions of the same.  Serialization always writes
/// bytes; their exact value is left unpromised.
#[verifier::external_body]
pub(crate) fn prove_trace(art: &Artifact, ins: &MachineInputs) -> (r: Result<
    ProofSummary,
    String,
>)
    ensures
        r is Ok <==> proves_ok(art.source(), ins.values()),
        r is Ok ==> executes_ok(art.source(), ins.values()),
        r matches Ok(p) ==> p.outputs@.map_values(|s: String| s@) == stack_top_of(
            art.source(),
            ins.values(),
        ),
        r matches Ok(p) ==> p.outputs@.len() == 16 && p.proof_bytes@.len() > 0,
        r matches Err(m) ==> m@ == proving_error_of(art.source(), ins.values()),
{
    let res = miden_vm::prove(
        &art.prog,
        ins.inner.clone(),
        miden_vm::AdviceInputs::default(),
        &mut miden_vm::DefaultHost::default(),
        miden_vm::ProvingOptions::default(),
    );
    match res {
        Ok((outputs, proof)) => Ok(ProofSummary {
            proof_bytes: proof.to_bytes(),
            outputs: outputs.stack_truncated(16).iter().map(|f| f.to_string()).collect(),
        }),
        Err(e) => Err(e.to_string()),
    }
}

} // verus!
