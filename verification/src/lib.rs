//! A request-to-result pipeline around a stack-machine assembler, executor and
//! prover.  An untrusted program source string and an optional JSON input
//! specification are decoded, staged through the engine's compile and
//! execute / prove operations, timed, and packaged into a structured outcome.

pub mod decode;
pub mod engine;
pub mod examples;
pub mod numbers;
pub mod pipeline;
pub mod results;
pub mod timing;

use vstd::prelude::*;
use vstd::string::StringExecFns;

pub use decode::{decode_stack_inputs, DecodeError};
pub use engine::MachineInputs;
pub use examples::get_example_programs;
pub use numbers::NumberError;
pub use pipeline::{
    execute_program_impl, generate_proof_impl, parse_stack_inputs, ExecutionRequest,
};
pub use results::{ExecutionResult, ProofResult};

verus! {

/// The greeting returned by the desktop front end's hello command.
pub fn greet(name: &str) -> (r: String)
    ensures
        r@ == "Hello, "@ + name@ + "! Welcome to Miden VM Playground!"@,
{
    String::from_str("Hello, ").concat(name).concat("! Welcome to Miden VM Playground!")
}

} // verus!
