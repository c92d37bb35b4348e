use miden_playground::{execute_program_impl, generate_proof_impl};

#[test]
fn proving_matches_execution() {
    // Execute and prove on the same source with no inputs must report the
    // same program hash and the same leading stack outputs: proving does not
    // alter execution semantics.
    let source = "begin push.3 push.5 add swap drop end";
    let er = execute_program_impl(source, None);
    let pr = generate_proof_impl(source, None);
    assert!(er.success, "execute error: {:?}", er.error);
    assert!(pr.success, "prove error: {:?}", pr.error);
    assert_eq!(er.program_hash, pr.program_hash);
    assert_eq!(er.stack_outputs, pr.stack_outputs);
    assert_eq!(pr.stack_outputs.as_ref().unwrap()[0], "8");
    assert!(!pr.proof_bytes.as_ref().unwrap().is_empty());
    assert!(pr.error.is_none());
    assert!(pr.compilation_time_ms.is_some());
    assert!(pr.proving_time_ms.is_some());
    assert!(pr.total_time_ms.is_some());
}

#[test]
fn proof_failure_is_classified() {
    // A program that cannot assemble fails a prove request at the compile
    // stage, with the proving time absent.
    let r = generate_proof_impl("begin nonsense end", None);
    assert!(!r.success);
    let err = r.error.expect("failure carries an error");
    assert!(err.starts_with("Assembly error: "), "{err}");
    assert!(r.compilation_time_ms.is_some());
    assert!(r.proving_time_ms.is_none());
    assert!(r.proof_bytes.is_none());
    assert!(r.program_hash.is_none());
    assert!(r.stack_outputs.is_none());
}
