use miden_playground::{execute_program_impl, get_example_programs, greet};

#[test]
fn greeting_names_the_caller() {
    assert_eq!(greet("World"), "Hello, World! Welcome to Miden VM Playground!");
}

#[test]
fn example_catalog_is_stable() {
    let examples = get_example_programs();
    assert_eq!(examples.len(), 7);
    assert_eq!(examples[0], ("Basic Addition", "begin push.3 push.5 add end"));
    assert_eq!(examples[1].0, "Fibonacci");
    assert_eq!(examples[2].0, "Simple Loop");
    assert_eq!(examples[3].0, "Conditional");
    assert_eq!(examples[4].0, "Stack Manipulation");
    assert_eq!(examples[5].0, "Memory Operations");
    assert_eq!(examples[6].0, "Prime Generator (Requires Input)");
    assert!(examples[6].1.starts_with("use.std::sys"));

    // The catalog is a constant: a second call hands out the same list.
    assert_eq!(examples, get_example_programs());
}

#[test]
fn addition_without_inputs() {
    // Pushing 3 and 5 and adding them leaves 8 on top of the stack.  The
    // engine requires programs to end with a balanced stack, so the summand
    // left below the result is dropped before the program ends.
    let r = execute_program_impl("begin push.3 push.5 add swap drop end", None);
    assert!(r.success, "error: {:?}", r.error);
    let outputs = r.stack_outputs.expect("success carries outputs");
    assert_eq!(outputs[0], "8");
    assert_eq!(outputs.len(), 16);
    assert!(r.program_hash.expect("success carries a hash").len() > 0);
    assert!(r.cycles.expect("success carries cycles") > 0);
    assert!(r.error.is_none());
    assert!(r.compilation_time_ms.is_some());
    assert!(r.execution_time_ms.is_some());
    assert!(r.total_time_ms.is_some());
}

#[test]
fn addition_of_two_inputs() {
    // Source "begin add end" with operand_stack ["7", "5"] must succeed and
    // leave 12 on top of the stack.
    let r = execute_program_impl("begin add end", Some(r#"{"operand_stack": ["7", "5"]}"#));
    assert!(r.success, "error: {:?}", r.error);
    assert_eq!(r.stack_outputs.unwrap()[0], "12");
}

#[test]
fn input_order_is_observable() {
    // The declared order ["10", "20"] pushes 20 first: 10 ends on top of the
    // stack and 20 right below it, so dropping the top leaves 20.
    let r = execute_program_impl("begin drop end", Some(r#"{"operand_stack": ["10", "20"]}"#));
    assert!(r.success, "error: {:?}", r.error);
    assert_eq!(r.stack_outputs.unwrap()[0], "20");

    // An order-insensitive program gives the same sum either way.
    let a = execute_program_impl("begin add end", Some(r#"{"operand_stack": ["10", "20"]}"#));
    let b = execute_program_impl("begin add end", Some(r#"{"operand_stack": ["20", "10"]}"#));
    assert_eq!(a.stack_outputs.unwrap()[0], "30");
    assert_eq!(b.stack_outputs.unwrap()[0], "30");
}

#[test]
fn syntax_error_is_reported_at_the_compile_stage() {
    let r = execute_program_impl("begin this_is_not_an_instruction end", None);
    assert!(!r.success);
    let err = r.error.expect("failure carries an error");
    assert!(!err.is_empty());
    assert!(err.starts_with("Assembly error: "), "{err}");
    assert!(r.compilation_time_ms.is_some());
    assert!(r.execution_time_ms.is_none());
    assert!(r.total_time_ms.is_some());
    assert!(r.stack_outputs.is_none());
    assert!(r.program_hash.is_none());
    assert!(r.cycles.is_none());
}

#[test]
fn runtime_fault_is_reported_at_the_execute_stage() {
    // u32mod with a zero divisor faults while running: the program compiles,
    // so compilation time is present, but execution time is not.
    let r = execute_program_impl("begin push.1 push.0 u32mod end", None);
    assert!(!r.success);
    let err = r.error.expect("failure carries an error");
    assert!(!err.is_empty());
    assert!(err.starts_with("Execution error: "), "{err}");
    assert!(r.compilation_time_ms.is_some());
    assert!(r.execution_time_ms.is_none());
}

#[test]
fn malformed_json_never_reaches_the_compiler() {
    let r = execute_program_impl("begin push.3 push.5 add end", Some("{not json"));
    assert!(!r.success);
    let err = r.error.expect("failure carries an error");
    assert!(err.starts_with("Invalid JSON: "), "{err}");
    assert!(r.compilation_time_ms.is_none());
    assert!(r.execution_time_ms.is_none());
    assert!(r.total_time_ms.is_some());
}

#[test]
fn bad_numeral_never_reaches_the_compiler() {
    let r = execute_program_impl("begin add end", Some(r#"{"operand_stack": ["abc"]}"#));
    assert!(!r.success);
    assert_eq!(
        r.error.as_deref(),
        Some("Invalid number 'abc': invalid digit found in string")
    );
    assert!(r.compilation_time_ms.is_none());
}

#[test]
fn unbalanced_program_is_an_execution_error() {
    // The engine rejects a program whose final stack holds more than 16
    // elements; the failure arises while running, after compilation.
    let r = execute_program_impl("begin push.3 push.5 add end", None);
    assert!(!r.success);
    assert!(r.error.unwrap().starts_with("Execution error: "));
    assert!(r.compilation_time_ms.is_some());
    assert!(r.execution_time_ms.is_none());
}

#[test]
fn identical_failing_requests_agree() {
    // Stage outcomes are functions of the request: two identical failing
    // requests report the same error message.
    let a = execute_program_impl("begin push.1 push.0 u32mod end", None);
    let b = execute_program_impl("begin push.1 push.0 u32mod end", None);
    assert_eq!(a.success, b.success);
    assert_eq!(a.error, b.error);

    let c = execute_program_impl("begin bogus end", None);
    let d = execute_program_impl("begin bogus end", None);
    assert_eq!(c.error, d.error);
}

#[test]
fn same_source_gives_same_hash() {
    let a = execute_program_impl("begin push.3 push.5 add swap drop end", None);
    let b = execute_program_impl("begin push.3 push.5 add swap drop end", None);
    assert_eq!(a.program_hash, b.program_hash);
    assert_eq!(a.stack_outputs, b.stack_outputs);
    assert_eq!(a.cycles, b.cycles);

    // A different program carries a different content digest.
    let c = execute_program_impl("begin drop end", Some(r#"{"operand_stack": ["1"]}"#));
    assert!(c.success, "error: {:?}", c.error);
    assert_ne!(a.program_hash, c.program_hash);
}
