use miden_playground::decode::DecodeError;
use miden_playground::numbers::{parse_u64, NumberError};
use miden_playground::{decode_stack_inputs, parse_stack_inputs};

#[test]
fn parse_u64_plain_numeral() {
    assert_eq!(parse_u64("0"), Ok(0));
    assert_eq!(parse_u64("123"), Ok(123));
    assert_eq!(parse_u64("18446744073709551615"), Ok(u64::MAX));
}

#[test]
fn parse_u64_accepts_leading_plus() {
    assert_eq!(parse_u64("+42"), Ok(42));
}

#[test]
fn parse_u64_rejects_empty() {
    assert_eq!(parse_u64(""), Err(NumberError::Empty));
}

#[test]
fn parse_u64_rejects_bare_plus() {
    assert_eq!(parse_u64("+"), Err(NumberError::InvalidDigit));
}

#[test]
fn parse_u64_rejects_non_digits() {
    assert_eq!(parse_u64("abc"), Err(NumberError::InvalidDigit));
    assert_eq!(parse_u64("12x"), Err(NumberError::InvalidDigit));
    assert_eq!(parse_u64("-5"), Err(NumberError::InvalidDigit));
    assert_eq!(parse_u64(" 5"), Err(NumberError::InvalidDigit));
}

#[test]
fn parse_u64_rejects_overflow() {
    assert_eq!(parse_u64("18446744073709551616"), Err(NumberError::Overflow));
}

#[test]
fn parse_u64_reports_first_problem_in_scan_order() {
    // Twenty nines overflow before the trailing letter is ever reached,
    // exactly as the standard library's parser behaves.
    assert_eq!(parse_u64("99999999999999999999z"), Err(NumberError::Overflow));
}

#[test]
fn parse_u64_matches_std() {
    for s in ["0", "17", "+8", "", "+", "x", "007", "18446744073709551615", "99999999999999999999"] {
        assert_eq!(parse_u64(s).ok(), s.parse::<u64>().ok(), "input {s:?}");
    }
}

#[test]
fn decode_absent_payload_yields_no_inputs() {
    assert_eq!(decode_stack_inputs(None), Ok(vec![]));
}

#[test]
fn decode_reverses_declared_order() {
    // The declared sequence ["10", "20"] is applied as [20, 10]: the last
    // declared element is pushed first and ends up deepest in the stack.
    let r = decode_stack_inputs(Some(r#"{"operand_stack": ["10", "20"]}"#));
    assert_eq!(r, Ok(vec![20, 10]));
}

#[test]
fn decode_accepts_json_numbers() {
    let r = decode_stack_inputs(Some(r#"{"operand_stack": [1, "2", 3]}"#));
    assert_eq!(r, Ok(vec![3, 2, 1]));
}

#[test]
fn decode_skips_elements_of_other_types() {
    // Floats, negatives, booleans and objects are not u64-representable and
    // are silently skipped, mirroring the engine's permissive coercion.
    let r = decode_stack_inputs(Some(r#"{"operand_stack": [1.5, -2, true, {}, "7"]}"#));
    assert_eq!(r, Ok(vec![7]));
}

#[test]
fn decode_missing_field_yields_no_inputs() {
    assert_eq!(decode_stack_inputs(Some(r#"{"other": [1]}"#)), Ok(vec![]));
    assert_eq!(decode_stack_inputs(Some(r#"{}"#)), Ok(vec![]));
}

#[test]
fn decode_non_array_field_yields_no_inputs() {
    assert_eq!(decode_stack_inputs(Some(r#"{"operand_stack": "10"}"#)), Ok(vec![]));
    assert_eq!(decode_stack_inputs(Some(r#"{"operand_stack": 10}"#)), Ok(vec![]));
}

#[test]
fn decode_rejects_malformed_json() {
    let r = decode_stack_inputs(Some("{not json"));
    match r {
        Err(DecodeError::InvalidJson(_)) => {},
        other => panic!("expected InvalidJson, got {other:?}"),
    }
}

#[test]
fn decode_rejects_unparsable_numeral() {
    let r = decode_stack_inputs(Some(r#"{"operand_stack": ["abc"]}"#));
    match r {
        Err(DecodeError::InvalidNumber(v, NumberError::InvalidDigit)) => {
            assert_eq!(v, "abc");
        },
        other => panic!("expected InvalidNumber, got {other:?}"),
    }
}

#[test]
fn decode_error_messages_are_exact() {
    let r = decode_stack_inputs(Some(r#"{"operand_stack": ["abc"]}"#));
    assert_eq!(
        r.unwrap_err().message(),
        "Invalid number 'abc': invalid digit found in string"
    );
    let r = decode_stack_inputs(Some(r#"{"operand_stack": [""]}"#));
    assert_eq!(
        r.unwrap_err().message(),
        "Invalid number '': cannot parse integer from empty string"
    );
    let r = decode_stack_inputs(Some(r#"{"operand_stack": ["99999999999999999999"]}"#));
    assert_eq!(
        r.unwrap_err().message(),
        "Invalid number '99999999999999999999': number too large to fit in target type"
    );
    let r = decode_stack_inputs(Some("{not json"));
    let msg = r.unwrap_err().message();
    assert!(msg.starts_with("Invalid JSON: "));
    assert!(msg.len() > "Invalid JSON: ".len());
}

#[test]
fn decode_first_bad_numeral_wins() {
    let r = decode_stack_inputs(Some(r#"{"operand_stack": ["1", "bad", "worse"]}"#));
    match r {
        Err(DecodeError::InvalidNumber(v, _)) => assert_eq!(v, "bad"),
        other => panic!("expected InvalidNumber, got {other:?}"),
    }
}

#[test]
fn decode_is_deterministic() {
    // Decoding the same payload twice yields identical sequences.
    let raw = r#"{"operand_stack": ["3", 1, "2"]}"#;
    let a = decode_stack_inputs(Some(raw));
    let b = decode_stack_inputs(Some(raw));
    assert_eq!(a, b);
    assert_eq!(a, Ok(vec![2, 1, 3]));
}

#[test]
fn stage_inputs_accepts_valid_values() {
    let r = parse_stack_inputs(r#"{"operand_stack": ["1", "2"]}"#);
    assert!(r.is_ok());
}

#[test]
fn stage_inputs_rejects_values_outside_the_field() {
    // 2^64 - 2^32 + 1 is the field modulus; values at or above it are not
    // field elements.
    let r = parse_stack_inputs(r#"{"operand_stack": ["18446744069414584321"]}"#);
    let msg = r.err().expect("modulus-sized value must be rejected");
    assert_eq!(
        msg,
        "Failed to create stack inputs: 18446744069414584321 is not a valid field element: \
         invalid field element: value 18446744069414584321 is greater than or equal to the \
         field modulus"
    );
}

#[test]
fn stage_inputs_rejects_too_many_values() {
    let vals: Vec<String> = (0..17).map(|i| format!("\"{i}\"")).collect();
    let raw = format!("{{\"operand_stack\": [{}]}}", vals.join(", "));
    let r = parse_stack_inputs(&raw);
    let msg = r.err().expect("seventeen values must be rejected");
    assert_eq!(
        msg,
        "Failed to create stack inputs: number of input values can not exceed 16, but 17 \
         was provided"
    );
}

#[test]
fn stage_inputs_reports_decode_errors_verbatim() {
    let r = parse_stack_inputs(r#"{"operand_stack": ["abc"]}"#);
    assert_eq!(
        r.err(),
        Some("Invalid number 'abc': invalid digit found in string".to_string())
    );
}
