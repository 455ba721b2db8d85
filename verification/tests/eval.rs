//! The evaluation driver against the real saltwater compiler: one line of
//! code either becomes a runnable jitted module with its decode signedness,
//! or exactly one `error: ` report line.

use swrepl::compiler::EvalStep;
use swrepl::compiler::evaluate_code;
use swrepl::compiler::wrap_expression;

#[test]
fn wrapped_unit_is_a_nullary_execute_function() {
    assert_eq!(wrap_expression("2 + 2", true), "long execute() { return (2 + 2); }\n");
    assert_eq!(wrap_expression("7", false), "unsigned long execute() { return (7); }\n");
}

#[test]
fn integer_sum_compiles_for_signed_decoding() {
    match evaluate_code("2 + 2") {
        EvalStep::Execute { signed, .. } => assert!(signed),
        EvalStep::Report { message } => panic!("unexpected report: {}", message),
    }
}

#[test]
fn unsigned_literal_compiles_for_unsigned_decoding() {
    match evaluate_code("7u") {
        EvalStep::Execute { signed, .. } => assert!(!signed),
        EvalStep::Report { message } => panic!("unexpected report: {}", message),
    }
}

#[test]
fn syntax_error_is_reported_and_next_line_recovers() {
    match evaluate_code("(") {
        EvalStep::Report { message } => assert!(message.starts_with("error: ")),
        EvalStep::Execute { .. } => panic!("an unmatched parenthesis must not compile"),
    }
    match evaluate_code("1 + 2 * 3") {
        EvalStep::Execute { signed, .. } => assert!(signed),
        EvalStep::Report { message } => panic!("unexpected report: {}", message),
    }
}

#[test]
fn unsupported_result_type_is_reported_not_run() {
    match evaluate_code("1.5") {
        EvalStep::Report { message } => {
            assert_eq!(message, "error: expression returns unsupported type: Double")
        }
        EvalStep::Execute { .. } => panic!("an unsupported type must never be executed"),
    }
}

#[test]
fn empty_line_is_a_syntax_error() {
    match evaluate_code("") {
        EvalStep::Report { message } => assert!(message.starts_with("error: ")),
        EvalStep::Execute { .. } => panic!("an empty line must not compile"),
    }
}
