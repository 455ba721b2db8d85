//! Decoding raw native results and formatting result and error lines.

use swrepl::render::ExecPlan;
use swrepl::render::ResultTag;
use swrepl::render::plan_execution;
use swrepl::render::render_error;
use swrepl::render::render_value;

#[test]
fn renders_small_signed_value() {
    assert_eq!(render_value(true, 4), "=> 4");
}

#[test]
fn renders_zero() {
    assert_eq!(render_value(true, 0), "=> 0");
    assert_eq!(render_value(false, 0), "=> 0");
}

#[test]
fn signed_decoding_is_twos_complement() {
    assert_eq!(render_value(true, u64::MAX), "=> -1");
    assert_eq!(render_value(true, 0x8000_0000_0000_0000), "=> -9223372036854775808");
    assert_eq!(render_value(true, 0x7FFF_FFFF_FFFF_FFFF), "=> 9223372036854775807");
}

#[test]
fn unsigned_decoding_reads_same_bits_plainly() {
    assert_eq!(render_value(false, u64::MAX), "=> 18446744073709551615");
    assert_eq!(render_value(false, 0x8000_0000_0000_0000), "=> 9223372036854775808");
}

#[test]
fn renders_round_decimal() {
    assert_eq!(render_value(false, 1000), "=> 1000");
    assert_eq!(render_value(true, 0xFFFF_FFFF_FFFF_FC18), "=> -1000");
}

#[test]
fn supported_tag_invokes_with_its_signedness() {
    assert!(matches!(
        plan_execution(ResultTag::Long { signed: true }),
        ExecPlan::Invoke { signed: true }
    ));
    assert!(matches!(
        plan_execution(ResultTag::Long { signed: false }),
        ExecPlan::Invoke { signed: false }
    ));
}

#[test]
fn unsupported_tag_is_rejected_with_its_description() {
    match plan_execution(ResultTag::Unsupported { description: String::from("Double") }) {
        ExecPlan::Reject { message } => {
            assert_eq!(message, "error: expression returns unsupported type: Double")
        }
        ExecPlan::Invoke { .. } => panic!("an unsupported type must never be invoked"),
    }
}

#[test]
fn error_lines_are_prefixed() {
    assert_eq!(render_error("expected ')'"), "error: expected ')'");
}
