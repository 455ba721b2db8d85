//! Typed decoding of raw native results and the printed forms of results
//! and errors.
//!
//! A compiled expression hands back 64 raw bits. The expression's static
//! type selects how those bits are read: as a two's-complement signed value
//! or as a plain unsigned value. Types without a decode strategy are
//! explicitly rejected, never silently coerced.

use vstd::prelude::*;
use vstd::string::StringExecFns;

verus! {

/// The decimal digit character for `d`.
pub open spec fn digit_char(d: nat) -> char {
    if d == 0 {
        '0'
    } else if d == 1 {
        '1'
    } else if d == 2 {
        '2'
    } else if d == 3 {
        '3'
    } else if d == 4 {
        '4'
    } else if d == 5 {
        '5'
    } else if d == 6 {
        '6'
    } else if d == 7 {
        '7'
    } else if d == 8 {
        '8'
    } else {
        '9'
    }
}

/// The decimal representation of `n`, most significant digit first, without
/// leading zeros (a single `0` for zero).
pub open spec fn dec_rep(n: nat) -> Seq<char>
    decreases n,
{
    if n < 10 {
        seq![digit_char(n)]
    } else {
        dec_rep(n / 10) + seq![digit_char(n % 10)]
    }
}

/// The decimal representation of an integer, with a leading minus sign when
/// it is negative.
pub open spec fn int_rep(v: int) -> Seq<char> {
    if v < 0 {
        seq!['-'] + dec_rep((-v) as nat)
    } else {
        dec_rep(v as nat)
    }
}

/// The two's-complement reading of 64 raw result bits.
pub open spec fn signed_of(raw: u64) -> int {
    if raw < 0x8000_0000_0000_0000 {
        raw as int
    } else {
        raw as int - 0x1_0000_0000_0000_0000
    }
}

/// Law: the signed and the unsigned decoding read the same 64 result bits.
/// The signed reading is the unique value of the signed 64-bit range that is
/// congruent to the unsigned reading modulo 2^64, and the two readings agree
/// exactly on bit patterns below 2^63.
pub proof fn lemma_same_bits(raw: u64)
    ensures
        -0x8000_0000_0000_0000 <= signed_of(raw) < 0x8000_0000_0000_0000,
        (raw as int - signed_of(raw)) % 0x1_0000_0000_0000_0000 == 0,
        raw < 0x8000_0000_0000_0000 <==> signed_of(raw) == raw as int,
{
    if raw < 0x8000_0000_0000_0000 {
        assert(0int % 0x1_0000_0000_0000_0000 == 0);
    } else {
        assert(0x1_0000_0000_0000_0000int % 0x1_0000_0000_0000_0000 == 0);
    }
}

/// Law: no other value of the signed 64-bit range is congruent to the
/// unsigned reading modulo 2^64, so the two readings of `lemma_same_bits`
/// determine each other.
pub proof fn lemma_same_bits_unique(raw: u64, v: int)
    requires
        -0x8000_0000_0000_0000 <= v < 0x8000_0000_0000_0000,
        (raw as int - v) % 0x1_0000_0000_0000_0000 == 0,
    ensures
        v == signed_of(raw),
{
    let m = 0x1_0000_0000_0000_0000int;
    let d = raw as int - v;
    vstd::arithmetic::div_mod::lemma_fundamental_div_mod(d, m);
    let k = d / m;
    if raw < 0x8000_0000_0000_0000 {
        assert(k == 0) by (nonlinear_arith)
            requires
                d == m * k,
                -m < d < m,
                m == 0x1_0000_0000_0000_0000int,
        ;
    } else {
        assert(k == 1) by (nonlinear_arith)
            requires
                d == m * k,
                0 < d < m + m,
                m == 0x1_0000_0000_0000_0000int,
        ;
    }
}

/// The decimal digit as a one-character string.
fn digit_str(d: u64) -> (s: &'static str)
    requires
        d < 10,
    ensures
        s@ == seq![digit_char(d as nat)],
{
    let r: &'static str = if d == 0 {
        "0"
    } else if d == 1 {
        "1"
    } else if d == 2 {
        "2"
    } else if d == 3 {
        "3"
    } else if d == 4 {
        "4"
    } else if d == 5 {
        "5"
    } else if d == 6 {
        "6"
    } else if d == 7 {
        "7"
    } else if d == 8 {
        "8"
    } else {
        "9"
    };
    proof {
        reveal_strlit("0");
        reveal_strlit("1");
        reveal_strlit("2");
        reveal_strlit("3");
        reveal_strlit("4");
        reveal_strlit("5");
        reveal_strlit("6");
        reveal_strlit("7");
        reveal_strlit("8");
        reveal_strlit("9");
        assert(r@ =~= seq![digit_char(d as nat)]);
    }
    r
}

/// Appends the decimal digits of `n`.
fn push_dec(n: u64, out: &mut String)
    ensures
        final(out)@ == old(out)@ + dec_rep(n as nat),
    decreases n,
{
    if n >= 10 {
        push_dec(n / 10, out);
    }
    out.append(digit_str(n % 10));
    proof {
        if n >= 10 {
            assert(old(out)@ + dec_rep((n / 10) as nat) + seq![digit_char((n % 10) as nat)]
                =~= old(out)@ + dec_rep(n as nat));
        } else {
            assert(old(out)@ + seq![digit_char(n as nat)] =~= old(out)@ + dec_rep(n as nat));
        }
    }
}

/// The printed result line for 64 raw result bits: `=> ` followed by the
/// two's-complement value when `signed` holds, and by the plain unsigned
/// value otherwise.
pub fn render_value(signed: bool, raw: u64) -> (line: String)
    ensures
        line@ == "=> "@ + (if signed {
            int_rep(signed_of(raw))
        } else {
            dec_rep(raw as nat)
        }),
{
    let mut line = String::from_str("=> ");
    if signed && raw >= 0x8000_0000_0000_0000 {
        line.append("-");
        let mag = (u64::MAX - raw) + 1;
        push_dec(mag, &mut line);
        proof {
            reveal_strlit("-");
            assert(mag as int == 0x1_0000_0000_0000_0000 - raw as int);
            assert(int_rep(signed_of(raw)) =~= seq!['-'] + dec_rep(mag as nat));
            assert(line@ =~= "=> "@ + int_rep(signed_of(raw)));
        }
    } else {
        push_dec(raw, &mut line);
        proof {
            if signed {
                assert(int_rep(signed_of(raw)) == dec_rep(raw as nat));
            }
        }
    }
    line
}

/// The static result type of an evaluated expression, as the driver
/// dispatches on it: a 64-bit integer of either signedness, or a type
/// without a decode strategy, carried with its printed description. Further
/// supported types would stand here as further variants.
pub enum ResultTag {
    Long { signed: bool },
    Unsupported { description: String },
}

/// What the execution bridge does for one evaluation: invoke the native
/// entry point once and decode its 64 result bits with the given
/// signedness, or refuse with a report and never invoke it.
pub enum ExecPlan {
    Invoke { signed: bool },
    Reject { message: String },
}

/// The report for an expression whose static type has no decode strategy.
pub open spec fn unsupported_message(description: Seq<char>) -> Seq<char> {
    "error: expression returns unsupported type: "@ + description
}

/// The printed form of a failure: an `error: ` line.
pub open spec fn error_line(message: Seq<char>) -> Seq<char> {
    "error: "@ + message
}

/// Whether `s` is the printed form of a failure.
pub open spec fn is_error_line(s: Seq<char>) -> bool {
    s.len() >= "error: "@.len() && s.take("error: "@.len() as int) == "error: "@
}

/// Every `error: ` line is recognizable as one.
pub proof fn lemma_error_line_recognized(message: Seq<char>)
    ensures
        is_error_line(error_line(message)),
{
    reveal_strlit("error: ");
    assert(error_line(message).take("error: "@.len() as int) =~= "error: "@);
}

/// Every report about an unsupported result type is an `error: ` line.
pub proof fn lemma_unsupported_is_error_line(description: Seq<char>)
    ensures
        is_error_line(unsupported_message(description)),
{
    reveal_strlit("error: ");
    reveal_strlit("error: expression returns unsupported type: ");
    assert(unsupported_message(description).take("error: "@.len() as int) =~= "error: "@);
}

/// Renders a failure as an `error: ` line.
pub fn render_error(message: &str) -> (line: String)
    ensures
        line@ == error_line(message@),
{
    let mut line = String::from_str("error: ");
    line.append(message);
    line
}

/// Selects the decode strategy for a result type. The selection is total
/// over the tag enumeration: every tag is either decoded or explicitly
/// rejected, and a rejected tag never reaches the native entry point.
pub fn plan_execution(tag: ResultTag) -> (p: ExecPlan)
    ensures
        match tag {
            ResultTag::Long { signed } => p == (ExecPlan::Invoke { signed }),
            ResultTag::Unsupported { description } => p matches ExecPlan::Reject { message }
                && message@ == unsupported_message(description@),
        },
        p matches ExecPlan::Reject { message } ==> is_error_line(message@),
{
    match tag {
        ResultTag::Long { signed } => ExecPlan::Invoke { signed },
        ResultTag::Unsupported { description } => {
            let mut message = String::from_str("error: expression returns unsupported type: ");
            message.append(description.as_str());
            proof {
                lemma_unsupported_is_error_line(description@);
            }
            ExecPlan::Reject { message }
        },
    }
}

} // verus!
