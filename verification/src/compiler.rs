//! The evaluation driver and its seam to the saltwater compiler service.
//!
//! One line of code becomes a typed expression through the compiler's
//! expression pipeline; its static type selects a decode strategy; for a
//! supported type the expression is wrapped into a synthetic nullary
//! `execute` function and compiled into a jitted module. The compiler
//! itself is an opaque collaborator: the calls into it stand behind trusted
//! declarations, and everything around them is verified.

use vstd::prelude::*;
use vstd::string::StringExecFns;

use crate::render::ExecPlan;
use crate::render::ResultTag;
use crate::render::is_error_line;
use crate::render::lemma_error_line_recognized;
use crate::render::plan_execution;
use crate::render::render_error;

verus! {

/// A typed expression produced by the compiler service, opaque here: only
/// the service and the driver's trusted seam touch its inside.
#[verifier::external_type_specification]
#[verifier::external_body]
pub struct ExExpr(saltwater::hir::Expr);

/// A jitted module holding compiled native code, opaque here. The
/// surrounding program finalizes it and invokes its `execute` entry point.
#[verifier::external_type_specification]
#[verifier::external_body]
pub struct ExJit(saltwater::JIT);

/// Relies on saltwater's expression pipeline — `PreProcessorBuilder::new`
/// and `build`, `PreProcessor::next_non_whitespace`, `Parser::new` and
/// `Parser::expr`, `PureAnalyzer::new` and `PureAnalyzer::expr` — to parse
/// and analyze one newline-terminated line of source text as a single
/// expression. A failure to lex or parse is reported as that error's
/// printed text; a line without any token is the parser's own
/// end-of-input syntax error.
#[verifier::external_body]
fn parse_expression(source: &str) -> (r: Result<saltwater::hir::Expr, String>)
    requires
        source@.len() > 0,
        source@[source@.len() - 1] == '\n',
{
    let mut cpp = saltwater::PreProcessorBuilder::new(source).build();
    let first = loop {
        match cpp.next_non_whitespace() {
            Some(Ok(token)) => break token,
            Some(Err(err)) => return Err(format!("{}", err.data)),
            None => return Err(format!("{}", saltwater::SyntaxError::EndOfFile("expression"))),
        }
    };
    match saltwater::Parser::new(first, &mut cpp, false).expr() {
        Ok(ast) => Ok(saltwater::PureAnalyzer::new().expr(ast)),
        Err(err) => Err(format!("{}", err.data)),
    }
}

/// Relies on reading `saltwater::hir::Expr`'s `ctype` field: tells the type
/// tags apart, mapping the 64-bit integer type `Type::Long` to its
/// signedness and any other type to the unsupported tag carrying that
/// type's printed form.
#[verifier::external_body]
fn type_tag(expr: &saltwater::hir::Expr) -> (t: ResultTag) {
    match &expr.ctype {
        saltwater::types::Type::Long(signed) => ResultTag::Long { signed: *signed },
        other => ResultTag::Unsupported { description: format!("{:?}", other) },
    }
}

/// Relies on `saltwater::JIT::from_string` with default options: compiles a
/// C translation unit into a jitted module, or reports the collected
/// compile errors as their printed text.
#[verifier::external_body]
fn jit_compile(source: String) -> (r: Result<saltwater::JIT, String>) {
    match saltwater::JIT::from_string(source, saltwater::Opt::default()).result {
        Ok(jit) => Ok(jit),
        Err(err) => Err(format!("{}", err)),
    }
}

/// The translation unit that wraps an expression of 64-bit integer type: a
/// synthetic function named by the reserved identifier `execute`, with no
/// parameters, whose return type is the expression's static type and whose
/// single statement returns the expression.
pub open spec fn wrapped_unit(code: Seq<char>, signed: bool) -> Seq<char> {
    (if signed {
        "long execute() { return ("@
    } else {
        "unsigned long execute() { return ("@
    }) + code + "); }\n"@
}

/// Synthesizes the wrapped translation unit for one expression.
pub fn wrap_expression(code: &str, signed: bool) -> (unit: String)
    ensures
        unit@ == wrapped_unit(code@, signed),
{
    let mut unit = if signed {
        String::from_str("long execute() { return (")
    } else {
        String::from_str("unsigned long execute() { return (")
    };
    unit.append(code);
    unit.append("); }\n");
    unit
}

/// What evaluating one line of code yields: a jitted module ready to run,
/// with the signedness that decodes its result, or one report line and
/// nothing to run.
pub enum EvalStep {
    Execute { jit: saltwater::JIT, signed: bool },
    Report { message: String },
}

/// The evaluation driver for one line of code.
///
/// The line, newline-terminated, is parsed and analyzed as a single
/// expression; the expression's static type selects the decode strategy;
/// for a supported type the wrapped translation unit is compiled into a
/// jitted module. A syntax error, an unsupported result type and a compile
/// error short-circuit; whatever the compiler service answered, every
/// report is a single `error: ` line, and a reported line never yields a
/// module to run.
pub fn evaluate_code(code: &str) -> (r: EvalStep)
    ensures
        r matches EvalStep::Report { message } ==> is_error_line(message@),
{
    let mut line = String::from_str(code);
    line.append("\n");
    proof {
        reveal_strlit("\n");
    }
    let expr = match parse_expression(line.as_str()) {
        Ok(expr) => expr,
        Err(msg) => {
            proof {
                lemma_error_line_recognized(msg@);
            }
            return EvalStep::Report { message: render_error(msg.as_str()) };
        },
    };
    match plan_execution(type_tag(&expr)) {
        ExecPlan::Reject { message } => EvalStep::Report { message },
        ExecPlan::Invoke { signed } => {
            match jit_compile(wrap_expression(code, signed)) {
                Ok(jit) => EvalStep::Execute { jit, signed },
                Err(msg) => {
                    proof {
                        lemma_error_line_recognized(msg@);
                    }
                    EvalStep::Report { message: render_error(msg.as_str()) }
                },
            }
        },
    }
}

} // verus!
