//! Running whole programs: parse, type check, then evaluate.
use vstd::prelude::*;

use crate::ast::Expr;
use crate::context::lemma_lookup_empty;
use crate::eval::{eval, eval_in, lemma_eval_scoped, unbound_text, EvalResult, EVAL_FUEL};
use crate::eval::out_of_fuel_text;
use crate::parser::{denotes, parse_alfa_program, parse_text};
use crate::names::{lemma_denotes_agree, lemma_eval_agree, lemma_typecheck_agree, value_result_agree};
use crate::safety::{cast_failure, lemma_eval_wf, lemma_typecheck_wf, wf_value};
use crate::typechecking::{lemma_typecheck_scoped, result_is, scope_names, typecheck, typecheck_in};

verus! {

/// What running a parsed program gives: the message of type checking, or
/// the result of evaluating the typed program.
pub open spec fn run_parsed(e: Expr) -> Result<crate::ast::AlfaValue, Seq<char>> {
    match typecheck_in(e, Seq::empty()) {
        Err(m) => Err(m),
        Ok(t) => eval_in(t, EVAL_FUEL as nat),
    }
}

/// Whether an outcome of running a program is the outcome `s`: the same
/// message, or a value that agrees with it (the same up to which strings
/// hold the names).
pub open spec fn runs_as(r: EvalResult, s: Result<crate::ast::AlfaValue, Seq<char>>) -> bool {
    match r {
        Ok(v) => value_result_agree(Ok(v), s),
        Err(m) => value_result_agree(Err(m@), s),
    }
}

/// Running two programs that the same parse of a text stands for gives the
/// same message, or agreeing values: what a program does depends only on
/// its parse, and on the text of its names.
pub proof fn lemma_run_parsed_agree(a: Expr, b: Expr, syn: crate::parser::Syntax, text: Seq<char>)
    requires
        denotes(a, syn, text),
        denotes(b, syn, text),
    ensures
        value_result_agree(run_parsed(a), run_parsed(b)),
{
    lemma_denotes_agree(a, b, syn, text);
    lemma_typecheck_agree(a, b, Seq::empty());
    if let (Ok(t), Ok(u)) = (typecheck_in(a, Seq::empty()), typecheck_in(b, Seq::empty())) {
        lemma_eval_agree(t, u, EVAL_FUEL as nat);
    }
}

/// Parses, type checks and evaluates a program, stopping at the first error.
pub fn run_alfa_prog(prog: &str) -> (r: EvalResult)
    ensures
        match parse_text(prog@) {
            Err(m) => r matches Err(x) && x@ == m,
            Ok(syn) => (exists|e: Expr| denotes(e, syn, prog@) && result_is(r, run_parsed(e))) && forall|e: Expr|
                denotes(e, syn, prog@) ==> #[trigger] runs_as(r, run_parsed(e)),
        },
{
    let parsed = parse_alfa_program(prog);
    let e = match parsed {
        Ok(e) => e,
        Err(m) => {
            return Err(m);
        },
    };
    let ghost e0 = e;
    let r = match typecheck(e) {
        Ok(typed) => eval(typed),
        Err(m) => Err(m),
    };
    let ghost syn = parse_text(prog@)->Ok_0;
    assert(denotes(e0, syn, prog@) && result_is(r, run_parsed(e0)));
    assert forall|e: Expr| denotes(e, syn, prog@) implies #[trigger] runs_as(r, run_parsed(e)) by {
        lemma_run_parsed_agree(e0, e, syn, prog@);
    }
    r
}

/// The fixed point combinator for call-by-value programs, in the language's
/// concrete syntax.
pub open spec fn fix_text() -> Seq<char> {
    "fun f -> (fun x -> f(fun v -> (x(x))(v))) (fun x -> f(fun v -> (x(x))(v)))"@
}

/// The program `prog` with `fix`, the fixed point combinator, bound around it.
pub fn with_fix_program(prog: &str) -> (r: String)
    ensures
        r@ == "let fix be "@ + fix_text() + " in ("@ + prog@ + ")"@,
{
    let mut r = "let fix be ".to_string();
    r.append("fun f -> (fun x -> f(fun v -> (x(x))(v))) (fun x -> f(fun v -> (x(x))(v)))");
    r.append(" in (");
    r.append(prog);
    r.append(")");
    r
}

/// A program that type checks in the empty context never meets an unbound
/// variable when it is evaluated, whatever the step budget.
pub proof fn lemma_checked_program_binds_its_variables(e: Expr, fuel: nat)
    ensures
        typecheck_in(e, Seq::empty()) matches Ok(t) ==> !(eval_in(t, fuel) matches Err(m) && m
            == unbound_text()),
{
    lemma_typecheck_scoped(e, Seq::empty());
    assert forall|x: Seq<char>| !scope_names(Seq::empty()).contains(x) by {
        lemma_lookup_empty(x);
    }
    assert(scope_names(Seq::empty()) =~= Set::empty());
    if let Ok(t) = typecheck_in(e, Seq::empty()) {
        lemma_eval_scoped(t, fuel);
    }
}

/// A program that type checks in the empty context evaluates, whatever the
/// step budget, to a well-formed value, or fails at a cast or at the step
/// limit, never at one of the evaluator's own checks.
pub proof fn lemma_checked_program_fails_only_at_casts(e: Expr, fuel: nat)
    ensures
        typecheck_in(e, Seq::empty()) matches Ok(t) ==> match eval_in(t, fuel) {
            Ok(v) => wf_value(v),
            Err(m) => cast_failure(m) || m == out_of_fuel_text(),
        },
{
    lemma_checked_program_binds_its_variables(e, fuel);
    lemma_typecheck_wf(e, Seq::empty());
    if let Ok(t) = typecheck_in(e, Seq::empty()) {
        lemma_eval_wf(t, fuel);
    }
}

} // verus!
