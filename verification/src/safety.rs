//! What can go wrong when a checked program runs.
//!
//! Every value that evaluation builds keeps the shape that its type names:
//! a value of a function type is, under its casts, a function, and so on,
//! and a value of type `?` is a value of ground type injected into `?`. So
//! the checks in the evaluator that a cast gave a value of the right shape
//! never fail, and a program that type checks fails at run time only at a
//! cast, or when it runs out of steps.
use vstd::prelude::*;

use crate::ast::{ground_of, is_ground_type, strip_casts, value_type, AlfaType, AlfaValue, Expr, TypedExpr};
use crate::cast::{cast_body, cast_of, fun_cast_of, is_dyn_injection, prod_cast_of, sum_cast_of};
use crate::eval::{binop_value, cast_step, eval_in, num_in, out_of_fuel_text, unbound_text};
use crate::subst::subst_in;
use crate::text::type_text;
use crate::typechecking::{typecheck_in, Scope};

verus! {

/// A value built the way evaluation builds values: pairs, functions and
/// injections carry a type of their own form, a function's body is well
/// formed, and each cast is one that the cast rules make: a value of ground
/// type into `?`, or a value of another type (not `?`) to its ground type.
pub open spec fn wf_value(v: AlfaValue) -> bool
    decreases v,
{
    match v {
        AlfaValue::Pair(a, b, t) => wf_value(*a) && wf_value(*b) && t is Product,
        AlfaValue::Fun(_, _, body, t) => wf_expr(body) && t is Arrow,
        AlfaValue::InjL(a, t) => wf_value(*a) && t is Sum,
        AlfaValue::InjR(a, t) => wf_value(*a) && t is Sum,
        AlfaValue::Cast(a, t) => wf_value(*a) && if t == AlfaType::Dyn {
            is_ground_type(value_type(*a))
        } else {
            value_type(*a) != AlfaType::Dyn && !is_ground_type(value_type(*a)) && ground_of(value_type(*a))
                == t
        },
        _ => true,
    }
}

/// A typed expression whose functions carry a function type, whose
/// injections carry a sum type, and whose values are well formed.
pub open spec fn wf_expr(e: TypedExpr) -> bool
    decreases e,
{
    match e {
        TypedExpr::Fun { body, typ, .. } => wf_expr(*body) && typ is Arrow,
        TypedExpr::InjL { expr, typ } => wf_expr(*expr) && typ is Sum,
        TypedExpr::InjR { expr, typ } => wf_expr(*expr) && typ is Sum,
        TypedExpr::Value { val } => wf_value(*val),
        TypedExpr::If { cond, if_body, else_body, .. } => wf_expr(*cond) && wf_expr(*if_body) && wf_expr(
            *else_body,
        ),
        TypedExpr::Case { cond, l_body, r_body, .. } => wf_expr(*cond) && wf_expr(*l_body) && wf_expr(
            *r_body,
        ),
        TypedExpr::PrjL { expr, .. } => wf_expr(*expr),
        TypedExpr::PrjR { expr, .. } => wf_expr(*expr),
        TypedExpr::Let { def, body, .. } => wf_expr(*def) && wf_expr(*body),
        TypedExpr::Ap { fun, arg, .. } => wf_expr(*fun) && wf_expr(*arg),
        TypedExpr::BinOp { lhs, rhs, .. } => wf_expr(*lhs) && wf_expr(*rhs),
        TypedExpr::UnOp { expr, .. } => wf_expr(*expr),
        TypedExpr::Pair { fst, snd, .. } => wf_expr(*fst) && wf_expr(*snd),
        _ => true,
    }
}

/// The message of a cast that has no rule or that fails.
pub open spec fn cast_failure(m: Seq<char>) -> bool {
    "Cannot cast "@.is_prefix_of(m) || "Casting "@.is_prefix_of(m)
}

/// The ways in which evaluating a well-formed expression may fail: a cast,
/// the step limit, or a variable that nothing bound.
pub open spec fn expected_failure(m: Seq<char>) -> bool {
    cast_failure(m) || m == out_of_fuel_text() || m == unbound_text()
}

proof fn lemma_prefix_of_sum(p: Seq<char>, x: Seq<char>)
    ensures
        p.is_prefix_of(p + x),
{
    assert((p + x).subrange(0, p.len() as int) =~= p);
}

proof fn lemma_prefix_extends(p: Seq<char>, m: Seq<char>, x: Seq<char>)
    requires
        p.is_prefix_of(m),
    ensures
        p.is_prefix_of(m + x),
{
    assert((m + x).subrange(0, p.len() as int) =~= m.subrange(0, p.len() as int));
}

/// `p`, then `a`, then `b` is a cast failure when `p` begins like one.
proof fn lemma_cast_failure_text(p: Seq<char>, a: Seq<char>, b: Seq<char>)
    requires
        p == "Cannot cast "@ || p == "Casting "@,
    ensures
        cast_failure(p + a),
        cast_failure(p + a + b),
{
    lemma_prefix_of_sum(p, a);
    lemma_prefix_extends(p, p + a, b);
}

/// The shape of a well-formed value follows from its type.
pub proof fn lemma_wf_shape(v: AlfaValue)
    requires
        wf_value(v),
    ensures
        wf_value(strip_casts(v)),
        value_type(v) is Arrow ==> strip_casts(v) is Fun,
        value_type(v) is Sum ==> strip_casts(v) is InjL || strip_casts(v) is InjR,
        value_type(v) is Product ==> strip_casts(v) is Pair,
        value_type(v) == AlfaType::Bool ==> v is Bool,
        value_type(v) == AlfaType::Num ==> v is Num,
        value_type(v) == AlfaType::Dyn ==> is_dyn_injection(v),
    decreases v,
{
    if let AlfaValue::Cast(a, _) = v {
        lemma_wf_shape(*a);
    }
}

/// The failures of the type-directed casts are cast failures.
proof fn lemma_former_cast_messages(t: AlfaType)
    ensures
        fun_cast_of(t) matches Err(m) ==> cast_failure(m),
        sum_cast_of(t) matches Err(m) ==> cast_failure(m),
        prod_cast_of(t) matches Err(m) ==> cast_failure(m),
{
    lemma_cast_failure_text("Cannot cast "@, type_text(t), " to Arrow type"@);
    lemma_cast_failure_text("Cannot cast "@, type_text(t), " to Sum type"@);
    lemma_cast_failure_text("Cannot cast "@, type_text(t), " to Product type"@);
}

/// A cast of a well-formed value gives a well-formed value of the type cast
/// to, or a cast failure.
pub proof fn lemma_cast_step_wf(v: AlfaValue, t: AlfaType)
    requires
        wf_value(v),
    ensures
        cast_step(v, t) matches Ok(r) ==> wf_value(r) && value_type(r) == t,
        cast_step(v, t) matches Err(m) ==> cast_failure(m),
{
    lemma_wf_shape(v);
    let from = value_type(v);
    lemma_prefix_of_sum("Casting "@, type_text(from));
    lemma_prefix_extends("Casting "@, "Casting "@ + type_text(from), " to "@);
    lemma_prefix_extends("Casting "@, "Casting "@ + type_text(from) + " to "@, type_text(t));
    let bt = value_type(cast_body(v));
    lemma_prefix_of_sum("Cannot cast "@, type_text(bt));
    lemma_prefix_extends("Cannot cast "@, "Cannot cast "@ + type_text(bt), " to "@);
    lemma_prefix_extends("Cannot cast "@, "Cannot cast "@ + type_text(bt) + " to "@, type_text(t));
    let g = ground_of(from);
    let inner = AlfaValue::Cast(Box::new(v), g);
    if from != t && !is_ground_type(from) && t == AlfaType::Dyn && from != AlfaType::Dyn {
        assert(wf_value(inner));
        assert(wf_value(AlfaValue::Cast(Box::new(inner), AlfaType::Dyn)));
    }
    assert(wf_value(AlfaValue::Cast(Box::new(v), AlfaType::Dyn)) == is_ground_type(from));
    crate::cast::lemma_cast_has_target_type(v, t);
}

/// Putting a well-formed value in place of a variable keeps an expression
/// well formed.
pub proof fn lemma_subst_wf(x: Seq<char>, v: AlfaValue, e: TypedExpr)
    requires
        wf_expr(e),
        wf_value(v),
    ensures
        wf_expr(subst_in(x, v, e)),
    decreases e,
{
    match e {
        TypedExpr::Fun { body, .. } => lemma_subst_wf(x, v, *body),
        TypedExpr::If { cond, if_body, else_body, .. } => {
            lemma_subst_wf(x, v, *cond);
            lemma_subst_wf(x, v, *if_body);
            lemma_subst_wf(x, v, *else_body);
        },
        TypedExpr::Case { cond, l_body, r_body, .. } => {
            lemma_subst_wf(x, v, *cond);
            lemma_subst_wf(x, v, *l_body);
            lemma_subst_wf(x, v, *r_body);
        },
        TypedExpr::InjL { expr, .. } => lemma_subst_wf(x, v, *expr),
        TypedExpr::InjR { expr, .. } => lemma_subst_wf(x, v, *expr),
        TypedExpr::PrjL { expr, .. } => lemma_subst_wf(x, v, *expr),
        TypedExpr::PrjR { expr, .. } => lemma_subst_wf(x, v, *expr),
        TypedExpr::Let { def, body, .. } => {
            lemma_subst_wf(x, v, *def);
            lemma_subst_wf(x, v, *body);
        },
        TypedExpr::Ap { fun, arg, .. } => {
            lemma_subst_wf(x, v, *fun);
            lemma_subst_wf(x, v, *arg);
        },
        TypedExpr::BinOp { lhs, rhs, .. } => {
            lemma_subst_wf(x, v, *lhs);
            lemma_subst_wf(x, v, *rhs);
        },
        TypedExpr::UnOp { expr, .. } => lemma_subst_wf(x, v, *expr),
        TypedExpr::Pair { fst, snd, .. } => {
            lemma_subst_wf(x, v, *fst);
            lemma_subst_wf(x, v, *snd);
        },
        _ => {},
    }
}

/// The well-formedness law for an application.
#[verifier::spinoff_prover]
proof fn lemma_eval_wf_ap(e: TypedExpr, fuel: nat)
    requires
        wf_expr(e),
        fuel > 0,
        e is Ap,
    ensures
        eval_in(e, fuel) matches Ok(v) ==> wf_value(v),
        eval_in(e, fuel) matches Err(m) ==> expected_failure(m),
    decreases fuel, 0nat,
{
    let f = (fuel - 1) as nat;
    if let TypedExpr::Ap { fun, arg, .. } = e {
        lemma_former_cast_messages(crate::ast::expr_type(*fun));
        if let Ok((at, rt)) = fun_cast_of(crate::ast::expr_type(*fun)) {
            lemma_eval_wf(*fun, f);
            if let Ok(fv) = eval_in(*fun, f) {
                lemma_cast_step_wf(fv, crate::ast::t_arrow(at, rt));
                if let Ok(fv) = cast_step(fv, crate::ast::t_arrow(at, rt)) {
                    lemma_wf_shape(fv);
                    lemma_eval_wf(*arg, f);
                    if let Ok(av) = eval_in(*arg, f) {
                        lemma_cast_step_wf(av, at);
                        if let Ok(av) = cast_step(av, at) {
                            if let AlfaValue::Fun(x, _, body, _) = strip_casts(fv) {
                                lemma_subst_wf(x.id@, av, body);
                                lemma_eval_wf(subst_in(x.id@, av, body), f);
                            }
                        }
                    }
                }
            }
        }
    }
}

/// The well-formedness law for a conditional.
#[verifier::spinoff_prover]
proof fn lemma_eval_wf_if(e: TypedExpr, fuel: nat)
    requires
        wf_expr(e),
        fuel > 0,
        e is If,
    ensures
        eval_in(e, fuel) matches Ok(v) ==> wf_value(v),
        eval_in(e, fuel) matches Err(m) ==> expected_failure(m),
    decreases fuel, 0nat,
{
    let f = (fuel - 1) as nat;
    if let TypedExpr::If { cond, if_body, else_body, typ } = e {
        lemma_eval_wf(*cond, f);
        if let Ok(c) = eval_in(*cond, f) {
            lemma_cast_step_wf(c, AlfaType::Bool);
            if let Ok(c) = cast_step(c, AlfaType::Bool) {
                lemma_wf_shape(c);
                if let AlfaValue::Bool(b) = c {
                    lemma_eval_wf(if b { *if_body } else { *else_body }, f);
                    if let Ok(r) = eval_in(if b { *if_body } else { *else_body }, f) {
                        lemma_cast_step_wf(r, typ);
                    }
                }
            }
        }
    }
}

/// The well-formedness law for a case analysis.
#[verifier::spinoff_prover]
proof fn lemma_eval_wf_case(e: TypedExpr, fuel: nat)
    requires
        wf_expr(e),
        fuel > 0,
        e is Case,
    ensures
        eval_in(e, fuel) matches Ok(v) ==> wf_value(v),
        eval_in(e, fuel) matches Err(m) ==> expected_failure(m),
    decreases fuel, 0nat,
{
    let f = (fuel - 1) as nat;
    if let TypedExpr::Case { cond, l_var, l_body, r_var, r_body, typ } = e {
        lemma_former_cast_messages(crate::ast::expr_type(*cond));
        if let Ok((lt, rt)) = sum_cast_of(crate::ast::expr_type(*cond)) {
            lemma_eval_wf(*cond, f);
            if let Ok(c) = eval_in(*cond, f) {
                lemma_cast_step_wf(c, crate::ast::t_sum(lt, rt));
                if let Ok(c) = cast_step(c, crate::ast::t_sum(lt, rt)) {
                    lemma_wf_shape(c);
                    match strip_casts(c) {
                        AlfaValue::InjL(v, _) => {
                            lemma_cast_step_wf(*v, lt);
                            if let Ok(v) = cast_step(*v, lt) {
                                lemma_subst_wf(l_var.id@, v, *l_body);
                                lemma_eval_wf(subst_in(l_var.id@, v, *l_body), f);
                                if let Ok(r) = eval_in(subst_in(l_var.id@, v, *l_body), f) {
                                    lemma_cast_step_wf(r, typ);
                                }
                            }
                        },
                        AlfaValue::InjR(v, _) => {
                            lemma_cast_step_wf(*v, rt);
                            if let Ok(v) = cast_step(*v, rt) {
                                lemma_subst_wf(r_var.id@, v, *r_body);
                                lemma_eval_wf(subst_in(r_var.id@, v, *r_body), f);
                                if let Ok(r) = eval_in(subst_in(r_var.id@, v, *r_body), f) {
                                    lemma_cast_step_wf(r, typ);
                                }
                            }
                        },
                        _ => {},
                    }
                }
            }
        }
    }
}

/// The well-formedness law for the two projections.
#[verifier::spinoff_prover]
proof fn lemma_eval_wf_prj(e: TypedExpr, fuel: nat)
    requires
        wf_expr(e),
        fuel > 0,
        e is PrjL || e is PrjR,
    ensures
        eval_in(e, fuel) matches Ok(v) ==> wf_value(v),
        eval_in(e, fuel) matches Err(m) ==> expected_failure(m),
    decreases fuel, 0nat,
{
    let f = (fuel - 1) as nat;
    let expr = match e {
        TypedExpr::PrjL { expr, .. } => *expr,
        TypedExpr::PrjR { expr, .. } => *expr,
        _ => e,
    };
    lemma_former_cast_messages(crate::ast::expr_type(expr));
    if let Ok((ft, st)) = prod_cast_of(crate::ast::expr_type(expr)) {
        lemma_eval_wf(expr, f);
        if let Ok(p) = eval_in(expr, f) {
            lemma_cast_step_wf(p, crate::ast::t_product(ft, st));
            if let Ok(p) = cast_step(p, crate::ast::t_product(ft, st)) {
                lemma_wf_shape(p);
                if let AlfaValue::Pair(a, b, _) = strip_casts(p) {
                    lemma_cast_step_wf(*a, ft);
                    lemma_cast_step_wf(*b, st);
                }
            }
        }
    }
}

/// The well-formedness law for a binding.
#[verifier::spinoff_prover]
proof fn lemma_eval_wf_let(e: TypedExpr, fuel: nat)
    requires
        wf_expr(e),
        fuel > 0,
        e is Let,
    ensures
        eval_in(e, fuel) matches Ok(v) ==> wf_value(v),
        eval_in(e, fuel) matches Err(m) ==> expected_failure(m),
    decreases fuel, 0nat,
{
    let f = (fuel - 1) as nat;
    if let TypedExpr::Let { id, var_typ, def, body, typ } = e {
        lemma_eval_wf(*def, f);
        if let Ok(d) = eval_in(*def, f) {
            lemma_cast_step_wf(d, var_typ);
            if let Ok(d) = cast_step(d, var_typ) {
                lemma_subst_wf(id.id@, d, *body);
                lemma_eval_wf(subst_in(id.id@, d, *body), f);
                if let Ok(r) = eval_in(subst_in(id.id@, d, *body), f) {
                    lemma_cast_step_wf(r, typ);
                }
            }
        }
    }
}

/// Evaluating a well-formed expression gives a well-formed value, or fails
/// at a cast, at the step limit or at a variable that nothing bound: the
/// evaluator's checks that a cast gave a value of the right shape never fail.
pub proof fn lemma_eval_wf(e: TypedExpr, fuel: nat)
    requires
        wf_expr(e),
    ensures
        eval_in(e, fuel) matches Ok(v) ==> wf_value(v),
        eval_in(e, fuel) matches Err(m) ==> expected_failure(m),
    decreases fuel, 1nat,
{
    if fuel == 0 {
        return;
    }
    let f = (fuel - 1) as nat;
    match e {
        TypedExpr::Pair { fst, snd, .. } => {
            lemma_eval_wf(*fst, f);
            lemma_eval_wf(*snd, f);
        },
        TypedExpr::Ap { .. } => lemma_eval_wf_ap(e, fuel),
        TypedExpr::If { .. } => lemma_eval_wf_if(e, fuel),
        TypedExpr::Case { .. } => lemma_eval_wf_case(e, fuel),
        TypedExpr::InjL { expr, .. } => lemma_eval_wf(*expr, f),
        TypedExpr::InjR { expr, .. } => lemma_eval_wf(*expr, f),
        TypedExpr::PrjL { .. } => lemma_eval_wf_prj(e, fuel),
        TypedExpr::PrjR { .. } => lemma_eval_wf_prj(e, fuel),
        TypedExpr::Let { .. } => lemma_eval_wf_let(e, fuel),
        TypedExpr::BinOp { lhs, op, rhs, typ } => {
            lemma_num_wf(*lhs, f);
            lemma_num_wf(*rhs, f);
            if let Ok(l) = num_in(*lhs, f) {
                if let Ok(r) = num_in(*rhs, f) {
                    lemma_cast_step_wf(binop_value(op, l, r), typ);
                }
            }
        },
        TypedExpr::UnOp { expr, typ, .. } => {
            lemma_num_wf(*expr, f);
            if let Ok(v) = num_in(*expr, f) {
                lemma_cast_step_wf(AlfaValue::Num(0i32.wrapping_sub(v)), typ);
            }
        },
        _ => {},
    }
}

/// Evaluating a well-formed expression to a number fails only at a cast, at
/// the step limit or at a variable that nothing bound.
pub proof fn lemma_num_wf(e: TypedExpr, fuel: nat)
    requires
        wf_expr(e),
    ensures
        num_in(e, fuel) matches Err(m) ==> expected_failure(m),
    decreases fuel, 1nat,
{
    if fuel > 0 {
        let f = (fuel - 1) as nat;
        lemma_eval_wf(e, f);
        if let Ok(v) = eval_in(e, f) {
            lemma_cast_step_wf(v, AlfaType::Num);
            if let Ok(v) = cast_step(v, AlfaType::Num) {
                lemma_wf_shape(v);
            }
        }
    }
}

/// The typed form that the checker gives is well formed.
pub proof fn lemma_typecheck_wf(e: Expr, ctx: Scope)
    ensures
        typecheck_in(e, ctx) matches Ok(t) ==> wf_expr(t),
    decreases e,
{
    match e {
        Expr::Fun(x, ann, body) => {
            let a = match ann {
                Some(t) => t,
                None => AlfaType::Dyn,
            };
            lemma_typecheck_wf(*body, ctx.push((x.id@, a)));
        },
        Expr::If(c, t, f) => {
            lemma_typecheck_wf(*c, ctx);
            lemma_typecheck_wf(*t, ctx);
            lemma_typecheck_wf(*f, ctx);
        },
        Expr::Case(c, lx, lb, rx, rb) => {
            lemma_typecheck_wf(*c, ctx);
            if let Ok(ct) = typecheck_in(*c, ctx) {
                let t = crate::ast::expr_type(ct);
                lemma_typecheck_wf(*lb, ctx.push((lx.id@, crate::typechecking::sum_left(t))));
                lemma_typecheck_wf(*rb, ctx.push((rx.id@, crate::typechecking::sum_right(t))));
            }
        },
        Expr::InjL(x) => lemma_typecheck_wf(*x, ctx),
        Expr::InjR(x) => lemma_typecheck_wf(*x, ctx),
        Expr::PrjL(x) => lemma_typecheck_wf(*x, ctx),
        Expr::PrjR(x) => lemma_typecheck_wf(*x, ctx),
        Expr::Let(x, ann, d, b) => {
            lemma_typecheck_wf(*d, ctx);
            if let Ok(dt) = typecheck_in(*d, ctx) {
                let vt = match ann {
                    Some(t) => t,
                    None => crate::ast::expr_type(dt),
                };
                lemma_typecheck_wf(*b, ctx.push((x.id@, vt)));
            }
        },
        Expr::Ap(f, a) => {
            lemma_typecheck_wf(*f, ctx);
            lemma_typecheck_wf(*a, ctx);
        },
        Expr::BinOp(l, _, r) => {
            lemma_typecheck_wf(*l, ctx);
            lemma_typecheck_wf(*r, ctx);
        },
        Expr::UnOp(_, x) => lemma_typecheck_wf(*x, ctx),
        Expr::Pair(a, b) => {
            lemma_typecheck_wf(*a, ctx);
            lemma_typecheck_wf(*b, ctx);
        },
        _ => {},
    }
}

} // verus!
