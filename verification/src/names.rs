//! What a program does depends on the text of its names only.
//!
//! Two expressions agree when they are the same tree and each name in one
//! has the same text as the name in the same place in the other. Type
//! checking and evaluation take agreeing programs to agreeing results: the
//! same message, or values that agree.
use vstd::prelude::*;

use crate::ast::{expr_type, strip_casts, value_type, AlfaType, AlfaValue, Expr, TypedExpr};
use crate::cast::{fun_cast_of, prod_cast_of, sum_cast_of};
use crate::eval::{binop_value, cast_step, eval_in, num_in};
use crate::parser::{denotes, Syntax};
use crate::subst::subst_in;
use crate::text::{expr_text, value_text};
use crate::typechecking::{typecheck_in, Scope};

verus! {

/// Two untyped expressions are the same up to which strings hold their names.
pub open spec fn expr_agree(a: Expr, b: Expr) -> bool
    decreases a,
{
    match (a, b) {
        (Expr::Num(n), Expr::Num(m)) => n == m,
        (Expr::Bool(x), Expr::Bool(y)) => x == y,
        (Expr::Unit, Expr::Unit) => true,
        (Expr::Var(x), Expr::Var(y)) => x.id@ == y.id@,
        (Expr::Fun(x, t, e), Expr::Fun(y, u, f)) => x.id@ == y.id@ && t == u && expr_agree(*e, *f),
        (Expr::If(c1, t1, e1), Expr::If(c2, t2, e2)) => expr_agree(*c1, *c2) && expr_agree(*t1, *t2)
            && expr_agree(*e1, *e2),
        (Expr::Case(c1, x1, l1, y1, r1), Expr::Case(c2, x2, l2, y2, r2)) => expr_agree(*c1, *c2) && x1.id@
            == x2.id@ && expr_agree(*l1, *l2) && y1.id@ == y2.id@ && expr_agree(*r1, *r2),
        (Expr::InjL(e), Expr::InjL(f)) => expr_agree(*e, *f),
        (Expr::InjR(e), Expr::InjR(f)) => expr_agree(*e, *f),
        (Expr::PrjL(e), Expr::PrjL(f)) => expr_agree(*e, *f),
        (Expr::PrjR(e), Expr::PrjR(f)) => expr_agree(*e, *f),
        (Expr::Let(x, t, d1, b1), Expr::Let(y, u, d2, b2)) => x.id@ == y.id@ && t == u && expr_agree(*d1, *d2)
            && expr_agree(*b1, *b2),
        (Expr::Ap(f1, a1), Expr::Ap(f2, a2)) => expr_agree(*f1, *f2) && expr_agree(*a1, *a2),
        (Expr::BinOp(l1, o1, r1), Expr::BinOp(l2, o2, r2)) => expr_agree(*l1, *l2) && o1 == o2 && expr_agree(
            *r1,
            *r2,
        ),
        (Expr::UnOp(o1, e), Expr::UnOp(o2, f)) => o1 == o2 && expr_agree(*e, *f),
        (Expr::Pair(a1, b1), Expr::Pair(a2, b2)) => expr_agree(*a1, *a2) && expr_agree(*b1, *b2),
        _ => false,
    }
}

/// Two typed expressions are the same up to which strings hold their names.
pub open spec fn typed_agree(a: TypedExpr, b: TypedExpr) -> bool
    decreases a,
{
    match (a, b) {
        (TypedExpr::Num(n), TypedExpr::Num(m)) => n == m,
        (TypedExpr::Bool(x), TypedExpr::Bool(y)) => x == y,
        (TypedExpr::Unit, TypedExpr::Unit) => true,
        (TypedExpr::Var { id: x, typ: t }, TypedExpr::Var { id: y, typ: u }) => x.id@ == y.id@ && t == u,
        (
            TypedExpr::Fun { id: x, var_typ: vt, body: e, typ: t },
            TypedExpr::Fun { id: y, var_typ: vu, body: f, typ: u },
        ) => x.id@ == y.id@ && vt == vu && t == u && typed_agree(*e, *f),
        (
            TypedExpr::If { cond: c1, if_body: t1, else_body: e1, typ: t },
            TypedExpr::If { cond: c2, if_body: t2, else_body: e2, typ: u },
        ) => typed_agree(*c1, *c2) && typed_agree(*t1, *t2) && typed_agree(*e1, *e2) && t == u,
        (
            TypedExpr::Case { cond: c1, l_var: x1, l_body: l1, r_var: y1, r_body: r1, typ: t },
            TypedExpr::Case { cond: c2, l_var: x2, l_body: l2, r_var: y2, r_body: r2, typ: u },
        ) => typed_agree(*c1, *c2) && x1.id@ == x2.id@ && typed_agree(*l1, *l2) && y1.id@ == y2.id@
            && typed_agree(*r1, *r2) && t == u,
        (TypedExpr::InjL { expr: e, typ: t }, TypedExpr::InjL { expr: f, typ: u }) => typed_agree(*e, *f) && t
            == u,
        (TypedExpr::InjR { expr: e, typ: t }, TypedExpr::InjR { expr: f, typ: u }) => typed_agree(*e, *f) && t
            == u,
        (TypedExpr::PrjL { expr: e, typ: t }, TypedExpr::PrjL { expr: f, typ: u }) => typed_agree(*e, *f) && t
            == u,
        (TypedExpr::PrjR { expr: e, typ: t }, TypedExpr::PrjR { expr: f, typ: u }) => typed_agree(*e, *f) && t
            == u,
        (
            TypedExpr::Let { id: x, var_typ: vt, def: d1, body: b1, typ: t },
            TypedExpr::Let { id: y, var_typ: vu, def: d2, body: b2, typ: u },
        ) => x.id@ == y.id@ && vt == vu && typed_agree(*d1, *d2) && typed_agree(*b1, *b2) && t == u,
        (TypedExpr::Ap { fun: f1, arg: a1, typ: t }, TypedExpr::Ap { fun: f2, arg: a2, typ: u }) => typed_agree(
            *f1,
            *f2,
        ) && typed_agree(*a1, *a2) && t == u,
        (
            TypedExpr::BinOp { lhs: l1, op: o1, rhs: r1, typ: t },
            TypedExpr::BinOp { lhs: l2, op: o2, rhs: r2, typ: u },
        ) => typed_agree(*l1, *l2) && o1 == o2 && typed_agree(*r1, *r2) && t == u,
        (TypedExpr::UnOp { op: o1, expr: e, typ: t }, TypedExpr::UnOp { op: o2, expr: f, typ: u }) => o1 == o2
            && typed_agree(*e, *f) && t == u,
        (TypedExpr::Pair { fst: a1, snd: b1, typ: t }, TypedExpr::Pair { fst: a2, snd: b2, typ: u }) =>
            typed_agree(*a1, *a2) && typed_agree(*b1, *b2) && t == u,
        (TypedExpr::Value { val: v }, TypedExpr::Value { val: w }) => value_agree(*v, *w),
        _ => false,
    }
}

/// Two values are the same up to which strings hold their names.
pub open spec fn value_agree(a: AlfaValue, b: AlfaValue) -> bool
    decreases a,
{
    match (a, b) {
        (AlfaValue::Num(n), AlfaValue::Num(m)) => n == m,
        (AlfaValue::Bool(x), AlfaValue::Bool(y)) => x == y,
        (AlfaValue::Unit, AlfaValue::Unit) => true,
        (AlfaValue::Pair(a1, b1, t), AlfaValue::Pair(a2, b2, u)) => value_agree(*a1, *a2) && value_agree(*b1, *b2)
            && t == u,
        (AlfaValue::Fun(x, vt, e, t), AlfaValue::Fun(y, vu, f, u)) => x.id@ == y.id@ && vt == vu && t == u
            && typed_agree(e, f),
        (AlfaValue::InjL(v, t), AlfaValue::InjL(w, u)) => value_agree(*v, *w) && t == u,
        (AlfaValue::InjR(v, t), AlfaValue::InjR(w, u)) => value_agree(*v, *w) && t == u,
        (AlfaValue::Cast(v, t), AlfaValue::Cast(w, u)) => value_agree(*v, *w) && t == u,
        _ => false,
    }
}

/// Two outcomes of type checking agree: the same message, or agreeing typed
/// expressions.
pub open spec fn typed_result_agree(r: Result<TypedExpr, Seq<char>>, s: Result<TypedExpr, Seq<char>>) -> bool {
    match (r, s) {
        (Ok(a), Ok(b)) => typed_agree(a, b),
        (Err(m), Err(n)) => m == n,
        _ => false,
    }
}

/// Two outcomes of evaluation agree: the same message, or agreeing values.
pub open spec fn value_result_agree(r: Result<AlfaValue, Seq<char>>, s: Result<AlfaValue, Seq<char>>) -> bool {
    match (r, s) {
        (Ok(a), Ok(b)) => value_agree(a, b),
        (Err(m), Err(n)) => m == n,
        _ => false,
    }
}

/// Agreeing typed expressions have the same type and the same text.
pub proof fn lemma_typed_agree_text(a: TypedExpr, b: TypedExpr)
    requires
        typed_agree(a, b),
    ensures
        expr_type(a) == expr_type(b),
        expr_text(a) == expr_text(b),
    decreases a,
{
    match (a, b) {
        (TypedExpr::Fun { body: e, .. }, TypedExpr::Fun { body: f, .. }) => lemma_typed_agree_text(*e, *f),
        (
            TypedExpr::If { cond: c1, if_body: t1, else_body: e1, .. },
            TypedExpr::If { cond: c2, if_body: t2, else_body: e2, .. },
        ) => {
            lemma_typed_agree_text(*c1, *c2);
            lemma_typed_agree_text(*t1, *t2);
            lemma_typed_agree_text(*e1, *e2);
        },
        (
            TypedExpr::Case { cond: c1, l_body: l1, r_body: r1, .. },
            TypedExpr::Case { cond: c2, l_body: l2, r_body: r2, .. },
        ) => {
            lemma_typed_agree_text(*c1, *c2);
            lemma_typed_agree_text(*l1, *l2);
            lemma_typed_agree_text(*r1, *r2);
        },
        (TypedExpr::InjL { expr: e, .. }, TypedExpr::InjL { expr: f, .. }) => lemma_typed_agree_text(*e, *f),
        (TypedExpr::InjR { expr: e, .. }, TypedExpr::InjR { expr: f, .. }) => lemma_typed_agree_text(*e, *f),
        (TypedExpr::PrjL { expr: e, .. }, TypedExpr::PrjL { expr: f, .. }) => lemma_typed_agree_text(*e, *f),
        (TypedExpr::PrjR { expr: e, .. }, TypedExpr::PrjR { expr: f, .. }) => lemma_typed_agree_text(*e, *f),
        (TypedExpr::Let { def: d1, body: b1, .. }, TypedExpr::Let { def: d2, body: b2, .. }) => {
            lemma_typed_agree_text(*d1, *d2);
            lemma_typed_agree_text(*b1, *b2);
        },
        (TypedExpr::Ap { fun: f1, arg: a1, .. }, TypedExpr::Ap { fun: f2, arg: a2, .. }) => {
            lemma_typed_agree_text(*f1, *f2);
            lemma_typed_agree_text(*a1, *a2);
        },
        (TypedExpr::BinOp { lhs: l1, rhs: r1, .. }, TypedExpr::BinOp { lhs: l2, rhs: r2, .. }) => {
            lemma_typed_agree_text(*l1, *l2);
            lemma_typed_agree_text(*r1, *r2);
        },
        (TypedExpr::UnOp { expr: e, .. }, TypedExpr::UnOp { expr: f, .. }) => lemma_typed_agree_text(*e, *f),
        (TypedExpr::Pair { fst: a1, snd: b1, .. }, TypedExpr::Pair { fst: a2, snd: b2, .. }) => {
            lemma_typed_agree_text(*a1, *a2);
            lemma_typed_agree_text(*b1, *b2);
        },
        (TypedExpr::Value { val: v }, TypedExpr::Value { val: w }) => lemma_value_agree_text(*v, *w),
        _ => {},
    }
}

/// Agreeing values have the same type and the same text, and so do the
/// values under their casts.
pub proof fn lemma_value_agree_text(a: AlfaValue, b: AlfaValue)
    requires
        value_agree(a, b),
    ensures
        value_type(a) == value_type(b),
        value_text(a) == value_text(b),
        value_agree(strip_casts(a), strip_casts(b)),
    decreases a,
{
    match (a, b) {
        (AlfaValue::Pair(a1, b1, _), AlfaValue::Pair(a2, b2, _)) => {
            lemma_value_agree_text(*a1, *a2);
            lemma_value_agree_text(*b1, *b2);
        },
        (AlfaValue::Fun(_, _, e, _), AlfaValue::Fun(_, _, f, _)) => lemma_typed_agree_text(e, f),
        (AlfaValue::InjL(v, _), AlfaValue::InjL(w, _)) => lemma_value_agree_text(*v, *w),
        (AlfaValue::InjR(v, _), AlfaValue::InjR(w, _)) => lemma_value_agree_text(*v, *w),
        (AlfaValue::Cast(v, _), AlfaValue::Cast(w, _)) => lemma_value_agree_text(*v, *w),
        _ => {},
    }
}

/// Type checking agreeing expressions in the same context gives agreeing
/// results.
pub proof fn lemma_typecheck_agree(a: Expr, b: Expr, ctx: Scope)
    requires
        expr_agree(a, b),
    ensures
        typed_result_agree(typecheck_in(a, ctx), typecheck_in(b, ctx)),
    decreases a,
{
    match (a, b) {
        (Expr::Fun(x, ann, e), Expr::Fun(_, _, f)) => {
            let t = match ann {
                Some(t) => t,
                None => AlfaType::Dyn,
            };
            lemma_typecheck_agree(*e, *f, ctx.push((x.id@, t)));
        },
        (Expr::If(c1, t1, e1), Expr::If(c2, t2, e2)) => {
            lemma_typecheck_agree(*c1, *c2, ctx);
            lemma_typecheck_agree(*t1, *t2, ctx);
            lemma_typecheck_agree(*e1, *e2, ctx);
            if let (Ok(x), Ok(y)) = (typecheck_in(*c1, ctx), typecheck_in(*c2, ctx)) {
                lemma_typed_agree_text(x, y);
            }
            if let (Ok(x), Ok(y)) = (typecheck_in(*t1, ctx), typecheck_in(*t2, ctx)) {
                lemma_typed_agree_text(x, y);
            }
            if let (Ok(x), Ok(y)) = (typecheck_in(*e1, ctx), typecheck_in(*e2, ctx)) {
                lemma_typed_agree_text(x, y);
            }
        },
        (Expr::Case(c1, x1, l1, _, r1), Expr::Case(c2, _, l2, y2, r2)) => {
            lemma_typecheck_agree(*c1, *c2, ctx);
            if let (Ok(x), Ok(y)) = (typecheck_in(*c1, ctx), typecheck_in(*c2, ctx)) {
                lemma_typed_agree_text(x, y);
                let t = expr_type(x);
                let lctx = ctx.push((x1.id@, crate::typechecking::sum_left(t)));
                let rctx = ctx.push((y2.id@, crate::typechecking::sum_right(t)));
                lemma_typecheck_agree(*l1, *l2, lctx);
                lemma_typecheck_agree(*r1, *r2, rctx);
                if let (Ok(p), Ok(q)) = (typecheck_in(*l1, lctx), typecheck_in(*l2, lctx)) {
                    lemma_typed_agree_text(p, q);
                }
                if let (Ok(p), Ok(q)) = (typecheck_in(*r1, rctx), typecheck_in(*r2, rctx)) {
                    lemma_typed_agree_text(p, q);
                }
            }
        },
        (Expr::InjL(e), Expr::InjL(f)) => {
            lemma_typecheck_agree(*e, *f, ctx);
            if let (Ok(x), Ok(y)) = (typecheck_in(*e, ctx), typecheck_in(*f, ctx)) {
                lemma_typed_agree_text(x, y);
            }
        },
        (Expr::InjR(e), Expr::InjR(f)) => {
            lemma_typecheck_agree(*e, *f, ctx);
            if let (Ok(x), Ok(y)) = (typecheck_in(*e, ctx), typecheck_in(*f, ctx)) {
                lemma_typed_agree_text(x, y);
            }
        },
        (Expr::PrjL(e), Expr::PrjL(f)) => {
            lemma_typecheck_agree(*e, *f, ctx);
            if let (Ok(x), Ok(y)) = (typecheck_in(*e, ctx), typecheck_in(*f, ctx)) {
                lemma_typed_agree_text(x, y);
            }
        },
        (Expr::PrjR(e), Expr::PrjR(f)) => {
            lemma_typecheck_agree(*e, *f, ctx);
            if let (Ok(x), Ok(y)) = (typecheck_in(*e, ctx), typecheck_in(*f, ctx)) {
                lemma_typed_agree_text(x, y);
            }
        },
        (Expr::Let(x, ann, d1, b1), Expr::Let(_, _, d2, b2)) => {
            lemma_typecheck_agree(*d1, *d2, ctx);
            if let (Ok(p), Ok(q)) = (typecheck_in(*d1, ctx), typecheck_in(*d2, ctx)) {
                lemma_typed_agree_text(p, q);
                let vt = match ann {
                    Some(t) => t,
                    None => expr_type(p),
                };
                let bctx = ctx.push((x.id@, vt));
                lemma_typecheck_agree(*b1, *b2, bctx);
                if let (Ok(u), Ok(w)) = (typecheck_in(*b1, bctx), typecheck_in(*b2, bctx)) {
                    lemma_typed_agree_text(u, w);
                }
            }
        },
        (Expr::Ap(f1, a1), Expr::Ap(f2, a2)) => {
            lemma_typecheck_agree(*f1, *f2, ctx);
            lemma_typecheck_agree(*a1, *a2, ctx);
            if let (Ok(x), Ok(y)) = (typecheck_in(*f1, ctx), typecheck_in(*f2, ctx)) {
                lemma_typed_agree_text(x, y);
            }
            if let (Ok(x), Ok(y)) = (typecheck_in(*a1, ctx), typecheck_in(*a2, ctx)) {
                lemma_typed_agree_text(x, y);
            }
        },
        (Expr::BinOp(l1, _, r1), Expr::BinOp(l2, _, r2)) => {
            lemma_typecheck_agree(*l1, *l2, ctx);
            lemma_typecheck_agree(*r1, *r2, ctx);
            if let (Ok(x), Ok(y)) = (typecheck_in(*l1, ctx), typecheck_in(*l2, ctx)) {
                lemma_typed_agree_text(x, y);
            }
            if let (Ok(x), Ok(y)) = (typecheck_in(*r1, ctx), typecheck_in(*r2, ctx)) {
                lemma_typed_agree_text(x, y);
            }
        },
        (Expr::UnOp(_, e), Expr::UnOp(_, f)) => {
            lemma_typecheck_agree(*e, *f, ctx);
            if let (Ok(x), Ok(y)) = (typecheck_in(*e, ctx), typecheck_in(*f, ctx)) {
                lemma_typed_agree_text(x, y);
            }
        },
        (Expr::Pair(a1, b1), Expr::Pair(a2, b2)) => {
            lemma_typecheck_agree(*a1, *a2, ctx);
            lemma_typecheck_agree(*b1, *b2, ctx);
            if let (Ok(x), Ok(y)) = (typecheck_in(*a1, ctx), typecheck_in(*a2, ctx)) {
                lemma_typed_agree_text(x, y);
            }
            if let (Ok(x), Ok(y)) = (typecheck_in(*b1, ctx), typecheck_in(*b2, ctx)) {
                lemma_typed_agree_text(x, y);
            }
        },
        _ => {},
    }
}

/// Putting agreeing values in place of a variable in agreeing expressions
/// gives agreeing expressions.
pub proof fn lemma_subst_agree(x: Seq<char>, v: AlfaValue, w: AlfaValue, a: TypedExpr, b: TypedExpr)
    requires
        value_agree(v, w),
        typed_agree(a, b),
    ensures
        typed_agree(subst_in(x, v, a), subst_in(x, w, b)),
    decreases a,
{
    match (a, b) {
        (TypedExpr::Fun { body: e, .. }, TypedExpr::Fun { body: f, .. }) => lemma_subst_agree(x, v, w, *e, *f),
        (
            TypedExpr::If { cond: c1, if_body: t1, else_body: e1, .. },
            TypedExpr::If { cond: c2, if_body: t2, else_body: e2, .. },
        ) => {
            lemma_subst_agree(x, v, w, *c1, *c2);
            lemma_subst_agree(x, v, w, *t1, *t2);
            lemma_subst_agree(x, v, w, *e1, *e2);
        },
        (
            TypedExpr::Case { cond: c1, l_body: l1, r_body: r1, .. },
            TypedExpr::Case { cond: c2, l_body: l2, r_body: r2, .. },
        ) => {
            lemma_subst_agree(x, v, w, *c1, *c2);
            lemma_subst_agree(x, v, w, *l1, *l2);
            lemma_subst_agree(x, v, w, *r1, *r2);
        },
        (TypedExpr::InjL { expr: e, .. }, TypedExpr::InjL { expr: f, .. }) => lemma_subst_agree(x, v, w, *e, *f),
        (TypedExpr::InjR { expr: e, .. }, TypedExpr::InjR { expr: f, .. }) => lemma_subst_agree(x, v, w, *e, *f),
        (TypedExpr::PrjL { expr: e, .. }, TypedExpr::PrjL { expr: f, .. }) => lemma_subst_agree(x, v, w, *e, *f),
        (TypedExpr::PrjR { expr: e, .. }, TypedExpr::PrjR { expr: f, .. }) => lemma_subst_agree(x, v, w, *e, *f),
        (TypedExpr::Let { def: d1, body: b1, .. }, TypedExpr::Let { def: d2, body: b2, .. }) => {
            lemma_subst_agree(x, v, w, *d1, *d2);
            lemma_subst_agree(x, v, w, *b1, *b2);
        },
        (TypedExpr::Ap { fun: f1, arg: a1, .. }, TypedExpr::Ap { fun: f2, arg: a2, .. }) => {
            lemma_subst_agree(x, v, w, *f1, *f2);
            lemma_subst_agree(x, v, w, *a1, *a2);
        },
        (TypedExpr::BinOp { lhs: l1, rhs: r1, .. }, TypedExpr::BinOp { lhs: l2, rhs: r2, .. }) => {
            lemma_subst_agree(x, v, w, *l1, *l2);
            lemma_subst_agree(x, v, w, *r1, *r2);
        },
        (TypedExpr::UnOp { expr: e, .. }, TypedExpr::UnOp { expr: f, .. }) => lemma_subst_agree(x, v, w, *e, *f),
        (TypedExpr::Pair { fst: a1, snd: b1, .. }, TypedExpr::Pair { fst: a2, snd: b2, .. }) => {
            lemma_subst_agree(x, v, w, *a1, *a2);
            lemma_subst_agree(x, v, w, *b1, *b2);
        },
        _ => {},
    }
}

/// A cast of agreeing values gives agreeing results.
pub proof fn lemma_cast_step_agree(v: AlfaValue, w: AlfaValue, t: AlfaType)
    requires
        value_agree(v, w),
    ensures
        value_result_agree(cast_step(v, t), cast_step(w, t)),
{
    lemma_value_agree_text(v, w);
    if let (AlfaValue::Cast(a, _), AlfaValue::Cast(b, _)) = (v, w) {
        lemma_value_agree_text(*a, *b);
    }
    let g = crate::ast::ground_of(value_type(v));
    assert(value_agree(AlfaValue::Cast(Box::new(v), g), AlfaValue::Cast(Box::new(w), g)));
    let h = crate::ast::ground_of(t);
    assert(value_agree(AlfaValue::Cast(Box::new(v), h), AlfaValue::Cast(Box::new(w), h)));
}

/// The agreement law for an application.
#[verifier::spinoff_prover]
proof fn lemma_eval_agree_ap(a: TypedExpr, b: TypedExpr, fuel: nat)
    requires
        typed_agree(a, b),
        fuel > 0,
        a is Ap,
    ensures
        value_result_agree(eval_in(a, fuel), eval_in(b, fuel)),
    decreases fuel, 0nat,
{
    let f = (fuel - 1) as nat;
    if let (TypedExpr::Ap { fun: f1, arg: a1, .. }, TypedExpr::Ap { fun: f2, arg: a2, .. }) = (a, b) {
        lemma_typed_agree_text(*f1, *f2);
        if let Ok((at, rt)) = fun_cast_of(expr_type(*f1)) {
            let ft = crate::ast::t_arrow(at, rt);
            lemma_eval_agree(*f1, *f2, f);
            if let (Ok(u1), Ok(u2)) = (eval_in(*f1, f), eval_in(*f2, f)) {
                lemma_cast_step_agree(u1, u2, ft);
                if let (Ok(g1), Ok(g2)) = (cast_step(u1, ft), cast_step(u2, ft)) {
                    lemma_eval_agree(*a1, *a2, f);
                    if let (Ok(x1), Ok(x2)) = (eval_in(*a1, f), eval_in(*a2, f)) {
                        lemma_cast_step_agree(x1, x2, at);
                        if let (Ok(y1), Ok(y2)) = (cast_step(x1, at), cast_step(x2, at)) {
                            lemma_value_agree_text(g1, g2);
                            if let (AlfaValue::Fun(p, _, e1, _), AlfaValue::Fun(q, _, e2, _)) = (
                                strip_casts(g1),
                                strip_casts(g2),
                            ) {
                                lemma_subst_agree(p.id@, y1, y2, e1, e2);
                                lemma_eval_agree(subst_in(p.id@, y1, e1), subst_in(q.id@, y2, e2), f);
                            }
                        }
                    }
                }
            }
        }
    }
}

/// The agreement law for a conditional.
#[verifier::spinoff_prover]
proof fn lemma_eval_agree_if(a: TypedExpr, b: TypedExpr, fuel: nat)
    requires
        typed_agree(a, b),
        fuel > 0,
        a is If,
    ensures
        value_result_agree(eval_in(a, fuel), eval_in(b, fuel)),
    decreases fuel, 0nat,
{
    let f = (fuel - 1) as nat;
    if let (
        TypedExpr::If { cond: c1, if_body: t1, else_body: e1, typ },
        TypedExpr::If { cond: c2, if_body: t2, else_body: e2, .. },
    ) = (a, b) {
        lemma_eval_agree(*c1, *c2, f);
        if let (Ok(u1), Ok(u2)) = (eval_in(*c1, f), eval_in(*c2, f)) {
            lemma_cast_step_agree(u1, u2, AlfaType::Bool);
            if let (Ok(AlfaValue::Bool(x)), Ok(AlfaValue::Bool(y))) = (
                cast_step(u1, AlfaType::Bool),
                cast_step(u2, AlfaType::Bool),
            ) {
                lemma_eval_agree(*t1, *t2, f);
                lemma_eval_agree(*e1, *e2, f);
                if let (Ok(r1), Ok(r2)) = (
                    eval_in(if x { *t1 } else { *e1 }, f),
                    eval_in(if y { *t2 } else { *e2 }, f),
                ) {
                    lemma_cast_step_agree(r1, r2, typ);
                }
            }
        }
    }
}

/// The agreement law for a case analysis.
#[verifier::spinoff_prover]
proof fn lemma_eval_agree_case(a: TypedExpr, b: TypedExpr, fuel: nat)
    requires
        typed_agree(a, b),
        fuel > 0,
        a is Case,
    ensures
        value_result_agree(eval_in(a, fuel), eval_in(b, fuel)),
    decreases fuel, 0nat,
{
    let f = (fuel - 1) as nat;
    if let (
        TypedExpr::Case { cond: c1, l_var: x1, l_body: l1, r_var: y1, r_body: r1, typ },
        TypedExpr::Case { cond: c2, l_var: x2, l_body: l2, r_var: y2, r_body: r2, .. },
    ) = (a, b) {
        lemma_typed_agree_text(*c1, *c2);
        if let Ok((lt, rt)) = sum_cast_of(expr_type(*c1)) {
            let st = crate::ast::t_sum(lt, rt);
            lemma_eval_agree(*c1, *c2, f);
            if let (Ok(u1), Ok(u2)) = (eval_in(*c1, f), eval_in(*c2, f)) {
                lemma_cast_step_agree(u1, u2, st);
                if let (Ok(g1), Ok(g2)) = (cast_step(u1, st), cast_step(u2, st)) {
                    lemma_value_agree_text(g1, g2);
                    match (strip_casts(g1), strip_casts(g2)) {
                        (AlfaValue::InjL(v1, _), AlfaValue::InjL(v2, _)) => {
                            lemma_cast_step_agree(*v1, *v2, lt);
                            if let (Ok(w1), Ok(w2)) = (cast_step(*v1, lt), cast_step(*v2, lt)) {
                                lemma_subst_agree(x1.id@, w1, w2, *l1, *l2);
                                let s1 = subst_in(x1.id@, w1, *l1);
                                let s2 = subst_in(x2.id@, w2, *l2);
                                lemma_eval_agree(s1, s2, f);
                                if let (Ok(q1), Ok(q2)) = (eval_in(s1, f), eval_in(s2, f)) {
                                    lemma_cast_step_agree(q1, q2, typ);
                                }
                            }
                        },
                        (AlfaValue::InjR(v1, _), AlfaValue::InjR(v2, _)) => {
                            lemma_cast_step_agree(*v1, *v2, rt);
                            if let (Ok(w1), Ok(w2)) = (cast_step(*v1, rt), cast_step(*v2, rt)) {
                                lemma_subst_agree(y1.id@, w1, w2, *r1, *r2);
                                let s1 = subst_in(y1.id@, w1, *r1);
                                let s2 = subst_in(y2.id@, w2, *r2);
                                lemma_eval_agree(s1, s2, f);
                                if let (Ok(q1), Ok(q2)) = (eval_in(s1, f), eval_in(s2, f)) {
                                    lemma_cast_step_agree(q1, q2, typ);
                                }
                            }
                        },
                        _ => {},
                    }
                }
            }
        }
    }
}

/// The agreement law for the two projections.
#[verifier::spinoff_prover]
proof fn lemma_eval_agree_prj(a: TypedExpr, b: TypedExpr, fuel: nat)
    requires
        typed_agree(a, b),
        fuel > 0,
        a is PrjL || a is PrjR,
    ensures
        value_result_agree(eval_in(a, fuel), eval_in(b, fuel)),
    decreases fuel, 0nat,
{
    let f = (fuel - 1) as nat;
    let (e1, e2) = match (a, b) {
        (TypedExpr::PrjL { expr: e1, .. }, TypedExpr::PrjL { expr: e2, .. }) => (*e1, *e2),
        (TypedExpr::PrjR { expr: e1, .. }, TypedExpr::PrjR { expr: e2, .. }) => (*e1, *e2),
        _ => (a, b),
    };
    lemma_typed_agree_text(e1, e2);
    if let Ok((ft, st)) = prod_cast_of(expr_type(e1)) {
        let pt = crate::ast::t_product(ft, st);
        lemma_eval_agree(e1, e2, f);
        if let (Ok(u1), Ok(u2)) = (eval_in(e1, f), eval_in(e2, f)) {
            lemma_cast_step_agree(u1, u2, pt);
            if let (Ok(g1), Ok(g2)) = (cast_step(u1, pt), cast_step(u2, pt)) {
                lemma_value_agree_text(g1, g2);
                if let (AlfaValue::Pair(p1, q1, _), AlfaValue::Pair(p2, q2, _)) = (strip_casts(g1), strip_casts(g2)) {
                    lemma_cast_step_agree(*p1, *p2, ft);
                    lemma_cast_step_agree(*q1, *q2, st);
                }
            }
        }
    }
}

/// The agreement law for a binding.
#[verifier::spinoff_prover]
proof fn lemma_eval_agree_let(a: TypedExpr, b: TypedExpr, fuel: nat)
    requires
        typed_agree(a, b),
        fuel > 0,
        a is Let,
    ensures
        value_result_agree(eval_in(a, fuel), eval_in(b, fuel)),
    decreases fuel, 0nat,
{
    let f = (fuel - 1) as nat;
    if let (
        TypedExpr::Let { id: x, var_typ, def: d1, body: b1, typ },
        TypedExpr::Let { id: y, def: d2, body: b2, .. },
    ) = (a, b) {
        lemma_eval_agree(*d1, *d2, f);
        if let (Ok(u1), Ok(u2)) = (eval_in(*d1, f), eval_in(*d2, f)) {
            lemma_cast_step_agree(u1, u2, var_typ);
            if let (Ok(w1), Ok(w2)) = (cast_step(u1, var_typ), cast_step(u2, var_typ)) {
                lemma_subst_agree(x.id@, w1, w2, *b1, *b2);
                let s1 = subst_in(x.id@, w1, *b1);
                let s2 = subst_in(y.id@, w2, *b2);
                lemma_eval_agree(s1, s2, f);
                if let (Ok(q1), Ok(q2)) = (eval_in(s1, f), eval_in(s2, f)) {
                    lemma_cast_step_agree(q1, q2, typ);
                }
            }
        }
    }
}

/// Evaluating agreeing expressions gives agreeing results: the same message,
/// or agreeing values.
pub proof fn lemma_eval_agree(a: TypedExpr, b: TypedExpr, fuel: nat)
    requires
        typed_agree(a, b),
    ensures
        value_result_agree(eval_in(a, fuel), eval_in(b, fuel)),
    decreases fuel, 1nat,
{
    if fuel == 0 {
        return;
    }
    let f = (fuel - 1) as nat;
    match (a, b) {
        (TypedExpr::Pair { fst: a1, snd: b1, .. }, TypedExpr::Pair { fst: a2, snd: b2, .. }) => {
            lemma_eval_agree(*a1, *a2, f);
            lemma_eval_agree(*b1, *b2, f);
            if let (Ok(p1), Ok(p2)) = (eval_in(*a1, f), eval_in(*a2, f)) {
                lemma_value_agree_text(p1, p2);
            }
            if let (Ok(q1), Ok(q2)) = (eval_in(*b1, f), eval_in(*b2, f)) {
                lemma_value_agree_text(q1, q2);
            }
        },
        (TypedExpr::Ap { .. }, _) => lemma_eval_agree_ap(a, b, fuel),
        (TypedExpr::If { .. }, _) => lemma_eval_agree_if(a, b, fuel),
        (TypedExpr::Case { .. }, _) => lemma_eval_agree_case(a, b, fuel),
        (TypedExpr::InjL { expr: e, .. }, TypedExpr::InjL { expr: g, .. }) => lemma_eval_agree(*e, *g, f),
        (TypedExpr::InjR { expr: e, .. }, TypedExpr::InjR { expr: g, .. }) => lemma_eval_agree(*e, *g, f),
        (TypedExpr::PrjL { .. }, _) => lemma_eval_agree_prj(a, b, fuel),
        (TypedExpr::PrjR { .. }, _) => lemma_eval_agree_prj(a, b, fuel),
        (TypedExpr::Let { .. }, _) => lemma_eval_agree_let(a, b, fuel),
        (TypedExpr::BinOp { lhs: l1, op, rhs: r1, typ }, TypedExpr::BinOp { lhs: l2, rhs: r2, .. }) => {
            lemma_num_agree(*l1, *l2, f);
            lemma_num_agree(*r1, *r2, f);
            if let (Ok(l), Ok(r)) = (num_in(*l1, f), num_in(*r1, f)) {
                let v = binop_value(op, l, r);
                assert(value_agree(v, v));
                lemma_cast_step_agree(v, v, typ);
            }
        },
        (TypedExpr::UnOp { expr: e, typ, .. }, TypedExpr::UnOp { expr: g, .. }) => {
            lemma_num_agree(*e, *g, f);
            if let Ok(n) = num_in(*e, f) {
                let v = AlfaValue::Num(0i32.wrapping_sub(n));
                assert(value_agree(v, v));
                lemma_cast_step_agree(v, v, typ);
            }
        },
        _ => {},
    }
}

/// Evaluating agreeing expressions to a number gives the same result.
pub proof fn lemma_num_agree(a: TypedExpr, b: TypedExpr, fuel: nat)
    requires
        typed_agree(a, b),
    ensures
        num_in(a, fuel) == num_in(b, fuel),
    decreases fuel, 1nat,
{
    if fuel > 0 {
        let f = (fuel - 1) as nat;
        lemma_eval_agree(a, b, f);
        if let (Ok(v1), Ok(v2)) = (eval_in(a, f), eval_in(b, f)) {
            lemma_cast_step_agree(v1, v2, AlfaType::Num);
            if let (Ok(w1), Ok(w2)) = (cast_step(v1, AlfaType::Num), cast_step(v2, AlfaType::Num)) {
                lemma_value_agree_text(w1, w2);
            }
        }
    }
}

/// Two programs that a syntax tree of the same text stands for agree: the
/// tree fixes each name's text, and the strings that hold the names may
/// differ only in which they are.
pub proof fn lemma_denotes_agree(a: Expr, b: Expr, syn: Syntax, text: Seq<char>)
    requires
        denotes(a, syn, text),
        denotes(b, syn, text),
    ensures
        expr_agree(a, b),
    decreases syn,
{
    match (syn, a, b) {
        (Syntax::Fun(_, _, _, s), Expr::Fun(_, _, e), Expr::Fun(_, _, f)) => lemma_denotes_agree(*e, *f, *s, text),
        (Syntax::If(c, t, g), Expr::If(c1, t1, g1), Expr::If(c2, t2, g2)) => {
            lemma_denotes_agree(*c1, *c2, *c, text);
            lemma_denotes_agree(*t1, *t2, *t, text);
            lemma_denotes_agree(*g1, *g2, *g, text);
        },
        (Syntax::Case(c, _, _, l, _, _, r), Expr::Case(c1, _, l1, _, r1), Expr::Case(c2, _, l2, _, r2)) => {
            lemma_denotes_agree(*c1, *c2, *c, text);
            lemma_denotes_agree(*l1, *l2, *l, text);
            lemma_denotes_agree(*r1, *r2, *r, text);
        },
        (Syntax::InjL(s), Expr::InjL(e), Expr::InjL(f)) => lemma_denotes_agree(*e, *f, *s, text),
        (Syntax::InjR(s), Expr::InjR(e), Expr::InjR(f)) => lemma_denotes_agree(*e, *f, *s, text),
        (Syntax::PrjL(s), Expr::PrjL(e), Expr::PrjL(f)) => lemma_denotes_agree(*e, *f, *s, text),
        (Syntax::PrjR(s), Expr::PrjR(e), Expr::PrjR(f)) => lemma_denotes_agree(*e, *f, *s, text),
        (Syntax::Let(_, _, _, d, s), Expr::Let(_, _, d1, b1), Expr::Let(_, _, d2, b2)) => {
            lemma_denotes_agree(*d1, *d2, *d, text);
            lemma_denotes_agree(*b1, *b2, *s, text);
        },
        (Syntax::Ap(g, x), Expr::Ap(g1, x1), Expr::Ap(g2, x2)) => {
            lemma_denotes_agree(*g1, *g2, *g, text);
            lemma_denotes_agree(*x1, *x2, *x, text);
        },
        (Syntax::BinOp(l, _, r), Expr::BinOp(l1, _, r1), Expr::BinOp(l2, _, r2)) => {
            lemma_denotes_agree(*l1, *l2, *l, text);
            lemma_denotes_agree(*r1, *r2, *r, text);
        },
        (Syntax::UnOp(_, s), Expr::UnOp(_, e), Expr::UnOp(_, f)) => lemma_denotes_agree(*e, *f, *s, text),
        (Syntax::Pair(x, y), Expr::Pair(x1, y1), Expr::Pair(x2, y2)) => {
            lemma_denotes_agree(*x1, *x2, *x, text);
            lemma_denotes_agree(*y1, *y2, *y, text);
        },
        _ => {},
    }
}

} // verus!
