//! What the operations of the language mean, stated apart from the rules
//! that compute them: the numbers that arithmetic and comparison give, the
//! casts that a value of type `?` survives, and when a conditional type checks.
use vstd::prelude::*;

use crate::ast::{expr_type, Id, t_arrow, t_product, t_sum, value_type, AlfaType, AlfaValue, Expr, Infix, Prefix, TypedExpr};
use crate::cast::{cast_body, cast_of, is_dyn_injection};
use crate::eval::{binop_value, cast_step, eval_in, num_in, EVAL_FUEL};
use crate::program::run_parsed;
use crate::subst::subst_in;
use crate::text::type_text;
use crate::context::lookup_in;
use crate::typechecking::{
    arrow_arg, arrow_ret, consistent_types, infix_result, product_first, product_second, shared_type, sum_left,
    sum_right, typecheck_in, Scope,
};

verus! {

/// The size of the ring that 32-bit arithmetic works in.
pub open spec fn word() -> int {
    0x1_0000_0000
}

/// Whether `v` is what the operator `op` gives on the numbers `l` and `r`:
/// the truth of the comparison, or the number that is congruent to the
/// exact sum, difference or product modulo 2^32.
pub open spec fn infix_meaning(op: Infix, l: i32, r: i32, v: AlfaValue) -> bool {
    match op {
        Infix::LessThan => v == AlfaValue::Bool(l < r),
        Infix::GreaterThan => v == AlfaValue::Bool(l > r),
        Infix::EqualTo => v == AlfaValue::Bool(l == r),
        Infix::Plus => v matches AlfaValue::Num(n) && (n - (l + r)) % word() == 0,
        Infix::Minus => v matches AlfaValue::Num(n) && (n - (l - r)) % word() == 0,
        Infix::Times => v matches AlfaValue::Num(n) && (n - l * r) % word() == 0,
    }
}

proof fn lemma_signed_crop(x: int, n: i32)
    requires
        n == vstd::wrapping::i32_specs::signed_crop(x),
    ensures
        (n - x) % word() == 0,
{
    let m = x % word();
    assert(0 <= m < word());
    assert((x - m) % word() == 0) by (nonlinear_arith)
        requires
            m == x % word(),
            word() == 0x1_0000_0000,
    ;
    if m > 0x7fff_ffff {
        assert(n == m - word());
        assert((n - x) == -(x - m) - word());
        assert(((n - x) + word()) % word() == 0) by (nonlinear_arith)
            requires
                (x - m) % word() == 0,
                n - x + word() == -(x - m),
                word() == 0x1_0000_0000,
        ;
        assert((n - x) % word() == 0) by (nonlinear_arith)
            requires
                ((n - x) + word()) % word() == 0,
                word() == 0x1_0000_0000,
        ;
    } else {
        assert(n == m);
        assert((n - x) % word() == 0) by (nonlinear_arith)
            requires
                (x - m) % word() == 0,
                n - x == -(x - m),
                word() == 0x1_0000_0000,
        ;
    }
}

/// The value of a binary operator on two numbers, written as a program, is
/// what the operator means: `l < r`, `l > r` and `l == r` for the
/// comparisons (so `2 < 2` is false), and the exact result modulo 2^32 for
/// the arithmetic. Within the range of 32-bit numbers that is the exact
/// result.
pub proof fn lemma_binop_meaning(l: i32, op: Infix, r: i32)
    ensures
        run_parsed(Expr::BinOp(Box::new(Expr::Num(l)), op, Box::new(Expr::Num(r)))) matches Ok(v)
            && infix_meaning(op, l, r, v),
{
    let e = Expr::BinOp(Box::new(Expr::Num(l)), op, Box::new(Expr::Num(r)));
    let ctx = Seq::<(Seq<char>, AlfaType)>::empty();
    let t = TypedExpr::BinOp {
        lhs: Box::new(TypedExpr::Num(l)),
        op,
        rhs: Box::new(TypedExpr::Num(r)),
        typ: infix_result(op),
    };
    assert(typecheck_in(Expr::Num(l), ctx) == Ok::<TypedExpr, Seq<char>>(TypedExpr::Num(l)));
    assert(typecheck_in(Expr::Num(r), ctx) == Ok::<TypedExpr, Seq<char>>(TypedExpr::Num(r)));
    assert(typecheck_in(e, ctx) == Ok::<TypedExpr, Seq<char>>(t));
    let f = (EVAL_FUEL - 1) as nat;
    assert(eval_in(TypedExpr::Num(l), (f - 1) as nat) == Ok::<AlfaValue, Seq<char>>(AlfaValue::Num(l)));
    assert(eval_in(TypedExpr::Num(r), (f - 1) as nat) == Ok::<AlfaValue, Seq<char>>(AlfaValue::Num(r)));
    assert(num_in(TypedExpr::Num(l), f) == Ok::<i32, Seq<char>>(l));
    assert(num_in(TypedExpr::Num(r), f) == Ok::<i32, Seq<char>>(r));
    let b = binop_value(op, l, r);
    assert(value_type(b) == infix_result(op));
    assert(cast_step(b, infix_result(op)) == Ok::<AlfaValue, Seq<char>>(b));
    assert(eval_in(t, EVAL_FUEL as nat) == Ok::<AlfaValue, Seq<char>>(b));
    assert(run_parsed(e) == Ok::<AlfaValue, Seq<char>>(b));
    if let Ok(v) = run_parsed(e) {
        match op {
            Infix::Plus => {
                assert(v == AlfaValue::Num(l.wrapping_add(r)));
            },
            Infix::Minus => {
                assert(v == AlfaValue::Num(l.wrapping_sub(r)));
            },
            Infix::Times => {
                assert(v == AlfaValue::Num(l.wrapping_mul(r)));
                lemma_signed_crop(l * r, l.wrapping_mul(r));
            },
            _ => {},
        }
    }
}

/// Negating a number written as a program gives the number congruent to its
/// negation modulo 2^32.
pub proof fn lemma_negation_meaning(n: i32)
    ensures
        run_parsed(Expr::UnOp(Prefix::Neg, Box::new(Expr::Num(n)))) matches Ok(AlfaValue::Num(m)) && (m + n)
            % word() == 0,
{
    let ctx = Seq::<(Seq<char>, AlfaType)>::empty();
    let e = Expr::UnOp(Prefix::Neg, Box::new(Expr::Num(n)));
    let t = TypedExpr::UnOp { op: Prefix::Neg, expr: Box::new(TypedExpr::Num(n)), typ: AlfaType::Num };
    assert(typecheck_in(Expr::Num(n), ctx) == Ok::<TypedExpr, Seq<char>>(TypedExpr::Num(n)));
    assert(typecheck_in(e, ctx) == Ok::<TypedExpr, Seq<char>>(t));
    let f = (EVAL_FUEL - 1) as nat;
    assert(eval_in(TypedExpr::Num(n), (f - 1) as nat) == Ok::<AlfaValue, Seq<char>>(AlfaValue::Num(n)));
    assert(num_in(TypedExpr::Num(n), f) == Ok::<i32, Seq<char>>(n));
    let b = AlfaValue::Num(0i32.wrapping_sub(n));
    assert(cast_step(b, AlfaType::Num) == Ok::<AlfaValue, Seq<char>>(b));
    assert(run_parsed(e) == Ok::<AlfaValue, Seq<char>>(b));
}

/// A value injected into `?` comes out of it at another type exactly when
/// that is the type it went in with, and then it is the value that went in;
/// at any other type the cast fails and names the two types.
pub proof fn lemma_cast_out_of_dyn(v: AlfaValue, typ: AlfaType)
    requires
        is_dyn_injection(v),
        typ != AlfaType::Dyn,
    ensures
        cast_of(v, typ) is Ok <==> value_type(cast_body(v)) == typ,
        cast_of(v, typ) matches Ok(r) ==> r == cast_body(v),
        cast_of(v, typ) matches Err(m) ==> m == "Cannot cast "@ + type_text(value_type(cast_body(v))) + " to "@
            + type_text(typ),
        cast_step(v, typ) == cast_of(v, typ),
{
}

/// The typing judgment on typed programs: each variable has the type its
/// context gives it, each function the function type of its parameter and
/// body, and each form that uses a value at a type is used only where the
/// value's type is consistent with that type: a condition with `Bool`, the
/// two branches of a conditional or case with each other, the operands of
/// arithmetic with `Num`, a function with a function type and its argument
/// with the parameter type. Each form has the type that the rules give it.
pub open spec fn well_typed_in(t: TypedExpr, ctx: Scope) -> bool
    decreases t,
{
    match t {
        TypedExpr::Num(_) | TypedExpr::Bool(_) | TypedExpr::Unit => true,
        TypedExpr::Var { id, typ } => lookup_in(ctx, id.id@) == Some(typ),
        TypedExpr::Fun { id, var_typ, body, typ } => well_typed_in(*body, ctx.push((id.id@, var_typ))) && typ
            == t_arrow(var_typ, expr_type(*body)),
        TypedExpr::If { cond, if_body, else_body, typ } => well_typed_in(*cond, ctx) && well_typed_in(*if_body, ctx)
            && well_typed_in(*else_body, ctx) && consistent_types(expr_type(*cond), AlfaType::Bool)
            && consistent_types(expr_type(*if_body), expr_type(*else_body)) && typ == shared_type(
            expr_type(*if_body),
            expr_type(*else_body),
        ),
        TypedExpr::Case { cond, l_var, l_body, r_var, r_body, typ } => {
            let ct = expr_type(*cond);
            well_typed_in(*cond, ctx) && consistent_types(ct, t_sum(AlfaType::Dyn, AlfaType::Dyn)) && well_typed_in(
                *l_body,
                ctx.push((l_var.id@, sum_left(ct))),
            ) && well_typed_in(*r_body, ctx.push((r_var.id@, sum_right(ct)))) && consistent_types(
                expr_type(*l_body),
                expr_type(*r_body),
            ) && typ == shared_type(expr_type(*l_body), expr_type(*r_body))
        },
        TypedExpr::InjL { expr, typ } => well_typed_in(*expr, ctx) && typ == t_sum(expr_type(*expr), AlfaType::Dyn),
        TypedExpr::InjR { expr, typ } => well_typed_in(*expr, ctx) && typ == t_sum(AlfaType::Dyn, expr_type(*expr)),
        TypedExpr::PrjL { expr, typ } => well_typed_in(*expr, ctx) && consistent_types(
            expr_type(*expr),
            t_product(AlfaType::Dyn, AlfaType::Dyn),
        ) && typ == product_first(expr_type(*expr)),
        TypedExpr::PrjR { expr, typ } => well_typed_in(*expr, ctx) && consistent_types(
            expr_type(*expr),
            t_product(AlfaType::Dyn, AlfaType::Dyn),
        ) && typ == product_second(expr_type(*expr)),
        TypedExpr::Let { id, var_typ, def, body, typ } => well_typed_in(*def, ctx) && consistent_types(
            var_typ,
            expr_type(*def),
        ) && well_typed_in(*body, ctx.push((id.id@, var_typ))) && typ == expr_type(*body),
        TypedExpr::Ap { fun, arg, typ } => well_typed_in(*fun, ctx) && well_typed_in(*arg, ctx) && consistent_types(
            expr_type(*fun),
            t_arrow(AlfaType::Dyn, AlfaType::Dyn),
        ) && consistent_types(expr_type(*arg), arrow_arg(expr_type(*fun))) && typ == arrow_ret(expr_type(*fun)),
        TypedExpr::BinOp { lhs, op, rhs, typ } => well_typed_in(*lhs, ctx) && well_typed_in(*rhs, ctx)
            && consistent_types(expr_type(*lhs), AlfaType::Num) && consistent_types(expr_type(*rhs), AlfaType::Num)
            && typ == infix_result(op),
        TypedExpr::UnOp { expr, typ, .. } => well_typed_in(*expr, ctx) && consistent_types(
            expr_type(*expr),
            AlfaType::Num,
        ) && typ == AlfaType::Num,
        TypedExpr::Pair { fst, snd, typ } => well_typed_in(*fst, ctx) && well_typed_in(*snd, ctx) && typ
            == t_product(expr_type(*fst), expr_type(*snd)),
        TypedExpr::Value { .. } => false,
    }
}

/// Whatever type checking accepts is well typed in the context it was
/// checked in.
pub proof fn lemma_typecheck_well_typed(e: Expr, ctx: Scope)
    ensures
        typecheck_in(e, ctx) matches Ok(t) ==> well_typed_in(t, ctx),
    decreases e,
{
    match e {
        Expr::Fun(x, ann, body) => {
            let a = match ann {
                Some(t) => t,
                None => AlfaType::Dyn,
            };
            lemma_typecheck_well_typed(*body, ctx.push((x.id@, a)));
        },
        Expr::If(c, t, f) => {
            lemma_typecheck_well_typed(*c, ctx);
            lemma_typecheck_well_typed(*t, ctx);
            lemma_typecheck_well_typed(*f, ctx);
        },
        Expr::Case(c, lx, lb, rx, rb) => {
            lemma_typecheck_well_typed(*c, ctx);
            if let Ok(ct) = typecheck_in(*c, ctx) {
                lemma_typecheck_well_typed(*lb, ctx.push((lx.id@, sum_left(expr_type(ct)))));
                lemma_typecheck_well_typed(*rb, ctx.push((rx.id@, sum_right(expr_type(ct)))));
            }
        },
        Expr::InjL(x) => lemma_typecheck_well_typed(*x, ctx),
        Expr::InjR(x) => lemma_typecheck_well_typed(*x, ctx),
        Expr::PrjL(x) => lemma_typecheck_well_typed(*x, ctx),
        Expr::PrjR(x) => lemma_typecheck_well_typed(*x, ctx),
        Expr::Let(x, ann, d, b) => {
            lemma_typecheck_well_typed(*d, ctx);
            if let Ok(dt) = typecheck_in(*d, ctx) {
                let vt = match ann {
                    Some(t) => t,
                    None => expr_type(dt),
                };
                crate::typechecking::lemma_consistent_reflexive(expr_type(dt));
                lemma_typecheck_well_typed(*b, ctx.push((x.id@, vt)));
            }
        },
        Expr::Ap(f, a) => {
            lemma_typecheck_well_typed(*f, ctx);
            lemma_typecheck_well_typed(*a, ctx);
        },
        Expr::BinOp(l, _, r) => {
            lemma_typecheck_well_typed(*l, ctx);
            lemma_typecheck_well_typed(*r, ctx);
        },
        Expr::UnOp(_, x) => lemma_typecheck_well_typed(*x, ctx),
        Expr::Pair(a, b) => {
            lemma_typecheck_well_typed(*a, ctx);
            lemma_typecheck_well_typed(*b, ctx);
        },
        _ => {},
    }
}

/// Whether the parts of a conditional pass their checks: the condition and
/// both branches type check, the condition's type is consistent with `Bool`,
/// and the branches' types are consistent with each other.
pub open spec fn if_parts_check(c: Expr, t: Expr, f: Expr, ctx: Scope) -> bool {
    match (typecheck_in(c, ctx), typecheck_in(t, ctx), typecheck_in(f, ctx)) {
        (Ok(c2), Ok(t2), Ok(f2)) => consistent_types(expr_type(c2), AlfaType::Bool) && consistent_types(
            expr_type(t2),
            expr_type(f2),
        ),
        _ => false,
    }
}

/// The conditional made of the checked parts, at the type its branches share.
pub open spec fn checked_if(c: Expr, t: Expr, f: Expr, ctx: Scope) -> TypedExpr {
    let t2 = typecheck_in(t, ctx)->Ok_0;
    let f2 = typecheck_in(f, ctx)->Ok_0;
    TypedExpr::If {
        cond: Box::new(typecheck_in(c, ctx)->Ok_0),
        if_body: Box::new(t2),
        else_body: Box::new(f2),
        typ: shared_type(expr_type(t2), expr_type(f2)),
    }
}

/// A conditional type checks exactly when its parts pass their checks, and
/// then it is made of the checked parts at the type its branches share:
/// branches of inconsistent types make it fail.
pub proof fn lemma_typecheck_if(c: Expr, t: Expr, f: Expr, ctx: Scope)
    ensures
        (typecheck_in(Expr::If(Box::new(c), Box::new(t), Box::new(f)), ctx) is Ok) == if_parts_check(c, t, f, ctx),
        if_parts_check(c, t, f, ctx) ==> typecheck_in(Expr::If(Box::new(c), Box::new(t), Box::new(f)), ctx)
            == Ok::<TypedExpr, Seq<char>>(checked_if(c, t, f, ctx)),
{
}

/// A conditional on a truth value runs the branch that the value picks:
/// `if b then n else m` gives `n` when `b` is true and `m` when it is false.
pub proof fn lemma_if_picks_branch(b: bool, n: i32, m: i32)
    ensures
        run_parsed(Expr::If(Box::new(Expr::Bool(b)), Box::new(Expr::Num(n)), Box::new(Expr::Num(m))))
            == Ok::<AlfaValue, Seq<char>>(AlfaValue::Num(if b { n } else { m })),
{
    let ctx = Seq::<(Seq<char>, AlfaType)>::empty();
    let e = Expr::If(Box::new(Expr::Bool(b)), Box::new(Expr::Num(n)), Box::new(Expr::Num(m)));
    assert(typecheck_in(Expr::Bool(b), ctx) == Ok::<TypedExpr, Seq<char>>(TypedExpr::Bool(b)));
    assert(typecheck_in(Expr::Num(n), ctx) == Ok::<TypedExpr, Seq<char>>(TypedExpr::Num(n)));
    assert(typecheck_in(Expr::Num(m), ctx) == Ok::<TypedExpr, Seq<char>>(TypedExpr::Num(m)));
    let t = TypedExpr::If {
        cond: Box::new(TypedExpr::Bool(b)),
        if_body: Box::new(TypedExpr::Num(n)),
        else_body: Box::new(TypedExpr::Num(m)),
        typ: AlfaType::Num,
    };
    assert(typecheck_in(e, ctx) == Ok::<TypedExpr, Seq<char>>(t));
    let f = (EVAL_FUEL - 1) as nat;
    assert(eval_in(TypedExpr::Bool(b), f) == Ok::<AlfaValue, Seq<char>>(AlfaValue::Bool(b)));
    assert(cast_step(AlfaValue::Bool(b), AlfaType::Bool) == Ok::<AlfaValue, Seq<char>>(AlfaValue::Bool(b)));
    let r = AlfaValue::Num(if b { n } else { m });
    assert(eval_in(if b { TypedExpr::Num(n) } else { TypedExpr::Num(m) }, f) == Ok::<AlfaValue, Seq<char>>(r));
    assert(cast_step(r, AlfaType::Num) == Ok::<AlfaValue, Seq<char>>(r));
    assert(eval_in(t, EVAL_FUEL as nat) == Ok::<AlfaValue, Seq<char>>(r));
}

/// The projections of a pair of numbers give its components: `(n, m).fst`
/// is `n` and `(n, m).snd` is `m`.
pub proof fn lemma_projections_of_pair(n: i32, m: i32)
    ensures
        run_parsed(Expr::PrjL(Box::new(Expr::Pair(Box::new(Expr::Num(n)), Box::new(Expr::Num(m))))))
            == Ok::<AlfaValue, Seq<char>>(AlfaValue::Num(n)),
        run_parsed(Expr::PrjR(Box::new(Expr::Pair(Box::new(Expr::Num(n)), Box::new(Expr::Num(m))))))
            == Ok::<AlfaValue, Seq<char>>(AlfaValue::Num(m)),
{
    let ctx = Seq::<(Seq<char>, AlfaType)>::empty();
    let pe = Expr::Pair(Box::new(Expr::Num(n)), Box::new(Expr::Num(m)));
    assert(typecheck_in(Expr::Num(n), ctx) == Ok::<TypedExpr, Seq<char>>(TypedExpr::Num(n)));
    assert(typecheck_in(Expr::Num(m), ctx) == Ok::<TypedExpr, Seq<char>>(TypedExpr::Num(m)));
    let pt = t_product(AlfaType::Num, AlfaType::Num);
    let p = TypedExpr::Pair { fst: Box::new(TypedExpr::Num(n)), snd: Box::new(TypedExpr::Num(m)), typ: pt };
    assert(typecheck_in(pe, ctx) == Ok::<TypedExpr, Seq<char>>(p));
    let l = TypedExpr::PrjL { expr: Box::new(p), typ: AlfaType::Num };
    let r = TypedExpr::PrjR { expr: Box::new(p), typ: AlfaType::Num };
    assert(consistent_types(AlfaType::Num, AlfaType::Dyn));
    assert(consistent_types(pt, t_product(AlfaType::Dyn, AlfaType::Dyn)));
    assert(typecheck_in(Expr::PrjL(Box::new(pe)), ctx) == Ok::<TypedExpr, Seq<char>>(l));
    assert(typecheck_in(Expr::PrjR(Box::new(pe)), ctx) == Ok::<TypedExpr, Seq<char>>(r));
    let f = (EVAL_FUEL - 1) as nat;
    let g = (f - 1) as nat;
    assert(eval_in(TypedExpr::Num(n), g) == Ok::<AlfaValue, Seq<char>>(AlfaValue::Num(n)));
    assert(eval_in(TypedExpr::Num(m), g) == Ok::<AlfaValue, Seq<char>>(AlfaValue::Num(m)));
    let pv = AlfaValue::Pair(Box::new(AlfaValue::Num(n)), Box::new(AlfaValue::Num(m)), pt);
    assert(eval_in(p, f) == Ok::<AlfaValue, Seq<char>>(pv));
    assert(cast_step(pv, pt) == Ok::<AlfaValue, Seq<char>>(pv));
    assert(cast_step(AlfaValue::Num(n), AlfaType::Num) == Ok::<AlfaValue, Seq<char>>(AlfaValue::Num(n)));
    assert(cast_step(AlfaValue::Num(m), AlfaType::Num) == Ok::<AlfaValue, Seq<char>>(AlfaValue::Num(m)));
    assert(eval_in(l, EVAL_FUEL as nat) == Ok::<AlfaValue, Seq<char>>(AlfaValue::Num(n)));
    assert(eval_in(r, EVAL_FUEL as nat) == Ok::<AlfaValue, Seq<char>>(AlfaValue::Num(m)));
}

/// Applying a function to a number puts the number in place of its
/// parameter: `(fun (x: Num) -> x)(n)` gives `n`, whatever the name `x`.
pub proof fn lemma_application_substitutes(x: Id, n: i32)
    ensures
        run_parsed(
            Expr::Ap(
                Box::new(Expr::Fun(x, Some(AlfaType::Num), Box::new(Expr::Var(x)))),
                Box::new(Expr::Num(n)),
            ),
        ) == Ok::<AlfaValue, Seq<char>>(AlfaValue::Num(n)),
{
    let ctx = Seq::<(Seq<char>, AlfaType)>::empty();
    let inner = ctx.push((x.id@, AlfaType::Num));
    crate::context::lemma_lookup_update_same(ctx, x.id@, AlfaType::Num);
    let var = TypedExpr::Var { id: x, typ: AlfaType::Num };
    assert(typecheck_in(Expr::Var(x), inner) == Ok::<TypedExpr, Seq<char>>(var));
    let ft = t_arrow(AlfaType::Num, AlfaType::Num);
    let fun = TypedExpr::Fun { id: x, var_typ: AlfaType::Num, body: Box::new(var), typ: ft };
    let fe = Expr::Fun(x, Some(AlfaType::Num), Box::new(Expr::Var(x)));
    assert(typecheck_in(fe, ctx) == Ok::<TypedExpr, Seq<char>>(fun));
    assert(typecheck_in(Expr::Num(n), ctx) == Ok::<TypedExpr, Seq<char>>(TypedExpr::Num(n)));
    assert(consistent_types(AlfaType::Num, AlfaType::Dyn));
    assert(consistent_types(ft, t_arrow(AlfaType::Dyn, AlfaType::Dyn)));
    let ap = TypedExpr::Ap { fun: Box::new(fun), arg: Box::new(TypedExpr::Num(n)), typ: AlfaType::Num };
    assert(typecheck_in(Expr::Ap(Box::new(fe), Box::new(Expr::Num(n))), ctx) == Ok::<TypedExpr, Seq<char>>(ap));
    let f = (EVAL_FUEL - 1) as nat;
    let fv = AlfaValue::Fun(x, AlfaType::Num, var, ft);
    assert(eval_in(fun, f) == Ok::<AlfaValue, Seq<char>>(fv));
    assert(cast_step(fv, ft) == Ok::<AlfaValue, Seq<char>>(fv));
    assert(eval_in(TypedExpr::Num(n), f) == Ok::<AlfaValue, Seq<char>>(AlfaValue::Num(n)));
    assert(cast_step(AlfaValue::Num(n), AlfaType::Num) == Ok::<AlfaValue, Seq<char>>(AlfaValue::Num(n)));
    let body = subst_in(x.id@, AlfaValue::Num(n), var);
    assert(body == TypedExpr::Value { val: Box::new(AlfaValue::Num(n)) });
    assert(eval_in(body, f) == Ok::<AlfaValue, Seq<char>>(AlfaValue::Num(n)));
    assert(eval_in(ap, EVAL_FUEL as nat) == Ok::<AlfaValue, Seq<char>>(AlfaValue::Num(n)));
}

} // verus!
