//! The evaluator: runs a typed expression, inserting the casts that the
//! gradual types call for.
//!
//! Evaluation counts its nested steps against a budget so that it always
//! ends; the budget of `eval` is `EVAL_FUEL`, which no evaluation reaches
//! before the machine's stack runs out.
use vstd::prelude::*;

use crate::ast::{
    arrow, copy_type, expr_type, ground_of, product, strip_casts, sum, t_arrow, t_product, t_sum, types_equal,
    value_type, AlfaType, AlfaValue, Infix, KnownType, Prefix, TypedExpr,
};
use crate::cast::{
    cast, cast_defined, cast_of, fun_cast, fun_cast_of, prod_cast, prod_cast_of, sum_cast, sum_cast_of,
    CastResult,
};
use crate::subst::{closed_value, lemma_subst_scoped, scoped, subst, subst_in};
use crate::text::{push_type, type_text};
use crate::typechecking::result_is;

verus! {

/// What evaluation gives back: the value, or a message.
pub type EvalResult = Result<AlfaValue, String>;

/// The number of nested steps that `eval` may take.
pub const EVAL_FUEL: u64 = 0xFFFF_FFFF_FFFF_FFFF;

/// The message of an evaluation that used up its step budget.
pub open spec fn out_of_fuel_text() -> Seq<char> {
    "Evaluation stopped: step limit reached"@
}

/// The message of an evaluation that meets a variable that nothing bound.
pub open spec fn unbound_text() -> Seq<char> {
    "Substitution Failure on Well Typed Program"@
}

/// A cast when it has a rule; when it has none, the message that names the
/// two types.
pub open spec fn cast_step(val: AlfaValue, typ: AlfaType) -> Result<AlfaValue, Seq<char>> {
    if cast_defined(value_type(val), typ) {
        cast_of(val, typ)
    } else {
        Err("Casting "@ + type_text(value_type(val)) + " to "@ + type_text(typ))
    }
}

/// The value of a binary operator on two numbers; arithmetic wraps around.
pub open spec fn binop_value(op: Infix, l: i32, r: i32) -> AlfaValue {
    match op {
        Infix::Plus => AlfaValue::Num(l.wrapping_add(r)),
        Infix::Minus => AlfaValue::Num(l.wrapping_sub(r)),
        Infix::Times => AlfaValue::Num(l.wrapping_mul(r)),
        Infix::LessThan => AlfaValue::Bool(l < r),
        Infix::GreaterThan => AlfaValue::Bool(l > r),
        Infix::EqualTo => AlfaValue::Bool(l == r),
    }
}

/// The value of `e` within `fuel` nested steps, or the message of the first
/// cast or rule that fails.
pub open spec fn eval_in(e: TypedExpr, fuel: nat) -> Result<AlfaValue, Seq<char>>
    decreases fuel, 1nat,
{
    if fuel == 0 {
        Err(out_of_fuel_text())
    } else {
        let f = (fuel - 1) as nat;
        match e {
            TypedExpr::Num(n) => Ok(AlfaValue::Num(n)),
            TypedExpr::Bool(b) => Ok(AlfaValue::Bool(b)),
            TypedExpr::Unit => Ok(AlfaValue::Unit),
            TypedExpr::Pair { fst, snd, .. } => match eval_in(*fst, f) {
                Err(m) => Err(m),
                Ok(a) => match eval_in(*snd, f) {
                    Err(m) => Err(m),
                    Ok(b) => Ok(
                        AlfaValue::Pair(Box::new(a), Box::new(b), t_product(value_type(a), value_type(b))),
                    ),
                },
            },
            TypedExpr::Value { val } => Ok(*val),
            TypedExpr::Fun { id, var_typ, body, typ } => Ok(AlfaValue::Fun(id, var_typ, *body, typ)),
            TypedExpr::Var { .. } => Err(unbound_text()),
            TypedExpr::Ap { fun, arg, .. } => match fun_cast_of(expr_type(*fun)) {
                Err(m) => Err(m),
                Ok((at, rt)) => match eval_in(*fun, f) {
                    Err(m) => Err(m),
                    Ok(fv) => match cast_step(fv, t_arrow(at, rt)) {
                        Err(m) => Err(m),
                        Ok(fv) => match eval_in(*arg, f) {
                            Err(m) => Err(m),
                            Ok(av) => match cast_step(av, at) {
                                Err(m) => Err(m),
                                Ok(av) => match strip_casts(fv) {
                                    AlfaValue::Fun(x, _, body, _) => eval_in(subst_in(x.id@, av, body), f),
                                    _ => Err("Arrow type must correspond to Function value"@),
                                },
                            },
                        },
                    },
                },
            },
            TypedExpr::If { cond, if_body, else_body, typ } => match eval_in(*cond, f) {
                Err(m) => Err(m),
                Ok(c) => match cast_step(c, AlfaType::Bool) {
                    Err(m) => Err(m),
                    Ok(AlfaValue::Bool(b)) => match eval_in(if b { *if_body } else { *else_body }, f) {
                        Err(m) => Err(m),
                        Ok(r) => cast_step(r, typ),
                    },
                    Ok(_) => Err("Cast to Bool should ensure value is Bool"@),
                },
            },
            TypedExpr::Case { cond, l_var, l_body, r_var, r_body, typ } => match sum_cast_of(expr_type(*cond)) {
                Err(m) => Err(m),
                Ok((lt, rt)) => match eval_in(*cond, f) {
                    Err(m) => Err(m),
                    Ok(c) => match cast_step(c, t_sum(lt, rt)) {
                        Err(m) => Err(m),
                        Ok(c) => match strip_casts(c) {
                            AlfaValue::InjL(v, _) => match cast_step(*v, lt) {
                                Err(m) => Err(m),
                                Ok(v) => match eval_in(subst_in(l_var.id@, v, *l_body), f) {
                                    Err(m) => Err(m),
                                    Ok(r) => cast_step(r, typ),
                                },
                            },
                            AlfaValue::InjR(v, _) => match cast_step(*v, rt) {
                                Err(m) => Err(m),
                                Ok(v) => match eval_in(subst_in(r_var.id@, v, *r_body), f) {
                                    Err(m) => Err(m),
                                    Ok(r) => cast_step(r, typ),
                                },
                            },
                            _ => Err("Cast to Sum should ensure value is Sum"@),
                        },
                    },
                },
            },
            TypedExpr::InjL { expr, typ } => match eval_in(*expr, f) {
                Err(m) => Err(m),
                Ok(v) => Ok(AlfaValue::InjL(Box::new(v), typ)),
            },
            TypedExpr::InjR { expr, typ } => match eval_in(*expr, f) {
                Err(m) => Err(m),
                Ok(v) => Ok(AlfaValue::InjR(Box::new(v), typ)),
            },
            TypedExpr::PrjL { expr, .. } => match prod_cast_of(expr_type(*expr)) {
                Err(m) => Err(m),
                Ok((ft, st)) => match eval_in(*expr, f) {
                    Err(m) => Err(m),
                    Ok(p) => match cast_step(p, t_product(ft, st)) {
                        Err(m) => Err(m),
                        Ok(p) => match strip_casts(p) {
                            AlfaValue::Pair(a, _, _) => cast_step(*a, ft),
                            _ => Err("Cast to Product type should ensure value is Pair"@),
                        },
                    },
                },
            },
            TypedExpr::PrjR { expr, .. } => match prod_cast_of(expr_type(*expr)) {
                Err(m) => Err(m),
                Ok((ft, st)) => match eval_in(*expr, f) {
                    Err(m) => Err(m),
                    Ok(p) => match cast_step(p, t_product(ft, st)) {
                        Err(m) => Err(m),
                        Ok(p) => match strip_casts(p) {
                            AlfaValue::Pair(_, b, _) => cast_step(*b, st),
                            _ => Err("Cast to Product type should ensure value is Pair"@),
                        },
                    },
                },
            },
            TypedExpr::Let { id, var_typ, def, body, typ } => match eval_in(*def, f) {
                Err(m) => Err(m),
                Ok(d) => match cast_step(d, var_typ) {
                    Err(m) => Err(m),
                    Ok(d) => match eval_in(subst_in(id.id@, d, *body), f) {
                        Err(m) => Err(m),
                        Ok(r) => cast_step(r, typ),
                    },
                },
            },
            TypedExpr::BinOp { lhs, op, rhs, typ } => match num_in(*lhs, f) {
                Err(m) => Err(m),
                Ok(l) => match num_in(*rhs, f) {
                    Err(m) => Err(m),
                    Ok(r) => cast_step(binop_value(op, l, r), typ),
                },
            },
            TypedExpr::UnOp { expr, typ, .. } => match num_in(*expr, f) {
                Err(m) => Err(m),
                Ok(v) => cast_step(AlfaValue::Num(0i32.wrapping_sub(v)), typ),
            },
        }
    }
}

/// The number that `e` evaluates to within `fuel` nested steps, its value
/// cast to `Num`.
pub open spec fn num_in(e: TypedExpr, fuel: nat) -> Result<i32, Seq<char>>
    decreases fuel, 0nat,
{
    if fuel == 0 {
        Err(out_of_fuel_text())
    } else {
        match eval_in(e, (fuel - 1) as nat) {
            Err(m) => Err(m),
            Ok(v) => match cast_step(v, AlfaType::Num) {
                Err(m) => Err(m),
                Ok(v) => match strip_casts(v) {
                    AlfaValue::Num(n) => Ok(n),
                    _ => Err("Cast to Num should value is Num"@),
                },
            },
        }
    }
}

/// Casts `val` to `typ` when the cast has a rule, and otherwise gives back the
/// message that names the two types.
pub fn try_cast(val: AlfaValue, typ: AlfaType) -> (r: CastResult<AlfaValue>)
    ensures
        result_is(r, cast_step(val, typ)),
{
    if types_equal(val.get_type(), &typ) || types_equal(&typ, &AlfaType::Dyn) || types_equal(
        val.get_type(),
        &AlfaType::Dyn,
    ) {
        cast(val, typ)
    } else {
        let mut m = "Casting ".to_string();
        push_type(&mut m, val.get_type());
        m.append(" to ");
        push_type(&mut m, &typ);
        assert(m@ =~= "Casting "@ + type_text(value_type(val)) + " to "@ + type_text(typ));
        Err(m)
    }
}

fn out_of_fuel() -> (m: String)
    ensures
        m@ == out_of_fuel_text(),
{
    "Evaluation stopped: step limit reached".to_string()
}

fn num_fuel(expr: TypedExpr, fuel: u64) -> (r: CastResult<i32>)
    ensures
        result_is(r, num_in(expr, fuel as nat)),
    decreases fuel, 0nat,
{
    if fuel == 0 {
        return Err(out_of_fuel());
    }
    let val = try_cast(eval_fuel(expr, fuel - 1)?, AlfaType::Num)?;
    match val.inner() {
        AlfaValue::Num(n) => Ok(n),
        _ => Err("Cast to Num should value is Num".to_string()),
    }
}

fn eval_fuel(expr: TypedExpr, fuel: u64) -> (r: EvalResult)
    ensures
        result_is(r, eval_in(expr, fuel as nat)),
    decreases fuel, 1nat,
{
    if fuel == 0 {
        return Err(out_of_fuel());
    }
    let f = fuel - 1;
    match expr {
        TypedExpr::Num(n) => Ok(AlfaValue::Num(n)),
        TypedExpr::Bool(b) => Ok(AlfaValue::Bool(b)),
        TypedExpr::Unit => Ok(AlfaValue::Unit),
        TypedExpr::Pair { fst, snd, .. } => {
            let a = eval_fuel(*fst, f)?;
            let b = eval_fuel(*snd, f)?;
            let typ = product(copy_type(a.get_type()), copy_type(b.get_type()));
            Ok(AlfaValue::Pair(Box::new(a), Box::new(b), typ))
        },
        TypedExpr::Value { val } => Ok(*val),
        TypedExpr::Fun { id, var_typ, body, typ } => Ok(AlfaValue::Fun(id, var_typ, *body, typ)),
        TypedExpr::Var { .. } => Err("Substitution Failure on Well Typed Program".to_string()),
        TypedExpr::Ap { fun, arg, .. } => {
            let (arg_typ, ret_typ) = fun_cast(fun.get_type())?;
            let fv = try_cast(eval_fuel(*fun, f)?, arrow(copy_type(&arg_typ), ret_typ))?;
            let av = try_cast(eval_fuel(*arg, f)?, arg_typ)?;
            match fv.inner() {
                AlfaValue::Fun(x, _, body, _) => eval_fuel(subst(&x, &av, body), f),
                _ => Err("Arrow type must correspond to Function value".to_string()),
            }
        },
        TypedExpr::If { cond, if_body, else_body, typ } => {
            let c = try_cast(eval_fuel(*cond, f)?, AlfaType::Bool)?;
            if let AlfaValue::Bool(b) = c {
                let res = if b {
                    eval_fuel(*if_body, f)?
                } else {
                    eval_fuel(*else_body, f)?
                };
                try_cast(res, typ)
            } else {
                Err("Cast to Bool should ensure value is Bool".to_string())
            }
        },
        TypedExpr::Case { cond, l_var, l_body, r_var, r_body, typ } => {
            let (l_typ, r_typ) = sum_cast(cond.get_type())?;
            let c = try_cast(eval_fuel(*cond, f)?, sum(copy_type(&l_typ), copy_type(&r_typ)))?;
            let res = match c.inner() {
                AlfaValue::InjL(v, _) => {
                    let v = try_cast(*v, l_typ)?;
                    eval_fuel(subst(&l_var, &v, *l_body), f)
                },
                AlfaValue::InjR(v, _) => {
                    let v = try_cast(*v, r_typ)?;
                    eval_fuel(subst(&r_var, &v, *r_body), f)
                },
                _ => {
                    return Err("Cast to Sum should ensure value is Sum".to_string());
                },
            };
            try_cast(res?, typ)
        },
        TypedExpr::InjL { expr, typ } => Ok(AlfaValue::InjL(Box::new(eval_fuel(*expr, f)?), typ)),
        TypedExpr::InjR { expr, typ } => Ok(AlfaValue::InjR(Box::new(eval_fuel(*expr, f)?), typ)),
        TypedExpr::PrjL { expr, .. } => {
            let (fst_t, snd_t) = prod_cast(expr.get_type())?;
            let p = try_cast(eval_fuel(*expr, f)?, product(copy_type(&fst_t), snd_t))?;
            if let AlfaValue::Pair(a, _, _) = p.inner() {
                try_cast(*a, fst_t)
            } else {
                Err("Cast to Product type should ensure value is Pair".to_string())
            }
        },
        TypedExpr::PrjR { expr, .. } => {
            let (fst_t, snd_t) = prod_cast(expr.get_type())?;
            let p = try_cast(eval_fuel(*expr, f)?, product(fst_t, copy_type(&snd_t)))?;
            if let AlfaValue::Pair(_, b, _) = p.inner() {
                try_cast(*b, snd_t)
            } else {
                Err("Cast to Product type should ensure value is Pair".to_string())
            }
        },
        TypedExpr::Let { id, var_typ, def, body, typ } => {
            let d = try_cast(eval_fuel(*def, f)?, var_typ)?;
            let result = eval_fuel(subst(&id, &d, *body), f);
            try_cast(result?, typ)
        },
        TypedExpr::BinOp { lhs, op, rhs, typ } => {
            let l = num_fuel(*lhs, f)?;
            let r = num_fuel(*rhs, f)?;
            let result = match op {
                Infix::Plus => AlfaValue::Num(l.wrapping_add(r)),
                Infix::Minus => AlfaValue::Num(l.wrapping_sub(r)),
                Infix::Times => AlfaValue::Num(l.wrapping_mul(r)),
                Infix::LessThan => AlfaValue::Bool(l < r),
                Infix::GreaterThan => AlfaValue::Bool(l > r),
                Infix::EqualTo => AlfaValue::Bool(l == r),
            };
            try_cast(result, typ)
        },
        TypedExpr::UnOp { op, expr, typ } => {
            let v = num_fuel(*expr, f)?;
            let result = match op {
                Prefix::Neg => AlfaValue::Num(0i32.wrapping_sub(v)),
            };
            try_cast(result, typ)
        },
    }
}

/// The number that `expr` evaluates to, its value cast to `Num`.
pub fn expecting_num(expr: TypedExpr) -> (r: CastResult<i32>)
    ensures
        result_is(r, num_in(expr, EVAL_FUEL as nat)),
{
    num_fuel(expr, EVAL_FUEL)
}

/// Evaluates a typed expression.
pub fn eval(expr: TypedExpr) -> (r: EvalResult)
    ensures
        result_is(r, eval_in(expr, EVAL_FUEL as nat)),
{
    eval_fuel(expr, EVAL_FUEL)
}

/// A cast step that succeeds gives a value of the type cast to.
pub proof fn lemma_cast_step_has_target_type(val: AlfaValue, typ: AlfaType)
    ensures
        cast_step(val, typ) matches Ok(r) ==> value_type(r) == typ,
{
    crate::cast::lemma_cast_has_target_type(val, typ);
}

/// The forms whose result is cast to the type the checker promised for them
/// (conditionals, case analyses, bindings and arithmetic) evaluate, when they
/// succeed, to a value of exactly that type.
pub proof fn lemma_eval_keeps_promised_type(e: TypedExpr, fuel: nat)
    requires
        e is If || e is Case || e is Let || e is BinOp || e is UnOp,
    ensures
        eval_in(e, fuel) matches Ok(v) ==> value_type(v) == expr_type(e),
{
    if fuel > 0 {
        let f = (fuel - 1) as nat;
        match e {
            TypedExpr::If { cond, if_body, else_body, typ } => {
                if let Ok(c) = eval_in(*cond, f) {
                    if let Ok(AlfaValue::Bool(b)) = cast_step(c, AlfaType::Bool) {
                        if let Ok(r) = eval_in(if b { *if_body } else { *else_body }, f) {
                            lemma_cast_step_has_target_type(r, typ);
                        }
                    }
                }
            },
            TypedExpr::Case { cond, l_var, l_body, r_var, r_body, typ } => {
                if let Ok((lt, rt)) = sum_cast_of(expr_type(*cond)) {
                    if let Ok(c) = eval_in(*cond, f) {
                        if let Ok(c) = cast_step(c, t_sum(lt, rt)) {
                            match strip_casts(c) {
                                AlfaValue::InjL(v, _) => {
                                    if let Ok(v) = cast_step(*v, lt) {
                                        if let Ok(r) = eval_in(subst_in(l_var.id@, v, *l_body), f) {
                                            lemma_cast_step_has_target_type(r, typ);
                                        }
                                    }
                                },
                                AlfaValue::InjR(v, _) => {
                                    if let Ok(v) = cast_step(*v, rt) {
                                        if let Ok(r) = eval_in(subst_in(r_var.id@, v, *r_body), f) {
                                            lemma_cast_step_has_target_type(r, typ);
                                        }
                                    }
                                },
                                _ => {},
                            }
                        }
                    }
                }
            },
            TypedExpr::Let { id, var_typ, def, body, typ } => {
                if let Ok(d) = eval_in(*def, f) {
                    if let Ok(d) = cast_step(d, var_typ) {
                        if let Ok(r) = eval_in(subst_in(id.id@, d, *body), f) {
                            lemma_cast_step_has_target_type(r, typ);
                        }
                    }
                }
            },
            TypedExpr::BinOp { lhs, op, rhs, typ } => {
                if let Ok(l) = num_in(*lhs, f) {
                    if let Ok(r) = num_in(*rhs, f) {
                        lemma_cast_step_has_target_type(binop_value(op, l, r), typ);
                    }
                }
            },
            TypedExpr::UnOp { expr, typ, .. } => {
                if let Ok(v) = num_in(*expr, f) {
                    lemma_cast_step_has_target_type(AlfaValue::Num(0i32.wrapping_sub(v)), typ);
                }
            },
            _ => {},
        }
    }
}

/// A substituted value evaluates to itself.
pub proof fn lemma_eval_value(v: AlfaValue, fuel: nat)
    requires
        fuel > 0,
    ensures
        eval_in(TypedExpr::Value { val: Box::new(v) }, fuel) == Ok::<AlfaValue, Seq<char>>(v),
{
}

/// A larger step budget does not change the result of an evaluation that
/// finished within a smaller one.
pub proof fn lemma_eval_fuel_monotone(e: TypedExpr, f: nat, g: nat)
    requires
        f <= g,
        eval_in(e, f) is Ok,
    ensures
        eval_in(e, g) == eval_in(e, f),
    decreases f,
{
    let f1 = (f - 1) as nat;
    let g1 = (g - 1) as nat;
    match e {
        TypedExpr::Pair { fst, snd, .. } => {
            lemma_eval_fuel_monotone(*fst, f1, g1);
            lemma_eval_fuel_monotone(*snd, f1, g1);
        },
        TypedExpr::Ap { fun, arg, .. } => {
            if let Ok((at, rt)) = fun_cast_of(expr_type(*fun)) {
                lemma_eval_fuel_monotone(*fun, f1, g1);
                if let Ok(fv) = eval_in(*fun, f1) {
                    if let Ok(fv) = cast_step(fv, t_arrow(at, rt)) {
                        lemma_eval_fuel_monotone(*arg, f1, g1);
                        if let Ok(av) = eval_in(*arg, f1) {
                            if let Ok(av) = cast_step(av, at) {
                                if let AlfaValue::Fun(x, _, body, _) = strip_casts(fv) {
                                    lemma_eval_fuel_monotone(subst_in(x.id@, av, body), f1, g1);
                                }
                            }
                        }
                    }
                }
            }
        },
        TypedExpr::If { cond, if_body, else_body, .. } => {
            lemma_eval_fuel_monotone(*cond, f1, g1);
            if let Ok(c) = eval_in(*cond, f1) {
                if let Ok(AlfaValue::Bool(b)) = cast_step(c, AlfaType::Bool) {
                    lemma_eval_fuel_monotone(if b { *if_body } else { *else_body }, f1, g1);
                }
            }
        },
        TypedExpr::Case { cond, l_var, l_body, r_var, r_body, .. } => {
            if let Ok((lt, rt)) = sum_cast_of(expr_type(*cond)) {
                lemma_eval_fuel_monotone(*cond, f1, g1);
                if let Ok(c) = eval_in(*cond, f1) {
                    if let Ok(c) = cast_step(c, t_sum(lt, rt)) {
                        match strip_casts(c) {
                            AlfaValue::InjL(v, _) => {
                                if let Ok(v) = cast_step(*v, lt) {
                                    lemma_eval_fuel_monotone(subst_in(l_var.id@, v, *l_body), f1, g1);
                                }
                            },
                            AlfaValue::InjR(v, _) => {
                                if let Ok(v) = cast_step(*v, rt) {
                                    lemma_eval_fuel_monotone(subst_in(r_var.id@, v, *r_body), f1, g1);
                                }
                            },
                            _ => {},
                        }
                    }
                }
            }
        },
        TypedExpr::InjL { expr, .. } => lemma_eval_fuel_monotone(*expr, f1, g1),
        TypedExpr::InjR { expr, .. } => lemma_eval_fuel_monotone(*expr, f1, g1),
        TypedExpr::PrjL { expr, .. } => {
            if prod_cast_of(expr_type(*expr)) is Ok {
                lemma_eval_fuel_monotone(*expr, f1, g1);
            }
        },
        TypedExpr::PrjR { expr, .. } => {
            if prod_cast_of(expr_type(*expr)) is Ok {
                lemma_eval_fuel_monotone(*expr, f1, g1);
            }
        },
        TypedExpr::Let { id, var_typ, def, body, .. } => {
            lemma_eval_fuel_monotone(*def, f1, g1);
            if let Ok(d) = eval_in(*def, f1) {
                if let Ok(d) = cast_step(d, var_typ) {
                    lemma_eval_fuel_monotone(subst_in(id.id@, d, *body), f1, g1);
                }
            }
        },
        TypedExpr::BinOp { lhs, rhs, .. } => {
            lemma_num_fuel_monotone(*lhs, f1, g1);
            if num_in(*lhs, f1) is Ok {
                lemma_num_fuel_monotone(*rhs, f1, g1);
            }
        },
        TypedExpr::UnOp { expr, .. } => lemma_num_fuel_monotone(*expr, f1, g1),
        _ => {},
    }
}

/// A larger step budget does not change a number that evaluation found
/// within a smaller one.
pub proof fn lemma_num_fuel_monotone(e: TypedExpr, f: nat, g: nat)
    requires
        f <= g,
        num_in(e, f) is Ok,
    ensures
        num_in(e, g) == num_in(e, f),
    decreases f,
{
    lemma_eval_fuel_monotone(e, (f - 1) as nat, (g - 1) as nat);
}

/// A message that begins with `p` is not the message of an unbound variable
/// when `p` begins with another character than that message.
proof fn lemma_other_prefix(p: Seq<char>, x: Seq<char>, y: Seq<char>)
    requires
        p.len() > 0,
        p[0] != 'S',
    ensures
        p + x + y != unbound_text(),
        p + x != unbound_text(),
        p != unbound_text(),
{
    reveal_strlit("Substitution Failure on Well Typed Program");
    assert((p + x)[0] == p[0]);
    assert((p + x + y)[0] == p[0]);
}

/// The failures of the cast rules are not the message of an unbound variable.
proof fn lemma_cast_messages(v: AlfaValue, t: AlfaType)
    ensures
        cast_step(v, t) matches Err(m) ==> m != unbound_text(),
        fun_cast_of(t) matches Err(m) ==> m != unbound_text(),
        sum_cast_of(t) matches Err(m) ==> m != unbound_text(),
        prod_cast_of(t) matches Err(m) ==> m != unbound_text(),
{
    reveal_strlit("Cannot cast ");
    reveal_strlit("Casting ");
    let tt = type_text(t);
    lemma_other_prefix("Cannot cast "@, tt, " to Arrow type"@);
    lemma_other_prefix("Cannot cast "@, tt, " to Sum type"@);
    lemma_other_prefix("Cannot cast "@, tt, " to Product type"@);
    let vt = type_text(value_type(crate::cast::cast_body(v)));
    lemma_other_prefix("Cannot cast "@ + vt, " to "@, tt);
    lemma_other_prefix("Casting "@ + type_text(value_type(v)), " to "@, tt);
}

/// The fixed messages of evaluation are not the message of an unbound variable.
proof fn lemma_fixed_messages()
    ensures
        out_of_fuel_text() != unbound_text(),
        "Arrow type must correspond to Function value"@ != unbound_text(),
        "Cast to Bool should ensure value is Bool"@ != unbound_text(),
        "Cast to Sum should ensure value is Sum"@ != unbound_text(),
        "Cast to Product type should ensure value is Pair"@ != unbound_text(),
        "Cast to Num should value is Num"@ != unbound_text(),
{
    reveal_strlit("Evaluation stopped: step limit reached");
    reveal_strlit("Arrow type must correspond to Function value");
    reveal_strlit("Cast to Bool should ensure value is Bool");
    reveal_strlit("Cast to Sum should ensure value is Sum");
    reveal_strlit("Cast to Product type should ensure value is Pair");
    reveal_strlit("Cast to Num should value is Num");
    lemma_other_prefix(out_of_fuel_text(), Seq::empty(), Seq::empty());
    lemma_other_prefix("Arrow type must correspond to Function value"@, Seq::empty(), Seq::empty());
    lemma_other_prefix("Cast to Bool should ensure value is Bool"@, Seq::empty(), Seq::empty());
    lemma_other_prefix("Cast to Sum should ensure value is Sum"@, Seq::empty(), Seq::empty());
    lemma_other_prefix("Cast to Product type should ensure value is Pair"@, Seq::empty(), Seq::empty());
    lemma_other_prefix("Cast to Num should value is Num"@, Seq::empty(), Seq::empty());
}

/// Removing casts from a closed value leaves a closed value.
proof fn lemma_strip_closed(v: AlfaValue)
    requires
        closed_value(v),
    ensures
        closed_value(strip_casts(v)),
    decreases v,
{
    if let AlfaValue::Cast(inner, _) = v {
        lemma_strip_closed(*inner);
    }
}

/// A cast of a closed value gives a closed value.
proof fn lemma_cast_step_closed(v: AlfaValue, t: AlfaType)
    requires
        closed_value(v),
    ensures
        cast_step(v, t) matches Ok(r) ==> closed_value(r),
{
    let g = ground_of(value_type(v));
    let inner = AlfaValue::Cast(Box::new(v), g);
    assert(closed_value(inner));
    assert(closed_value(AlfaValue::Cast(Box::new(inner), AlfaType::Dyn)));
    assert(closed_value(AlfaValue::Cast(Box::new(v), AlfaType::Dyn)));
    let h = ground_of(t);
    let inner2 = AlfaValue::Cast(Box::new(v), h);
    assert(closed_value(inner2));
    assert(closed_value(AlfaValue::Cast(Box::new(inner2), t)));
    assert(closed_value(crate::cast::cast_body(v)));
}

/// The unbound-variable law for an application.
#[verifier::spinoff_prover]
proof fn lemma_eval_scoped_ap(e: TypedExpr, fuel: nat)
    requires
        scoped(e, Set::empty()),
        fuel > 0,
        e is Ap,
    ensures
        eval_in(e, fuel) matches Ok(v) ==> closed_value(v),
        eval_in(e, fuel) matches Err(m) ==> m != unbound_text(),
    decreases fuel, 0nat,
{
    lemma_fixed_messages();
    let f = (fuel - 1) as nat;
    let empty = Set::<Seq<char>>::empty();
    if let TypedExpr::Ap { fun, arg, .. } = e {
        lemma_cast_messages(AlfaValue::Unit, expr_type(*fun));
        if let Ok((at, rt)) = fun_cast_of(expr_type(*fun)) {
            lemma_eval_scoped(*fun, f);
            if let Ok(fv) = eval_in(*fun, f) {
                lemma_cast_messages(fv, t_arrow(at, rt));
                lemma_cast_step_closed(fv, t_arrow(at, rt));
                if let Ok(fv) = cast_step(fv, t_arrow(at, rt)) {
                    lemma_eval_scoped(*arg, f);
                    if let Ok(av) = eval_in(*arg, f) {
                        lemma_cast_messages(av, at);
                        lemma_cast_step_closed(av, at);
                        if let Ok(av) = cast_step(av, at) {
                            lemma_strip_closed(fv);
                            if let AlfaValue::Fun(x, _, body, _) = strip_casts(fv) {
                                assert(empty.insert(x.id@) =~= Set::empty().insert(x.id@));
                                lemma_subst_scoped(x.id@, av, body, empty);
                                lemma_eval_scoped(subst_in(x.id@, av, body), f);
                            }
                        }
                    }
                }
            }
        }
    }
}

/// The unbound-variable law for a conditional.
#[verifier::spinoff_prover]
proof fn lemma_eval_scoped_if(e: TypedExpr, fuel: nat)
    requires
        scoped(e, Set::empty()),
        fuel > 0,
        e is If,
    ensures
        eval_in(e, fuel) matches Ok(v) ==> closed_value(v),
        eval_in(e, fuel) matches Err(m) ==> m != unbound_text(),
    decreases fuel, 0nat,
{
    lemma_fixed_messages();
    let f = (fuel - 1) as nat;
    let empty = Set::<Seq<char>>::empty();
    if let TypedExpr::If { cond, if_body, else_body, typ } = e {
        lemma_eval_scoped(*cond, f);
        if let Ok(c) = eval_in(*cond, f) {
            lemma_cast_messages(c, AlfaType::Bool);
            if let Ok(AlfaValue::Bool(b)) = cast_step(c, AlfaType::Bool) {
                lemma_eval_scoped(if b { *if_body } else { *else_body }, f);
                if let Ok(r) = eval_in(if b { *if_body } else { *else_body }, f) {
                    lemma_cast_messages(r, typ);
                    lemma_cast_step_closed(r, typ);
                }
            }
        }
    }
}

/// The unbound-variable law for a case analysis.
#[verifier::spinoff_prover]
proof fn lemma_eval_scoped_case(e: TypedExpr, fuel: nat)
    requires
        scoped(e, Set::empty()),
        fuel > 0,
        e is Case,
    ensures
        eval_in(e, fuel) matches Ok(v) ==> closed_value(v),
        eval_in(e, fuel) matches Err(m) ==> m != unbound_text(),
    decreases fuel, 0nat,
{
    lemma_fixed_messages();
    let f = (fuel - 1) as nat;
    let empty = Set::<Seq<char>>::empty();
    if let TypedExpr::Case { cond, l_var, l_body, r_var, r_body, typ } = e {
        lemma_cast_messages(AlfaValue::Unit, expr_type(*cond));
        if let Ok((lt, rt)) = sum_cast_of(expr_type(*cond)) {
            lemma_eval_scoped(*cond, f);
            if let Ok(c) = eval_in(*cond, f) {
                lemma_cast_messages(c, t_sum(lt, rt));
                lemma_cast_step_closed(c, t_sum(lt, rt));
                if let Ok(c) = cast_step(c, t_sum(lt, rt)) {
                    lemma_strip_closed(c);
                    match strip_casts(c) {
                        AlfaValue::InjL(v, _) => {
                            lemma_cast_messages(*v, lt);
                            lemma_cast_step_closed(*v, lt);
                            if let Ok(v) = cast_step(*v, lt) {
                                lemma_subst_scoped(l_var.id@, v, *l_body, empty);
                                lemma_eval_scoped(subst_in(l_var.id@, v, *l_body), f);
                                if let Ok(r) = eval_in(subst_in(l_var.id@, v, *l_body), f) {
                                    lemma_cast_messages(r, typ);
                                    lemma_cast_step_closed(r, typ);
                                }
                            }
                        },
                        AlfaValue::InjR(v, _) => {
                            lemma_cast_messages(*v, rt);
                            lemma_cast_step_closed(*v, rt);
                            if let Ok(v) = cast_step(*v, rt) {
                                lemma_subst_scoped(r_var.id@, v, *r_body, empty);
                                lemma_eval_scoped(subst_in(r_var.id@, v, *r_body), f);
                                if let Ok(r) = eval_in(subst_in(r_var.id@, v, *r_body), f) {
                                    lemma_cast_messages(r, typ);
                                    lemma_cast_step_closed(r, typ);
                                }
                            }
                        },
                        _ => {},
                    }
                }
            }
        }
    }
}

/// The unbound-variable law for a first projection.
#[verifier::spinoff_prover]
proof fn lemma_eval_scoped_prjl(e: TypedExpr, fuel: nat)
    requires
        scoped(e, Set::empty()),
        fuel > 0,
        e is PrjL,
    ensures
        eval_in(e, fuel) matches Ok(v) ==> closed_value(v),
        eval_in(e, fuel) matches Err(m) ==> m != unbound_text(),
    decreases fuel, 0nat,
{
    lemma_fixed_messages();
    let f = (fuel - 1) as nat;
    let empty = Set::<Seq<char>>::empty();
    if let TypedExpr::PrjL { expr, .. } = e {
        lemma_cast_messages(AlfaValue::Unit, expr_type(*expr));
        if let Ok((ft, st)) = prod_cast_of(expr_type(*expr)) {
            lemma_eval_scoped(*expr, f);
            if let Ok(p) = eval_in(*expr, f) {
                lemma_cast_messages(p, t_product(ft, st));
                lemma_cast_step_closed(p, t_product(ft, st));
                if let Ok(p) = cast_step(p, t_product(ft, st)) {
                    lemma_strip_closed(p);
                    if let AlfaValue::Pair(a, _, _) = strip_casts(p) {
                        lemma_cast_messages(*a, ft);
                        lemma_cast_step_closed(*a, ft);
                    }
                }
            }
        }
    }
}

/// The unbound-variable law for a second projection.
#[verifier::spinoff_prover]
proof fn lemma_eval_scoped_prjr(e: TypedExpr, fuel: nat)
    requires
        scoped(e, Set::empty()),
        fuel > 0,
        e is PrjR,
    ensures
        eval_in(e, fuel) matches Ok(v) ==> closed_value(v),
        eval_in(e, fuel) matches Err(m) ==> m != unbound_text(),
    decreases fuel, 0nat,
{
    lemma_fixed_messages();
    let f = (fuel - 1) as nat;
    let empty = Set::<Seq<char>>::empty();
    if let TypedExpr::PrjR { expr, .. } = e {
        lemma_cast_messages(AlfaValue::Unit, expr_type(*expr));
        if let Ok((ft, st)) = prod_cast_of(expr_type(*expr)) {
            lemma_eval_scoped(*expr, f);
            if let Ok(p) = eval_in(*expr, f) {
                lemma_cast_messages(p, t_product(ft, st));
                lemma_cast_step_closed(p, t_product(ft, st));
                if let Ok(p) = cast_step(p, t_product(ft, st)) {
                    lemma_strip_closed(p);
                    if let AlfaValue::Pair(_, b, _) = strip_casts(p) {
                        lemma_cast_messages(*b, st);
                        lemma_cast_step_closed(*b, st);
                    }
                }
            }
        }
    }
}

/// The unbound-variable law for a binding.
#[verifier::spinoff_prover]
proof fn lemma_eval_scoped_let(e: TypedExpr, fuel: nat)
    requires
        scoped(e, Set::empty()),
        fuel > 0,
        e is Let,
    ensures
        eval_in(e, fuel) matches Ok(v) ==> closed_value(v),
        eval_in(e, fuel) matches Err(m) ==> m != unbound_text(),
    decreases fuel, 0nat,
{
    lemma_fixed_messages();
    let f = (fuel - 1) as nat;
    let empty = Set::<Seq<char>>::empty();
    if let TypedExpr::Let { id, var_typ, def, body, typ } = e {
        lemma_eval_scoped(*def, f);
        if let Ok(d) = eval_in(*def, f) {
            lemma_cast_messages(d, var_typ);
            lemma_cast_step_closed(d, var_typ);
            if let Ok(d) = cast_step(d, var_typ) {
                lemma_subst_scoped(id.id@, d, *body, empty);
                lemma_eval_scoped(subst_in(id.id@, d, *body), f);
                if let Ok(r) = eval_in(subst_in(id.id@, d, *body), f) {
                    lemma_cast_messages(r, typ);
                    lemma_cast_step_closed(r, typ);
                }
            }
        }
    }
}

/// Evaluating an expression with no unbound variable never meets one, and
/// gives a closed value.
pub proof fn lemma_eval_scoped(e: TypedExpr, fuel: nat)
    requires
        scoped(e, Set::empty()),
    ensures
        eval_in(e, fuel) matches Ok(v) ==> closed_value(v),
        eval_in(e, fuel) matches Err(m) ==> m != unbound_text(),
    decreases fuel, 1nat,
{
    lemma_fixed_messages();
    if fuel == 0 {
        return;
    }
    let f = (fuel - 1) as nat;
    let empty = Set::<Seq<char>>::empty();
    match e {
        TypedExpr::Pair { fst, snd, .. } => {
            lemma_eval_scoped(*fst, f);
            lemma_eval_scoped(*snd, f);
            if let Ok(a) = eval_in(*fst, f) {
                if let Ok(b) = eval_in(*snd, f) {
                    let p = AlfaValue::Pair(Box::new(a), Box::new(b), t_product(value_type(a), value_type(b)));
                    assert(closed_value(p));
                    assert(eval_in(e, fuel) == Ok::<AlfaValue, Seq<char>>(p));
                }
            }
        },
        TypedExpr::Fun { id, body, .. } => {
            assert(empty.insert(id.id@) =~= Set::empty().insert(id.id@));
        },
        TypedExpr::Ap { .. } => lemma_eval_scoped_ap(e, fuel),
        TypedExpr::If { .. } => lemma_eval_scoped_if(e, fuel),
        TypedExpr::Case { .. } => lemma_eval_scoped_case(e, fuel),
        TypedExpr::InjL { expr, typ } => {
            lemma_eval_scoped(*expr, f);
            if let Ok(v) = eval_in(*expr, f) {
                assert(closed_value(AlfaValue::InjL(Box::new(v), typ)));
            }
        },
        TypedExpr::InjR { expr, typ } => {
            lemma_eval_scoped(*expr, f);
            if let Ok(v) = eval_in(*expr, f) {
                assert(closed_value(AlfaValue::InjR(Box::new(v), typ)));
            }
        },
        TypedExpr::PrjL { .. } => lemma_eval_scoped_prjl(e, fuel),
        TypedExpr::PrjR { .. } => lemma_eval_scoped_prjr(e, fuel),
        TypedExpr::Let { .. } => lemma_eval_scoped_let(e, fuel),
        TypedExpr::BinOp { lhs, op, rhs, typ } => {
            lemma_num_scoped(*lhs, f);
            lemma_num_scoped(*rhs, f);
            if let Ok(l) = num_in(*lhs, f) {
                if let Ok(r) = num_in(*rhs, f) {
                    lemma_cast_messages(binop_value(op, l, r), typ);
                    lemma_cast_step_closed(binop_value(op, l, r), typ);
                }
            }
        },
        TypedExpr::UnOp { expr, typ, .. } => {
            lemma_num_scoped(*expr, f);
            if let Ok(v) = num_in(*expr, f) {
                lemma_cast_messages(AlfaValue::Num(0i32.wrapping_sub(v)), typ);
                lemma_cast_step_closed(AlfaValue::Num(0i32.wrapping_sub(v)), typ);
            }
        },
        _ => {},
    }
}

/// Evaluating to a number an expression with no unbound variable never meets one.
pub proof fn lemma_num_scoped(e: TypedExpr, fuel: nat)
    requires
        scoped(e, Set::empty()),
    ensures
        num_in(e, fuel) matches Err(m) ==> m != unbound_text(),
    decreases fuel, 1nat,
{
    lemma_fixed_messages();
    if fuel > 0 {
        let f = (fuel - 1) as nat;
        lemma_eval_scoped(e, f);
        if let Ok(v) = eval_in(e, f) {
            lemma_cast_messages(v, AlfaType::Num);
        }
    }
}

} // verus!
