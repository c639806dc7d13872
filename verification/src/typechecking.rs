//! Type consistency and the type checker of the gradually typed language.
use vstd::prelude::*;

use crate::ast::{
    arrow, copy_type, expr_type, product, sum, t_arrow, t_product, t_sum, AlfaType, Expr, Infix, KnownType,
    Prefix, TypedExpr,
};
use crate::context::{lemma_lookup_update_other, lemma_lookup_update_same, lookup_in, Context};
use crate::subst::scoped;
use crate::text::{expr_text, push_expr, push_type, type_text};

verus! {

/// Two types are consistent when they agree wherever neither is `?`.
pub open spec fn consistent_types(a: AlfaType, b: AlfaType) -> bool
    decreases a,
{
    match (a, b) {
        (AlfaType::Dyn, _) => true,
        (_, AlfaType::Dyn) => true,
        (AlfaType::Num, AlfaType::Num) => true,
        (AlfaType::Bool, AlfaType::Bool) => true,
        (AlfaType::Unit, AlfaType::Unit) => true,
        (AlfaType::Arrow(a1, a2), AlfaType::Arrow(b1, b2)) => consistent_types(*a1, *b1)
            && consistent_types(*a2, *b2),
        (AlfaType::Product(a1, a2), AlfaType::Product(b1, b2)) => consistent_types(*a1, *b1)
            && consistent_types(*a2, *b2),
        (AlfaType::Sum(a1, a2), AlfaType::Sum(b1, b2)) => consistent_types(*a1, *b1)
            && consistent_types(*a2, *b2),
        _ => false,
    }
}

/// The type that two consistent types share: `?` wherever either one is `?`.
pub open spec fn shared_type(a: AlfaType, b: AlfaType) -> AlfaType
    decreases a,
{
    match (a, b) {
        (AlfaType::Dyn, _) => AlfaType::Dyn,
        (_, AlfaType::Dyn) => AlfaType::Dyn,
        (AlfaType::Num, AlfaType::Num) => AlfaType::Num,
        (AlfaType::Bool, AlfaType::Bool) => AlfaType::Bool,
        (AlfaType::Unit, AlfaType::Unit) => AlfaType::Unit,
        (AlfaType::Arrow(a1, a2), AlfaType::Arrow(b1, b2)) => t_arrow(
            shared_type(*a1, *b1),
            shared_type(*a2, *b2),
        ),
        (AlfaType::Product(a1, a2), AlfaType::Product(b1, b2)) => t_product(
            shared_type(*a1, *b1),
            shared_type(*a2, *b2),
        ),
        (AlfaType::Sum(a1, a2), AlfaType::Sum(b1, b2)) => t_sum(
            shared_type(*a1, *b1),
            shared_type(*a2, *b2),
        ),
        _ => AlfaType::Dyn,
    }
}

/// Whether two types are consistent.
pub fn types_consistent(a: &AlfaType, b: &AlfaType) -> (r: bool)
    ensures
        r == consistent_types(*a, *b),
    decreases a,
{
    match (a, b) {
        (AlfaType::Dyn, _) => true,
        (_, AlfaType::Dyn) => true,
        (AlfaType::Num, AlfaType::Num) => true,
        (AlfaType::Bool, AlfaType::Bool) => true,
        (AlfaType::Unit, AlfaType::Unit) => true,
        (AlfaType::Arrow(a1, a2), AlfaType::Arrow(b1, b2)) => types_consistent(a1, b1)
            && types_consistent(a2, b2),
        (AlfaType::Product(a1, a2), AlfaType::Product(b1, b2)) => types_consistent(a1, b1)
            && types_consistent(a2, b2),
        (AlfaType::Sum(a1, a2), AlfaType::Sum(b1, b2)) => types_consistent(a1, b1)
            && types_consistent(a2, b2),
        _ => false,
    }
}

/// The shared type of two consistent types.
pub fn shared_of_types(a: &AlfaType, b: &AlfaType) -> (r: AlfaType)
    requires
        consistent_types(*a, *b),
    ensures
        r == shared_type(*a, *b),
    decreases a,
{
    match (a, b) {
        (AlfaType::Dyn, _) => AlfaType::Dyn,
        (_, AlfaType::Dyn) => AlfaType::Dyn,
        (AlfaType::Num, AlfaType::Num) => AlfaType::Num,
        (AlfaType::Bool, AlfaType::Bool) => AlfaType::Bool,
        (AlfaType::Unit, AlfaType::Unit) => AlfaType::Unit,
        (AlfaType::Arrow(a1, a2), AlfaType::Arrow(b1, b2)) => arrow(
            shared_of_types(a1, b1),
            shared_of_types(a2, b2),
        ),
        (AlfaType::Product(a1, a2), AlfaType::Product(b1, b2)) => product(
            shared_of_types(a1, b1),
            shared_of_types(a2, b2),
        ),
        (AlfaType::Sum(a1, a2), AlfaType::Sum(b1, b2)) => sum(
            shared_of_types(a1, b1),
            shared_of_types(a2, b2),
        ),
        _ => AlfaType::Dyn,
    }
}

/// Consistency between things that carry types.
pub trait Consistency: KnownType {
    /// Whether the two types are consistent.
    fn consistent<K: KnownType>(&self, other: &K) -> (r: bool)
        ensures
            r == consistent_types(self.known_type(), other.known_type()),
    ;

    /// The shared type of the two types, which must be consistent.
    fn most_typed_consistent<K: KnownType>(&self, other: &K) -> (r: AlfaType)
        requires
            consistent_types(self.known_type(), other.known_type()),
        ensures
            r == shared_type(self.known_type(), other.known_type()),
    ;
}

impl Consistency for AlfaType {
    fn consistent<K: KnownType>(&self, other: &K) -> (r: bool) {
        types_consistent(self, other.get_type())
    }

    fn most_typed_consistent<K: KnownType>(&self, other: &K) -> (r: AlfaType) {
        shared_of_types(self, other.get_type())
    }
}

impl Consistency for TypedExpr {
    fn consistent<K: KnownType>(&self, other: &K) -> (r: bool) {
        types_consistent(self.get_type(), other.get_type())
    }

    fn most_typed_consistent<K: KnownType>(&self, other: &K) -> (r: AlfaType) {
        shared_of_types(self.get_type(), other.get_type())
    }
}

/// A static type: one with no `?` anywhere in it.
pub open spec fn is_static_type(t: AlfaType) -> bool
    decreases t,
{
    match t {
        AlfaType::Dyn => false,
        AlfaType::Arrow(a, b) => is_static_type(*a) && is_static_type(*b),
        AlfaType::Product(a, b) => is_static_type(*a) && is_static_type(*b),
        AlfaType::Sum(a, b) => is_static_type(*a) && is_static_type(*b),
        _ => true,
    }
}

/// Every type is consistent with itself.
pub proof fn lemma_consistent_reflexive(t: AlfaType)
    ensures
        consistent_types(t, t),
    decreases t,
{
    match t {
        AlfaType::Arrow(a, b) => {
            lemma_consistent_reflexive(*a);
            lemma_consistent_reflexive(*b);
        },
        AlfaType::Product(a, b) => {
            lemma_consistent_reflexive(*a);
            lemma_consistent_reflexive(*b);
        },
        AlfaType::Sum(a, b) => {
            lemma_consistent_reflexive(*a);
            lemma_consistent_reflexive(*b);
        },
        _ => {},
    }
}

/// Consistency is symmetric.
pub proof fn lemma_consistent_symmetric(a: AlfaType, b: AlfaType)
    ensures
        consistent_types(a, b) == consistent_types(b, a),
    decreases a,
{
    match (a, b) {
        (AlfaType::Arrow(a1, a2), AlfaType::Arrow(b1, b2)) => {
            lemma_consistent_symmetric(*a1, *b1);
            lemma_consistent_symmetric(*a2, *b2);
        },
        (AlfaType::Product(a1, a2), AlfaType::Product(b1, b2)) => {
            lemma_consistent_symmetric(*a1, *b1);
            lemma_consistent_symmetric(*a2, *b2);
        },
        (AlfaType::Sum(a1, a2), AlfaType::Sum(b1, b2)) => {
            lemma_consistent_symmetric(*a1, *b1);
            lemma_consistent_symmetric(*a2, *b2);
        },
        _ => {},
    }
}

/// The unknown type is consistent with every type, on either side.
pub proof fn lemma_dyn_consistent(t: AlfaType)
    ensures
        consistent_types(AlfaType::Dyn, t),
        consistent_types(t, AlfaType::Dyn),
{
}

/// On static types, consistency is equality.
pub proof fn lemma_static_consistent_is_equal(a: AlfaType, b: AlfaType)
    requires
        is_static_type(a),
        is_static_type(b),
    ensures
        consistent_types(a, b) == (a == b),
    decreases a,
{
    match (a, b) {
        (AlfaType::Arrow(a1, a2), AlfaType::Arrow(b1, b2)) => {
            lemma_static_consistent_is_equal(*a1, *b1);
            lemma_static_consistent_is_equal(*a2, *b2);
        },
        (AlfaType::Product(a1, a2), AlfaType::Product(b1, b2)) => {
            lemma_static_consistent_is_equal(*a1, *b1);
            lemma_static_consistent_is_equal(*a2, *b2);
        },
        (AlfaType::Sum(a1, a2), AlfaType::Sum(b1, b2)) => {
            lemma_static_consistent_is_equal(*a1, *b1);
            lemma_static_consistent_is_equal(*a2, *b2);
        },
        _ => {},
    }
}

/// The shared type does not depend on the order of the two types.
pub proof fn lemma_shared_commutative(a: AlfaType, b: AlfaType)
    ensures
        shared_type(a, b) == shared_type(b, a),
    decreases a,
{
    match (a, b) {
        (AlfaType::Arrow(a1, a2), AlfaType::Arrow(b1, b2)) => {
            lemma_shared_commutative(*a1, *b1);
            lemma_shared_commutative(*a2, *b2);
        },
        (AlfaType::Product(a1, a2), AlfaType::Product(b1, b2)) => {
            lemma_shared_commutative(*a1, *b1);
            lemma_shared_commutative(*a2, *b2);
        },
        (AlfaType::Sum(a1, a2), AlfaType::Sum(b1, b2)) => {
            lemma_shared_commutative(*a1, *b1);
            lemma_shared_commutative(*a2, *b2);
        },
        _ => {},
    }
}

/// The shared type of a type with itself is that type.
pub proof fn lemma_shared_idempotent(t: AlfaType)
    ensures
        shared_type(t, t) == t,
    decreases t,
{
    match t {
        AlfaType::Arrow(a, b) => {
            lemma_shared_idempotent(*a);
            lemma_shared_idempotent(*b);
        },
        AlfaType::Product(a, b) => {
            lemma_shared_idempotent(*a);
            lemma_shared_idempotent(*b);
        },
        AlfaType::Sum(a, b) => {
            lemma_shared_idempotent(*a);
            lemma_shared_idempotent(*b);
        },
        _ => {},
    }
}

/// The shared type of two consistent types is consistent with both of them.
pub proof fn lemma_shared_consistent(a: AlfaType, b: AlfaType)
    requires
        consistent_types(a, b),
    ensures
        consistent_types(shared_type(a, b), a),
        consistent_types(shared_type(a, b), b),
    decreases a,
{
    match (a, b) {
        (AlfaType::Arrow(a1, a2), AlfaType::Arrow(b1, b2)) => {
            lemma_shared_consistent(*a1, *b1);
            lemma_shared_consistent(*a2, *b2);
        },
        (AlfaType::Product(a1, a2), AlfaType::Product(b1, b2)) => {
            lemma_shared_consistent(*a1, *b1);
            lemma_shared_consistent(*a2, *b2);
        },
        (AlfaType::Sum(a1, a2), AlfaType::Sum(b1, b2)) => {
            lemma_shared_consistent(*a1, *b1);
            lemma_shared_consistent(*a2, *b2);
        },
        _ => {},
    }
}

/// The precision order on types: `s` is less precise than `t` when `s` is
/// `t` with some of its parts replaced by `?`.
pub open spec fn less_precise(s: AlfaType, t: AlfaType) -> bool
    decreases s,
{
    match (s, t) {
        (AlfaType::Dyn, _) => true,
        (AlfaType::Num, AlfaType::Num) => true,
        (AlfaType::Bool, AlfaType::Bool) => true,
        (AlfaType::Unit, AlfaType::Unit) => true,
        (AlfaType::Arrow(s1, s2), AlfaType::Arrow(t1, t2)) => less_precise(*s1, *t1) && less_precise(*s2, *t2),
        (AlfaType::Product(s1, s2), AlfaType::Product(t1, t2)) => less_precise(*s1, *t1) && less_precise(
            *s2,
            *t2,
        ),
        (AlfaType::Sum(s1, s2), AlfaType::Sum(t1, t2)) => less_precise(*s1, *t1) && less_precise(*s2, *t2),
        _ => false,
    }
}

/// The shared type is less precise than both types.
proof fn lemma_shared_lower(a: AlfaType, b: AlfaType)
    ensures
        less_precise(shared_type(a, b), a),
        less_precise(shared_type(a, b), b),
    decreases a,
{
    match (a, b) {
        (AlfaType::Arrow(a1, a2), AlfaType::Arrow(b1, b2)) => {
            lemma_shared_lower(*a1, *b1);
            lemma_shared_lower(*a2, *b2);
        },
        (AlfaType::Product(a1, a2), AlfaType::Product(b1, b2)) => {
            lemma_shared_lower(*a1, *b1);
            lemma_shared_lower(*a2, *b2);
        },
        (AlfaType::Sum(a1, a2), AlfaType::Sum(b1, b2)) => {
            lemma_shared_lower(*a1, *b1);
            lemma_shared_lower(*a2, *b2);
        },
        _ => {},
    }
}

/// Every type less precise than both types is less precise than their
/// shared type.
proof fn lemma_shared_greatest(a: AlfaType, b: AlfaType, c: AlfaType)
    requires
        less_precise(c, a),
        less_precise(c, b),
    ensures
        less_precise(c, shared_type(a, b)),
    decreases c,
{
    match (c, a, b) {
        (AlfaType::Arrow(c1, c2), AlfaType::Arrow(a1, a2), AlfaType::Arrow(b1, b2)) => {
            lemma_shared_greatest(*a1, *b1, *c1);
            lemma_shared_greatest(*a2, *b2, *c2);
        },
        (AlfaType::Product(c1, c2), AlfaType::Product(a1, a2), AlfaType::Product(b1, b2)) => {
            lemma_shared_greatest(*a1, *b1, *c1);
            lemma_shared_greatest(*a2, *b2, *c2);
        },
        (AlfaType::Sum(c1, c2), AlfaType::Sum(a1, a2), AlfaType::Sum(b1, b2)) => {
            lemma_shared_greatest(*a1, *b1, *c1);
            lemma_shared_greatest(*a2, *b2, *c2);
        },
        _ => {},
    }
}

/// The shared type of two types is their greatest lower bound in the
/// precision order: it is less precise than both, and every type less
/// precise than both is less precise than it. Sharing with `?` gives `?`.
pub proof fn lemma_shared_greatest_lower_bound(a: AlfaType, b: AlfaType)
    ensures
        less_precise(shared_type(a, b), a),
        less_precise(shared_type(a, b), b),
        forall|c: AlfaType| less_precise(c, a) && less_precise(c, b) ==> #[trigger] less_precise(c, shared_type(a, b)),
        shared_type(a, AlfaType::Dyn) == AlfaType::Dyn,
{
    lemma_shared_lower(a, b);
    assert forall|c: AlfaType| less_precise(c, a) && less_precise(c, b) implies #[trigger] less_precise(
        c,
        shared_type(a, b),
    ) by {
        lemma_shared_greatest(a, b, c);
    }
}

/// What type checking gives back: the typed expression, or a message.
pub type TypeCheckResult = Result<TypedExpr, String>;

/// A typing context as a sequence of (name, type) pairs, oldest first.
pub type Scope = Seq<(Seq<char>, AlfaType)>;

/// Whether an executable result is the given spec result: the same typed
/// expression, or a message with the same text.
pub open spec fn result_is<T>(r: Result<T, String>, s: Result<T, Seq<char>>) -> bool {
    match (r, s) {
        (Ok(a), Ok(b)) => a == b,
        (Err(m), Err(n)) => m@ == n,
        _ => false,
    }
}

/// The type of the left side of a sum type, `?` for any other type.
pub open spec fn sum_left(t: AlfaType) -> AlfaType {
    match t {
        AlfaType::Sum(l, _) => *l,
        _ => AlfaType::Dyn,
    }
}

/// The type of the right side of a sum type, `?` for any other type.
pub open spec fn sum_right(t: AlfaType) -> AlfaType {
    match t {
        AlfaType::Sum(_, r) => *r,
        _ => AlfaType::Dyn,
    }
}

/// The first component type of a product type, `?` for any other type.
pub open spec fn product_first(t: AlfaType) -> AlfaType {
    match t {
        AlfaType::Product(f, _) => *f,
        _ => AlfaType::Dyn,
    }
}

/// The second component type of a product type, `?` for any other type.
pub open spec fn product_second(t: AlfaType) -> AlfaType {
    match t {
        AlfaType::Product(_, s) => *s,
        _ => AlfaType::Dyn,
    }
}

/// The argument type of a function type, `?` for any other type.
pub open spec fn arrow_arg(t: AlfaType) -> AlfaType {
    match t {
        AlfaType::Arrow(a, _) => *a,
        _ => AlfaType::Dyn,
    }
}

/// The result type of a function type, `?` for any other type.
pub open spec fn arrow_ret(t: AlfaType) -> AlfaType {
    match t {
        AlfaType::Arrow(_, r) => *r,
        _ => AlfaType::Dyn,
    }
}

/// The result type of a binary operator.
pub open spec fn infix_result(op: Infix) -> AlfaType {
    match op {
        Infix::Plus | Infix::Minus | Infix::Times => AlfaType::Num,
        Infix::LessThan | Infix::GreaterThan | Infix::EqualTo => AlfaType::Bool,
    }
}

/// The typing rules: the typed form of `e` in `ctx`, or the message of the
/// first rule that `e` breaks, the subexpressions checked left to right.
pub open spec fn typecheck_in(e: Expr, ctx: Scope) -> Result<TypedExpr, Seq<char>>
    decreases e,
{
    match e {
        Expr::Num(n) => Ok(TypedExpr::Num(n)),
        Expr::Bool(b) => Ok(TypedExpr::Bool(b)),
        Expr::Unit => Ok(TypedExpr::Unit),
        Expr::Var(x) => match lookup_in(ctx, x.id@) {
            Some(t) => Ok(TypedExpr::Var { id: x, typ: t }),
            None => Err("Unknown variable: ``"@ + x.id@ + "''"@),
        },
        Expr::Fun(x, ann, body) => {
            let a = match ann {
                Some(t) => t,
                None => AlfaType::Dyn,
            };
            match typecheck_in(*body, ctx.push((x.id@, a))) {
                Err(m) => Err(m),
                Ok(b) => Ok(
                    TypedExpr::Fun { id: x, var_typ: a, body: Box::new(b), typ: t_arrow(a, expr_type(b)) },
                ),
            }
        },
        Expr::If(c, t, f) => match typecheck_in(*c, ctx) {
            Err(m) => Err(m),
            Ok(c) => if !consistent_types(expr_type(c), AlfaType::Bool) {
                Err("Condition for if ("@ + expr_text(c) + ") must be consistent with bool"@)
            } else {
                match typecheck_in(*t, ctx) {
                    Err(m) => Err(m),
                    Ok(t) => match typecheck_in(*f, ctx) {
                        Err(m) => Err(m),
                        Ok(f) => if !consistent_types(expr_type(t), expr_type(f)) {
                            Err(
                                "if branches must have consistent types. "@ + expr_text(t) + " and "@
                                    + expr_text(f) + " are not consistent."@,
                            )
                        } else {
                            Ok(
                                TypedExpr::If {
                                    cond: Box::new(c),
                                    if_body: Box::new(t),
                                    else_body: Box::new(f),
                                    typ: shared_type(expr_type(t), expr_type(f)),
                                },
                            )
                        },
                    },
                }
            },
        },
        Expr::Case(c, lx, lb, rx, rb) => match typecheck_in(*c, ctx) {
            Err(m) => Err(m),
            Ok(c) => if !consistent_types(expr_type(c), t_sum(AlfaType::Dyn, AlfaType::Dyn)) {
                Err("case condition must be consistent with Sum type, is "@ + expr_text(c))
            } else {
                match typecheck_in(*lb, ctx.push((lx.id@, sum_left(expr_type(c))))) {
                    Err(m) => Err(m),
                    Ok(l) => match typecheck_in(*rb, ctx.push((rx.id@, sum_right(expr_type(c))))) {
                        Err(m) => Err(m),
                        Ok(r) => if !consistent_types(expr_type(l), expr_type(r)) {
                            Err(
                                "case branches must have consistent types. "@ + expr_text(l) + " and "@
                                    + expr_text(r) + " are not consistent."@,
                            )
                        } else {
                            Ok(
                                TypedExpr::Case {
                                    cond: Box::new(c),
                                    l_var: lx,
                                    l_body: Box::new(l),
                                    r_var: rx,
                                    r_body: Box::new(r),
                                    typ: shared_type(expr_type(l), expr_type(r)),
                                },
                            )
                        },
                    },
                }
            },
        },
        Expr::InjL(x) => match typecheck_in(*x, ctx) {
            Err(m) => Err(m),
            Ok(x) => Ok(TypedExpr::InjL { expr: Box::new(x), typ: t_sum(expr_type(x), AlfaType::Dyn) }),
        },
        Expr::InjR(x) => match typecheck_in(*x, ctx) {
            Err(m) => Err(m),
            Ok(x) => Ok(TypedExpr::InjR { expr: Box::new(x), typ: t_sum(AlfaType::Dyn, expr_type(x)) }),
        },
        Expr::PrjL(x) => match typecheck_in(*x, ctx) {
            Err(m) => Err(m),
            Ok(x) => if !consistent_types(expr_type(x), t_product(AlfaType::Dyn, AlfaType::Dyn)) {
                Err(
                    ".fst must operate on something consistent with Product typ, instead has "@
                        + expr_text(x),
                )
            } else {
                Ok(TypedExpr::PrjL { expr: Box::new(x), typ: product_first(expr_type(x)) })
            },
        },
        Expr::PrjR(x) => match typecheck_in(*x, ctx) {
            Err(m) => Err(m),
            Ok(x) => if !consistent_types(expr_type(x), t_product(AlfaType::Dyn, AlfaType::Dyn)) {
                Err(
                    ".snd must operate on something consistent with Product typ, instead has "@
                        + expr_text(x),
                )
            } else {
                Ok(TypedExpr::PrjR { expr: Box::new(x), typ: product_second(expr_type(x)) })
            },
        },
        Expr::Let(x, ann, d, b) => match typecheck_in(*d, ctx) {
            Err(m) => Err(m),
            Ok(d) => {
                let bad = match ann {
                    Some(t) => !consistent_types(t, expr_type(d)),
                    None => false,
                };
                let vt = match ann {
                    Some(t) => t,
                    None => expr_type(d),
                };
                if bad {
                    Err(
                        "Variable definition "@ + expr_text(d) + " must be consistent with annotated type "@
                            + type_text(vt),
                    )
                } else {
                    match typecheck_in(*b, ctx.push((x.id@, vt))) {
                        Err(m) => Err(m),
                        Ok(b) => Ok(
                            TypedExpr::Let {
                                id: x,
                                var_typ: vt,
                                def: Box::new(d),
                                body: Box::new(b),
                                typ: expr_type(b),
                            },
                        ),
                    }
                }
            },
        },
        Expr::Ap(f, a) => match typecheck_in(*f, ctx) {
            Err(m) => Err(m),
            Ok(f) => if !consistent_types(expr_type(f), t_arrow(AlfaType::Dyn, AlfaType::Dyn)) {
                Err("LHS of Application ("@ + expr_text(f) + ") must be consistent with function type"@)
            } else {
                match typecheck_in(*a, ctx) {
                    Err(m) => Err(m),
                    Ok(a) => if !consistent_types(expr_type(a), arrow_arg(expr_type(f))) {
                        Err("Argument "@ + expr_text(a) + " to function "@ + expr_text(f) + " inconsistent"@)
                    } else {
                        Ok(TypedExpr::Ap { fun: Box::new(f), arg: Box::new(a), typ: arrow_ret(expr_type(f)) })
                    },
                }
            },
        },
        Expr::BinOp(l, op, r) => match typecheck_in(*l, ctx) {
            Err(m) => Err(m),
            Ok(l) => match typecheck_in(*r, ctx) {
                Err(m) => Err(m),
                Ok(r) => if !consistent_types(expr_type(l), AlfaType::Num) {
                    Err("Binary Expression argument ("@ + expr_text(l) + ") must be consistent with Num"@)
                } else if !consistent_types(expr_type(r), AlfaType::Num) {
                    Err("Binary Expression argument ("@ + expr_text(r) + ") must be consistent with Num"@)
                } else {
                    Ok(TypedExpr::BinOp { lhs: Box::new(l), op, rhs: Box::new(r), typ: infix_result(op) })
                },
            },
        },
        Expr::UnOp(op, x) => match typecheck_in(*x, ctx) {
            Err(m) => Err(m),
            Ok(x) => if !consistent_types(expr_type(x), AlfaType::Num) {
                Err("Unary Expression argument ("@ + expr_text(x) + ") must be consistent with Num"@)
            } else {
                Ok(TypedExpr::UnOp { op, expr: Box::new(x), typ: AlfaType::Num })
            },
        },
        Expr::Pair(a, b) => match typecheck_in(*a, ctx) {
            Err(m) => Err(m),
            Ok(a) => match typecheck_in(*b, ctx) {
                Err(m) => Err(m),
                Ok(b) => Ok(
                    TypedExpr::Pair {
                        fst: Box::new(a),
                        snd: Box::new(b),
                        typ: t_product(expr_type(a), expr_type(b)),
                    },
                ),
            },
        },
    }
}

/// The message `pre`, the text of `e`, then `post`.
fn message_with(pre: &str, e: &TypedExpr, post: &str) -> (m: String)
    ensures
        m@ == pre@ + expr_text(*e) + post@,
{
    let mut m = pre.to_string();
    push_expr(&mut m, e);
    m.append(post);
    m
}

/// The message `pre` followed by the text of `e`.
fn message_ending_with(pre: &str, e: &TypedExpr) -> (m: String)
    ensures
        m@ == pre@ + expr_text(*e),
{
    let mut m = pre.to_string();
    push_expr(&mut m, e);
    m
}

/// The message `pre`, the text of `a`, `mid`, the text of `b`, then `post`.
fn message_with_two(pre: &str, a: &TypedExpr, mid: &str, b: &TypedExpr, post: &str) -> (m: String)
    ensures
        m@ == pre@ + expr_text(*a) + mid@ + expr_text(*b) + post@,
{
    let mut m = pre.to_string();
    push_expr(&mut m, a);
    m.append(mid);
    push_expr(&mut m, b);
    m.append(post);
    m
}

fn check(expr: Expr, ctx: &Context<'_>) -> (r: TypeCheckResult)
    ensures
        result_is(r, typecheck_in(expr, ctx@)),
    decreases expr,
{
    match expr {
        Expr::Num(n) => Ok(TypedExpr::Num(n)),
        Expr::Bool(b) => Ok(TypedExpr::Bool(b)),
        Expr::Unit => Ok(TypedExpr::Unit),
        Expr::Var(x) => {
            let typ = match ctx.lookup(x.id.as_str()) {
                Some(t) => copy_type(t),
                None => {
                    let mut m = "Unknown variable: ``".to_string();
                    m.append(x.id.as_str());
                    m.append("''");
                    return Err(m);
                },
            };
            Ok(TypedExpr::Var { id: x, typ })
        },
        Expr::Fun(x, ann, body) => {
            let a = match ann {
                Some(t) => t,
                None => AlfaType::Dyn,
            };
            let b = {
                let inner = ctx.update(x.id.as_str(), &a);
                check(*body, &inner)?
            };
            let typ = arrow(copy_type(&a), copy_type(b.get_type()));
            Ok(TypedExpr::Fun { id: x, var_typ: a, body: Box::new(b), typ })
        },
        Expr::If(c, t, f) => {
            let c = check(*c, ctx)?;
            if !c.consistent(&AlfaType::Bool) {
                return Err(message_with("Condition for if (", &c, ") must be consistent with bool"));
            }
            let t = check(*t, ctx)?;
            let f = check(*f, ctx)?;
            if !t.consistent(&f) {
                return Err(
                    message_with_two(
                        "if branches must have consistent types. ",
                        &t,
                        " and ",
                        &f,
                        " are not consistent.",
                    ),
                );
            }
            let typ = t.most_typed_consistent(&f);
            Ok(TypedExpr::If { cond: Box::new(c), if_body: Box::new(t), else_body: Box::new(f), typ })
        },
        Expr::Case(c, lx, lb, rx, rb) => {
            let c = check(*c, ctx)?;
            if !c.consistent(&sum(AlfaType::Dyn, AlfaType::Dyn)) {
                return Err(message_ending_with("case condition must be consistent with Sum type, is ", &c));
            }
            let l_typ = match c.get_type() {
                AlfaType::Sum(l, _) => copy_type(l),
                _ => AlfaType::Dyn,
            };
            let l = {
                let inner = ctx.update(lx.id.as_str(), &l_typ);
                check(*lb, &inner)?
            };
            let r_typ = match c.get_type() {
                AlfaType::Sum(_, r) => copy_type(r),
                _ => AlfaType::Dyn,
            };
            let r = {
                let inner = ctx.update(rx.id.as_str(), &r_typ);
                check(*rb, &inner)?
            };
            if !l.consistent(&r) {
                return Err(
                    message_with_two(
                        "case branches must have consistent types. ",
                        &l,
                        " and ",
                        &r,
                        " are not consistent.",
                    ),
                );
            }
            let typ = l.most_typed_consistent(&r);
            Ok(
                TypedExpr::Case {
                    cond: Box::new(c),
                    l_var: lx,
                    l_body: Box::new(l),
                    r_var: rx,
                    r_body: Box::new(r),
                    typ,
                },
            )
        },
        Expr::InjL(x) => {
            let x = check(*x, ctx)?;
            let typ = sum(copy_type(x.get_type()), AlfaType::Dyn);
            Ok(TypedExpr::InjL { expr: Box::new(x), typ })
        },
        Expr::InjR(x) => {
            let x = check(*x, ctx)?;
            let typ = sum(AlfaType::Dyn, copy_type(x.get_type()));
            Ok(TypedExpr::InjR { expr: Box::new(x), typ })
        },
        Expr::PrjL(x) => {
            let x = check(*x, ctx)?;
            if !x.consistent(&product(AlfaType::Dyn, AlfaType::Dyn)) {
                return Err(
                    message_ending_with(".fst must operate on something consistent with Product typ, instead has ", &x),
                );
            }
            let typ = match x.get_type() {
                AlfaType::Product(f, _) => copy_type(f),
                _ => AlfaType::Dyn,
            };
            Ok(TypedExpr::PrjL { expr: Box::new(x), typ })
        },
        Expr::PrjR(x) => {
            let x = check(*x, ctx)?;
            if !x.consistent(&product(AlfaType::Dyn, AlfaType::Dyn)) {
                return Err(
                    message_ending_with(".snd must operate on something consistent with Product typ, instead has ", &x),
                );
            }
            let typ = match x.get_type() {
                AlfaType::Product(_, s) => copy_type(s),
                _ => AlfaType::Dyn,
            };
            Ok(TypedExpr::PrjR { expr: Box::new(x), typ })
        },
        Expr::Let(x, ann, d, b) => {
            let d = check(*d, ctx)?;
            let vt = match ann {
                Some(t) => {
                    if !t.consistent(&d) {
                        let mut m = message_with("Variable definition ", &d, " must be consistent with annotated type ");
                        push_type(&mut m, &t);
                        return Err(m);
                    }
                    t
                },
                None => copy_type(d.get_type()),
            };
            let b = {
                let inner = ctx.update(x.id.as_str(), &vt);
                check(*b, &inner)?
            };
            let typ = copy_type(b.get_type());
            Ok(TypedExpr::Let { id: x, var_typ: vt, def: Box::new(d), body: Box::new(b), typ })
        },
        Expr::Ap(f, a) => {
            let f = check(*f, ctx)?;
            if !f.consistent(&arrow(AlfaType::Dyn, AlfaType::Dyn)) {
                return Err(
                    message_with("LHS of Application (", &f, ") must be consistent with function type"),
                );
            }
            let (arg_typ, ret_typ) = match f.get_type() {
                AlfaType::Arrow(x, y) => (copy_type(x), copy_type(y)),
                _ => (AlfaType::Dyn, AlfaType::Dyn),
            };
            let a = check(*a, ctx)?;
            if !a.consistent(&arg_typ) {
                return Err(message_with_two("Argument ", &a, " to function ", &f, " inconsistent"));
            }
            Ok(TypedExpr::Ap { fun: Box::new(f), arg: Box::new(a), typ: ret_typ })
        },
        Expr::BinOp(l, op, r) => {
            let typ = match op {
                Infix::Plus | Infix::Minus | Infix::Times => AlfaType::Num,
                Infix::LessThan | Infix::GreaterThan | Infix::EqualTo => AlfaType::Bool,
            };
            let l = check(*l, ctx)?;
            let r = check(*r, ctx)?;
            if !l.consistent(&AlfaType::Num) {
                return Err(
                    message_with("Binary Expression argument (", &l, ") must be consistent with Num"),
                );
            } else if !r.consistent(&AlfaType::Num) {
                return Err(
                    message_with("Binary Expression argument (", &r, ") must be consistent with Num"),
                );
            }
            Ok(TypedExpr::BinOp { lhs: Box::new(l), op, rhs: Box::new(r), typ })
        },
        Expr::UnOp(op, x) => {
            let typ = match op {
                Prefix::Neg => AlfaType::Num,
            };
            let x = check(*x, ctx)?;
            if !x.consistent(&typ) {
                return Err(
                    message_with("Unary Expression argument (", &x, ") must be consistent with Num"),
                );
            }
            Ok(TypedExpr::UnOp { op, expr: Box::new(x), typ })
        },
        Expr::Pair(a, b) => {
            let a = check(*a, ctx)?;
            let b = check(*b, ctx)?;
            let typ = product(copy_type(a.get_type()), copy_type(b.get_type()));
            Ok(TypedExpr::Pair { fst: Box::new(a), snd: Box::new(b), typ })
        },
    }
}

/// Type checks `expr` in the context `ctx`.
pub fn typecheck_helper(expr: Expr, ctx: Context) -> (r: TypeCheckResult)
    ensures
        result_is(r, typecheck_in(expr, ctx@)),
{
    check(expr, &ctx)
}

/// Type checks a whole program, in the empty context.
pub fn typecheck(expr: Expr) -> (r: TypeCheckResult)
    ensures
        result_is(r, typecheck_in(expr, Seq::empty())),
{
    check(expr, &Context::new())
}

/// A typed expression written back as a program, with every binder annotated
/// with the type the checker gave it.
pub open spec fn annotated(t: TypedExpr) -> Expr
    decreases t,
{
    match t {
        TypedExpr::Num(n) => Expr::Num(n),
        TypedExpr::Bool(b) => Expr::Bool(b),
        TypedExpr::Unit => Expr::Unit,
        TypedExpr::Var { id, .. } => Expr::Var(id),
        TypedExpr::Fun { id, var_typ, body, .. } => Expr::Fun(id, Some(var_typ), Box::new(annotated(*body))),
        TypedExpr::If { cond, if_body, else_body, .. } => Expr::If(
            Box::new(annotated(*cond)),
            Box::new(annotated(*if_body)),
            Box::new(annotated(*else_body)),
        ),
        TypedExpr::Case { cond, l_var, l_body, r_var, r_body, .. } => Expr::Case(
            Box::new(annotated(*cond)),
            l_var,
            Box::new(annotated(*l_body)),
            r_var,
            Box::new(annotated(*r_body)),
        ),
        TypedExpr::InjL { expr, .. } => Expr::InjL(Box::new(annotated(*expr))),
        TypedExpr::InjR { expr, .. } => Expr::InjR(Box::new(annotated(*expr))),
        TypedExpr::PrjL { expr, .. } => Expr::PrjL(Box::new(annotated(*expr))),
        TypedExpr::PrjR { expr, .. } => Expr::PrjR(Box::new(annotated(*expr))),
        TypedExpr::Let { id, var_typ, def, body, .. } => Expr::Let(
            id,
            Some(var_typ),
            Box::new(annotated(*def)),
            Box::new(annotated(*body)),
        ),
        TypedExpr::Ap { fun, arg, .. } => Expr::Ap(Box::new(annotated(*fun)), Box::new(annotated(*arg))),
        TypedExpr::BinOp { lhs, op, rhs, .. } => Expr::BinOp(
            Box::new(annotated(*lhs)),
            op,
            Box::new(annotated(*rhs)),
        ),
        TypedExpr::UnOp { op, expr, .. } => Expr::UnOp(op, Box::new(annotated(*expr))),
        TypedExpr::Pair { fst, snd, .. } => Expr::Pair(Box::new(annotated(*fst)), Box::new(annotated(*snd))),
        TypedExpr::Value { .. } => Expr::Unit,
    }
}

/// A program with all its type annotations removed.
pub open spec fn unannotated(e: Expr) -> Expr
    decreases e,
{
    match e {
        Expr::Fun(x, _, b) => Expr::Fun(x, None, Box::new(unannotated(*b))),
        Expr::If(c, t, f) => Expr::If(
            Box::new(unannotated(*c)),
            Box::new(unannotated(*t)),
            Box::new(unannotated(*f)),
        ),
        Expr::Case(c, lx, lb, rx, rb) => Expr::Case(
            Box::new(unannotated(*c)),
            lx,
            Box::new(unannotated(*lb)),
            rx,
            Box::new(unannotated(*rb)),
        ),
        Expr::InjL(x) => Expr::InjL(Box::new(unannotated(*x))),
        Expr::InjR(x) => Expr::InjR(Box::new(unannotated(*x))),
        Expr::PrjL(x) => Expr::PrjL(Box::new(unannotated(*x))),
        Expr::PrjR(x) => Expr::PrjR(Box::new(unannotated(*x))),
        Expr::Let(x, _, d, b) => Expr::Let(x, None, Box::new(unannotated(*d)), Box::new(unannotated(*b))),
        Expr::Ap(f, a) => Expr::Ap(Box::new(unannotated(*f)), Box::new(unannotated(*a))),
        Expr::BinOp(l, op, r) => Expr::BinOp(Box::new(unannotated(*l)), op, Box::new(unannotated(*r))),
        Expr::UnOp(op, x) => Expr::UnOp(op, Box::new(unannotated(*x))),
        Expr::Pair(a, b) => Expr::Pair(Box::new(unannotated(*a)), Box::new(unannotated(*b))),
        _ => e,
    }
}

/// Type checking only fills in types: the typed expression is the checked
/// program itself once the annotations on both sides are set aside.
pub proof fn lemma_typecheck_keeps_program(e: Expr, ctx: Scope)
    ensures
        typecheck_in(e, ctx) matches Ok(t) ==> unannotated(annotated(t)) == unannotated(e),
    decreases e,
{
    match e {
        Expr::Fun(x, ann, body) => {
            let a = match ann {
                Some(t) => t,
                None => AlfaType::Dyn,
            };
            lemma_typecheck_keeps_program(*body, ctx.push((x.id@, a)));
        },
        Expr::If(c, t, f) => {
            lemma_typecheck_keeps_program(*c, ctx);
            lemma_typecheck_keeps_program(*t, ctx);
            lemma_typecheck_keeps_program(*f, ctx);
        },
        Expr::Case(c, lx, lb, rx, rb) => {
            lemma_typecheck_keeps_program(*c, ctx);
            if let Ok(ct) = typecheck_in(*c, ctx) {
                lemma_typecheck_keeps_program(*lb, ctx.push((lx.id@, sum_left(expr_type(ct)))));
                lemma_typecheck_keeps_program(*rb, ctx.push((rx.id@, sum_right(expr_type(ct)))));
            }
        },
        Expr::InjL(x) => lemma_typecheck_keeps_program(*x, ctx),
        Expr::InjR(x) => lemma_typecheck_keeps_program(*x, ctx),
        Expr::PrjL(x) => lemma_typecheck_keeps_program(*x, ctx),
        Expr::PrjR(x) => lemma_typecheck_keeps_program(*x, ctx),
        Expr::Let(x, ann, d, b) => {
            lemma_typecheck_keeps_program(*d, ctx);
            if let Ok(dt) = typecheck_in(*d, ctx) {
                let vt = match ann {
                    Some(t) => t,
                    None => expr_type(dt),
                };
                lemma_typecheck_keeps_program(*b, ctx.push((x.id@, vt)));
            }
        },
        Expr::Ap(f, a) => {
            lemma_typecheck_keeps_program(*f, ctx);
            lemma_typecheck_keeps_program(*a, ctx);
        },
        Expr::BinOp(l, _, r) => {
            lemma_typecheck_keeps_program(*l, ctx);
            lemma_typecheck_keeps_program(*r, ctx);
        },
        Expr::UnOp(_, x) => lemma_typecheck_keeps_program(*x, ctx),
        Expr::Pair(a, b) => {
            lemma_typecheck_keeps_program(*a, ctx);
            lemma_typecheck_keeps_program(*b, ctx);
        },
        _ => {},
    }
}

/// Checking the typed form again, written with the types the checker chose,
/// gives back the same typed form.
pub proof fn lemma_typecheck_recheck(e: Expr, ctx: Scope)
    ensures
        typecheck_in(e, ctx) matches Ok(t) ==> typecheck_in(annotated(t), ctx) == Ok::<TypedExpr, Seq<char>>(t),
    decreases e,
{
    match e {
        Expr::Fun(x, ann, body) => {
            let a = match ann {
                Some(t) => t,
                None => AlfaType::Dyn,
            };
            lemma_typecheck_recheck(*body, ctx.push((x.id@, a)));
        },
        Expr::If(c, t, f) => {
            lemma_typecheck_recheck(*c, ctx);
            lemma_typecheck_recheck(*t, ctx);
            lemma_typecheck_recheck(*f, ctx);
        },
        Expr::Case(c, lx, lb, rx, rb) => {
            lemma_typecheck_recheck(*c, ctx);
            if let Ok(ct) = typecheck_in(*c, ctx) {
                lemma_typecheck_recheck(*lb, ctx.push((lx.id@, sum_left(expr_type(ct)))));
                lemma_typecheck_recheck(*rb, ctx.push((rx.id@, sum_right(expr_type(ct)))));
            }
        },
        Expr::InjL(x) => lemma_typecheck_recheck(*x, ctx),
        Expr::InjR(x) => lemma_typecheck_recheck(*x, ctx),
        Expr::PrjL(x) => lemma_typecheck_recheck(*x, ctx),
        Expr::PrjR(x) => lemma_typecheck_recheck(*x, ctx),
        Expr::Let(x, ann, d, b) => {
            lemma_typecheck_recheck(*d, ctx);
            if let Ok(dt) = typecheck_in(*d, ctx) {
                lemma_consistent_reflexive(expr_type(dt));
                let vt = match ann {
                    Some(t) => t,
                    None => expr_type(dt),
                };
                lemma_typecheck_recheck(*b, ctx.push((x.id@, vt)));
            }
        },
        Expr::Ap(f, a) => {
            lemma_typecheck_recheck(*f, ctx);
            lemma_typecheck_recheck(*a, ctx);
        },
        Expr::BinOp(l, _, r) => {
            lemma_typecheck_recheck(*l, ctx);
            lemma_typecheck_recheck(*r, ctx);
        },
        Expr::UnOp(_, x) => lemma_typecheck_recheck(*x, ctx),
        Expr::Pair(a, b) => {
            lemma_typecheck_recheck(*a, ctx);
            lemma_typecheck_recheck(*b, ctx);
        },
        _ => {},
    }
}

/// The names that a typing context binds.
pub open spec fn scope_names(ctx: Scope) -> Set<Seq<char>> {
    Set::new(|x: Seq<char>| lookup_in(ctx, x) is Some)
}

/// Adding an entry to a context adds its name to the names it binds.
pub proof fn lemma_scope_names_push(ctx: Scope, y: Seq<char>, t: AlfaType)
    ensures
        scope_names(ctx.push((y, t))) == scope_names(ctx).insert(y),
{
    assert forall|x: Seq<char>| scope_names(ctx.push((y, t))).contains(x) == scope_names(ctx).insert(y).contains(x) by {
        if x == y {
            lemma_lookup_update_same(ctx, y, t);
        } else {
            lemma_lookup_update_other(ctx, y, t, x);
        }
    }
    assert(scope_names(ctx.push((y, t))) =~= scope_names(ctx).insert(y));
}

/// The typed form mentions no variable that the context does not bind.
pub proof fn lemma_typecheck_scoped(e: Expr, ctx: Scope)
    ensures
        typecheck_in(e, ctx) matches Ok(t) ==> scoped(t, scope_names(ctx)),
    decreases e,
{
    match e {
        Expr::Fun(x, ann, body) => {
            let a = match ann {
                Some(t) => t,
                None => AlfaType::Dyn,
            };
            lemma_typecheck_scoped(*body, ctx.push((x.id@, a)));
            lemma_scope_names_push(ctx, x.id@, a);
        },
        Expr::If(c, t, f) => {
            lemma_typecheck_scoped(*c, ctx);
            lemma_typecheck_scoped(*t, ctx);
            lemma_typecheck_scoped(*f, ctx);
        },
        Expr::Case(c, lx, lb, rx, rb) => {
            lemma_typecheck_scoped(*c, ctx);
            if let Ok(ct) = typecheck_in(*c, ctx) {
                lemma_typecheck_scoped(*lb, ctx.push((lx.id@, sum_left(expr_type(ct)))));
                lemma_scope_names_push(ctx, lx.id@, sum_left(expr_type(ct)));
                lemma_typecheck_scoped(*rb, ctx.push((rx.id@, sum_right(expr_type(ct)))));
                lemma_scope_names_push(ctx, rx.id@, sum_right(expr_type(ct)));
            }
        },
        Expr::InjL(x) => lemma_typecheck_scoped(*x, ctx),
        Expr::InjR(x) => lemma_typecheck_scoped(*x, ctx),
        Expr::PrjL(x) => lemma_typecheck_scoped(*x, ctx),
        Expr::PrjR(x) => lemma_typecheck_scoped(*x, ctx),
        Expr::Let(x, ann, d, b) => {
            lemma_typecheck_scoped(*d, ctx);
            if let Ok(dt) = typecheck_in(*d, ctx) {
                let vt = match ann {
                    Some(t) => t,
                    None => expr_type(dt),
                };
                lemma_typecheck_scoped(*b, ctx.push((x.id@, vt)));
                lemma_scope_names_push(ctx, x.id@, vt);
            }
        },
        Expr::Ap(f, a) => {
            lemma_typecheck_scoped(*f, ctx);
            lemma_typecheck_scoped(*a, ctx);
        },
        Expr::BinOp(l, _, r) => {
            lemma_typecheck_scoped(*l, ctx);
            lemma_typecheck_scoped(*r, ctx);
        },
        Expr::UnOp(_, x) => lemma_typecheck_scoped(*x, ctx),
        Expr::Pair(a, b) => {
            lemma_typecheck_scoped(*a, ctx);
            lemma_typecheck_scoped(*b, ctx);
        },
        _ => {},
    }
}

} // verus!
