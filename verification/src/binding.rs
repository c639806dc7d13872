//! Laws of type checking about names: what a context entry for a name that
//! a program does not use changes, and what a name that nothing binds does.
use vstd::prelude::*;

use crate::ast::{expr_type, AlfaType, Expr};
use crate::context::lookup_in;
use crate::typechecking::{sum_left, sum_right, typecheck_in, Scope};

verus! {

/// Whether the variable named `x` occurs free in the untyped expression `e`:
/// a function or a binding binds its name in its body, and a case analysis
/// binds the name of each arm in that arm.
pub open spec fn free_in(x: Seq<char>, e: Expr) -> bool
    decreases e,
{
    match e {
        Expr::Var(y) => y.id@ == x,
        Expr::Fun(y, _, body) => y.id@ != x && free_in(x, *body),
        Expr::If(c, t, f) => free_in(x, *c) || free_in(x, *t) || free_in(x, *f),
        Expr::Case(c, l, lb, r, rb) => free_in(x, *c) || (l.id@ != x && free_in(x, *lb)) || (r.id@ != x
            && free_in(x, *rb)),
        Expr::InjL(a) => free_in(x, *a),
        Expr::InjR(a) => free_in(x, *a),
        Expr::PrjL(a) => free_in(x, *a),
        Expr::PrjR(a) => free_in(x, *a),
        Expr::Let(y, _, d, b) => free_in(x, *d) || (y.id@ != x && free_in(x, *b)),
        Expr::Ap(f, a) => free_in(x, *f) || free_in(x, *a),
        Expr::BinOp(l, _, r) => free_in(x, *l) || free_in(x, *r),
        Expr::UnOp(_, a) => free_in(x, *a),
        Expr::Pair(a, b) => free_in(x, *a) || free_in(x, *b),
        _ => false,
    }
}

/// Two contexts that give every name free in `e` the same type.
pub open spec fn same_on_free(e: Expr, c1: Scope, c2: Scope) -> bool {
    forall|x: Seq<char>| #[trigger] free_in(x, e) ==> lookup_in(c1, x) == lookup_in(c2, x)
}

/// Entering a binder keeps two contexts the same on the names free in the
/// body.
proof fn lemma_same_on_free_push(e: Expr, body: Expr, c1: Scope, c2: Scope, y: Seq<char>, t: AlfaType)
    requires
        same_on_free(e, c1, c2),
        forall|x: Seq<char>| free_in(x, body) && x != y ==> #[trigger] free_in(x, e),
    ensures
        same_on_free(body, c1.push((y, t)), c2.push((y, t))),
{
    assert forall|x: Seq<char>| #[trigger] free_in(x, body) implies lookup_in(c1.push((y, t)), x) == lookup_in(
        c2.push((y, t)),
        x,
    ) by {
        assert(c1.push((y, t)).drop_last() =~= c1);
        assert(c2.push((y, t)).drop_last() =~= c2);
        if x != y {
            assert(free_in(x, e));
        }
    }
}

/// Two contexts the same on the names free in `e` are the same on the names
/// free in a part of `e` that binds nothing.
proof fn lemma_same_on_free_sub(e: Expr, sub: Expr, c1: Scope, c2: Scope)
    requires
        same_on_free(e, c1, c2),
        forall|x: Seq<char>| #[trigger] free_in(x, sub) ==> free_in(x, e),
    ensures
        same_on_free(sub, c1, c2),
{
}

/// Type checking reads a context only at the names free in the program:
/// two contexts that agree there give the same result.
pub proof fn lemma_typecheck_free_names(e: Expr, c1: Scope, c2: Scope)
    requires
        same_on_free(e, c1, c2),
    ensures
        typecheck_in(e, c1) == typecheck_in(e, c2),
    decreases e,
{
    match e {
        Expr::Var(y) => {
            assert(free_in(y.id@, e));
        },
        Expr::Fun(y, ann, body) => {
            let a = match ann {
                Some(t) => t,
                None => AlfaType::Dyn,
            };
            lemma_same_on_free_push(e, *body, c1, c2, y.id@, a);
            lemma_typecheck_free_names(*body, c1.push((y.id@, a)), c2.push((y.id@, a)));
        },
        Expr::If(c, t, f) => {
            lemma_same_on_free_sub(e, *c, c1, c2);
            lemma_typecheck_free_names(*c, c1, c2);
            lemma_same_on_free_sub(e, *t, c1, c2);
            lemma_typecheck_free_names(*t, c1, c2);
            lemma_same_on_free_sub(e, *f, c1, c2);
            lemma_typecheck_free_names(*f, c1, c2);
        },
        Expr::Case(c, l, lb, r, rb) => {
            lemma_same_on_free_sub(e, *c, c1, c2);
            lemma_typecheck_free_names(*c, c1, c2);
            if let Ok(ct) = typecheck_in(*c, c1) {
                let lt = sum_left(expr_type(ct));
                let rt = sum_right(expr_type(ct));
                lemma_same_on_free_push(e, *lb, c1, c2, l.id@, lt);
                lemma_same_on_free_push(e, *rb, c1, c2, r.id@, rt);
                lemma_typecheck_free_names(*lb, c1.push((l.id@, lt)), c2.push((l.id@, lt)));
                lemma_typecheck_free_names(*rb, c1.push((r.id@, rt)), c2.push((r.id@, rt)));
            }
        },
        Expr::InjL(a) => {
            lemma_same_on_free_sub(e, *a, c1, c2);
            lemma_typecheck_free_names(*a, c1, c2);
        },
        Expr::InjR(a) => {
            lemma_same_on_free_sub(e, *a, c1, c2);
            lemma_typecheck_free_names(*a, c1, c2);
        },
        Expr::PrjL(a) => {
            lemma_same_on_free_sub(e, *a, c1, c2);
            lemma_typecheck_free_names(*a, c1, c2);
        },
        Expr::PrjR(a) => {
            lemma_same_on_free_sub(e, *a, c1, c2);
            lemma_typecheck_free_names(*a, c1, c2);
        },
        Expr::Let(y, ann, d, b) => {
            lemma_same_on_free_sub(e, *d, c1, c2);
            lemma_typecheck_free_names(*d, c1, c2);
            if let Ok(dt) = typecheck_in(*d, c1) {
                let vt = match ann {
                    Some(t) => t,
                    None => expr_type(dt),
                };
                lemma_same_on_free_push(e, *b, c1, c2, y.id@, vt);
                lemma_typecheck_free_names(*b, c1.push((y.id@, vt)), c2.push((y.id@, vt)));
            }
        },
        Expr::Ap(f, a) => {
            lemma_same_on_free_sub(e, *f, c1, c2);
            lemma_typecheck_free_names(*f, c1, c2);
            lemma_same_on_free_sub(e, *a, c1, c2);
            lemma_typecheck_free_names(*a, c1, c2);
        },
        Expr::BinOp(l, _, r) => {
            lemma_same_on_free_sub(e, *l, c1, c2);
            lemma_typecheck_free_names(*l, c1, c2);
            lemma_same_on_free_sub(e, *r, c1, c2);
            lemma_typecheck_free_names(*r, c1, c2);
        },
        Expr::UnOp(_, a) => {
            lemma_same_on_free_sub(e, *a, c1, c2);
            lemma_typecheck_free_names(*a, c1, c2);
        },
        Expr::Pair(a, b) => {
            lemma_same_on_free_sub(e, *a, c1, c2);
            lemma_typecheck_free_names(*a, c1, c2);
            lemma_same_on_free_sub(e, *b, c1, c2);
            lemma_typecheck_free_names(*b, c1, c2);
        },
        _ => {},
    }
}

/// Adding to the context an entry for a name that is not free in the
/// program leaves the result of type checking unchanged, whatever its type.
pub proof fn lemma_typecheck_unused_entry(e: Expr, ctx: Scope, v: Seq<char>, t: AlfaType)
    requires
        !free_in(v, e),
    ensures
        typecheck_in(e, ctx.push((v, t))) == typecheck_in(e, ctx),
{
    assert forall|x: Seq<char>| #[trigger] free_in(x, e) implies lookup_in(ctx.push((v, t)), x) == lookup_in(
        ctx,
        x,
    ) by {
        assert(ctx.push((v, t)).drop_last() =~= ctx);
    }
    lemma_typecheck_free_names(e, ctx.push((v, t)), ctx);
}

/// A program in which a name occurs free that the context does not bind
/// fails type checking.
pub proof fn lemma_typecheck_unbound_fails(e: Expr, ctx: Scope, x: Seq<char>)
    requires
        free_in(x, e),
        lookup_in(ctx, x) is None,
    ensures
        typecheck_in(e, ctx) is Err,
    decreases e,
{
    match e {
        Expr::Fun(y, ann, body) => {
            let a = match ann {
                Some(t) => t,
                None => AlfaType::Dyn,
            };
            assert(ctx.push((y.id@, a)).drop_last() =~= ctx);
            lemma_typecheck_unbound_fails(*body, ctx.push((y.id@, a)), x);
        },
        Expr::If(c, t, f) => {
            if free_in(x, *c) {
                lemma_typecheck_unbound_fails(*c, ctx, x);
            } else if free_in(x, *t) {
                lemma_typecheck_unbound_fails(*t, ctx, x);
            } else {
                lemma_typecheck_unbound_fails(*f, ctx, x);
            }
        },
        Expr::Case(c, l, lb, r, rb) => {
            if free_in(x, *c) {
                lemma_typecheck_unbound_fails(*c, ctx, x);
            } else if let Ok(ct) = typecheck_in(*c, ctx) {
                let lctx = ctx.push((l.id@, sum_left(expr_type(ct))));
                let rctx = ctx.push((r.id@, sum_right(expr_type(ct))));
                assert(lctx.drop_last() =~= ctx);
                assert(rctx.drop_last() =~= ctx);
                if l.id@ != x && free_in(x, *lb) {
                    lemma_typecheck_unbound_fails(*lb, lctx, x);
                } else {
                    lemma_typecheck_unbound_fails(*rb, rctx, x);
                }
            }
        },
        Expr::InjL(a) => lemma_typecheck_unbound_fails(*a, ctx, x),
        Expr::InjR(a) => lemma_typecheck_unbound_fails(*a, ctx, x),
        Expr::PrjL(a) => lemma_typecheck_unbound_fails(*a, ctx, x),
        Expr::PrjR(a) => lemma_typecheck_unbound_fails(*a, ctx, x),
        Expr::Let(y, ann, d, b) => {
            if free_in(x, *d) {
                lemma_typecheck_unbound_fails(*d, ctx, x);
            } else if let Ok(dt) = typecheck_in(*d, ctx) {
                let vt = match ann {
                    Some(t) => t,
                    None => expr_type(dt),
                };
                assert(ctx.push((y.id@, vt)).drop_last() =~= ctx);
                lemma_typecheck_unbound_fails(*b, ctx.push((y.id@, vt)), x);
            }
        },
        Expr::Ap(f, a) => {
            if free_in(x, *f) {
                lemma_typecheck_unbound_fails(*f, ctx, x);
            } else {
                lemma_typecheck_unbound_fails(*a, ctx, x);
            }
        },
        Expr::BinOp(l, _, r) => {
            if free_in(x, *l) {
                lemma_typecheck_unbound_fails(*l, ctx, x);
            } else {
                lemma_typecheck_unbound_fails(*r, ctx, x);
            }
        },
        Expr::UnOp(_, a) => lemma_typecheck_unbound_fails(*a, ctx, x),
        Expr::Pair(a, b) => {
            if free_in(x, *a) {
                lemma_typecheck_unbound_fails(*a, ctx, x);
            } else {
                lemma_typecheck_unbound_fails(*b, ctx, x);
            }
        },
        _ => {},
    }
}

/// A program with a free variable fails type checking in the empty context.
pub proof fn lemma_free_variable_fails(e: Expr, x: Seq<char>)
    requires
        free_in(x, e),
    ensures
        typecheck_in(e, Seq::empty()) is Err,
{
    crate::context::lemma_lookup_empty(x);
    lemma_typecheck_unbound_fails(e, Seq::empty(), x);
}

} // verus!
