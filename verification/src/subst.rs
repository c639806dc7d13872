//! Substitution of a value for a variable in a typed expression.
use vstd::prelude::*;

use crate::ast::{copy_value, expr_type, AlfaValue, Id, TypedExpr};

verus! {

/// `e` with `val` put in place of each free occurrence of the variable named `x`.
/// A binder of the same name hides the variable in its scope.
pub open spec fn subst_in(x: Seq<char>, val: AlfaValue, e: TypedExpr) -> TypedExpr
    decreases e,
{
    match e {
        TypedExpr::Var { id, typ } => if id.id@ == x {
            TypedExpr::Value { val: Box::new(val) }
        } else {
            e
        },
        TypedExpr::Fun { id, var_typ, body, typ } => if id.id@ == x {
            e
        } else {
            TypedExpr::Fun { id, var_typ, body: Box::new(subst_in(x, val, *body)), typ }
        },
        TypedExpr::If { cond, if_body, else_body, typ } => TypedExpr::If {
            cond: Box::new(subst_in(x, val, *cond)),
            if_body: Box::new(subst_in(x, val, *if_body)),
            else_body: Box::new(subst_in(x, val, *else_body)),
            typ,
        },
        TypedExpr::Case { cond, l_var, l_body, r_var, r_body, typ } => TypedExpr::Case {
            cond: Box::new(subst_in(x, val, *cond)),
            l_var,
            l_body: if l_var.id@ == x {
                l_body
            } else {
                Box::new(subst_in(x, val, *l_body))
            },
            r_var,
            r_body: if r_var.id@ == x {
                r_body
            } else {
                Box::new(subst_in(x, val, *r_body))
            },
            typ,
        },
        TypedExpr::InjL { expr, typ } => TypedExpr::InjL { expr: Box::new(subst_in(x, val, *expr)), typ },
        TypedExpr::InjR { expr, typ } => TypedExpr::InjR { expr: Box::new(subst_in(x, val, *expr)), typ },
        TypedExpr::PrjL { expr, typ } => TypedExpr::PrjL { expr: Box::new(subst_in(x, val, *expr)), typ },
        TypedExpr::PrjR { expr, typ } => TypedExpr::PrjR { expr: Box::new(subst_in(x, val, *expr)), typ },
        TypedExpr::Let { id, var_typ, def, body, typ } => TypedExpr::Let {
            id,
            var_typ,
            def: Box::new(subst_in(x, val, *def)),
            body: if id.id@ == x {
                body
            } else {
                Box::new(subst_in(x, val, *body))
            },
            typ,
        },
        TypedExpr::Ap { fun, arg, typ } => TypedExpr::Ap {
            fun: Box::new(subst_in(x, val, *fun)),
            arg: Box::new(subst_in(x, val, *arg)),
            typ,
        },
        TypedExpr::BinOp { lhs, op, rhs, typ } => TypedExpr::BinOp {
            lhs: Box::new(subst_in(x, val, *lhs)),
            op,
            rhs: Box::new(subst_in(x, val, *rhs)),
            typ,
        },
        TypedExpr::UnOp { op, expr, typ } => TypedExpr::UnOp { op, expr: Box::new(subst_in(x, val, *expr)), typ },
        TypedExpr::Pair { fst, snd, typ } => TypedExpr::Pair {
            fst: Box::new(subst_in(x, val, *fst)),
            snd: Box::new(subst_in(x, val, *snd)),
            typ,
        },
        _ => e,
    }
}

/// Whether the variable named `x` occurs free in `e` (values are closed).
pub open spec fn occurs_free(x: Seq<char>, e: TypedExpr) -> bool
    decreases e,
{
    match e {
        TypedExpr::Var { id, .. } => id.id@ == x,
        TypedExpr::Fun { id, body, .. } => id.id@ != x && occurs_free(x, *body),
        TypedExpr::If { cond, if_body, else_body, .. } => occurs_free(x, *cond) || occurs_free(x, *if_body)
            || occurs_free(x, *else_body),
        TypedExpr::Case { cond, l_var, l_body, r_var, r_body, .. } => occurs_free(x, *cond) || (l_var.id@
            != x && occurs_free(x, *l_body)) || (r_var.id@ != x && occurs_free(x, *r_body)),
        TypedExpr::InjL { expr, .. } => occurs_free(x, *expr),
        TypedExpr::InjR { expr, .. } => occurs_free(x, *expr),
        TypedExpr::PrjL { expr, .. } => occurs_free(x, *expr),
        TypedExpr::PrjR { expr, .. } => occurs_free(x, *expr),
        TypedExpr::Let { id, def, body, .. } => occurs_free(x, *def) || (id.id@ != x && occurs_free(x, *body)),
        TypedExpr::Ap { fun, arg, .. } => occurs_free(x, *fun) || occurs_free(x, *arg),
        TypedExpr::BinOp { lhs, rhs, .. } => occurs_free(x, *lhs) || occurs_free(x, *rhs),
        TypedExpr::UnOp { expr, .. } => occurs_free(x, *expr),
        TypedExpr::Pair { fst, snd, .. } => occurs_free(x, *fst) || occurs_free(x, *snd),
        _ => false,
    }
}

/// Whether two identifiers have the same name.
pub fn same_id(a: &Id, b: &Id) -> (r: bool)
    ensures
        r == (a.id@ == b.id@),
{
    a.id == b.id
}

/// `expr` with `val` put in place of each free occurrence of `sub_id`.
pub fn subst(sub_id: &Id, val: &AlfaValue, expr: TypedExpr) -> (r: TypedExpr)
    ensures
        r == subst_in(sub_id.id@, *val, expr),
    decreases expr,
{
    match expr {
        TypedExpr::Num(n) => TypedExpr::Num(n),
        TypedExpr::Bool(b) => TypedExpr::Bool(b),
        TypedExpr::Unit => TypedExpr::Unit,
        TypedExpr::Value { val: v } => TypedExpr::Value { val: v },
        TypedExpr::Pair { fst, snd, typ } => TypedExpr::Pair {
            fst: Box::new(subst(sub_id, val, *fst)),
            snd: Box::new(subst(sub_id, val, *snd)),
            typ,
        },
        TypedExpr::Fun { id, var_typ, body, typ } => {
            if same_id(&id, sub_id) {
                TypedExpr::Fun { id, var_typ, body, typ }
            } else {
                TypedExpr::Fun { id, var_typ, body: Box::new(subst(sub_id, val, *body)), typ }
            }
        },
        TypedExpr::Var { id, typ } => {
            if same_id(&id, sub_id) {
                TypedExpr::Value { val: Box::new(copy_value(val)) }
            } else {
                TypedExpr::Var { id, typ }
            }
        },
        TypedExpr::If { cond, if_body, else_body, typ } => TypedExpr::If {
            cond: Box::new(subst(sub_id, val, *cond)),
            if_body: Box::new(subst(sub_id, val, *if_body)),
            else_body: Box::new(subst(sub_id, val, *else_body)),
            typ,
        },
        TypedExpr::Case { cond, l_var, l_body, r_var, r_body, typ } => {
            let l_body = if same_id(&l_var, sub_id) {
                l_body
            } else {
                Box::new(subst(sub_id, val, *l_body))
            };
            let r_body = if same_id(&r_var, sub_id) {
                r_body
            } else {
                Box::new(subst(sub_id, val, *r_body))
            };
            TypedExpr::Case { cond: Box::new(subst(sub_id, val, *cond)), l_var, l_body, r_var, r_body, typ }
        },
        TypedExpr::InjL { expr, typ } => TypedExpr::InjL { expr: Box::new(subst(sub_id, val, *expr)), typ },
        TypedExpr::InjR { expr, typ } => TypedExpr::InjR { expr: Box::new(subst(sub_id, val, *expr)), typ },
        TypedExpr::PrjL { expr, typ } => TypedExpr::PrjL { expr: Box::new(subst(sub_id, val, *expr)), typ },
        TypedExpr::PrjR { expr, typ } => TypedExpr::PrjR { expr: Box::new(subst(sub_id, val, *expr)), typ },
        TypedExpr::Let { id, var_typ, def, body, typ } => {
            let def = Box::new(subst(sub_id, val, *def));
            let body = if same_id(&id, sub_id) {
                body
            } else {
                Box::new(subst(sub_id, val, *body))
            };
            TypedExpr::Let { id, var_typ, def, body, typ }
        },
        TypedExpr::Ap { fun, arg, typ } => TypedExpr::Ap {
            fun: Box::new(subst(sub_id, val, *fun)),
            arg: Box::new(subst(sub_id, val, *arg)),
            typ,
        },
        TypedExpr::BinOp { lhs, op, rhs, typ } => TypedExpr::BinOp {
            lhs: Box::new(subst(sub_id, val, *lhs)),
            op,
            rhs: Box::new(subst(sub_id, val, *rhs)),
            typ,
        },
        TypedExpr::UnOp { op, expr, typ } => TypedExpr::UnOp {
            op,
            expr: Box::new(subst(sub_id, val, *expr)),
            typ,
        },
    }
}

/// Substitution keeps the type of every expression but the replaced variable.
pub proof fn lemma_subst_keeps_type(x: Seq<char>, val: AlfaValue, e: TypedExpr)
    requires
        !(e matches TypedExpr::Var { id, .. } && id.id@ == x),
    ensures
        expr_type(subst_in(x, val, e)) == expr_type(e),
{
}

/// Substituting for a variable that does not occur free changes nothing.
pub proof fn lemma_subst_not_free(x: Seq<char>, val: AlfaValue, e: TypedExpr)
    requires
        !occurs_free(x, e),
    ensures
        subst_in(x, val, e) == e,
    decreases e,
{
    match e {
        TypedExpr::Fun { id, body, .. } => {
            if id.id@ != x {
                lemma_subst_not_free(x, val, *body);
            }
        },
        TypedExpr::If { cond, if_body, else_body, .. } => {
            lemma_subst_not_free(x, val, *cond);
            lemma_subst_not_free(x, val, *if_body);
            lemma_subst_not_free(x, val, *else_body);
        },
        TypedExpr::Case { cond, l_var, l_body, r_var, r_body, .. } => {
            lemma_subst_not_free(x, val, *cond);
            if l_var.id@ != x {
                lemma_subst_not_free(x, val, *l_body);
            }
            if r_var.id@ != x {
                lemma_subst_not_free(x, val, *r_body);
            }
        },
        TypedExpr::InjL { expr, .. } => lemma_subst_not_free(x, val, *expr),
        TypedExpr::InjR { expr, .. } => lemma_subst_not_free(x, val, *expr),
        TypedExpr::PrjL { expr, .. } => lemma_subst_not_free(x, val, *expr),
        TypedExpr::PrjR { expr, .. } => lemma_subst_not_free(x, val, *expr),
        TypedExpr::Let { id, def, body, .. } => {
            lemma_subst_not_free(x, val, *def);
            if id.id@ != x {
                lemma_subst_not_free(x, val, *body);
            }
        },
        TypedExpr::Ap { fun, arg, .. } => {
            lemma_subst_not_free(x, val, *fun);
            lemma_subst_not_free(x, val, *arg);
        },
        TypedExpr::BinOp { lhs, rhs, .. } => {
            lemma_subst_not_free(x, val, *lhs);
            lemma_subst_not_free(x, val, *rhs);
        },
        TypedExpr::UnOp { expr, .. } => lemma_subst_not_free(x, val, *expr),
        TypedExpr::Pair { fst, snd, .. } => {
            lemma_subst_not_free(x, val, *fst);
            lemma_subst_not_free(x, val, *snd);
        },
        _ => {},
    }
}

/// After substitution the variable no longer occurs free.
pub proof fn lemma_subst_removes_variable(x: Seq<char>, val: AlfaValue, e: TypedExpr)
    ensures
        !occurs_free(x, subst_in(x, val, e)),
    decreases e,
{
    match e {
        TypedExpr::Fun { id, body, .. } => {
            if id.id@ != x {
                lemma_subst_removes_variable(x, val, *body);
            }
        },
        TypedExpr::If { cond, if_body, else_body, .. } => {
            lemma_subst_removes_variable(x, val, *cond);
            lemma_subst_removes_variable(x, val, *if_body);
            lemma_subst_removes_variable(x, val, *else_body);
        },
        TypedExpr::Case { cond, l_var, l_body, r_var, r_body, .. } => {
            lemma_subst_removes_variable(x, val, *cond);
            if l_var.id@ != x {
                lemma_subst_removes_variable(x, val, *l_body);
            }
            if r_var.id@ != x {
                lemma_subst_removes_variable(x, val, *r_body);
            }
        },
        TypedExpr::InjL { expr, .. } => lemma_subst_removes_variable(x, val, *expr),
        TypedExpr::InjR { expr, .. } => lemma_subst_removes_variable(x, val, *expr),
        TypedExpr::PrjL { expr, .. } => lemma_subst_removes_variable(x, val, *expr),
        TypedExpr::PrjR { expr, .. } => lemma_subst_removes_variable(x, val, *expr),
        TypedExpr::Let { id, def, body, .. } => {
            lemma_subst_removes_variable(x, val, *def);
            if id.id@ != x {
                lemma_subst_removes_variable(x, val, *body);
            }
        },
        TypedExpr::Ap { fun, arg, .. } => {
            lemma_subst_removes_variable(x, val, *fun);
            lemma_subst_removes_variable(x, val, *arg);
        },
        TypedExpr::BinOp { lhs, rhs, .. } => {
            lemma_subst_removes_variable(x, val, *lhs);
            lemma_subst_removes_variable(x, val, *rhs);
        },
        TypedExpr::UnOp { expr, .. } => lemma_subst_removes_variable(x, val, *expr),
        TypedExpr::Pair { fst, snd, .. } => {
            lemma_subst_removes_variable(x, val, *fst);
            lemma_subst_removes_variable(x, val, *snd);
        },
        _ => {},
    }
}

/// Every variable of `e` is in `bound` or bound by a binder around it, and
/// every value in `e` is closed.
pub open spec fn scoped(e: TypedExpr, bound: Set<Seq<char>>) -> bool
    decreases e,
{
    match e {
        TypedExpr::Var { id, .. } => bound.contains(id.id@),
        TypedExpr::Fun { id, body, .. } => scoped(*body, bound.insert(id.id@)),
        TypedExpr::If { cond, if_body, else_body, .. } => scoped(*cond, bound) && scoped(*if_body, bound)
            && scoped(*else_body, bound),
        TypedExpr::Case { cond, l_var, l_body, r_var, r_body, .. } => scoped(*cond, bound) && scoped(
            *l_body,
            bound.insert(l_var.id@),
        ) && scoped(*r_body, bound.insert(r_var.id@)),
        TypedExpr::InjL { expr, .. } => scoped(*expr, bound),
        TypedExpr::InjR { expr, .. } => scoped(*expr, bound),
        TypedExpr::PrjL { expr, .. } => scoped(*expr, bound),
        TypedExpr::PrjR { expr, .. } => scoped(*expr, bound),
        TypedExpr::Let { id, def, body, .. } => scoped(*def, bound) && scoped(*body, bound.insert(id.id@)),
        TypedExpr::Ap { fun, arg, .. } => scoped(*fun, bound) && scoped(*arg, bound),
        TypedExpr::BinOp { lhs, rhs, .. } => scoped(*lhs, bound) && scoped(*rhs, bound),
        TypedExpr::UnOp { expr, .. } => scoped(*expr, bound),
        TypedExpr::Pair { fst, snd, .. } => scoped(*fst, bound) && scoped(*snd, bound),
        TypedExpr::Value { val } => closed_value(*val),
        _ => true,
    }
}

/// A closed value: the body of each function in it mentions no variable but
/// the function's own parameter.
pub open spec fn closed_value(v: AlfaValue) -> bool
    decreases v,
{
    match v {
        AlfaValue::Pair(a, b, _) => closed_value(*a) && closed_value(*b),
        AlfaValue::Fun(x, _, body, _) => scoped(body, Set::empty().insert(x.id@)),
        AlfaValue::InjL(a, _) => closed_value(*a),
        AlfaValue::InjR(a, _) => closed_value(*a),
        AlfaValue::Cast(a, _) => closed_value(*a),
        _ => true,
    }
}

/// Putting a closed value in place of a variable removes the variable from
/// the names an expression needs bound.
pub proof fn lemma_subst_scoped(x: Seq<char>, v: AlfaValue, e: TypedExpr, bound: Set<Seq<char>>)
    requires
        scoped(e, bound.insert(x)),
        closed_value(v),
    ensures
        scoped(subst_in(x, v, e), bound),
    decreases e,
{
    match e {
        TypedExpr::Fun { id, body, .. } => {
            let y = id.id@;
            if y == x {
                assert(bound.insert(x).insert(y) =~= bound.insert(y));
            } else {
                assert(bound.insert(x).insert(y) =~= bound.insert(y).insert(x));
                lemma_subst_scoped(x, v, *body, bound.insert(y));
            }
        },
        TypedExpr::If { cond, if_body, else_body, .. } => {
            lemma_subst_scoped(x, v, *cond, bound);
            lemma_subst_scoped(x, v, *if_body, bound);
            lemma_subst_scoped(x, v, *else_body, bound);
        },
        TypedExpr::Case { cond, l_var, l_body, r_var, r_body, .. } => {
            lemma_subst_scoped(x, v, *cond, bound);
            let l = l_var.id@;
            let r = r_var.id@;
            if l == x {
                assert(bound.insert(x).insert(l) =~= bound.insert(l));
            } else {
                assert(bound.insert(x).insert(l) =~= bound.insert(l).insert(x));
                lemma_subst_scoped(x, v, *l_body, bound.insert(l));
            }
            if r == x {
                assert(bound.insert(x).insert(r) =~= bound.insert(r));
            } else {
                assert(bound.insert(x).insert(r) =~= bound.insert(r).insert(x));
                lemma_subst_scoped(x, v, *r_body, bound.insert(r));
            }
        },
        TypedExpr::InjL { expr, .. } => lemma_subst_scoped(x, v, *expr, bound),
        TypedExpr::InjR { expr, .. } => lemma_subst_scoped(x, v, *expr, bound),
        TypedExpr::PrjL { expr, .. } => lemma_subst_scoped(x, v, *expr, bound),
        TypedExpr::PrjR { expr, .. } => lemma_subst_scoped(x, v, *expr, bound),
        TypedExpr::Let { id, def, body, .. } => {
            lemma_subst_scoped(x, v, *def, bound);
            let y = id.id@;
            if y == x {
                assert(bound.insert(x).insert(y) =~= bound.insert(y));
            } else {
                assert(bound.insert(x).insert(y) =~= bound.insert(y).insert(x));
                lemma_subst_scoped(x, v, *body, bound.insert(y));
            }
        },
        TypedExpr::Ap { fun, arg, .. } => {
            lemma_subst_scoped(x, v, *fun, bound);
            lemma_subst_scoped(x, v, *arg, bound);
        },
        TypedExpr::BinOp { lhs, rhs, .. } => {
            lemma_subst_scoped(x, v, *lhs, bound);
            lemma_subst_scoped(x, v, *rhs, bound);
        },
        TypedExpr::UnOp { expr, .. } => lemma_subst_scoped(x, v, *expr, bound),
        TypedExpr::Pair { fst, snd, .. } => {
            lemma_subst_scoped(x, v, *fst, bound);
            lemma_subst_scoped(x, v, *snd, bound);
        },
        _ => {},
    }
}

} // verus!
