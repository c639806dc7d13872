//! How types, expressions and values are written in messages: the same text
//! as their derived `Debug` form.
use vstd::prelude::*;

use crate::ast::{AlfaType, AlfaValue, Id, Infix, Prefix, TypedExpr};

verus! {

/// The text of a type.
pub open spec fn type_text(t: AlfaType) -> Seq<char>
    decreases t,
{
    match t {
        AlfaType::Num => "Num"@,
        AlfaType::Bool => "Bool"@,
        AlfaType::Unit => "Unit"@,
        AlfaType::Dyn => "Dyn"@,
        AlfaType::Arrow(a, b) => "Arrow("@ + type_text(*a) + ", "@ + type_text(*b) + ")"@,
        AlfaType::Product(a, b) => "Product("@ + type_text(*a) + ", "@ + type_text(*b) + ")"@,
        AlfaType::Sum(a, b) => "Sum("@ + type_text(*a) + ", "@ + type_text(*b) + ")"@,
    }
}

/// Appends the text of a type.
pub fn push_type(out: &mut String, t: &AlfaType)
    ensures
        final(out)@ == old(out)@ + type_text(*t),
    decreases t,
{
    match t {
        AlfaType::Num => out.append("Num"),
        AlfaType::Bool => out.append("Bool"),
        AlfaType::Unit => out.append("Unit"),
        AlfaType::Dyn => out.append("Dyn"),
        AlfaType::Arrow(a, b) => {
            let ghost s0 = out@;
            out.append("Arrow(");
            push_type(out, a);
            out.append(", ");
            push_type(out, b);
            out.append(")");
            assert(out@ =~= s0 + type_text(*t));
        },
        AlfaType::Product(a, b) => {
            let ghost s0 = out@;
            out.append("Product(");
            push_type(out, a);
            out.append(", ");
            push_type(out, b);
            out.append(")");
            assert(out@ =~= s0 + type_text(*t));
        },
        AlfaType::Sum(a, b) => {
            let ghost s0 = out@;
            out.append("Sum(");
            push_type(out, a);
            out.append(", ");
            push_type(out, b);
            out.append(")");
            assert(out@ =~= s0 + type_text(*t));
        },
    }
}

/// The text of a decimal digit.
pub open spec fn digit_text(d: nat) -> Seq<char> {
    if d == 0 { "0"@ } else if d == 1 { "1"@ } else if d == 2 { "2"@ } else if d == 3 { "3"@ }
    else if d == 4 { "4"@ } else if d == 5 { "5"@ } else if d == 6 { "6"@ } else if d == 7 { "7"@ }
    else if d == 8 { "8"@ } else { "9"@ }
}

/// The decimal text of a natural number.
pub open spec fn nat_text(n: nat) -> Seq<char>
    decreases n,
{
    if n < 10 {
        digit_text(n)
    } else {
        nat_text(n / 10) + digit_text(n % 10)
    }
}

/// The decimal text of an integer, with a leading `-` when it is negative.
pub open spec fn int_text(n: int) -> Seq<char> {
    if n < 0 {
        "-"@ + nat_text((-n) as nat)
    } else {
        nat_text(n as nat)
    }
}

/// The text of a boolean.
pub open spec fn bool_text(b: bool) -> Seq<char> {
    if b { "true"@ } else { "false"@ }
}

/// The text of an identifier.
pub open spec fn id_text(x: Id) -> Seq<char> {
    name_text(x.id@)
}

/// The text of an identifier with the given name.
#[verifier::opaque]
pub open spec fn name_text(name: Seq<char>) -> Seq<char> {
    "Id { id: "@ + debug_quoted(name) + " }"@
}

/// The text that std's `Debug` gives for a string: the string between
/// double quotes, its special characters escaped.
pub uninterp spec fn debug_quoted(s: Seq<char>) -> Seq<char>;

/// A character that std's `Debug` for strings writes as it is.
pub open spec fn debug_plain(c: char) -> bool {
    ('a' <= c && c <= 'z') || ('A' <= c && c <= 'Z') || ('0' <= c && c <= '9') || c == '_'
}

/// std's `Debug` for `str`, as `format!("{:?}", s)` writes it. Claimed: the
/// result depends on the text alone (it is `debug_quoted` of the text), and a
/// text of ASCII letters, digits and underscores comes out unchanged between
/// double quotes. Not stated: how the other characters are escaped (by a
/// backslash for quotes, backslashes and some control characters, as
/// `\u{..}` for the characters that std's tables call non-printable).
#[verifier::external_body]
fn debug_str(s: &str) -> (r: String)
    ensures
        r@ == debug_quoted(s@),
        (forall|i: int| 0 <= i < s@.len() ==> debug_plain(#[trigger] s@[i])) ==> r@ == "\""@ + s@ + "\""@,
{
    format!("{:?}", s)
}

/// The name of a binary operator.
pub open spec fn infix_name(op: Infix) -> Seq<char> {
    match op {
        Infix::Plus => "Plus"@,
        Infix::Minus => "Minus"@,
        Infix::Times => "Times"@,
        Infix::LessThan => "LessThan"@,
        Infix::GreaterThan => "GreaterThan"@,
        Infix::EqualTo => "EqualTo"@,
    }
}

/// The name of a unary operator.
pub open spec fn prefix_name(op: Prefix) -> Seq<char> {
    match op {
        Prefix::Neg => "Neg"@,
    }
}

/// The text of a typed expression.
pub open spec fn expr_text(e: TypedExpr) -> Seq<char>
    decreases e,
{
    match e {
        TypedExpr::Num(n) => "Num("@ + int_text(n as int) + ")"@,
        TypedExpr::Bool(b) => "Bool("@ + bool_text(b) + ")"@,
        TypedExpr::Unit => "Unit"@,
        TypedExpr::Var { id, typ } => "Var { id: "@ + id_text(id) + ", typ: "@ + type_text(typ) + " }"@,
        TypedExpr::Fun { id, var_typ, body, typ } => "Fun { id: "@ + id_text(id) + ", var_typ: "@ + type_text(var_typ) + ", body: "@ + expr_text(*body) + ", typ: "@ + type_text(typ) + " }"@,
        TypedExpr::If { cond, if_body, else_body, typ } => "If { cond: "@ + expr_text(*cond) + ", if_body: "@ + expr_text(*if_body) + ", else_body: "@ + expr_text(*else_body) + ", typ: "@ + type_text(typ) + " }"@,
        TypedExpr::Case { cond, l_var, l_body, r_var, r_body, typ } => "Case { cond: "@ + expr_text(*cond) + ", l_var: "@ + id_text(l_var) + ", l_body: "@ + expr_text(*l_body) + ", r_var: "@ + id_text(r_var) + ", r_body: "@ + expr_text(*r_body) + ", typ: "@ + type_text(typ) + " }"@,
        TypedExpr::InjL { expr, typ } => "InjL { expr: "@ + expr_text(*expr) + ", typ: "@ + type_text(typ) + " }"@,
        TypedExpr::InjR { expr, typ } => "InjR { expr: "@ + expr_text(*expr) + ", typ: "@ + type_text(typ) + " }"@,
        TypedExpr::PrjL { expr, typ } => "PrjL { expr: "@ + expr_text(*expr) + ", typ: "@ + type_text(typ) + " }"@,
        TypedExpr::PrjR { expr, typ } => "PrjR { expr: "@ + expr_text(*expr) + ", typ: "@ + type_text(typ) + " }"@,
        TypedExpr::Let { id, var_typ, def, body, typ } => "Let { id: "@ + id_text(id) + ", var_typ: "@ + type_text(var_typ) + ", def: "@ + expr_text(*def) + ", body: "@ + expr_text(*body) + ", typ: "@ + type_text(typ) + " }"@,
        TypedExpr::Ap { fun, arg, typ } => "Ap { fun: "@ + expr_text(*fun) + ", arg: "@ + expr_text(*arg) + ", typ: "@ + type_text(typ) + " }"@,
        TypedExpr::BinOp { lhs, op, rhs, typ } => "BinOp { lhs: "@ + expr_text(*lhs) + ", op: "@ + infix_name(op) + ", rhs: "@ + expr_text(*rhs) + ", typ: "@ + type_text(typ) + " }"@,
        TypedExpr::UnOp { op, expr, typ } => "UnOp { op: "@ + prefix_name(op) + ", expr: "@ + expr_text(*expr) + ", typ: "@ + type_text(typ) + " }"@,
        TypedExpr::Pair { fst, snd, typ } => "Pair { fst: "@ + expr_text(*fst) + ", snd: "@ + expr_text(*snd) + ", typ: "@ + type_text(typ) + " }"@,
        TypedExpr::Value { val } => "Value { val: "@ + value_text(*val) + " }"@,
    }
}

/// The text of a value.
pub open spec fn value_text(v: AlfaValue) -> Seq<char>
    decreases v,
{
    match v {
        AlfaValue::Num(n) => "Num("@ + int_text(n as int) + ")"@,
        AlfaValue::Bool(b) => "Bool("@ + bool_text(b) + ")"@,
        AlfaValue::Unit => "Unit"@,
        AlfaValue::Pair(a, b, t) => "Pair("@ + value_text(*a) + ", "@ + value_text(*b) + ", "@ + type_text(t) + ")"@,
        AlfaValue::Fun(x, vt, body, t) => "Fun("@ + id_text(x) + ", "@ + type_text(vt) + ", "@ + expr_text(body) + ", "@ + type_text(t) + ")"@,
        AlfaValue::InjL(a, t) => "InjL("@ + value_text(*a) + ", "@ + type_text(t) + ")"@,
        AlfaValue::InjR(a, t) => "InjR("@ + value_text(*a) + ", "@ + type_text(t) + ")"@,
        AlfaValue::Cast(a, t) => "Cast("@ + value_text(*a) + ", "@ + type_text(t) + ")"@,
    }
}

fn digit_lit(d: u32) -> (s: &'static str)
    requires
        d < 10,
    ensures
        s@ == digit_text(d as nat),
{
    if d == 0 { "0" } else if d == 1 { "1" } else if d == 2 { "2" } else if d == 3 { "3" }
    else if d == 4 { "4" } else if d == 5 { "5" } else if d == 6 { "6" } else if d == 7 { "7" }
    else if d == 8 { "8" } else { "9" }
}

fn push_nat(out: &mut String, n: u32)
    ensures
        final(out)@ == old(out)@ + nat_text(n as nat),
    decreases n,
{
    let ghost s0 = out@;
    if n >= 10 {
        push_nat(out, n / 10);
    }
    out.append(digit_lit(n % 10));
    assert(out@ =~= s0 + nat_text(n as nat));
}

/// Appends the decimal text of an integer.
pub fn push_int(out: &mut String, n: i32)
    ensures
        final(out)@ == old(out)@ + int_text(n as int),
{
    let ghost s0 = out@;
    if n < 0 {
        out.append("-");
        let m: i64 = 0i64 - (n as i64);
        push_nat(out, m as u32);
        assert(out@ =~= s0 + int_text(n as int));
    } else {
        push_nat(out, n as u32);
    }
}

/// Appends the text of a boolean.
pub fn push_bool(out: &mut String, b: bool)
    ensures
        final(out)@ == old(out)@ + bool_text(b),
{
    if b {
        out.append("true");
    } else {
        out.append("false");
    }
}

/// Appends the text of an identifier.
pub fn push_id(out: &mut String, x: &Id)
    ensures
        final(out)@ == old(out)@ + id_text(*x),
{
    let ghost s0 = out@;
    out.append("Id { id: ");
    let quoted = debug_str(x.id.as_str());
    out.append(quoted.as_str());
    out.append(" }");
    reveal(name_text);
    assert(out@ =~= s0 + id_text(*x));
}

fn push_infix(out: &mut String, op: &Infix)
    ensures
        final(out)@ == old(out)@ + infix_name(*op),
{
    match op {
        Infix::Plus => out.append("Plus"),
        Infix::Minus => out.append("Minus"),
        Infix::Times => out.append("Times"),
        Infix::LessThan => out.append("LessThan"),
        Infix::GreaterThan => out.append("GreaterThan"),
        Infix::EqualTo => out.append("EqualTo"),
    }
}

fn push_prefix(out: &mut String, op: &Prefix)
    ensures
        final(out)@ == old(out)@ + prefix_name(*op),
{
    match op {
        Prefix::Neg => out.append("Neg"),
    }
}

/// Appends the text of a typed expression that names a variable or binds one.
#[verifier::spinoff_prover]
fn push_binding_form(out: &mut String, e: &TypedExpr)
    requires
        e is Var || e is Fun || e is Case || e is Let,
    ensures
        final(out)@ == old(out)@ + expr_text(*e),
    decreases e, 0nat,
{
    let ghost s0 = out@;
    match e {
        TypedExpr::Var { id, typ } => {
            out.append("Var { id: ");
            push_id(out, id);
            out.append(", typ: ");
            push_type(out, typ);
            out.append(" }");
            assert(out@ =~= s0 + expr_text(*e));
        },
        TypedExpr::Fun { id, var_typ, body, typ } => {
            out.append("Fun { id: ");
            push_id(out, id);
            out.append(", var_typ: ");
            push_type(out, var_typ);
            out.append(", body: ");
            push_expr(out, body);
            out.append(", typ: ");
            push_type(out, typ);
            out.append(" }");
            assert(out@ =~= s0 + expr_text(*e));
        },
        TypedExpr::Case { cond, l_var, l_body, r_var, r_body, typ } => {
            out.append("Case { cond: ");
            push_expr(out, cond);
            out.append(", l_var: ");
            push_id(out, l_var);
            out.append(", l_body: ");
            push_expr(out, l_body);
            out.append(", r_var: ");
            push_id(out, r_var);
            out.append(", r_body: ");
            push_expr(out, r_body);
            out.append(", typ: ");
            push_type(out, typ);
            out.append(" }");
            assert(out@ =~= s0 + expr_text(*e));
        },
        TypedExpr::Let { id, var_typ, def, body, typ } => {
            out.append("Let { id: ");
            push_id(out, id);
            out.append(", var_typ: ");
            push_type(out, var_typ);
            out.append(", def: ");
            push_expr(out, def);
            out.append(", body: ");
            push_expr(out, body);
            out.append(", typ: ");
            push_type(out, typ);
            out.append(" }");
            assert(out@ =~= s0 + expr_text(*e));
        },
        _ => {},
    }
}

/// Appends the text of a typed expression.
#[verifier::spinoff_prover]
#[verifier::rlimit(100)]
pub fn push_expr(out: &mut String, e: &TypedExpr)
    ensures
        final(out)@ == old(out)@ + expr_text(*e),
    decreases e, 1nat,
{
    let ghost s0 = out@;
    match e {
        TypedExpr::Var { .. } | TypedExpr::Fun { .. } | TypedExpr::Case { .. } | TypedExpr::Let { .. } => {
            push_binding_form(out, e);
        },
        TypedExpr::Num(n) => {
            out.append("Num(");
            push_int(out, *n);
            out.append(")");
            assert(out@ =~= s0 + expr_text(*e));
        },
        TypedExpr::Bool(b) => {
            out.append("Bool(");
            push_bool(out, *b);
            out.append(")");
            assert(out@ =~= s0 + expr_text(*e));
        },
        TypedExpr::Unit => out.append("Unit"),
        TypedExpr::If { cond, if_body, else_body, typ } => {
            out.append("If { cond: ");
            push_expr(out, cond);
            out.append(", if_body: ");
            push_expr(out, if_body);
            out.append(", else_body: ");
            push_expr(out, else_body);
            out.append(", typ: ");
            push_type(out, typ);
            out.append(" }");
            assert(out@ =~= s0 + expr_text(*e));
        },
        TypedExpr::InjL { expr, typ } => {
            out.append("InjL { expr: ");
            push_expr(out, expr);
            out.append(", typ: ");
            push_type(out, typ);
            out.append(" }");
            assert(out@ =~= s0 + expr_text(*e));
        },
        TypedExpr::InjR { expr, typ } => {
            out.append("InjR { expr: ");
            push_expr(out, expr);
            out.append(", typ: ");
            push_type(out, typ);
            out.append(" }");
            assert(out@ =~= s0 + expr_text(*e));
        },
        TypedExpr::PrjL { expr, typ } => {
            out.append("PrjL { expr: ");
            push_expr(out, expr);
            out.append(", typ: ");
            push_type(out, typ);
            out.append(" }");
            assert(out@ =~= s0 + expr_text(*e));
        },
        TypedExpr::PrjR { expr, typ } => {
            out.append("PrjR { expr: ");
            push_expr(out, expr);
            out.append(", typ: ");
            push_type(out, typ);
            out.append(" }");
            assert(out@ =~= s0 + expr_text(*e));
        },
        TypedExpr::Ap { fun, arg, typ } => {
            out.append("Ap { fun: ");
            push_expr(out, fun);
            out.append(", arg: ");
            push_expr(out, arg);
            out.append(", typ: ");
            push_type(out, typ);
            out.append(" }");
            assert(out@ =~= s0 + expr_text(*e));
        },
        TypedExpr::BinOp { lhs, op, rhs, typ } => {
            out.append("BinOp { lhs: ");
            push_expr(out, lhs);
            out.append(", op: ");
            push_infix(out, op);
            out.append(", rhs: ");
            push_expr(out, rhs);
            out.append(", typ: ");
            push_type(out, typ);
            out.append(" }");
            assert(out@ =~= s0 + expr_text(*e));
        },
        TypedExpr::UnOp { op, expr, typ } => {
            out.append("UnOp { op: ");
            push_prefix(out, op);
            out.append(", expr: ");
            push_expr(out, expr);
            out.append(", typ: ");
            push_type(out, typ);
            out.append(" }");
            assert(out@ =~= s0 + expr_text(*e));
        },
        TypedExpr::Pair { fst, snd, typ } => {
            out.append("Pair { fst: ");
            push_expr(out, fst);
            out.append(", snd: ");
            push_expr(out, snd);
            out.append(", typ: ");
            push_type(out, typ);
            out.append(" }");
            assert(out@ =~= s0 + expr_text(*e));
        },
        TypedExpr::Value { val } => {
            out.append("Value { val: ");
            push_value(out, val);
            out.append(" }");
            assert(out@ =~= s0 + expr_text(*e));
        },
    }
}

/// Appends the text of a value.
pub fn push_value(out: &mut String, v: &AlfaValue)
    ensures
        final(out)@ == old(out)@ + value_text(*v),
    decreases v,
{
    let ghost s0 = out@;
    match v {
        AlfaValue::Num(n) => {
            out.append("Num(");
            push_int(out, *n);
            out.append(")");
        },
        AlfaValue::Bool(b) => {
            out.append("Bool(");
            push_bool(out, *b);
            out.append(")");
        },
        AlfaValue::Unit => out.append("Unit"),
        AlfaValue::Pair(a, b, t) => {
            out.append("Pair(");
            push_value(out, a);
            out.append(", ");
            push_value(out, b);
            out.append(", ");
            push_type(out, t);
            out.append(")");
        },
        AlfaValue::Fun(x, vt, body, t) => {
            out.append("Fun(");
            push_id(out, x);
            out.append(", ");
            push_type(out, vt);
            out.append(", ");
            push_expr(out, body);
            out.append(", ");
            push_type(out, t);
            out.append(")");
        },
        AlfaValue::InjL(a, t) => {
            out.append("InjL(");
            push_value(out, a);
            out.append(", ");
            push_type(out, t);
            out.append(")");
        },
        AlfaValue::InjR(a, t) => {
            out.append("InjR(");
            push_value(out, a);
            out.append(", ");
            push_type(out, t);
            out.append(")");
        },
        AlfaValue::Cast(a, t) => {
            out.append("Cast(");
            push_value(out, a);
            out.append(", ");
            push_type(out, t);
            out.append(")");
        },
    }
    assert(out@ =~= s0 + value_text(*v));
}

} // verus!
