//! The abstract syntax of the gradually typed language: types, the untyped
//! expressions produced by the parser, the typed expressions produced by the
//! type checker and the runtime values produced by the evaluator.
use vstd::prelude::*;

verus! {

/// The types of the language: base types, the three type formers and the
/// unknown type `?` (written `Dyn`).
#[derive(Debug, Eq)]
pub enum AlfaType {
    Num,
    Bool,
    Unit,
    Arrow(Box<AlfaType>, Box<AlfaType>),
    Product(Box<AlfaType>, Box<AlfaType>),
    Sum(Box<AlfaType>, Box<AlfaType>),
    Dyn,
}

/// The function type `a -> b`, as a spec value.
pub open spec fn t_arrow(a: AlfaType, b: AlfaType) -> AlfaType {
    AlfaType::Arrow(Box::new(a), Box::new(b))
}

/// The product type `a * b`, as a spec value.
pub open spec fn t_product(a: AlfaType, b: AlfaType) -> AlfaType {
    AlfaType::Product(Box::new(a), Box::new(b))
}

/// The sum type `a + b`, as a spec value.
pub open spec fn t_sum(a: AlfaType, b: AlfaType) -> AlfaType {
    AlfaType::Sum(Box::new(a), Box::new(b))
}

/// Structural equality of two types.
pub fn types_equal(a: &AlfaType, b: &AlfaType) -> (r: bool)
    ensures
        r == (*a == *b),
    decreases a,
{
    match (a, b) {
        (AlfaType::Num, AlfaType::Num) => true,
        (AlfaType::Bool, AlfaType::Bool) => true,
        (AlfaType::Unit, AlfaType::Unit) => true,
        (AlfaType::Dyn, AlfaType::Dyn) => true,
        (AlfaType::Arrow(a1, a2), AlfaType::Arrow(b1, b2)) => types_equal(a1, b1) && types_equal(a2, b2),
        (AlfaType::Product(a1, a2), AlfaType::Product(b1, b2)) => types_equal(a1, b1) && types_equal(
            a2,
            b2,
        ),
        (AlfaType::Sum(a1, a2), AlfaType::Sum(b1, b2)) => types_equal(a1, b1) && types_equal(a2, b2),
        _ => false,
    }
}

/// A copy of a type, equal to it.
pub fn copy_type(t: &AlfaType) -> (r: AlfaType)
    ensures
        r == *t,
    decreases t,
{
    match t {
        AlfaType::Num => AlfaType::Num,
        AlfaType::Bool => AlfaType::Bool,
        AlfaType::Unit => AlfaType::Unit,
        AlfaType::Dyn => AlfaType::Dyn,
        AlfaType::Arrow(a, b) => AlfaType::Arrow(Box::new(copy_type(a)), Box::new(copy_type(b))),
        AlfaType::Product(a, b) => AlfaType::Product(Box::new(copy_type(a)), Box::new(copy_type(b))),
        AlfaType::Sum(a, b) => AlfaType::Sum(Box::new(copy_type(a)), Box::new(copy_type(b))),
    }
}

impl Clone for AlfaType {
    fn clone(&self) -> (r: AlfaType)
        ensures
            r == *self,
    {
        copy_type(self)
    }
}

impl PartialEq for AlfaType {
    fn eq(&self, other: &AlfaType) -> (r: bool) {
        types_equal(self, other)
    }
}

impl vstd::std_specs::cmp::PartialEqSpecImpl for AlfaType {
    open spec fn obeys_eq_spec() -> bool {
        true
    }

    open spec fn eq_spec(&self, other: &AlfaType) -> bool {
        *self == *other
    }
}

/// Ground types: the base types and the type formers applied to `?` only.
pub open spec fn is_ground_type(t: AlfaType) -> bool {
    match t {
        AlfaType::Num | AlfaType::Bool | AlfaType::Unit => true,
        AlfaType::Arrow(a, b) => *a == AlfaType::Dyn && *b == AlfaType::Dyn,
        AlfaType::Product(a, b) => *a == AlfaType::Dyn && *b == AlfaType::Dyn,
        AlfaType::Sum(a, b) => *a == AlfaType::Dyn && *b == AlfaType::Dyn,
        AlfaType::Dyn => false,
    }
}

/// The ground type that a type's outermost former determines; `?` for `?`.
pub open spec fn ground_of(t: AlfaType) -> AlfaType {
    match t {
        AlfaType::Num => AlfaType::Num,
        AlfaType::Bool => AlfaType::Bool,
        AlfaType::Unit => AlfaType::Unit,
        AlfaType::Arrow(_, _) => t_arrow(AlfaType::Dyn, AlfaType::Dyn),
        AlfaType::Product(_, _) => t_product(AlfaType::Dyn, AlfaType::Dyn),
        AlfaType::Sum(_, _) => t_sum(AlfaType::Dyn, AlfaType::Dyn),
        AlfaType::Dyn => AlfaType::Dyn,
    }
}

impl AlfaType {
    /// Whether this type is ground.
    pub fn is_ground(&self) -> (r: bool)
        ensures
            r == is_ground_type(*self),
    {
        match self {
            AlfaType::Num | AlfaType::Bool | AlfaType::Unit => true,
            AlfaType::Arrow(a, b) => types_equal(a, &AlfaType::Dyn) && types_equal(b, &AlfaType::Dyn),
            AlfaType::Product(a, b) => types_equal(a, &AlfaType::Dyn) && types_equal(
                b,
                &AlfaType::Dyn,
            ),
            AlfaType::Sum(a, b) => types_equal(a, &AlfaType::Dyn) && types_equal(b, &AlfaType::Dyn),
            AlfaType::Dyn => false,
        }
    }

    /// The ground type of this type's outermost former.
    pub fn get_ground(&self) -> (r: AlfaType)
        ensures
            r == ground_of(*self),
    {
        match self {
            AlfaType::Num => AlfaType::Num,
            AlfaType::Bool => AlfaType::Bool,
            AlfaType::Unit => AlfaType::Unit,
            AlfaType::Arrow(_, _) => arrow(AlfaType::Dyn, AlfaType::Dyn),
            AlfaType::Product(_, _) => product(AlfaType::Dyn, AlfaType::Dyn),
            AlfaType::Sum(_, _) => sum(AlfaType::Dyn, AlfaType::Dyn),
            AlfaType::Dyn => AlfaType::Dyn,
        }
    }
}

/// Builds the function type `t1 -> t2`.
pub fn arrow(t1: AlfaType, t2: AlfaType) -> (t: AlfaType)
    ensures
        t == t_arrow(t1, t2),
{
    AlfaType::Arrow(Box::new(t1), Box::new(t2))
}

/// Builds the product type of `t1` and `t2`.
pub fn product(t1: AlfaType, t2: AlfaType) -> (t: AlfaType)
    ensures
        t == t_product(t1, t2),
{
    AlfaType::Product(Box::new(t1), Box::new(t2))
}

/// Builds the sum type of `t1` and `t2`.
pub fn sum(t1: AlfaType, t2: AlfaType) -> (t: AlfaType)
    ensures
        t == t_sum(t1, t2),
{
    AlfaType::Sum(Box::new(t1), Box::new(t2))
}

/// Anything that carries a type.
pub trait KnownType {
    /// The type that `get_type` returns.
    spec fn known_type(&self) -> AlfaType;

    fn get_type(&self) -> (t: &AlfaType)
        ensures
            *t == self.known_type(),
    ;
}

impl KnownType for AlfaType {
    open spec fn known_type(&self) -> AlfaType {
        *self
    }

    fn get_type(&self) -> (t: &AlfaType) {
        self
    }
}

/// The binary operators.
#[derive(Debug, PartialEq, Eq, Structural, Clone, Copy)]
pub enum Infix {
    Plus,
    Minus,
    Times,
    LessThan,
    GreaterThan,
    EqualTo,
}

/// The concrete syntax of a binary operator.
pub open spec fn infix_symbol(op: Infix) -> Seq<char> {
    match op {
        Infix::Plus => "+"@,
        Infix::Minus => "-"@,
        Infix::Times => "*"@,
        Infix::LessThan => "<"@,
        Infix::GreaterThan => ">"@,
        Infix::EqualTo => "=?"@,
    }
}

impl Infix {
    /// The operator as it is written in programs.
    pub fn to_string(&self) -> (s: String)
        ensures
            s@ == infix_symbol(*self),
    {
        let lit = match self {
            Infix::Plus => "+",
            Infix::Minus => "-",
            Infix::Times => "*",
            Infix::LessThan => "<",
            Infix::GreaterThan => ">",
            Infix::EqualTo => "=?",
        };
        lit.to_string()
    }
}

/// The unary operators.
#[derive(Debug, PartialEq, Eq, Structural, Clone, Copy)]
pub enum Prefix {
    Neg,
}

/// An identifier.
#[derive(Debug, PartialEq)]
pub struct Id {
    pub id: String,
}

impl Clone for Id {
    fn clone(&self) -> (r: Id)
        ensures
            r == *self,
    {
        Id { id: self.id.clone() }
    }
}

/// Builds an identifier from its name.
pub fn id(s: &str) -> (r: Id)
    ensures
        r.id@ == s@,
{
    Id { id: s.to_string() }
}

/// Untyped expressions, as the parser produces them.
#[derive(Debug, PartialEq)]
pub enum Expr {
    Num(i32),
    Bool(bool),
    Unit,
    Var(Id),
    Fun(Id, Option<AlfaType>, Box<Expr>),
    If(Box<Expr>, Box<Expr>, Box<Expr>),
    Case(Box<Expr>, Id, Box<Expr>, Id, Box<Expr>),
    InjL(Box<Expr>),
    InjR(Box<Expr>),
    PrjL(Box<Expr>),
    PrjR(Box<Expr>),
    Let(Id, Option<AlfaType>, Box<Expr>, Box<Expr>),
    Ap(Box<Expr>, Box<Expr>),
    BinOp(Box<Expr>, Infix, Box<Expr>),
    UnOp(Prefix, Box<Expr>),
    Pair(Box<Expr>, Box<Expr>),
}

/// Expressions annotated with their types, as the type checker produces them.
/// `Value` stands for a runtime value that evaluation substituted for a variable.
#[derive(Debug, PartialEq)]
pub enum TypedExpr {
    Num(i32),
    Bool(bool),
    Unit,
    Var { id: Id, typ: AlfaType },
    Fun { id: Id, var_typ: AlfaType, body: Box<TypedExpr>, typ: AlfaType },
    If { cond: Box<TypedExpr>, if_body: Box<TypedExpr>, else_body: Box<TypedExpr>, typ: AlfaType },
    Case {
        cond: Box<TypedExpr>,
        l_var: Id,
        l_body: Box<TypedExpr>,
        r_var: Id,
        r_body: Box<TypedExpr>,
        typ: AlfaType,
    },
    InjL { expr: Box<TypedExpr>, typ: AlfaType },
    InjR { expr: Box<TypedExpr>, typ: AlfaType },
    PrjL { expr: Box<TypedExpr>, typ: AlfaType },
    PrjR { expr: Box<TypedExpr>, typ: AlfaType },
    Let { id: Id, var_typ: AlfaType, def: Box<TypedExpr>, body: Box<TypedExpr>, typ: AlfaType },
    Ap { fun: Box<TypedExpr>, arg: Box<TypedExpr>, typ: AlfaType },
    BinOp { lhs: Box<TypedExpr>, op: Infix, rhs: Box<TypedExpr>, typ: AlfaType },
    UnOp { op: Prefix, expr: Box<TypedExpr>, typ: AlfaType },
    Pair { fst: Box<TypedExpr>, snd: Box<TypedExpr>, typ: AlfaType },
    Value { val: Box<AlfaValue> },
}

/// Runtime values. `Cast(v, t)` is `v` seen at type `t`.
#[derive(Debug, PartialEq)]
pub enum AlfaValue {
    Num(i32),
    Bool(bool),
    Unit,
    Pair(Box<AlfaValue>, Box<AlfaValue>, AlfaType),
    Fun(Id, AlfaType, TypedExpr, AlfaType),
    InjL(Box<AlfaValue>, AlfaType),
    InjR(Box<AlfaValue>, AlfaType),
    Cast(Box<AlfaValue>, AlfaType),
}

/// The type of a typed expression: its annotation, or the type of its value.
pub open spec fn expr_type(e: TypedExpr) -> AlfaType {
    match e {
        TypedExpr::Num(_) => AlfaType::Num,
        TypedExpr::Bool(_) => AlfaType::Bool,
        TypedExpr::Unit => AlfaType::Unit,
        TypedExpr::Var { typ, .. } => typ,
        TypedExpr::Fun { typ, .. } => typ,
        TypedExpr::If { typ, .. } => typ,
        TypedExpr::Case { typ, .. } => typ,
        TypedExpr::InjL { typ, .. } => typ,
        TypedExpr::InjR { typ, .. } => typ,
        TypedExpr::PrjL { typ, .. } => typ,
        TypedExpr::PrjR { typ, .. } => typ,
        TypedExpr::Let { typ, .. } => typ,
        TypedExpr::Ap { typ, .. } => typ,
        TypedExpr::BinOp { typ, .. } => typ,
        TypedExpr::UnOp { typ, .. } => typ,
        TypedExpr::Pair { typ, .. } => typ,
        TypedExpr::Value { val } => value_type(*val),
    }
}

/// The type of a value: that of its literal, or its annotation.
pub open spec fn value_type(v: AlfaValue) -> AlfaType {
    match v {
        AlfaValue::Num(_) => AlfaType::Num,
        AlfaValue::Bool(_) => AlfaType::Bool,
        AlfaValue::Unit => AlfaType::Unit,
        AlfaValue::Pair(_, _, t) => t,
        AlfaValue::Fun(_, _, _, t) => t,
        AlfaValue::InjL(_, t) => t,
        AlfaValue::InjR(_, t) => t,
        AlfaValue::Cast(_, t) => t,
    }
}

impl KnownType for TypedExpr {
    open spec fn known_type(&self) -> AlfaType {
        expr_type(*self)
    }

    fn get_type(&self) -> (t: &AlfaType) {
        match self {
            TypedExpr::Num(_) => &AlfaType::Num,
            TypedExpr::Bool(_) => &AlfaType::Bool,
            TypedExpr::Unit => &AlfaType::Unit,
            TypedExpr::Var { typ: t, .. } => t,
            TypedExpr::Fun { typ: t, .. } => t,
            TypedExpr::If { typ: t, .. } => t,
            TypedExpr::Case { typ: t, .. } => t,
            TypedExpr::InjL { typ: t, .. } => t,
            TypedExpr::InjR { typ: t, .. } => t,
            TypedExpr::PrjL { typ: t, .. } => t,
            TypedExpr::PrjR { typ: t, .. } => t,
            TypedExpr::Let { typ: t, .. } => t,
            TypedExpr::Ap { typ: t, .. } => t,
            TypedExpr::BinOp { typ: t, .. } => t,
            TypedExpr::UnOp { typ: t, .. } => t,
            TypedExpr::Pair { typ: t, .. } => t,
            TypedExpr::Value { val } => val.get_type(),
        }
    }
}

impl KnownType for AlfaValue {
    open spec fn known_type(&self) -> AlfaType {
        value_type(*self)
    }

    fn get_type(&self) -> (t: &AlfaType) {
        match self {
            AlfaValue::Num(_) => &AlfaType::Num,
            AlfaValue::Bool(_) => &AlfaType::Bool,
            AlfaValue::Unit => &AlfaType::Unit,
            AlfaValue::Pair(_, _, t) => t,
            AlfaValue::Fun(_, _, _, t) => t,
            AlfaValue::InjL(_, t) => t,
            AlfaValue::InjR(_, t) => t,
            AlfaValue::Cast(_, t) => t,
        }
    }
}

/// A value with all the casts around it removed.
pub open spec fn strip_casts(v: AlfaValue) -> AlfaValue
    decreases v,
{
    match v {
        AlfaValue::Cast(inner, _) => strip_casts(*inner),
        _ => v,
    }
}

impl AlfaValue {
    /// The value underneath all the casts around it.
    pub fn inner(self) -> (r: AlfaValue)
        ensures
            r == strip_casts(self),
            !(r is Cast),
        decreases self,
    {
        match self {
            AlfaValue::Cast(v, _) => (*v).inner(),
            v => v,
        }
    }
}

/// A copy of a typed expression, equal to it.
pub fn copy_expr(e: &TypedExpr) -> (r: TypedExpr)
    ensures
        r == *e,
    decreases e,
{
    match e {
        TypedExpr::Num(n) => TypedExpr::Num(*n),
        TypedExpr::Bool(b) => TypedExpr::Bool(*b),
        TypedExpr::Unit => TypedExpr::Unit,
        TypedExpr::Var { id, typ } => TypedExpr::Var { id: id.clone(), typ: copy_type(typ) },
        TypedExpr::Fun { id, var_typ, body, typ } => TypedExpr::Fun {
            id: id.clone(),
            var_typ: copy_type(var_typ),
            body: Box::new(copy_expr(body)),
            typ: copy_type(typ),
        },
        TypedExpr::If { cond, if_body, else_body, typ } => TypedExpr::If {
            cond: Box::new(copy_expr(cond)),
            if_body: Box::new(copy_expr(if_body)),
            else_body: Box::new(copy_expr(else_body)),
            typ: copy_type(typ),
        },
        TypedExpr::Case { cond, l_var, l_body, r_var, r_body, typ } => TypedExpr::Case {
            cond: Box::new(copy_expr(cond)),
            l_var: l_var.clone(),
            l_body: Box::new(copy_expr(l_body)),
            r_var: r_var.clone(),
            r_body: Box::new(copy_expr(r_body)),
            typ: copy_type(typ),
        },
        TypedExpr::InjL { expr, typ } => TypedExpr::InjL {
            expr: Box::new(copy_expr(expr)),
            typ: copy_type(typ),
        },
        TypedExpr::InjR { expr, typ } => TypedExpr::InjR {
            expr: Box::new(copy_expr(expr)),
            typ: copy_type(typ),
        },
        TypedExpr::PrjL { expr, typ } => TypedExpr::PrjL {
            expr: Box::new(copy_expr(expr)),
            typ: copy_type(typ),
        },
        TypedExpr::PrjR { expr, typ } => TypedExpr::PrjR {
            expr: Box::new(copy_expr(expr)),
            typ: copy_type(typ),
        },
        TypedExpr::Let { id, var_typ, def, body, typ } => TypedExpr::Let {
            id: id.clone(),
            var_typ: copy_type(var_typ),
            def: Box::new(copy_expr(def)),
            body: Box::new(copy_expr(body)),
            typ: copy_type(typ),
        },
        TypedExpr::Ap { fun, arg, typ } => TypedExpr::Ap {
            fun: Box::new(copy_expr(fun)),
            arg: Box::new(copy_expr(arg)),
            typ: copy_type(typ),
        },
        TypedExpr::BinOp { lhs, op, rhs, typ } => TypedExpr::BinOp {
            lhs: Box::new(copy_expr(lhs)),
            op: *op,
            rhs: Box::new(copy_expr(rhs)),
            typ: copy_type(typ),
        },
        TypedExpr::UnOp { op, expr, typ } => TypedExpr::UnOp {
            op: *op,
            expr: Box::new(copy_expr(expr)),
            typ: copy_type(typ),
        },
        TypedExpr::Pair { fst, snd, typ } => TypedExpr::Pair {
            fst: Box::new(copy_expr(fst)),
            snd: Box::new(copy_expr(snd)),
            typ: copy_type(typ),
        },
        TypedExpr::Value { val } => TypedExpr::Value { val: Box::new(copy_value(val)) },
    }
}

/// A copy of a value, equal to it.
pub fn copy_value(v: &AlfaValue) -> (r: AlfaValue)
    ensures
        r == *v,
    decreases v,
{
    match v {
        AlfaValue::Num(n) => AlfaValue::Num(*n),
        AlfaValue::Bool(b) => AlfaValue::Bool(*b),
        AlfaValue::Unit => AlfaValue::Unit,
        AlfaValue::Pair(a, b, t) => AlfaValue::Pair(
            Box::new(copy_value(a)),
            Box::new(copy_value(b)),
            copy_type(t),
        ),
        AlfaValue::Fun(x, vt, body, t) => AlfaValue::Fun(
            x.clone(),
            copy_type(vt),
            copy_expr(body),
            copy_type(t),
        ),
        AlfaValue::InjL(a, t) => AlfaValue::InjL(Box::new(copy_value(a)), copy_type(t)),
        AlfaValue::InjR(a, t) => AlfaValue::InjR(Box::new(copy_value(a)), copy_type(t)),
        AlfaValue::Cast(a, t) => AlfaValue::Cast(Box::new(copy_value(a)), copy_type(t)),
    }
}

impl Clone for TypedExpr {
    fn clone(&self) -> (r: TypedExpr)
        ensures
            r == *self,
    {
        copy_expr(self)
    }
}

impl Clone for AlfaValue {
    fn clone(&self) -> (r: AlfaValue)
        ensures
            r == *self,
    {
        copy_value(self)
    }
}

/// The literal expression `n`.
pub fn num(n: i32) -> (e: TypedExpr)
    ensures
        e == TypedExpr::Num(n),
{
    TypedExpr::Num(n)
}

/// The literal expression `b`.
pub fn bool_lit(b: bool) -> (e: TypedExpr)
    ensures
        e == TypedExpr::Bool(b),
{
    TypedExpr::Bool(b)
}

/// The unit expression `()`.
pub fn unit() -> (e: TypedExpr)
    ensures
        e == TypedExpr::Unit,
{
    TypedExpr::Unit
}

/// The variable `name` at type `typ`.
pub fn var(name: &str, typ: AlfaType) -> (e: TypedExpr)
    ensures
        e matches TypedExpr::Var { id: x, typ: t } && x.id@ == name@ && t == typ,
{
    TypedExpr::Var { id: id(name), typ }
}

/// The function `fun (var: var_typ) -> body` at type `typ`.
pub fn fun(var: &str, var_typ: AlfaType, body: TypedExpr, typ: AlfaType) -> (e: TypedExpr)
    ensures
        e matches TypedExpr::Fun { id: x, var_typ: vt, body: b, typ: t } && x.id@ == var@ && vt
            == var_typ && *b == body && t == typ,
{
    TypedExpr::Fun { id: id(var), var_typ, body: Box::new(body), typ }
}

/// The conditional `if cond then if_body else else_body` at type `typ`.
pub fn if_expr(cond: TypedExpr, if_body: TypedExpr, else_body: TypedExpr, typ: AlfaType) -> (e:
    TypedExpr)
    ensures
        e == (TypedExpr::If {
            cond: Box::new(cond),
            if_body: Box::new(if_body),
            else_body: Box::new(else_body),
            typ,
        }),
{
    TypedExpr::If { cond: Box::new(cond), if_body: Box::new(if_body), else_body: Box::new(else_body), typ }
}

/// The case analysis `case cond of L(l_var) -> l_body else R(r_var) -> r_body` at type `typ`.
pub fn case(
    cond: TypedExpr,
    l_var: &str,
    l_body: TypedExpr,
    r_var: &str,
    r_body: TypedExpr,
    typ: AlfaType,
) -> (e: TypedExpr)
    ensures
        e matches TypedExpr::Case { cond: c, l_var: lx, l_body: lb, r_var: rx, r_body: rb, typ: t }
            && *c == cond && lx.id@ == l_var@ && *lb == l_body && rx.id@ == r_var@ && *rb == r_body
            && t == typ,
{
    TypedExpr::Case {
        cond: Box::new(cond),
        l_var: id(l_var),
        l_body: Box::new(l_body),
        r_var: id(r_var),
        r_body: Box::new(r_body),
        typ,
    }
}

/// The left injection of `expr` at type `typ`.
pub fn injl(expr: TypedExpr, typ: AlfaType) -> (e: TypedExpr)
    ensures
        e == (TypedExpr::InjL { expr: Box::new(expr), typ }),
{
    TypedExpr::InjL { expr: Box::new(expr), typ }
}

/// The right injection of `expr` at type `typ`.
pub fn injr(expr: TypedExpr, typ: AlfaType) -> (e: TypedExpr)
    ensures
        e == (TypedExpr::InjR { expr: Box::new(expr), typ }),
{
    TypedExpr::InjR { expr: Box::new(expr), typ }
}

/// The first projection `expr.fst` at type `typ`.
pub fn prjl(expr: TypedExpr, typ: AlfaType) -> (e: TypedExpr)
    ensures
        e == (TypedExpr::PrjL { expr: Box::new(expr), typ }),
{
    TypedExpr::PrjL { expr: Box::new(expr), typ }
}

/// The second projection `expr.snd` at type `typ`.
pub fn prjr(expr: TypedExpr, typ: AlfaType) -> (e: TypedExpr)
    ensures
        e == (TypedExpr::PrjR { expr: Box::new(expr), typ }),
{
    TypedExpr::PrjR { expr: Box::new(expr), typ }
}

/// The binding `let (var: var_typ) be def in body` at type `typ`.
pub fn let_expr(var: &str, var_typ: AlfaType, def: TypedExpr, body: TypedExpr, typ: AlfaType) -> (e:
    TypedExpr)
    ensures
        e matches TypedExpr::Let { id: x, var_typ: vt, def: d, body: b, typ: t } && x.id@ == var@
            && vt == var_typ && *d == def && *b == body && t == typ,
{
    TypedExpr::Let { id: id(var), var_typ, def: Box::new(def), body: Box::new(body), typ }
}

/// The application `fun(arg)` at type `typ`.
pub fn ap(fun: TypedExpr, arg: TypedExpr, typ: AlfaType) -> (e: TypedExpr)
    ensures
        e == (TypedExpr::Ap { fun: Box::new(fun), arg: Box::new(arg), typ }),
{
    TypedExpr::Ap { fun: Box::new(fun), arg: Box::new(arg), typ }
}

/// The binary operation `lhs op rhs` at type `typ`.
pub fn binop(lhs: TypedExpr, op: Infix, rhs: TypedExpr, typ: AlfaType) -> (e: TypedExpr)
    ensures
        e == (TypedExpr::BinOp { lhs: Box::new(lhs), op, rhs: Box::new(rhs), typ }),
{
    TypedExpr::BinOp { lhs: Box::new(lhs), op, rhs: Box::new(rhs), typ }
}

/// The unary operation `op expr` at type `typ`.
pub fn unop(op: Prefix, expr: TypedExpr, typ: AlfaType) -> (e: TypedExpr)
    ensures
        e == (TypedExpr::UnOp { op, expr: Box::new(expr), typ }),
{
    TypedExpr::UnOp { op, expr: Box::new(expr), typ }
}

/// The pair `(fst, snd)` at type `typ`.
pub fn pair(fst: TypedExpr, snd: TypedExpr, typ: AlfaType) -> (e: TypedExpr)
    ensures
        e == (TypedExpr::Pair { fst: Box::new(fst), snd: Box::new(snd), typ }),
{
    TypedExpr::Pair { fst: Box::new(fst), snd: Box::new(snd), typ }
}

} // verus!
