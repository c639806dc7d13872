use alfa::ast::AlfaType::{Bool, Dyn, Num, Unit};
use alfa::ast::{
    ap, arrow, binop, bool_lit, case, fun, if_expr, injl, injr, let_expr, num, pair, prjl, prjr, product,
    sum, unit, unop, var, AlfaType, Infix, KnownType, Prefix,
};
use alfa::context::Context;
use alfa::parser::parse_alfa_program;
use alfa::typechecking::{typecheck, typecheck_helper};

#[test]
fn test_basic_values() {
    let p = parse_alfa_program("x").unwrap();
    let typed = typecheck(p);
    assert_eq!(typed, Err("Unknown variable: ``x''".to_string()));
    let p = parse_alfa_program("1").unwrap();
    let typed = typecheck(p);
    assert_eq!(typed, Ok(num(1)));
    assert_eq!(typed.unwrap().get_type(), &AlfaType::Num);
    let p = parse_alfa_program("true").unwrap();
    let typed = typecheck(p);
    assert_eq!(typed, Ok(bool_lit(true)));
    assert_eq!(typed.unwrap().get_type(), &AlfaType::Bool);
    let p = parse_alfa_program("()").unwrap();
    let typed = typecheck(p);
    assert_eq!(typed, Ok(unit()));
    assert_eq!(typed.unwrap().get_type(), &AlfaType::Unit);
}

#[test]
fn test_fun() {
    let p = parse_alfa_program("fun x -> x").unwrap();
    assert_eq!(
        typecheck(p).unwrap(),
        fun("x", Dyn, var("x", Dyn), arrow(Dyn, Dyn))
    );
    let p = parse_alfa_program("fun (x: Num) -> x").unwrap();
    assert_eq!(
        typecheck(p).unwrap(),
        fun("x", Num, var("x", Num), arrow(Num, Num))
    );
}

#[test]
fn typechecking_test_if() {
    let p = parse_alfa_program("if 1 < 2 then 3 else 4").unwrap();
    assert_eq!(
        typecheck(p).unwrap(),
        if_expr(
            binop(num(1), Infix::LessThan, num(2), Bool),
            num(3),
            num(4),
            Num
        )
    );
    let p = parse_alfa_program("fun x -> (if x > 0 then x else 1)").unwrap();
    assert_eq!(
        typecheck(p).unwrap(),
        fun(
            "x",
            Dyn,
            if_expr(
                binop(var("x", Dyn), Infix::GreaterThan, num(0), Bool),
                var("x", Dyn),
                num(1),
                Dyn,
            ),
            arrow(Dyn, Dyn)
        )
    );
    // Check that consistency is properly handled for both branches
    let ctx = Context::new().update("x", &Dyn);
    let p = parse_alfa_program("if x > 0 then fun x -> x else fun (x: Num) -> x").unwrap();
    assert_eq!(
        typecheck_helper(p, ctx.clone()),
        Ok(if_expr(
            binop(var("x", Dyn), Infix::GreaterThan, num(0), Bool),
            fun("x", Dyn, var("x", Dyn), arrow(Dyn, Dyn)),
            fun("x", Num, var("x", Num), arrow(Num, Num)),
            arrow(Dyn, Dyn)
        ))
    );
    let p = parse_alfa_program("if x > 0 then fun (x: Num) -> x else fun x -> x").unwrap();
    assert_eq!(
        typecheck_helper(p, ctx.clone()),
        Ok(if_expr(
            binop(var("x", Dyn), Infix::GreaterThan, num(0), Bool),
            fun("x", Num, var("x", Num), arrow(Num, Num)),
            fun("x", Dyn, var("x", Dyn), arrow(Dyn, Dyn)),
            arrow(Dyn, Dyn)
        ))
    );
    let p = parse_alfa_program("if 1 then 2 else 3").unwrap();
    assert_eq!(
        typecheck(p),
        Err("Condition for if (Num(1)) must be consistent with bool".to_string())
    );
    let p = parse_alfa_program("if true then (1,x) else (2,3)").unwrap();
    assert_eq!(
        typecheck_helper(p, ctx).unwrap(),
        if_expr(
            bool_lit(true),
            pair(num(1), var("x", Dyn), product(Num, Dyn)),
            pair(num(2), num(3), product(Num, Num)),
            product(Num, Dyn)
        )
    );
}

#[test]
fn typechecking_test_case() {
    let p = parse_alfa_program("case L () of L(x) -> x else R(y) -> y").unwrap();
    assert_eq!(
        typecheck(p).unwrap(),
        case(
            injl(unit(), sum(Unit, Dyn)),
            "x",
            var("x", Unit),
            "y",
            var("y", Dyn),
            Dyn,
        )
    );
    // Test
    let ctx = Context::new().update("x", &Dyn);
    let p = parse_alfa_program("case x of L(x) -> x else R(y) -> fun z -> y").unwrap();
    assert_eq!(
        typecheck_helper(p, ctx.clone()),
        Ok(case(
            var("x", Dyn),
            "x",
            var("x", Dyn),
            "y",
            fun("z", Dyn, var("y", Dyn), arrow(Dyn, Dyn)),
            Dyn
        ))
    );
    let ctx = Context::new().update("x", &sum(Num, Dyn));
    let p = parse_alfa_program("case x of L(x) -> x + 1 else R(y) -> y").unwrap();
    assert_eq!(
        typecheck_helper(p, ctx.clone()),
        Ok(case(
            var("x", sum(Num, Dyn)),
            "x",
            binop(var("x", Num), Infix::Plus, num(1), Num),
            "y",
            var("y", Dyn),
            Dyn
        ))
    );
    let p = parse_alfa_program("case 1 of L(x) -> x else R(y) -> y + 1").unwrap();
    assert_eq!(
        typecheck(p),
        Err("case condition must be consistent with Sum type, is Num(1)".to_string())
    );
    let p = parse_alfa_program("case x of L(x) -> 1 else R(y) -> false").unwrap();
    assert_eq!(
        typecheck_helper(p, ctx),
        Err("case branches must have consistent types. Num(1) and Bool(false) are not consistent.".to_string())
    );
}

#[test]
fn test_inj() {
    let p = parse_alfa_program("L(1)").unwrap();
    assert_eq!(typecheck(p).unwrap(), injl(num(1), sum(Num, Dyn)));
    let p = parse_alfa_program("R(1)").unwrap();
    assert_eq!(typecheck(p).unwrap(), injr(num(1), sum(Dyn, Num)));
    let p = parse_alfa_program("L R L ()").unwrap();
    assert_eq!(
        typecheck(p).unwrap(),
        injl(
            injr(injl(unit(), sum(Unit, Dyn)), sum(Dyn, sum(Unit, Dyn))),
            sum(sum(Dyn, sum(Unit, Dyn)), Dyn)
        )
    );
}

#[test]
fn typechecking_test_prj() {
    let ctx = Context::new().update("x", &product(Bool, Num));
    let p = parse_alfa_program("x.fst").unwrap();
    assert_eq!(
        typecheck_helper(p, ctx.clone()).unwrap(),
        prjl(var("x", product(Bool, Num)), Bool)
    );
    let p = parse_alfa_program("x.snd").unwrap();
    assert_eq!(
        typecheck_helper(p, ctx.clone()).unwrap(),
        prjr(var("x", product(Bool, Num)), Num)
    );
    let p = parse_alfa_program("fun x -> x.fst").unwrap();
    assert_eq!(
        typecheck_helper(p, ctx.clone()).unwrap(),
        fun("x", Dyn, prjl(var("x", Dyn), Dyn), arrow(Dyn, Dyn))
    );
}

#[test]
fn typechecking_test_let() {
    let p = parse_alfa_program("let x be fun (y: Num) -> y * y in (x, 42)").unwrap();
    let x_typ = arrow(Num, Num);
    assert_eq!(
        typecheck(p).unwrap(),
        let_expr(
            "x",
            arrow(Num, Num),
            fun(
                "y",
                Num,
                binop(var("y", Num), Infix::Times, var("y", Num), Num),
                x_typ.clone()
            ),
            pair(
                var("x", x_typ.clone()),
                num(42),
                product(x_typ.clone(), Num)
            ),
            product(x_typ.clone(), Num)
        )
    );
    let ctx = Context::new().update("x", &Dyn);
    let p = parse_alfa_program("let y be x.fst in y").unwrap();
    assert_eq!(
        typecheck_helper(p, ctx.clone()).unwrap(),
        let_expr("y", Dyn, prjl(var("x", Dyn), Dyn), var("y", Dyn), Dyn)
    );
    let p = parse_alfa_program("let (y: Bool) be 2 in y").unwrap();
    assert_eq!(
        typecheck(p),
        Err(
            "Variable definition Num(2) must be consistent with annotated type Bool"
                .to_string()
        )
    );
    let p = parse_alfa_program("let (x: Bool) be x in if x then false else true").unwrap();
    assert_eq!(
        typecheck_helper(p, ctx).unwrap(),
        let_expr(
            "x",
            Bool,
            var("x", Dyn),
            if_expr(var("x", Bool), bool_lit(false), bool_lit(true), Bool),
            Bool
        )
    );
}

#[test]
fn typechecking_test_ap() {
    let ctx = Context::new()
        .update("x", &Dyn)
        .update("f", &arrow(Num, Dyn))
        .update("g", &arrow(Num, Num));
    let p = parse_alfa_program("let x be f(1) in x - 1").unwrap();
    assert_eq!(
        typecheck_helper(p, ctx.clone()).unwrap(),
        let_expr(
            "x",
            Dyn,
            ap(var("f", arrow(Num, Dyn)), num(1), Dyn),
            binop(var("x", Dyn), Infix::Minus, num(1), Num),
            Num
        )
    );
    let p = parse_alfa_program("f(g(x))").unwrap();
    assert_eq!(
        typecheck_helper(p, ctx.clone()).unwrap(),
        ap(
            var("f", arrow(Num, Dyn)),
            ap(var("g", arrow(Num, Num)), var("x", Dyn), Num),
            Dyn
        )
    );
    let p = parse_alfa_program("(fun (x: Num) -> x + 1)(false)").unwrap();
    if let Err(s) = typecheck(p) {
        assert!(s.contains("Argument Bool(false) to function"));
    } else {
        panic!("Inconsistent argument type with function should fail typechecking");
    }
    let p = parse_alfa_program("(fun x -> x + 1)(false)").unwrap();
    assert_eq!(
        typecheck(p).unwrap(),
        ap(
            fun(
                "x",
                Dyn,
                binop(var("x", Dyn), Infix::Plus, num(1), Num),
                arrow(Dyn, Num)
            ),
            bool_lit(false),
            Num
        )
    );
}

#[test]
fn test_binexpr() {
    let p = parse_alfa_program("1+2*3-4").unwrap();
    assert_eq!(
        typecheck(p).unwrap(),
        binop(
            binop(num(1), Infix::Plus, binop(num(2), Infix::Times, num(3), Num), Num),
            Infix::Minus,
            num(4),
            Num
        )
    );
    let p = parse_alfa_program("1+2 > 3-4").unwrap();
    assert_eq!(
        typecheck(p).unwrap(),
        binop(
            binop(num(1), Infix::Plus, num(2), Num),
            Infix::GreaterThan,
            binop(num(3), Infix::Minus, num(4), Num),
            Bool
        )
    );
    let p = parse_alfa_program("1+2 < 3-4").unwrap();
    assert_eq!(
        typecheck(p).unwrap(),
        binop(
            binop(num(1), Infix::Plus, num(2), Num),
            Infix::LessThan,
            binop(num(3), Infix::Minus, num(4), Num),
            Bool
        )
    );
    let p = parse_alfa_program("1+2 =? 3-4").unwrap();
    assert_eq!(
        typecheck(p).unwrap(),
        binop(
            binop(num(1), Infix::Plus, num(2), Num),
            Infix::EqualTo,
            binop(num(3), Infix::Minus, num(4), Num),
            Bool
        )
    );
    // Check all binary expressions on Nums reject non Num operands
    for op in [Infix::Plus, Infix::Minus, Infix::Times, Infix::GreaterThan, Infix::LessThan, Infix::EqualTo] {
        let p = parse_alfa_program(format!("1 {} false", op.to_string()).as_str()).unwrap();
        assert_eq!(
            typecheck(p),
            Err(
                "Binary Expression argument (Bool(false)) must be consistent with Num"
                    .to_string()
            )
        );
        let p = parse_alfa_program(format!("false {} 1", op.to_string()).as_str()).unwrap();
        assert_eq!(
            typecheck(p),
            Err(
                "Binary Expression argument (Bool(false)) must be consistent with Num"
                    .to_string()
            )
        );
    }
    // Check it allows Dyn as operand
    let ctx = Context::new().update("x", &Dyn);
    let p = parse_alfa_program("x + x").unwrap();
    assert_eq!(
        typecheck_helper(p, ctx).unwrap(),
        binop(var("x", Dyn), Infix::Plus, var("x", Dyn), Num)
    );
}

#[test]
fn test_unop() {
    let p = parse_alfa_program("-1").unwrap();
    assert_eq!(typecheck(p).unwrap(), unop(Prefix::Neg, num(1), Num));
    let p = parse_alfa_program("-false").unwrap();
    assert_eq!(
        typecheck(p),
        Err("Unary Expression argument (Bool(false)) must be consistent with Num".to_string())
    );
    let ctx = Context::new().update("x", &Dyn);
    let p = parse_alfa_program("-x").unwrap();
    assert_eq!(
        typecheck_helper(p, ctx).unwrap(),
        unop(Prefix::Neg, var("x", Dyn), Num)
    );
}

#[test]
fn test_pair() {
    let p = parse_alfa_program("(1,2)").unwrap();
    assert_eq!(
        typecheck(p).unwrap(),
        pair(num(1), num(2), product(Num, Num))
    );
    let ctx = Context::new().update("x", &Dyn);
    let p = parse_alfa_program("(1,x)").unwrap();
    assert_eq!(
        typecheck_helper(p, ctx).unwrap(),
        pair(num(1), var("x", Dyn), product(Num, Dyn))
    );
}

#[test]
fn an_entry_for_an_unused_name_changes_nothing() {
    let prog = || parse_alfa_program("let f be fun x -> x + y in f(1)").unwrap();
    let ctx = Context::new().update("y", &Num);
    let with_unused = ctx.update("z", &Bool);
    assert_eq!(typecheck_helper(prog(), with_unused), typecheck_helper(prog(), ctx));
    // `x` is bound everywhere it occurs, so an outer entry for it changes nothing.
    let ctx = Context::new().update("y", &Num);
    let with_bound_name = ctx.update("x", &Unit);
    assert_eq!(typecheck_helper(prog(), with_bound_name), typecheck_helper(prog(), ctx));
}

#[test]
fn a_free_variable_fails_type_checking() {
    assert!(typecheck(parse_alfa_program("fun x -> y").unwrap()).is_err());
    assert!(typecheck(parse_alfa_program("case L 1 of L(a) -> b else R(b) -> b").unwrap()).is_err());
    assert!(typecheck(parse_alfa_program("let a be a in a").unwrap()).is_err());
    assert!(typecheck(parse_alfa_program("let a be 1 in a").unwrap()).is_ok());
}
