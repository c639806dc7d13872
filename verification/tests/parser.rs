use alfa::ast::AlfaType::{Bool, Dyn, Num, Unit};
use alfa::ast::{arrow, id, product, sum, Expr, Infix, Prefix};
use alfa::parser::parse_alfa_program;

fn var(name: &str) -> Box<Expr> {
    Box::new(Expr::Var(id(name)))
}

fn n(v: i32) -> Box<Expr> {
    Box::new(Expr::Num(v))
}

#[test]
fn parses_literals_and_names() {
    assert_eq!(parse_alfa_program("42"), Ok(Expr::Num(42)));
    assert_eq!(parse_alfa_program("  true "), Ok(Expr::Bool(true)));
    assert_eq!(parse_alfa_program("false"), Ok(Expr::Bool(false)));
    assert_eq!(parse_alfa_program("()"), Ok(Expr::Unit));
    assert_eq!(parse_alfa_program("x_1"), Ok(Expr::Var(id("x_1"))));
    assert_eq!(parse_alfa_program("2147483647"), Ok(Expr::Num(2147483647)));
}

#[test]
fn arithmetic_precedence_and_grouping() {
    assert_eq!(
        parse_alfa_program("1+2*3-4"),
        Ok(Expr::BinOp(
            Box::new(Expr::BinOp(n(1), Infix::Plus, Box::new(Expr::BinOp(n(2), Infix::Times, n(3))))),
            Infix::Minus,
            n(4)
        ))
    );
    assert_eq!(
        parse_alfa_program("-1 * 2"),
        Ok(Expr::BinOp(Box::new(Expr::UnOp(Prefix::Neg, n(1))), Infix::Times, n(2)))
    );
    assert_eq!(
        parse_alfa_program("1 < 2 =? 3"),
        Ok(Expr::BinOp(
            Box::new(Expr::BinOp(n(1), Infix::LessThan, n(2))),
            Infix::EqualTo,
            n(3)
        ))
    );
}

#[test]
fn binders_with_annotated_types() {
    assert_eq!(
        parse_alfa_program("fun (x: Num -> Bool -> ?) -> x"),
        Ok(Expr::Fun(id("x"), Some(arrow(Num, arrow(Bool, Dyn))), var("x")))
    );
    assert_eq!(
        parse_alfa_program("let (p: Num * Bool + Unit) be q in p"),
        Ok(Expr::Let(
            id("p"),
            Some(sum(product(Num, Bool), Unit)),
            var("q"),
            var("p")
        ))
    );
    assert_eq!(
        parse_alfa_program("fun (f: (Num -> Num) -> Num) -> f"),
        Ok(Expr::Fun(id("f"), Some(arrow(arrow(Num, Num), Num)), var("f")))
    );
}

#[test]
fn applications_projections_and_injections() {
    assert_eq!(
        parse_alfa_program("f(g(x))"),
        Ok(Expr::Ap(var("f"), Box::new(Expr::Ap(var("g"), var("x")))))
    );
    assert_eq!(
        parse_alfa_program("(f)(1)(2)"),
        Ok(Expr::Ap(Box::new(Expr::Ap(var("f"), n(1))), n(2)))
    );
    assert_eq!(
        parse_alfa_program("f(1, 2)"),
        Ok(Expr::Ap(var("f"), Box::new(Expr::Pair(n(1), n(2)))))
    );
    assert_eq!(
        parse_alfa_program("(1, x).snd.fst"),
        Ok(Expr::PrjL(Box::new(Expr::PrjR(Box::new(Expr::Pair(n(1), var("x")))))))
    );
    assert_eq!(
        parse_alfa_program("L R L ()"),
        Ok(Expr::InjL(Box::new(Expr::InjR(Box::new(Expr::InjL(Box::new(Expr::Unit)))))))
    );
}

#[test]
fn binding_forms_reach_to_the_right() {
    assert_eq!(
        parse_alfa_program("if x then fun y -> y else 1 + 2"),
        Ok(Expr::If(
            var("x"),
            Box::new(Expr::Fun(id("y"), None, var("y"))),
            Box::new(Expr::BinOp(n(1), Infix::Plus, n(2)))
        ))
    );
    assert_eq!(
        parse_alfa_program("case c of L(a) -> a else R(b) -> b"),
        Ok(Expr::Case(var("c"), id("a"), var("a"), id("b"), var("b")))
    );
}

#[test]
fn parse_errors() {
    assert_eq!(
        parse_alfa_program("1 $ 2"),
        Err("Parsing error: unexpected character".to_string())
    );
    assert_eq!(
        parse_alfa_program("2147483648"),
        Err("Parsing error: number out of range".to_string())
    );
    assert_eq!(
        parse_alfa_program("1 2"),
        Err("Parsing error: unexpected input after the end of the program".to_string())
    );
    assert_eq!(
        parse_alfa_program("if x then y"),
        Err("Parsing error: unexpected end of input".to_string())
    );
    assert_eq!(
        parse_alfa_program("let x in y"),
        Err("Parsing error: unexpected token".to_string())
    );
    assert_eq!(parse_alfa_program(""), Err("Parsing error: unexpected end of input".to_string()));
    assert_eq!(parse_alfa_program("x.thd"), Err("Parsing error: unexpected token".to_string()));
}

#[test]
fn each_operator_parses_back_from_its_text() {
    let ops = [
        Infix::Plus,
        Infix::Minus,
        Infix::Times,
        Infix::LessThan,
        Infix::GreaterThan,
        Infix::EqualTo,
    ];
    for op in ops {
        let text = format!("1 {} 2", op.to_string());
        assert_eq!(parse_alfa_program(&text), Ok(Expr::BinOp(n(1), op, n(2))));
    }
}
