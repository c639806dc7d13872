use alfa::ast::{arrow, bool_lit, id, num, pair, product, unit, var, AlfaType, AlfaValue, TypedExpr};
use alfa::eval::eval;
use alfa::parser::parse_alfa_program;

fn typecheck(prog: &str) -> TypedExpr {
    let p = parse_alfa_program(prog).unwrap();
    alfa::typechecking::typecheck(p).unwrap()
}

#[test]
fn test_eval_basic() {
    assert_eq!(eval(num(42)), Ok(AlfaValue::Num(42)));
    assert_eq!(eval(num(0)), Ok(AlfaValue::Num(0)));
    assert_eq!(eval(bool_lit(true)), Ok(AlfaValue::Bool(true)));
    assert_eq!(eval(bool_lit(false)), Ok(AlfaValue::Bool(false)));
    assert_eq!(eval(unit()), Ok(AlfaValue::Unit));
    assert_eq!(
        eval(pair(
            num(1),
            bool_lit(false),
            product(AlfaType::Num, AlfaType::Bool)
        )),
        Ok(AlfaValue::Pair(
            Box::new(AlfaValue::Num(1)),
            Box::new(AlfaValue::Bool(false)),
            product(AlfaType::Num, AlfaType::Bool)
        ))
    );
    let f = typecheck("fun (x: Num) -> x");
    assert_eq!(
        eval(f),
        Ok(AlfaValue::Fun(
            id("x"),
            AlfaType::Num,
            var("x", AlfaType::Num),
            arrow(AlfaType::Num, AlfaType::Num)
        ))
    );
    let f = typecheck("fun x -> x");
    assert_eq!(
        eval(f),
        Ok(AlfaValue::Fun(id("x"), AlfaType::Dyn, var("x", AlfaType::Dyn), arrow(AlfaType::Dyn, AlfaType::Dyn)))
    );
}

#[test]
fn eval_test_ap() {
    let f = typecheck("(fun (x: Num) -> x)(1)");
    assert_eq!(eval(f), Ok(AlfaValue::Num(1)));
    let f = typecheck("(fun x -> x)(1)");
    assert_eq!(eval(f), Ok(AlfaValue::Cast(Box::new(AlfaValue::Num(1)), AlfaType::Dyn)));
    // Pro tip: one more layer of indirection just one more just one more
    let f = typecheck("(fun x -> (fun (x: Num) -> x)(x))(true)");
    assert_eq!(eval(f), Err("Cannot cast Bool to Num".to_string()));
}

#[test]
fn eval_test_if() {
    let e = typecheck("if true then 1 else 2");
    assert_eq!(eval(e), Ok(AlfaValue::Num(1)));
    let e = typecheck("(fun x -> if x then false else true)(true)");
    assert_eq!(eval(e), Ok(AlfaValue::Bool(false)));
    let e = typecheck("(fun x -> if x then false else true)(false)");
    assert_eq!(eval(e), Ok(AlfaValue::Bool(true)));
    let e = typecheck("(fun x -> if x then false else true)(1)");
    assert_eq!(eval(e), Err("Cannot cast Num to Bool".to_string()));
}

#[test]
fn eval_test_case() {
    let e = typecheck("case L () of L(x) -> 1 else R(y) -> 2");
    assert_eq!(eval(e), Ok(AlfaValue::Num(1)));
    let e = typecheck("case L (1) of L(x) -> x else R(y) -> 2");
    assert_eq!(eval(e), Ok(AlfaValue::Num(1)));
    let e = typecheck("case R (2) of L(x) -> 1 else R(y) -> y");
    assert_eq!(eval(e), Ok(AlfaValue::Num(2)));
    let e = typecheck("(fun x -> case x of L(x) -> x else R(y) -> y)(L(3))");
    assert_eq!(eval(e), Ok(AlfaValue::Cast(Box::new(AlfaValue::Num(3)), AlfaType::Dyn)));
    let e = typecheck("(fun x -> case x of L(x) -> x else R(y) -> y)(R(2))");
    assert_eq!(eval(e), Ok(AlfaValue::Cast(Box::new(AlfaValue::Num(2)), AlfaType::Dyn)));
    let e = typecheck("(fun x -> case x of L(x) -> 1 else R(y) -> y)(22)");
    assert_eq!(eval(e), Err("Cannot cast Num to Sum(Dyn, Dyn)".to_string()));
}

#[test]
fn eval_test_let() {
    let e = typecheck("let x be (fun x -> x)(1) in x");
    assert_eq!(eval(e), Ok(AlfaValue::Cast(Box::new(AlfaValue::Num(1)), AlfaType::Dyn)));
    let e = typecheck("let x be (fun x -> x)(false) in x");
    assert_eq!(eval(e), Ok(AlfaValue::Cast(Box::new(AlfaValue::Bool(false)), AlfaType::Dyn)));
    let e = typecheck("let (x: Num) be (fun x -> x)(false) in x");
    assert_eq!(eval(e), Err("Cannot cast Bool to Num".to_string()));
}

#[test]
fn eval_test_prj() {
    let e = typecheck("(1, false).fst");
    assert_eq!(eval(e), Ok(AlfaValue::Num(1)));
    let e = typecheck("(1, false).snd");
    assert_eq!(eval(e), Ok(AlfaValue::Bool(false)));
    let e = typecheck("(fun x -> x.fst)((1, false))");
    assert_eq!(eval(e), Ok(AlfaValue::Cast(Box::new(AlfaValue::Num(1)), AlfaType::Dyn)));
    let e = typecheck("(fun x -> x.snd)((1, false))");
    assert_eq!(eval(e), Ok(AlfaValue::Cast(Box::new(AlfaValue::Bool(false)), AlfaType::Dyn)));
    let e = typecheck("(fun x -> x.fst)(1)");
    assert_eq!(
        eval(e),
        Err("Cannot cast Num to Product(Dyn, Dyn)".to_string())
    );
    let e = typecheck("(fun x -> x.snd)(1)");
    assert_eq!(
        eval(e),
        Err("Cannot cast Num to Product(Dyn, Dyn)".to_string())
    );
}

fn test_num_ans(prog: &str, ans: i32) {
    assert_eq!(
        eval(typecheck(prog)).expect("Ill typed program being tested against"),
        AlfaValue::Num(ans),
    )
}

fn test_bool_ans(prog: &str, ans: bool) {
    assert_eq!(
        eval(typecheck(prog)).expect("Ill typed program being tested against"),
        AlfaValue::Bool(ans),
    )
}

#[test]
fn test_operators() {
    test_num_ans("1 + 2 - 3", 0);
    test_num_ans("3 - 1", 2);
    test_num_ans("0", 0);
    test_num_ans("0 * 2", 0);
    test_num_ans("-1", -1);
    test_num_ans("-1 * 2", -2);
    test_num_ans("-1 * 2", -2);
    // Return type can be deduced from the arithmetic operation
    test_num_ans("(fun x -> x + 1)(2)", 3);
    test_bool_ans("2 > 3", false);
    test_bool_ans("3 > 1", true);
    test_bool_ans("2 > 2", false);
    test_bool_ans("3 < 1", false);
    test_bool_ans("1 < 3", true);
    test_bool_ans("3 =? 1", false);
    test_bool_ans("1 =? 3", false);
    test_bool_ans("1 =? 1", true);
    let e = typecheck("let (x: ?) be 2 + 3 in x");
    assert_eq!(eval(e), Ok(AlfaValue::Cast(Box::new(AlfaValue::Num(5)), AlfaType::Dyn)));
}
