use alfa::ast::AlfaType::{Dyn, Num};
use alfa::ast::{
    ap, binop, bool_lit, case, fun, id, if_expr, injl, injr, let_expr, num, pair, prjl, prjr, sum, unit,
    var, AlfaType, AlfaValue, Infix, TypedExpr,
};
use alfa::subst::subst;

fn run_subst_test(sub_id: &str, val: &AlfaValue, start: &TypedExpr, goal: TypedExpr) {
    let res = subst(&id(sub_id), &val, start.clone());
    assert_eq!(res, goal);
}

fn val(v: AlfaValue) -> TypedExpr {
    TypedExpr::Value { val: Box::new(v) }
}

fn numval(n: i32) -> TypedExpr {
    TypedExpr::Value {
        val: Box::new(AlfaValue::Num(n)),
    }
}

#[test]
fn test_subst_let() {
    // let x be x + y in x + y
    let let_test = let_expr(
        "x",
        Dyn,
        binop(var("x", Dyn), Infix::Plus, var("y", Dyn), Num),
        binop(var("x", Dyn), Infix::Plus, var("y", Dyn), Num),
        Num,
    );
    let sub_x = let_expr(
        "x",
        Dyn,
        binop(numval(1), Infix::Plus, var("y", Dyn), Num),
        binop(var("x", Dyn), Infix::Plus, var("y", Dyn), Num),
        Num,
    );
    let sub_y = let_expr(
        "x",
        Dyn,
        binop(var("x", Dyn), Infix::Plus, numval(1), Num),
        binop(var("x", Dyn), Infix::Plus, numval(1), Num),
        Num,
    );
    run_subst_test("x", &AlfaValue::Num(1), &let_test, sub_x);
    run_subst_test("y", &AlfaValue::Num(1), &let_test, sub_y);
}

#[test]
fn test_subst_fun() {
    // fun x -> x + y
    let fun_test = fun(
        "x",
        Dyn,
        binop(var("x", Dyn), Infix::Plus, var("y", Dyn), Num),
        alfa::ast::arrow(Dyn, Num),
    );
    let sub_x = fun(
        "x",
        Dyn,
        binop(var("x", Dyn), Infix::Plus, var("y", Dyn), Num),
        alfa::ast::arrow(Dyn, Num),
    );
    let sub_y = fun(
        "x",
        Dyn,
        binop(var("x", Dyn), Infix::Plus, numval(1), Num),
        alfa::ast::arrow(Dyn, Num),
    );
    run_subst_test("x", &AlfaValue::Num(1), &fun_test, sub_x);
    run_subst_test("y", &AlfaValue::Num(1), &fun_test, sub_y);
}

#[test]
fn test_subst_case() {
    let case_test = case(
        var("z", Dyn),
        "x",
        binop(var("x", Dyn), Infix::Plus, var("y", Dyn), Num),
        "y",
        binop(var("x", Dyn), Infix::Plus, var("y", Dyn), Num),
        Num,
    );
    let sub_x = case(
        var("z", Dyn),
        "x",
        binop(var("x", Dyn), Infix::Plus, var("y", Dyn), Num),
        "y",
        binop(numval(1), Infix::Plus, var("y", Dyn), Num),
        Num,
    );
    let sub_y = case(
        var("z", Dyn),
        "x",
        binop(var("x", Dyn), Infix::Plus, numval(1), Num),
        "y",
        binop(var("x", Dyn), Infix::Plus, var("y", Dyn), Num),
        Num,
    );
    let sub_z = case(
        numval(1),
        "x",
        binop(var("x", Dyn), Infix::Plus, var("y", Dyn), Num),
        "y",
        binop(var("x", Dyn), Infix::Plus, var("y", Dyn), Num),
        Num,
    );
    run_subst_test("x", &AlfaValue::Num(1), &case_test, sub_x);
    run_subst_test("y", &AlfaValue::Num(1), &case_test, sub_y);
    run_subst_test("z", &AlfaValue::Num(1), &case_test, sub_z);
}

#[test]
fn test_subst_other() {
    let val = AlfaValue::Num(2);
    // Basic types
    run_subst_test("x", &val, &num(3), num(3));
    run_subst_test("x", &val, &bool_lit(true), bool_lit(true));
    run_subst_test("x", &val, &unit(), unit());
    run_subst_test("x", &val, &var("x", Dyn), numval(2));
    run_subst_test("x", &val, &var("y", Dyn), var("y", Dyn));
    // If
    let if_test = if_expr(
        binop(
            var("x", Dyn),
            Infix::GreaterThan,
            var("y", Dyn),
            AlfaType::Bool,
        ),
        binop(var("x", Dyn), Infix::Plus, var("y", Dyn), Num),
        binop(var("x", Dyn), Infix::Plus, var("y", Dyn), Num),
        Num,
    );
    let sub_x = if_expr(
        binop(numval(2), Infix::GreaterThan, var("y", Dyn), AlfaType::Bool),
        binop(numval(2), Infix::Plus, var("y", Dyn), Num),
        binop(numval(2), Infix::Plus, var("y", Dyn), Num),
        Num,
    );
    let sub_y = if_expr(
        binop(var("x", Dyn), Infix::GreaterThan, numval(4), AlfaType::Bool),
        binop(var("x", Dyn), Infix::Plus, numval(4), Num),
        binop(var("x", Dyn), Infix::Plus, numval(4), Num),
        Num,
    );
    run_subst_test("x", &AlfaValue::Num(2), &if_test, sub_x);
    run_subst_test("y", &AlfaValue::Num(4), &if_test, sub_y);
    // Injections
    run_subst_test(
        "x",
        &AlfaValue::Num(2),
        &injl(var("x", Dyn), sum(Dyn, Dyn)),
        injl(numval(2), sum(Dyn, Dyn)),
    );
    run_subst_test(
        "x",
        &AlfaValue::Num(2),
        &injr(var("x", Dyn), sum(Dyn, Dyn)),
        injr(numval(2), sum(Dyn, Dyn)),
    );
    // Projections
    run_subst_test(
        "x",
        &AlfaValue::Num(2),
        &prjl(var("x", Dyn), sum(Dyn, Dyn)),
        prjl(numval(2), sum(Dyn, Dyn)),
    );
    run_subst_test(
        "x",
        &AlfaValue::Num(2),
        &prjr(var("x", Dyn), sum(Dyn, Dyn)),
        prjr(numval(2), sum(Dyn, Dyn)),
    );
    // Application -- not the right types, but no matter
    run_subst_test(
        "x",
        &AlfaValue::Num(2),
        &ap(var("x", Dyn), var("x", Dyn), Dyn),
        ap(numval(2), numval(2), Dyn),
    );
    // Pair
    run_subst_test(
        "x",
        &AlfaValue::Num(42),
        &pair(var("x", Dyn), var("y", Dyn), Dyn),
        pair(numval(42), var("y", Dyn), Dyn),
    );
    run_subst_test(
        "y",
        &AlfaValue::Num(42),
        &pair(var("x", Dyn), var("y", Dyn), Dyn),
        pair(var("x", Dyn), numval(42), Dyn),
    );
    // Value
    run_subst_test("x", &AlfaValue::Unit, &numval(2), numval(2));
}

#[test]
fn subst_keeps_annotations_and_skips_shadowed_let_body() {
    let e = let_expr("x", Num, var("x", Num), var("x", Num), Num);
    let expected = let_expr("x", Num, val(AlfaValue::Num(7)), var("x", Num), Num);
    run_subst_test("x", &AlfaValue::Num(7), &e, expected);
}
