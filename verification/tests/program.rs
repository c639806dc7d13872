use alfa::ast::AlfaType::{Dyn, Num};
use alfa::ast::{arrow, num, var, AlfaValue, TypedExpr};
use alfa::eval::eval;
use alfa::parser::parse_alfa_program;
use alfa::program::{run_alfa_prog, with_fix_program};
use alfa::subst::subst;
use alfa::typechecking::typecheck;

#[test]
fn with_fix_program_binds_fix() {
    assert_eq!(
        with_fix_program("fix"),
        "let fix be fun f -> (fun x -> f(fun v -> (x(x))(v))) (fun x -> f(fun v -> (x(x))(v))) in (fix)"
    );
}

#[test]
fn factorial_through_fix_needs_a_cast_between_function_types() {
    // The cast rules have no rule from one function type to another.
    let prog = with_fix_program(
        "let fact be fun f -> fun n -> if n =? 0 then 1 else n * f(n - 1) in (fix(fact))(4)",
    );
    assert_eq!(
        run_alfa_prog(&prog),
        Err("Casting Arrow(Dyn, Num) to Arrow(Dyn, Dyn)".to_string())
    );
}

#[test]
fn recursion_through_fix_without_function_casts() {
    let prog = with_fix_program("let g be fun f -> fun n -> n in (fix(g))(7)");
    let r = run_alfa_prog(&prog).unwrap();
    assert_eq!(r.inner(), AlfaValue::Num(7));
}

#[test]
fn run_stops_at_first_error() {
    assert_eq!(run_alfa_prog("1 $"), Err("Parsing error: unexpected character".to_string()));
    assert_eq!(run_alfa_prog("y"), Err("Unknown variable: ``y''".to_string()));
    assert_eq!(
        run_alfa_prog("(fun x -> (fun (x: Num) -> x)(x))(true)"),
        Err("Cannot cast Bool to Num".to_string())
    );
    assert_eq!(
        run_alfa_prog("let times be fun x -> fun y -> x * y in (times(1))(2)"),
        Ok(AlfaValue::Num(2))
    );
}

#[test]
fn rechecking_the_typed_program_gives_it_back() {
    let t1 = typecheck(parse_alfa_program("let f be fun x -> x + 1 in f(2)").unwrap()).unwrap();
    let t2 = typecheck(parse_alfa_program("let (f: ? -> Num) be fun (x: ?) -> x + 1 in f(2)").unwrap())
        .unwrap();
    assert_eq!(t1, t2);
}

#[test]
fn eval_errors_for_forms_without_rules() {
    assert_eq!(
        eval(var("x", Dyn)),
        Err("Substitution Failure on Well Typed Program".to_string())
    );
    let e = typecheck(parse_alfa_program("(if true then fun (x: Num) -> x else fun x -> x)(1)").unwrap())
        .unwrap();
    assert_eq!(eval(e), Err("Casting Arrow(Num, Num) to Arrow(Dyn, Dyn)".to_string()));
}

#[test]
fn arithmetic_wraps_around() {
    let e = typecheck(parse_alfa_program("2147483647 + 1").unwrap()).unwrap();
    assert_eq!(eval(e), Ok(AlfaValue::Num(-2147483648)));
    let e = typecheck(parse_alfa_program("-(0 - 2147483647 - 1)").unwrap()).unwrap();
    assert_eq!(eval(e), Ok(AlfaValue::Num(-2147483648)));
}

#[test]
fn promised_types_of_results() {
    let e = typecheck(parse_alfa_program("(fun x -> if true then x else 2)(1)").unwrap()).unwrap();
    let v = eval(e).unwrap();
    assert_eq!(v, AlfaValue::Cast(Box::new(AlfaValue::Num(1)), Dyn));
    let e = typecheck(parse_alfa_program("3 > 2").unwrap()).unwrap();
    assert_eq!(eval(e), Ok(AlfaValue::Bool(true)));
}

#[test]
fn substitution_laws_on_examples() {
    let e = alfa::ast::binop(var("x", Num), alfa::ast::Infix::Plus, num(1), Num);
    assert_eq!(subst(&alfa::ast::id("y"), &AlfaValue::Num(3), e.clone()), e);
    let f = alfa::ast::fun("x", Num, var("x", Num), arrow(Num, Num));
    assert_eq!(subst(&alfa::ast::id("x"), &AlfaValue::Num(3), f.clone()), f);
    let replaced = subst(&alfa::ast::id("x"), &AlfaValue::Num(3), var("x", Num));
    assert_eq!(replaced, TypedExpr::Value { val: Box::new(AlfaValue::Num(3)) });
}

#[test]
fn a_value_evaluates_to_itself() {
    let v = AlfaValue::InjL(Box::new(AlfaValue::Bool(true)), alfa::ast::sum(alfa::ast::AlfaType::Bool, Dyn));
    assert_eq!(eval(TypedExpr::Value { val: Box::new(v.clone()) }), Ok(v));
}

#[test]
fn checked_programs_bind_their_variables() {
    let t = typecheck(parse_alfa_program("let x be 1 in let y be x + 1 in (x, y)").unwrap()).unwrap();
    let v = eval(t).unwrap();
    assert_eq!(
        v,
        AlfaValue::Pair(
            Box::new(AlfaValue::Num(1)),
            Box::new(AlfaValue::Num(2)),
            alfa::ast::product(Num, Num)
        )
    );
}

#[test]
fn checked_programs_fail_only_at_casts() {
    assert_eq!(
        run_alfa_prog("(fun x -> x.fst)(1)"),
        Err("Cannot cast Num to Product(Dyn, Dyn)".to_string())
    );
    assert_eq!(
        run_alfa_prog("(fun x -> if x then 1 else 2)(3)"),
        Err("Cannot cast Num to Bool".to_string())
    );
    assert_eq!(
        run_alfa_prog("(fun x -> case x of L(a) -> a else R(b) -> b)((1, 2))"),
        Err("Cannot cast Product(Dyn, Dyn) to Sum(Dyn, Dyn)".to_string())
    );
    // Values of type `?` keep the shape of the type they went in with.
    let r = run_alfa_prog("(fun x -> case x of L(a) -> a + 1 else R(b) -> 0)(L 4)").unwrap();
    assert_eq!(r.inner(), AlfaValue::Num(5));
    let r = run_alfa_prog("(fun p -> p.snd)((true, 3))").unwrap();
    assert_eq!(r.inner(), AlfaValue::Num(3));
}

#[test]
fn run_is_the_pipeline_over_the_parse() {
    let programs = [
        "let x be 1 in let y be x + 1 in (x, y)",
        "(fun x -> x.fst)(1)",
        "y",
        "1 $",
        "let f be fun x -> x in f",
        "case L 3 of L(a) -> a else R(b) -> 0",
    ];
    for prog in programs {
        let expected = match parse_alfa_program(prog) {
            Err(m) => Err(m),
            Ok(e) => match typecheck(e) {
                Err(m) => Err(m),
                Ok(t) => eval(t),
            },
        };
        assert_eq!(run_alfa_prog(prog), expected);
    }
}

#[test]
fn names_are_written_as_debug_writes_strings() {
    let mut out = String::new();
    alfa::text::push_id(&mut out, &alfa::ast::id("a\"b\\c\n"));
    assert_eq!(out, r#"Id { id: "a\"b\\c\n" }"#);
    assert_eq!(out, format!("{:?}", alfa::ast::id("a\"b\\c\n")));
    let mut plain = String::new();
    alfa::text::push_id(&mut plain, &alfa::ast::id("x_1"));
    assert_eq!(plain, "Id { id: \"x_1\" }");
}
