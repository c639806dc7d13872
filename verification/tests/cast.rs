use alfa::ast::AlfaType::{Dyn, Num};
use alfa::ast::{arrow, product, sum, AlfaType, AlfaValue};
use alfa::cast::{cast, fun_cast, prod_cast, sum_cast};
use alfa::eval::try_cast;

#[test]
fn test_fun_cast() {
    assert_eq!(fun_cast(&Dyn), Ok((Dyn, Dyn)));
    assert_eq!(fun_cast(&arrow(Num, Num)), Ok((Num, Num)));
    assert_eq!(fun_cast(&arrow(Num, Dyn)), Ok((Num, Dyn)));
    assert_eq!(
        fun_cast(&arrow(arrow(Num, Num), Dyn)),
        Ok((arrow(Num, Num), Dyn))
    );
}

#[test]
fn test_cast() {
    // Base
    assert_eq!(cast(AlfaValue::Num(2), AlfaType::Num), Ok(AlfaValue::Num(2)));
    // Star
    assert_eq!(
        cast(AlfaValue::Cast(Box::new(AlfaValue::Num(1)), Dyn), AlfaType::Dyn),
        Ok(AlfaValue::Cast(Box::new(AlfaValue::Num(1)), Dyn))
    );
    // Succeed
    assert_eq!(
        cast(AlfaValue::Cast(Box::new(AlfaValue::Num(1)), Dyn), AlfaType::Num),
        Ok(AlfaValue::Num(1))
    );
    // Fail
    assert_eq!(
        cast(AlfaValue::Cast(Box::new(AlfaValue::Num(1)), Dyn), AlfaType::Bool),
        Err("Cannot cast Num to Bool".to_string())
    );
    // Ground
    let p = AlfaValue::Pair(
        Box::new(AlfaValue::Num(1)),
        Box::new(AlfaValue::Bool(true)),
        product(AlfaType::Num, AlfaType::Bool),
    );
    assert_eq!(
        cast(p.clone(), Dyn),
        Ok(AlfaValue::Cast(Box::new(AlfaValue::Cast(Box::new(p), product(Dyn, Dyn))), Dyn))
    );
    // Expand
    let p = AlfaValue::Pair(Box::new(AlfaValue::Num(1)), Box::new(AlfaValue::Bool(true)), Dyn);
    assert_eq!(
        cast(p.clone(), product(AlfaType::Num, AlfaType::Bool)),
        Ok(AlfaValue::Cast(
            Box::new(AlfaValue::Cast(Box::new(p), product(Dyn, Dyn))),
            product(AlfaType::Num, AlfaType::Bool)
        ))
    );
    // Cast failures show up going T1 -> Dyn -> T2
    let v = AlfaValue::Cast(Box::new(AlfaValue::Num(1)), Dyn);
    assert_eq!(
        cast(v, AlfaType::Bool),
        Err("Cannot cast Num to Bool".to_string())
    );
}

#[test]
fn sum_and_product_casts() {
    assert_eq!(sum_cast(&Dyn), Ok((Dyn, Dyn)));
    assert_eq!(sum_cast(&sum(Num, AlfaType::Bool)), Ok((Num, AlfaType::Bool)));
    assert_eq!(sum_cast(&Num), Err("Cannot cast Num to Sum type".to_string()));
    assert_eq!(prod_cast(&product(Num, Dyn)), Ok((Num, Dyn)));
    assert_eq!(
        prod_cast(&arrow(Num, Num)),
        Err("Cannot cast Arrow(Num, Num) to Product type".to_string())
    );
    assert_eq!(
        fun_cast(&product(Num, Dyn)),
        Err("Cannot cast Product(Num, Dyn) to Arrow type".to_string())
    );
}

#[test]
fn ground_value_round_trips_through_dyn() {
    let v = AlfaValue::Bool(false);
    let into = cast(v.clone(), Dyn).unwrap();
    assert_eq!(into, AlfaValue::Cast(Box::new(AlfaValue::Bool(false)), Dyn));
    assert_eq!(cast(into, AlfaType::Bool), Ok(v));
}

#[test]
fn cast_without_rule_is_reported() {
    assert_eq!(
        try_cast(AlfaValue::Num(3), AlfaType::Bool),
        Err("Casting Num to Bool".to_string())
    );
    assert_eq!(try_cast(AlfaValue::Num(3), Num), Ok(AlfaValue::Num(3)));
}
