use alfa::ast::AlfaType::{Bool, Dyn, Num, Unit};
use alfa::ast::{arrow, product, sum};
use alfa::typechecking::Consistency;

#[test]
fn test_consistency() {
    let t = arrow(Num, Unit);
    assert!(t.consistent(&Dyn));
    assert!(t.consistent(&arrow(Dyn, Dyn)));
    assert!(t.consistent(&arrow(Num, Dyn)));
    assert!(t.consistent(&arrow(Dyn, Unit)));
    assert!(t.consistent(&arrow(Num, Unit)));
    assert!(!t.consistent(&Num));
    assert!(!t.consistent(&arrow(Num, Num)));
    assert!(!t.consistent(&sum(Num, Unit)));
}

#[test]
fn test_most_typed_consistent() {
    let t1 = arrow(Num, Dyn);
    assert_eq!(t1.most_typed_consistent(&Dyn), Dyn);
    assert_eq!(t1.most_typed_consistent(&arrow(Num, Dyn)), t1);
    assert_eq!(t1.most_typed_consistent(&arrow(Dyn, Dyn)), arrow(Dyn, Dyn));
    let t1 = sum(Num, Dyn);
    assert_eq!(t1.most_typed_consistent(&Dyn), Dyn);
    assert_eq!(t1.most_typed_consistent(&sum(Num, Dyn)), t1);
    assert_eq!(t1.most_typed_consistent(&sum(Dyn, Dyn)), sum(Dyn, Dyn));
    let t1 = product(Num, Dyn);
    assert_eq!(t1.most_typed_consistent(&Dyn), Dyn);
    assert_eq!(t1.most_typed_consistent(&product(Num, Dyn)), t1);
    assert_eq!(
        t1.most_typed_consistent(&product(Dyn, Dyn)),
        product(Dyn, Dyn)
    );
}

#[test]
fn consistency_is_reflexive_and_symmetric() {
    let types = vec![
        Num,
        Bool,
        Unit,
        Dyn,
        arrow(Num, Dyn),
        product(Dyn, Bool),
        sum(arrow(Num, Num), Unit),
    ];
    for a in &types {
        assert!(a.consistent(a));
        for b in &types {
            assert_eq!(a.consistent(b), b.consistent(a));
        }
    }
}

#[test]
fn static_types_are_consistent_only_when_equal() {
    assert!(!Num.consistent(&Bool));
    assert!(arrow(Num, Bool).consistent(&arrow(Num, Bool)));
    assert!(!product(Num, Bool).consistent(&product(Bool, Num)));
}

#[test]
fn most_typed_consistent_is_commutative_and_idempotent() {
    let a = arrow(Num, Dyn);
    let b = arrow(Dyn, Bool);
    assert_eq!(a.most_typed_consistent(&b), b.most_typed_consistent(&a));
    assert_eq!(a.most_typed_consistent(&b), arrow(Dyn, Dyn));
    let c = product(sum(Num, Dyn), Unit);
    assert_eq!(c.most_typed_consistent(&c), c);
    let shared = c.most_typed_consistent(&product(Dyn, Unit));
    assert_eq!(shared, product(Dyn, Unit));
    assert!(shared.consistent(&c));
}

#[test]
fn ground_types() {
    assert!(Num.is_ground());
    assert!(arrow(Dyn, Dyn).is_ground());
    assert!(!arrow(Num, Dyn).is_ground());
    assert!(!Dyn.is_ground());
    assert_eq!(product(Num, Bool).get_ground(), product(Dyn, Dyn));
    assert_eq!(sum(Num, Bool).get_ground(), sum(Dyn, Dyn));
    assert_eq!(Unit.get_ground(), Unit);
}

#[test]
fn shared_type_is_the_greatest_common_lower_bound() {
    let a = arrow(Num, product(Dyn, Bool));
    let b = arrow(Dyn, product(Unit, Bool));
    assert_eq!(a.most_typed_consistent(&b), arrow(Dyn, product(Dyn, Bool)));
    assert_eq!(b.most_typed_consistent(&a), arrow(Dyn, product(Dyn, Bool)));
    assert_eq!(a.most_typed_consistent(&a), a);
    assert_eq!(a.most_typed_consistent(&Dyn), Dyn);
    assert_eq!(sum(Num, Bool).most_typed_consistent(&sum(Num, Bool)), sum(Num, Bool));
}
