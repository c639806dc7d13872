use alfa::ast::AlfaType::{Bool, Num, Unit};
use alfa::context::{Context, ContextEntry};

#[test]
fn test_lookup() {
    assert_eq!(Context::new().lookup("k"), None);
    let ctx = Context::new_from(vec![
        ContextEntry { id: "k", typ: Bool },
        ContextEntry { id: "t", typ: Unit },
        ContextEntry { id: "k", typ: Num },
    ]);
    assert_eq!(ctx.lookup("k"), Some(&Num));
    assert_eq!(ctx.lookup("t"), Some(&Unit));
    assert_eq!(ctx.lookup("z"), None);
}

#[test]
fn test_update() {
    let ctx = Context::new_from(vec![
        ContextEntry { id: "k", typ: Bool },
        ContextEntry { id: "t", typ: Unit },
    ]);
    assert_eq!(ctx.update("k", &Num).lookup("k"), Some(&Num));
    assert_eq!(ctx.update("t", &Bool).lookup("k"), Some(&Bool));
    assert_eq!(ctx.update("j", &Bool).lookup("j"), Some(&Bool));
    assert_eq!(ctx.update("j", &Bool).lookup("j"), Some(&Bool));
}

#[test]
fn update_leaves_other_names_and_the_extended_context() {
    let ctx = Context::new().update("x", &Num);
    let inner = ctx.update("y", &Bool);
    assert_eq!(inner.lookup("x"), Some(&Num));
    assert_eq!(inner.lookup("y"), Some(&Bool));
    assert_eq!(ctx.lookup("y"), None);
    let shadowed = inner.update("x", &Unit);
    assert_eq!(shadowed.lookup("x"), Some(&Unit));
    assert_eq!(inner.lookup("x"), Some(&Num));
}
