use protected_smart_pointer::cell::ProtectedBox;

#[test]
fn fresh_box_holds_the_wrapped_value() {
    let b = ProtectedBox::new(42);
    assert_eq!(*b.value(), 42);
    assert!(!b.contains(0));
}

#[test]
fn register_grants_once_per_identity() {
    let mut b = ProtectedBox::new(42);
    assert!(b.register(7));
    assert!(!b.register(7));
    assert!(b.contains(7));
    assert!(b.register(8));
    assert!(b.contains(8));
}

#[test]
fn deregister_is_idempotent_and_selective() {
    let mut b = ProtectedBox::new(42);
    assert!(b.register(7));
    assert!(b.register(8));
    b.deregister(7);
    assert!(!b.contains(7));
    assert!(b.contains(8));
    b.deregister(7);
    assert!(!b.contains(7));
    assert!(b.contains(8));
}

#[test]
fn clear_revokes_every_identity() {
    let mut b = ProtectedBox::new(42);
    assert!(b.register(1));
    assert!(b.register(2));
    assert!(b.register(3));
    b.clear();
    assert!(!b.contains(1));
    assert!(!b.contains(2));
    assert!(!b.contains(3));
    assert!(b.register(2));
}

#[test]
fn set_value_leaves_the_registry_alone() {
    let mut b = ProtectedBox::new(42);
    assert!(b.register(5));
    b.set_value(43);
    assert_eq!(*b.value(), 43);
    assert!(b.contains(5));
}
