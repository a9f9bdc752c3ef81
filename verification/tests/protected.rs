use protected_smart_pointer::protected::Protected;

#[test]
fn owner_can_read() {
    let p = Protected::new(42);
    let x = p.read();
    assert_eq!(*x.value(), 42);
}

#[test]
fn owner_can_write() {
    let p = Protected::new(42);

    {
        let mut x = p.write();
        x.set(43);
        x.release();
    }

    let x = p.read();
    assert_eq!(*x.value(), 43);
}

#[test]
fn owner_cannot_create_duplicated_users() {
    let owner = Protected::new(42);
    let user1 = owner.create_user(0);
    let user2 = owner.create_user(0);
    assert!(user1.is_some());
    assert!(user2.is_none());
}

#[test]
fn owner_can_create_user_with_previously_dropped_id() {
    let owner = Protected::new(42);
    let user1 = owner.create_user(0);
    assert!(user1.is_some());
    user1.unwrap().destroy();
    let user2 = owner.create_user(0);
    assert!(user2.is_some());
}

#[test]
fn user_with_access_can_read() {
    let owner = Protected::new(42);
    let user = owner.create_user(0).unwrap();
    let x = user.read().unwrap();
    assert_eq!(*x.value(), 42);
}

#[test]
fn user_with_revoked_access_cannot_read() {
    let owner = Protected::new(42);
    let user = owner.create_user(0).unwrap();
    owner.remove_user(0);
    assert!(user.read().is_err())
}

#[test]
fn user_without_access_cannot_read() {
    let owner = Protected::new(42);
    let user = owner.create_user(0).unwrap();
    owner.destroy();
    assert!(user.read().is_err())
}

#[test]
fn user_with_access_can_write() {
    let owner = Protected::new(42);
    let user = owner.create_user(0).unwrap();
    {
        let mut x = user.write().unwrap();
        x.set(43);
        x.release();
    }
    let x = user.read().unwrap();
    assert_eq!(*x.value(), 43);
}

#[test]
fn user_with_revoked_access_cannot_write() {
    let owner = Protected::new(42);
    let user = owner.create_user(0).unwrap();
    owner.remove_user(0);
    assert!(user.write().is_err())
}

#[test]
fn user_without_access_cannot_write() {
    let owner = Protected::new(42);
    let user = owner.create_user(0).unwrap();
    owner.destroy();
    assert!(user.write().is_err())
}

#[test]
fn user_can_read_something_written_by_another_user() {
    let owner = Protected::new(42);
    let user1 = owner.create_user(0).unwrap();
    let user2 = owner.create_user(1).unwrap();
    {
        let mut x = user1.write().unwrap();
        x.set(43);
        x.release();
    }
    let x = user2.read().unwrap();
    assert_eq!(*x.value(), 43);
}

#[test]
fn several_read_guards_coexist() {
    let owner = Protected::new(42);
    let user = owner.create_user(0).unwrap();
    let a = owner.read();
    let b = user.read().unwrap();
    assert_eq!(*a.value(), 42);
    assert_eq!(*b.value(), 42);
    b.release();
    a.release();
}

#[test]
fn removing_an_absent_user_changes_nothing() {
    let owner = Protected::new(42);
    let user = owner.create_user(0).unwrap();
    owner.remove_user(7);
    let x = user.read().unwrap();
    assert_eq!(*x.value(), 42);
}

#[test]
fn destroying_one_user_leaves_the_others_registered() {
    let owner = Protected::new(42);
    let user1 = owner.create_user(0).unwrap();
    let user2 = owner.create_user(1).unwrap();
    user1.destroy();
    let x = user2.read().unwrap();
    assert_eq!(*x.value(), 42);
    x.release();
    assert!(owner.create_user(0).is_some());
}

#[test]
fn denied_access_reports_access_denied() {
    let owner = Protected::new(42);
    let user = owner.create_user(0).unwrap();
    owner.remove_user(0);
    match user.read() {
        Ok(_) => panic!("a revoked user must not obtain a read guard"),
        Err(protected_smart_pointer::protected::AccessDeniedError) => {},
    }
    match user.write() {
        Ok(_) => panic!("a revoked user must not obtain a write guard"),
        Err(protected_smart_pointer::protected::AccessDeniedError) => {},
    }
}

#[test]
fn owner_keeps_unconditional_access() {
    let owner = Protected::new(42);
    let user = owner.create_user(0).unwrap();
    user.destroy();
    let mut w = owner.write();
    w.set(1);
    w.release();
    let x = owner.read();
    assert_eq!(*x.value(), 1);
}

#[test]
fn full_owner_and_user_scenario() {
    let owner = Protected::new(42);
    let x = owner.read();
    assert_eq!(*x.value(), 42);
    x.release();

    let mut w = owner.write();
    w.set(43);
    w.release();
    let x = owner.read();
    assert_eq!(*x.value(), 43);
    x.release();

    let first = owner.create_user(0);
    assert!(first.is_some());
    assert!(owner.create_user(0).is_none());
    first.unwrap().destroy();

    let user0 = owner.create_user(0).unwrap();
    let user1 = owner.create_user(1).unwrap();
    let mut w = user0.write().unwrap();
    w.set(44);
    w.release();
    let x = user1.read().unwrap();
    assert_eq!(*x.value(), 44);
}
