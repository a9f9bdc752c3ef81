use protected_smart_pointer::can::Can;
use protected_smart_pointer::can_close::Can as TraitCan;
use protected_smart_pointer::can_close::Close;

#[test]
fn can_walks_through_its_states() {
    let can = Can::new();
    let mut can = can.open();
    assert!(can.send(42).is_ok());
    let mut can = can.set_receive();
    assert_eq!(can.blocking_receive().unwrap(), 100);
    let _ = can.close();
}

#[test]
fn can_closes_straight_from_open() {
    let can = Can::new();
    let can = can.open();
    let _ = can.close();
}

#[test]
fn default_can_starts_closed() {
    let can: Can<protected_smart_pointer::can::Closed> = Default::default();
    let _ = can.open();
}

#[test]
fn trait_close_works_from_both_states() {
    let can = TraitCan::new();
    let mut can = can.open();
    assert!(can.send(42).is_ok());
    let closed = can.close();
    let mut can = closed.open().set_receive();
    assert_eq!(can.blocking_receive().unwrap(), 100);
    let _ = can.close();
}
