use uds_engine::registry::Registry;

#[test]
fn registering_twice_keeps_one_entry() {
    let mut r = Registry::new();
    r.insert_handle(1);
    r.insert_handle(2);
    r.insert_handle(2);
    assert_eq!(r.len(), 2);
    assert!(r.contains(1));
    assert!(r.contains(2));
    assert!(!r.contains(3));
}

#[test]
fn removing_a_handle_leaves_the_others() {
    let mut r = Registry::new();
    r.insert_handle(10);
    r.insert_handle(20);
    r.insert_handle(30);
    r.remove_handle(20);
    assert_eq!(r.len(), 2);
    assert!(r.contains(10));
    assert!(!r.contains(20));
    assert!(r.contains(30));
    // Removing a handle that is not there changes nothing.
    r.remove_handle(99);
    assert_eq!(r.len(), 2);
}

#[test]
fn shutdown_all_drains_in_registration_order() {
    let mut r = Registry::new();
    r.insert_handle(5);
    r.insert_handle(6);
    r.insert_handle(7);
    r.remove_handle(6);
    let drained = r.shutdown_all();
    assert_eq!(drained, vec![5, 7]);
    assert_eq!(r.len(), 0);
    let empty = r.shutdown_all();
    assert!(empty.is_empty());
}
