use espresso_node::registry::CatchupRegistry;

#[test]
fn register_first_caller_wins() {
    let mut r: CatchupRegistry<&str> = CatchupRegistry::new();
    assert!(!r.contains_key(4));
    assert!(r.has_tickets_left());
    assert_eq!(r.register(4, "first"), Some(0));
    assert!(r.contains_key(4));
    assert_eq!(r.register(4, "second"), None);
    assert_eq!(r.get(4), Some(&(0, "first")));
    assert_eq!(r.get(5), None);
    assert_eq!(r.register(5, "other"), Some(1));
}

#[test]
fn failed_catchup_is_removed_and_can_restart() {
    let mut r: CatchupRegistry<u8> = CatchupRegistry::default();
    let t = r.register(7, 1).unwrap();
    r.conclude(7, t, false);
    assert!(!r.contains_key(7));
    assert_eq!(r.register(7, 2), Some(1));
    assert_eq!(r.get(7), Some(&(1, 2)));
}

#[test]
fn successful_catchup_stays() {
    let mut r: CatchupRegistry<u8> = CatchupRegistry::new();
    let t = r.register(7, 1).unwrap();
    r.conclude(7, t, true);
    assert!(r.contains_key(7));
    assert_eq!(r.register(7, 3), None);
    assert_eq!(r.get(7), Some(&(0, 1)));
}

#[test]
fn conclusion_of_another_run_keeps_entry() {
    let mut r: CatchupRegistry<u8> = CatchupRegistry::new();
    let old = r.register(7, 1).unwrap();
    // A waiter saw the first run fail and took the epoch over.
    let new = r.take_over(7, Some(old), 2).unwrap();
    assert_ne!(old, new);
    // The first run's late conclusion does not remove the new entry.
    r.conclude(7, old, false);
    assert_eq!(r.get(7), Some(&(new, 2)));
    r.conclude(7, new, false);
    assert!(!r.contains_key(7));
}

#[test]
fn take_over_refused_when_entry_changed() {
    let mut r: CatchupRegistry<u8> = CatchupRegistry::new();
    let t = r.register(3, 1).unwrap();
    assert_eq!(r.take_over(3, None, 2), None);
    assert_eq!(r.take_over(3, Some(t + 5), 2), None);
    assert_eq!(r.get(3), Some(&(t, 1)));
    assert_eq!(r.take_over(4, None, 9), Some(1));
    assert_eq!(r.get(4), Some(&(1, 9)));
}

#[test]
fn other_epochs_are_untouched() {
    let mut r: CatchupRegistry<u8> = CatchupRegistry::new();
    let t1 = r.register(1, 10).unwrap();
    let _t2 = r.register(2, 20).unwrap();
    r.conclude(1, t1, false);
    assert!(!r.contains_key(1));
    assert_eq!(r.get(2), Some(&(1, 20)));
}
