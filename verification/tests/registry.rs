use nakama_rs::registry::PendingCalls;

#[test]
fn a_new_registry_is_empty() {
    let pending: PendingCalls<&str> = PendingCalls::new();
    assert_eq!(pending.len(), 0);
    assert!(pending.is_empty());
    assert!(!pending.is_pending(2));
}

#[test]
fn a_registered_call_is_pending_until_resolved() {
    let mut pending: PendingCalls<&str> = PendingCalls::new();
    assert_eq!(pending.register(2, "first"), Ok(()));
    assert_eq!(pending.register(3, "second"), Ok(()));
    assert_eq!(pending.len(), 2);
    assert!(pending.is_pending(2));
    assert!(pending.is_pending(3));
    assert_eq!(pending.resolve(2), Some("first"));
    assert!(!pending.is_pending(2));
    assert!(pending.is_pending(3));
    assert_eq!(pending.len(), 1);
}

#[test]
fn an_id_cannot_be_registered_twice() {
    let mut pending: PendingCalls<&str> = PendingCalls::new();
    assert_eq!(pending.register(7, "first"), Ok(()));
    assert_eq!(pending.register(7, "second"), Err("second"));
    assert_eq!(pending.len(), 1);
    assert_eq!(pending.resolve(7), Some("first"));
}

#[test]
fn resolving_an_unknown_id_changes_nothing() {
    let mut pending: PendingCalls<&str> = PendingCalls::new();
    assert_eq!(pending.register(2, "first"), Ok(()));
    assert_eq!(pending.resolve(9), None);
    assert_eq!(pending.len(), 1);
    assert!(pending.is_pending(2));
}

#[test]
fn a_call_is_resolved_only_once() {
    let mut pending: PendingCalls<&str> = PendingCalls::new();
    assert_eq!(pending.register(2, "first"), Ok(()));
    assert_eq!(pending.resolve(2), Some("first"));
    assert_eq!(pending.resolve(2), None);
}

#[test]
fn cancelling_hands_out_every_waiter_once() {
    let mut pending: PendingCalls<String> = PendingCalls::new();
    for id in 2..12 {
        assert_eq!(pending.register(id, format!("waiter {}", id)), Ok(()));
    }
    let mut cancelled = pending.cancel_all();
    assert!(pending.is_empty());
    assert_eq!(pending.len(), 0);
    cancelled.sort();
    assert_eq!(cancelled.len(), 10);
    for (index, (id, waiter)) in cancelled.iter().enumerate() {
        assert_eq!(*id, index as i64 + 2);
        assert_eq!(*waiter, format!("waiter {}", id));
    }
}

#[test]
fn cancelling_an_empty_registry_gives_nothing() {
    let mut pending: PendingCalls<u8> = PendingCalls::new();
    assert!(pending.cancel_all().is_empty());
    assert!(pending.is_empty());
}

#[test]
fn a_cancelled_id_can_be_registered_again() {
    let mut pending: PendingCalls<u8> = PendingCalls::new();
    assert_eq!(pending.register(2, 1), Ok(()));
    assert_eq!(pending.cancel_all(), vec![(2, 1)]);
    assert_eq!(pending.register(2, 5), Ok(()));
    assert_eq!(pending.resolve(2), Some(5));
}
