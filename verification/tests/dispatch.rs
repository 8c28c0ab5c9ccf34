use nakama_rs::dispatcher::{dispatch, Dispatch};
use nakama_rs::handlers::Handlers;
use nakama_rs::push::{PushEvent, PushKind, PUSH_KINDS};
use nakama_rs::registry::PendingCalls;
use nakama_rs::socket::{
    Error, Match, PartyClose, StatusPresenceEvent, StreamData, UserPresence,
    WebSocketMessageEnvelope,
};

fn reply_with_match(cid: &str, match_id: &str) -> WebSocketMessageEnvelope {
    let mut frame = WebSocketMessageEnvelope::blank();
    frame.cid = Some(cid.to_owned());
    frame.new_match = Some(Match { match_id: match_id.to_owned(), ..Default::default() });
    frame
}

fn party_closed(party_id: &str) -> WebSocketMessageEnvelope {
    let mut frame = WebSocketMessageEnvelope::blank();
    frame.party_close = Some(PartyClose { party_id: party_id.to_owned() });
    frame
}

#[test]
fn a_reply_goes_to_the_waiter_of_its_id() {
    let mut pending: PendingCalls<&str> = PendingCalls::new();
    let handlers: Handlers<&str> = Handlers::new();
    pending.register(2, "a").unwrap();
    pending.register(3, "b").unwrap();
    match dispatch(&mut pending, &handlers, reply_with_match("3", "m")) {
        Dispatch::Resolve { id, waiter, reply } => {
            assert_eq!(id, 3);
            assert_eq!(waiter, "b");
            assert_eq!(reply, reply_with_match("3", "m"));
        }
        _ => panic!("the reply was not routed to its call"),
    }
    assert!(pending.is_pending(2));
    assert!(!pending.is_pending(3));
}

#[test]
fn a_reply_without_a_pending_call_is_dropped() {
    let mut pending: PendingCalls<&str> = PendingCalls::new();
    let handlers: Handlers<&str> = Handlers::new();
    pending.register(2, "a").unwrap();
    assert!(matches!(
        dispatch(&mut pending, &handlers, reply_with_match("9", "m")),
        Dispatch::Drop
    ));
    assert!(pending.is_pending(2));
    assert_eq!(pending.len(), 1);
}

#[test]
fn an_id_that_is_no_number_matches_no_call() {
    let mut pending: PendingCalls<&str> = PendingCalls::new();
    let handlers: Handlers<&str> = Handlers::new();
    pending.register(2, "a").unwrap();
    for cid in ["", "two", "2x", " 2", "99999999999999999999"] {
        assert!(matches!(
            dispatch(&mut pending, &handlers, reply_with_match(cid, "m")),
            Dispatch::Drop
        ));
    }
    assert!(pending.is_pending(2));
}

#[test]
fn an_id_with_leading_zeros_is_the_same_id() {
    let mut pending: PendingCalls<&str> = PendingCalls::new();
    let handlers: Handlers<&str> = Handlers::new();
    pending.register(2, "a").unwrap();
    assert!(matches!(
        dispatch(&mut pending, &handlers, reply_with_match("002", "m")),
        Dispatch::Resolve { id: 2, waiter: "a", .. }
    ));
}

#[test]
fn an_event_goes_to_the_handler_of_its_kind() {
    let mut pending: PendingCalls<&str> = PendingCalls::new();
    let mut handlers: Handlers<&str> = Handlers::new();
    handlers.register(PushKind::PartyClose, "on party close");
    handlers.register(PushKind::StatusPresence, "on status presence");
    match dispatch(&mut pending, &handlers, party_closed("p1")) {
        Dispatch::Deliver { handler, event } => {
            assert_eq!(*handler, "on party close");
            assert_eq!(event, PushEvent::PartyClose(PartyClose { party_id: "p1".to_owned() }));
        }
        _ => panic!("the event was not delivered"),
    }
}

#[test]
fn an_event_without_a_handler_is_dropped() {
    let mut pending: PendingCalls<&str> = PendingCalls::new();
    let mut handlers: Handlers<&str> = Handlers::new();
    handlers.register(PushKind::StatusPresence, "on status presence");
    assert!(matches!(dispatch(&mut pending, &handlers, party_closed("p1")), Dispatch::Drop));
}

#[test]
fn a_frame_without_payload_is_dropped() {
    let mut pending: PendingCalls<&str> = PendingCalls::new();
    let handlers: Handlers<&str> = Handlers::new();
    assert!(matches!(
        dispatch(&mut pending, &handlers, WebSocketMessageEnvelope::blank()),
        Dispatch::Drop
    ));
}

#[test]
fn the_last_registration_wins() {
    let mut pending: PendingCalls<&str> = PendingCalls::new();
    let mut handlers: Handlers<&str> = Handlers::new();
    handlers.register(PushKind::PartyClose, "first");
    assert!(matches!(
        dispatch(&mut pending, &handlers, party_closed("p1")),
        Dispatch::Deliver { handler: &"first", .. }
    ));
    handlers.register(PushKind::PartyClose, "second");
    assert!(matches!(
        dispatch(&mut pending, &handlers, party_closed("p2")),
        Dispatch::Deliver { handler: &"second", .. }
    ));
    handlers.unregister(PushKind::PartyClose);
    assert!(matches!(dispatch(&mut pending, &handlers, party_closed("p3")), Dispatch::Drop));
}

#[test]
fn an_error_with_the_id_of_a_pending_call_answers_that_call() {
    let mut pending: PendingCalls<&str> = PendingCalls::new();
    let mut handlers: Handlers<&str> = Handlers::new();
    handlers.register(PushKind::Error, "on error");
    pending.register(4, "caller").unwrap();
    let mut frame = WebSocketMessageEnvelope::blank();
    frame.cid = Some("4".to_owned());
    frame.error = Some(Error { code: 3, message: "bad input".to_owned(), ..Default::default() });
    assert!(matches!(
        dispatch(&mut pending, &handlers, frame.clone()),
        Dispatch::Resolve { id: 4, waiter: "caller", .. }
    ));
    assert!(matches!(
        dispatch(&mut pending, &handlers, frame),
        Dispatch::Deliver { handler: &"on error", .. }
    ));
}

#[test]
fn of_several_payloads_the_first_kind_in_the_list_wins() {
    let mut pending: PendingCalls<&str> = PendingCalls::new();
    let mut handlers: Handlers<&str> = Handlers::new();
    handlers.register(PushKind::PartyClose, "on party close");
    handlers.register(PushKind::StreamState, "on stream state");
    let mut frame = party_closed("p1");
    frame.stream_data = Some(StreamData { data: "x".to_owned(), ..Default::default() });
    assert_eq!(frame.count_payloads(), 2);
    for _ in 0..3 {
        assert!(matches!(
            dispatch(&mut pending, &handlers, frame.clone()),
            Dispatch::Deliver { handler: &"on party close", event: PushEvent::PartyClose(_) }
        ));
    }
}

#[test]
fn every_kind_has_its_own_slot() {
    let mut handlers: Handlers<usize> = Handlers::new();
    for index in 0..PUSH_KINDS {
        let kind = PushKind::from_index(index).unwrap();
        assert_eq!(kind.index(), index);
        assert!(!handlers.has(kind));
        handlers.register(kind, index);
    }
    assert_eq!(PushKind::from_index(PUSH_KINDS), None);
    for index in 0..PUSH_KINDS {
        let kind = PushKind::from_index(index).unwrap();
        assert_eq!(handlers.get(kind), Some(&index));
    }
}

#[test]
fn an_event_frame_gives_its_event() {
    let joined = UserPresence { user_id: "u1".to_owned(), ..Default::default() };
    let mut frame = WebSocketMessageEnvelope::blank();
    frame.status_presence_event =
        Some(StatusPresenceEvent { joins: vec![joined.clone()], leaves: vec![] });
    let event = frame.into_push_event().unwrap();
    assert_eq!(event.kind(), PushKind::StatusPresence);
    assert_eq!(
        event,
        PushEvent::StatusPresence(StatusPresenceEvent { joins: vec![joined], leaves: vec![] })
    );
    assert_eq!(reply_with_match("2", "m").into_push_event(), None);
}
