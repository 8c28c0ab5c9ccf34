use nakama_rs::push::{PushEvent, PushKind};
use nakama_rs::reply::{expect_channel, expect_match};
use nakama_rs::session::Session;
use nakama_rs::socket::{
    Channel, Match, StatusPresenceEvent, UserPresence, WebSocketMessageEnvelope,
};
use nakama_rs::web_socket::{
    connect_address, ConnectionState, Outcome, Received, SocketError, WebSocket,
};
use std::cell::RefCell;
use std::rc::Rc;

type Handler = Box<dyn Fn(&PushEvent)>;

fn match_reply(cid: i64, match_id: &str) -> Received {
    let mut frame = WebSocketMessageEnvelope::blank();
    frame.cid = Some(cid.to_string());
    frame.new_match = Some(Match { match_id: match_id.to_owned(), ..Default::default() });
    Received::Envelope(frame)
}

fn channel_reply(cid: i64, room_name: &str) -> Received {
    let mut frame = WebSocketMessageEnvelope::blank();
    frame.cid = Some(cid.to_string());
    frame.channel = Some(Channel {
        id: "channel id".to_owned(),
        room_name: Some(room_name.to_owned()),
        ..Default::default()
    });
    Received::Envelope(frame)
}

fn status_presence(user_id: &str) -> Received {
    let mut frame = WebSocketMessageEnvelope::blank();
    frame.status_presence_event = Some(StatusPresenceEvent {
        joins: vec![UserPresence { user_id: user_id.to_owned(), ..Default::default() }],
        leaves: vec![],
    });
    Received::Envelope(frame)
}

#[test]
fn two_calls_each_get_their_own_reply() {
    let mut socket: WebSocket<Handler> = WebSocket::new();
    let create = socket.create_match().unwrap();
    let join = socket.join_chat("MyRoom", 1, false, false).unwrap();
    assert_eq!(create.cid, 2);
    assert_eq!(join.cid, 3);
    assert_eq!(create.envelope.cid, Some("2".to_owned()));
    assert_eq!(join.envelope.cid, Some("3".to_owned()));
    assert_eq!(socket.pending_calls(), 2);

    assert_eq!(
        socket.handle_message(match_reply(2, "the match")),
        Outcome::Resolved { id: 2, woken: true }
    );
    assert_eq!(
        socket.handle_message(channel_reply(3, "MyRoom")),
        Outcome::Resolved { id: 3, woken: true }
    );
    assert_eq!(socket.pending_calls(), 0);

    let created = expect_match(create.reply.try_recv().unwrap()).unwrap();
    assert_eq!(created.match_id, "the match");
    let joined = expect_channel(join.reply.try_recv().unwrap()).unwrap();
    assert_eq!(joined.room_name, Some("MyRoom".to_owned()));

    assert!(create.reply.try_recv().is_err());
    assert!(join.reply.try_recv().is_err());
}

#[test]
fn replies_find_their_calls_in_any_order() {
    let orders: [[usize; 3]; 6] =
        [[0, 1, 2], [0, 2, 1], [1, 0, 2], [1, 2, 0], [2, 0, 1], [2, 1, 0]];
    for order in orders {
        let mut socket: WebSocket<Handler> = WebSocket::new();
        let calls = vec![
            socket.create_match().unwrap(),
            socket.create_match().unwrap(),
            socket.create_match().unwrap(),
        ];
        for position in order {
            let cid = calls[position].cid;
            assert_eq!(
                socket.handle_message(match_reply(cid, &format!("match for {}", cid))),
                Outcome::Resolved { id: cid, woken: true }
            );
        }
        for call in calls {
            let reply = expect_match(call.reply.try_recv().unwrap()).unwrap();
            assert_eq!(reply.match_id, format!("match for {}", call.cid));
        }
    }
}

#[test]
fn a_late_reply_disturbs_no_other_call() {
    let mut socket: WebSocket<Handler> = WebSocket::new();
    let call = socket.create_match().unwrap();
    assert_eq!(socket.handle_message(match_reply(77, "nobody asked")), Outcome::Dropped);
    assert!(socket.is_pending(call.cid));
    assert!(call.reply.try_recv().is_err());
    assert_eq!(
        socket.handle_message(match_reply(call.cid, "asked for")),
        Outcome::Resolved { id: call.cid, woken: true }
    );
    assert_eq!(socket.handle_message(match_reply(call.cid, "twice")), Outcome::Dropped);
    let reply = expect_match(call.reply.try_recv().unwrap()).unwrap();
    assert_eq!(reply.match_id, "asked for");
}

#[test]
fn a_status_presence_handler_sees_both_events_in_order() {
    let seen: Rc<RefCell<Vec<String>>> = Rc::new(RefCell::new(Vec::new()));
    let mut socket: WebSocket<Handler> = WebSocket::new();
    let log = seen.clone();
    socket.on_received_status_presence(Box::new(move |event| {
        if let PushEvent::StatusPresence(presence) = event {
            log.borrow_mut().push(presence.joins[0].user_id.clone());
        }
    }));
    let events = socket.tick(vec![status_presence("first"), status_presence("second")]);
    assert_eq!(events.len(), 2);
    for event in &events {
        let handler = socket.handler(event.kind()).unwrap();
        handler(event);
    }
    assert_eq!(*seen.borrow(), vec!["first".to_owned(), "second".to_owned()]);
}

#[test]
fn a_malformed_frame_harms_nothing() {
    let mut socket: WebSocket<Handler> = WebSocket::new();
    let call = socket.create_match().unwrap();
    assert_eq!(socket.handle_message(Received::Malformed), Outcome::Dropped);
    assert_eq!(socket.handle_message(Received::TransportError), Outcome::Dropped);
    assert!(socket.is_pending(call.cid));
    assert_eq!(socket.pending_calls(), 1);
    assert_eq!(
        socket.handle_message(match_reply(call.cid, "still here")),
        Outcome::Resolved { id: call.cid, woken: true }
    );
    let reply = expect_match(call.reply.try_recv().unwrap()).unwrap();
    assert_eq!(reply.match_id, "still here");
}

#[test]
fn closing_fails_every_pending_call() {
    let mut socket: WebSocket<Handler> = WebSocket::new();
    let first = socket.create_match().unwrap();
    let second = socket.join_chat("MyRoom", 1, false, false).unwrap();
    let third = socket.rpc("fn", "{}").unwrap();
    assert_eq!(socket.close(), 3);
    assert_eq!(socket.state(), ConnectionState::Closed);
    assert_eq!(socket.pending_calls(), 0);
    assert_eq!(first.reply.try_recv().unwrap(), Err(SocketError::Closed));
    assert_eq!(second.reply.try_recv().unwrap(), Err(SocketError::Closed));
    assert_eq!(third.reply.try_recv().unwrap(), Err(SocketError::Closed));
    assert_eq!(expect_match(Err(SocketError::Closed)), Err(SocketError::Closed));
    assert_eq!(socket.close(), 0);
}

#[test]
fn ids_go_on_after_a_close() {
    let mut socket: WebSocket<Handler> = WebSocket::new();
    assert_eq!(socket.create_match().unwrap().cid, 2);
    socket.close();
    assert_eq!(socket.create_match().unwrap().cid, 3);
    assert_eq!(socket.on_closed(), 1);
    assert_eq!(socket.create_match().unwrap().cid, 4);
}

#[test]
fn a_reply_for_a_caller_that_gave_up_is_still_taken() {
    let mut socket: WebSocket<Handler> = WebSocket::new();
    let call = socket.create_match().unwrap();
    let cid = call.cid;
    drop(call);
    assert_eq!(
        socket.handle_message(match_reply(cid, "unheard")),
        Outcome::Resolved { id: cid, woken: false }
    );
    assert_eq!(socket.pending_calls(), 0);
}

#[test]
fn tick_takes_frames_in_order_of_arrival() {
    let mut socket: WebSocket<Handler> = WebSocket::new();
    socket.on_received(PushKind::StatusPresence, Box::new(|_| {}));
    let first = socket.create_match().unwrap();
    let second = socket.create_match().unwrap();
    let events = socket.tick(vec![
        status_presence("a"),
        match_reply(second.cid, "second"),
        Received::Malformed,
        match_reply(second.cid, "second again"),
        status_presence("b"),
        match_reply(first.cid, "first"),
    ]);
    assert_eq!(events.len(), 2);
    assert!(matches!(&events[0], PushEvent::StatusPresence(p) if p.joins[0].user_id == "a"));
    assert!(matches!(&events[1], PushEvent::StatusPresence(p) if p.joins[0].user_id == "b"));
    assert_eq!(expect_match(first.reply.try_recv().unwrap()).unwrap().match_id, "first");
    assert_eq!(expect_match(second.reply.try_recv().unwrap()).unwrap().match_id, "second");
    assert_eq!(socket.pending_calls(), 0);
    assert!(socket.tick(vec![]).is_empty());
}

#[test]
fn events_without_a_handler_are_not_delivered() {
    let mut socket: WebSocket<Handler> = WebSocket::new();
    assert!(socket.tick(vec![status_presence("a")]).is_empty());
    socket.on_received_party_close(Box::new(|_| {}));
    assert!(socket.tick(vec![status_presence("b")]).is_empty());
    socket.on_received_status_presence(Box::new(|_| {}));
    assert_eq!(socket.tick(vec![status_presence("c")]).len(), 1);
}

#[test]
fn a_new_handler_replaces_the_old_one_for_later_events_only() {
    let seen: Rc<RefCell<Vec<String>>> = Rc::new(RefCell::new(Vec::new()));
    let mut socket: WebSocket<Handler> = WebSocket::new();
    let log = seen.clone();
    socket.on_received_status_presence(Box::new(move |_| log.borrow_mut().push("old".to_owned())));
    for event in socket.tick(vec![status_presence("a")]) {
        socket.handler(event.kind()).unwrap()(&event);
    }
    let log = seen.clone();
    socket.on_received_status_presence(Box::new(move |_| log.borrow_mut().push("new".to_owned())));
    for event in socket.tick(vec![status_presence("b")]) {
        socket.handler(event.kind()).unwrap()(&event);
    }
    assert_eq!(*seen.borrow(), vec!["old".to_owned(), "new".to_owned()]);
    assert!(socket.handler(PushKind::PartyClose).is_none());
}

#[test]
fn connecting_asks_the_transport_once() {
    let mut socket: WebSocket<Handler> = WebSocket::new();
    let session = Session { auth_token: "token".to_owned(), refresh_token: None };
    assert_eq!(socket.state(), ConnectionState::Disconnected);

    let first = socket.connect(&session, true, -1);
    let request = first.request.unwrap();
    assert_eq!(request.address, "ws://127.0.0.1:7350/ws?lang=en&status=true&token=token");
    assert_eq!(request.timeout, -1);
    assert_eq!(socket.state(), ConnectionState::Connecting);

    let second = socket.connect(&session, true, -1);
    assert!(second.request.is_none());
    assert!(first.connected.try_recv().is_err());
    assert!(second.connected.try_recv().is_err());

    assert_eq!(socket.on_connected(), 2);
    assert_eq!(socket.state(), ConnectionState::Connected);
    assert_eq!(first.connected.try_recv(), Ok(()));
    assert_eq!(second.connected.try_recv(), Ok(()));
    assert_eq!(socket.on_connected(), 0);
}

#[test]
fn connecting_when_connected_completes_at_once() {
    let mut socket: WebSocket<Handler> = WebSocket::new();
    let session = Session { auth_token: "token".to_owned(), refresh_token: None };
    let _ = socket.connect(&session, false, 5);
    socket.on_connected();
    let late = socket.connect(&session, false, 5);
    assert!(late.request.is_none());
    assert_eq!(late.connected.try_recv(), Ok(()));
    assert_eq!(socket.state(), ConnectionState::Connected);
}

#[test]
fn closing_lets_go_of_those_who_wait_for_the_connection() {
    let mut socket: WebSocket<Handler> = WebSocket::new();
    let session = Session { auth_token: "token".to_owned(), refresh_token: None };
    let waiting = socket.connect(&session, false, 5);
    socket.close();
    assert_eq!(socket.state(), ConnectionState::Closed);
    assert_eq!(waiting.connected.try_recv(), Err(oneshot::TryRecvError::Disconnected));
    assert_eq!(socket.on_connected(), 0);
    assert_eq!(socket.state(), ConnectionState::Closed);

    let again = socket.connect(&session, false, 5);
    assert_eq!(
        again.request.unwrap().address,
        "ws://127.0.0.1:7350/ws?lang=en&status=false&token=token"
    );
    assert_eq!(socket.state(), ConnectionState::Connecting);
}

#[test]
fn a_report_of_connection_that_nobody_asked_for_changes_nothing() {
    let mut socket: WebSocket<Handler> = WebSocket::new();
    assert_eq!(socket.on_connected(), 0);
    assert_eq!(socket.state(), ConnectionState::Disconnected);
}

#[test]
fn the_address_holds_the_token_as_it_is() {
    assert_eq!(
        connect_address(true, "a.b-c_d"),
        "ws://127.0.0.1:7350/ws?lang=en&status=true&token=a.b-c_d"
    );
    assert_eq!(connect_address(false, ""), "ws://127.0.0.1:7350/ws?lang=en&status=false&token=");
}

#[test]
fn test_channel_group_chat_creation() {
    let mut socket: WebSocket<Handler> = WebSocket::new();
    let call = socket.join_chat("group id", 3, true, false).unwrap();
    let join = call.envelope.channel_join.clone().unwrap();
    assert_eq!(join.target, "group id");
    assert_eq!(join.channel_type, 3);
    assert!(join.persistence);
    assert!(!join.hidden);

    let mut frame = WebSocketMessageEnvelope::blank();
    frame.cid = call.envelope.cid.clone();
    frame.channel = Some(Channel {
        id: "3.group id".to_owned(),
        group_id: Some("group id".to_owned()),
        ..Default::default()
    });
    assert_eq!(
        socket.handle_message(Received::Envelope(frame)),
        Outcome::Resolved { id: call.cid, woken: true }
    );
    let channel = expect_channel(call.reply.try_recv().unwrap()).unwrap();
    assert_eq!(channel.group_id, Some("group id".to_owned()));
    assert_eq!(channel.room_name, None);
}
