use nakama_rs::api::ApiRpc;
use nakama_rs::properties::{NumericProperty, Property};
use nakama_rs::calls::str_slice_to_owned;
use nakama_rs::sends::{
    accept_party_member, close_party, join_party, leave_chat, leave_match, leave_party,
    presences_to_vec, promote_party_member, remove_matchmaker, remove_matchmaker_party,
    remove_party_member, send_match_state, send_party_data, unfollow_users, update_status,
};
use nakama_rs::socket::{
    ChannelJoin, ChannelJoinType, ChannelLeave, ChannelMesageRemove, ChannelMesageUpdate,
    ChannelMessageSend, ErrorCode, MatchCreate, MatchDataSend, MatchJoin, MatchLeave,
    MatchmakerAdd, MatchmakerMatched, MatchmakerRemove, PartyAccept, PartyClose, PartyCreate,
    PartyDataSend, PartyJoin, PartyJoinRequestList, PartyLeave, PartyMatchmakerAdd,
    PartyMatchmakerRemove, PartyPromote, PartyRemove, StatusFollow, StatusUnfollow, StatusUpdate,
    UserPresence, WebSocketMessageEnvelope,
};
use nakama_rs::web_socket::{Call, SocketError, WebSocket};

fn request_with_cid(cid: &str) -> WebSocketMessageEnvelope {
    let mut frame = WebSocketMessageEnvelope::blank();
    frame.cid = Some(cid.to_owned());
    frame
}

fn alice() -> UserPresence {
    UserPresence {
        persistence: true,
        session_id: "session".to_owned(),
        status: "here".to_owned(),
        username: "alice".to_owned(),
        user_id: "user 1".to_owned(),
    }
}

fn properties(pairs: &[(&str, &str)]) -> Vec<Property> {
    pairs
        .iter()
        .map(|(name, value)| Property { name: (*name).to_owned(), value: (*value).to_owned() })
        .collect()
}

fn first_call(call: Result<Call, SocketError>) -> WebSocketMessageEnvelope {
    let call = call.unwrap();
    assert_eq!(call.cid, 2);
    assert_eq!(call.envelope.count_payloads(), 1);
    call.envelope
}

#[test]
fn a_blank_frame_has_nothing_set() {
    let frame = WebSocketMessageEnvelope::blank();
    assert_eq!(frame.cid, None);
    assert_eq!(frame.count_payloads(), 0);
    assert_eq!(frame, WebSocketMessageEnvelope::default());
}

#[test]
fn payloads_are_counted() {
    let mut frame = WebSocketMessageEnvelope::blank();
    frame.channel_leave = Some(ChannelLeave { channel_id: "c".to_owned() });
    assert_eq!(frame.count_payloads(), 1);
    frame.party_presence_event = Some(Default::default());
    frame.channel = Some(Default::default());
    frame.rpc = Some(Default::default());
    assert_eq!(frame.count_payloads(), 4);
    frame.cid = Some("2".to_owned());
    assert_eq!(frame.count_payloads(), 4);
}

#[test]
fn create_match_asks_for_a_match() {
    let mut socket: WebSocket<()> = WebSocket::new();
    let mut expected = request_with_cid("2");
    expected.match_create = Some(MatchCreate {});
    assert_eq!(first_call(socket.create_match()), expected);
}

#[test]
fn join_chat_names_the_room() {
    let mut socket: WebSocket<()> = WebSocket::new();
    let mut expected = request_with_cid("2");
    expected.channel_join = Some(ChannelJoin {
        hidden: false,
        persistence: false,
        target: "MyRoom".to_owned(),
        channel_type: 1,
    });
    assert_eq!(first_call(socket.join_chat("MyRoom", 1, false, false)), expected);
}

#[test]
fn join_chat_keeps_its_flags_apart() {
    let mut socket: WebSocket<()> = WebSocket::new();
    let join = first_call(socket.join_chat("user", 2, true, false)).channel_join.unwrap();
    assert!(join.persistence);
    assert!(!join.hidden);
    let join = socket.join_chat("user", 2, false, true).unwrap().envelope.channel_join.unwrap();
    assert!(!join.persistence);
    assert!(join.hidden);
}

#[test]
fn add_matchmaker_fills_in_the_bounds() {
    let mut socket: WebSocket<()> = WebSocket::new();
    let numbers = vec![NumericProperty { name: "rank".to_owned(), value: "12.5".to_owned() }];
    let mut expected = request_with_cid("2");
    expected.matchmaker_add = Some(MatchmakerAdd {
        min_count: 2,
        max_count: 8,
        query: "*".to_owned(),
        string_properties: properties(&[("region", "eu")]),
        numeric_properties: numbers.clone(),
    });
    assert_eq!(
        first_call(socket.add_matchmaker(
            "*",
            None,
            None,
            properties(&[("region", "eu")]),
            numbers
        )),
        expected
    );
    let add = socket
        .add_matchmaker("+region:eu", Some(3), Some(4), Vec::new(), Vec::new())
        .unwrap()
        .envelope
        .matchmaker_add
        .unwrap();
    assert_eq!((add.min_count, add.max_count), (3, 4));
    assert_eq!(add.query, "+region:eu");
    let add = socket
        .add_matchmaker("*", Some(5), None, Vec::new(), Vec::new())
        .unwrap()
        .envelope
        .matchmaker_add
        .unwrap();
    assert_eq!((add.min_count, add.max_count), (5, 8));
}

#[test]
fn add_matchmaker_party_names_the_party() {
    let mut socket: WebSocket<()> = WebSocket::new();
    let mut expected = request_with_cid("2");
    expected.party_matchmaker_add = Some(PartyMatchmakerAdd {
        party_id: "party".to_owned(),
        min_count: 2,
        max_count: 4,
        query: "*".to_owned(),
        string_properties: Vec::new(),
        numeric_properties: Vec::new(),
    });
    assert_eq!(
        first_call(socket.add_matchmaker_party(
            "party",
            "*",
            2,
            4,
            Vec::new(),
            Vec::new()
        )),
        expected
    );
}

#[test]
fn create_party_says_how_large_and_how_open() {
    let mut socket: WebSocket<()> = WebSocket::new();
    let mut expected = request_with_cid("2");
    expected.party_create = Some(PartyCreate { open: true, max_size: 2 });
    assert_eq!(first_call(socket.create_party(true, 2)), expected);
}

#[test]
fn follow_users_lists_ids_and_names() {
    let mut socket: WebSocket<()> = WebSocket::new();
    let mut expected = request_with_cid("2");
    expected.status_follow = Some(StatusFollow {
        user_ids: vec!["id 1".to_owned(), "id 2".to_owned()],
        usernames: vec!["bob".to_owned()],
    });
    assert_eq!(first_call(socket.follow_users(&["id 1", "id 2"], &["bob"])), expected);
}

#[test]
fn join_match_uses_what_the_matchmaker_gave() {
    let mut socket: WebSocket<()> = WebSocket::new();
    let matched = MatchmakerMatched {
        ticket: "ticket".to_owned(),
        match_id: None,
        token: Some("token".to_owned()),
        ..Default::default()
    };
    let mut expected = request_with_cid("2");
    expected.match_join = Some(MatchJoin {
        match_id: None,
        token: Some("token".to_owned()),
        metadata: Vec::new(),
    });
    assert_eq!(first_call(socket.join_match(matched)), expected);
}

#[test]
fn join_match_by_id_names_the_match() {
    let mut socket: WebSocket<()> = WebSocket::new();
    let mut expected = request_with_cid("2");
    expected.match_join = Some(MatchJoin {
        match_id: Some("match".to_owned()),
        token: None,
        metadata: properties(&[("skin", "red")]),
    });
    assert_eq!(
        first_call(socket.join_match_by_id("match", properties(&[("skin", "red")]))),
        expected
    );
}

#[test]
fn list_party_join_requests_names_the_party() {
    let mut socket: WebSocket<()> = WebSocket::new();
    let mut expected = request_with_cid("2");
    expected.party_join_request_list = Some(PartyJoinRequestList { party_id: "party".to_owned() });
    assert_eq!(first_call(socket.list_party_join_requests("party")), expected);
}

#[test]
fn chat_messages_are_written_updated_and_removed() {
    let mut socket: WebSocket<()> = WebSocket::new();
    let mut expected = request_with_cid("2");
    expected.channel_message_send = Some(ChannelMessageSend {
        channel_id: "channel".to_owned(),
        content: "{\"text\":\"Hello, World!\"}".to_owned(),
    });
    assert_eq!(
        first_call(socket.write_chat_message("channel", "{\"text\":\"Hello, World!\"}")),
        expected
    );

    let mut expected = request_with_cid("3");
    expected.channel_message_update = Some(ChannelMesageUpdate {
        channel_id: "channel".to_owned(),
        message_id: "message".to_owned(),
        content: "{\"text\":\"Bye, World!\"}".to_owned(),
    });
    assert_eq!(
        socket
            .update_chat_message("channel", "message", "{\"text\":\"Bye, World!\"}")
            .unwrap()
            .envelope,
        expected
    );

    let mut expected = request_with_cid("4");
    expected.channel_message_remove = Some(ChannelMesageRemove {
        channel_id: "channel".to_owned(),
        message_id: "message".to_owned(),
    });
    assert_eq!(socket.remove_chat_message("channel", "message").unwrap().envelope, expected);
}

#[test]
fn rpc_carries_its_payload() {
    let mut socket: WebSocket<()> = WebSocket::new();
    let mut expected = request_with_cid("2");
    expected.rpc = Some(ApiRpc {
        http_key: String::new(),
        id: "function".to_owned(),
        payload: "{\"n\":1}".to_owned(),
    });
    assert_eq!(first_call(socket.rpc("function", "{\"n\":1}")), expected);
}

#[test]
fn rpc_bytes_carries_no_payload() {
    let mut socket: WebSocket<()> = WebSocket::new();
    let mut expected = request_with_cid("2");
    expected.rpc =
        Some(ApiRpc { http_key: String::new(), id: "function".to_owned(), payload: String::new() });
    assert_eq!(first_call(socket.rpc_bytes("function", &[1, 2, 3])), expected);
}

#[test]
fn every_call_takes_the_next_id_and_waits() {
    let mut socket: WebSocket<()> = WebSocket::new();
    let calls = vec![
        socket.create_match().unwrap(),
        socket.create_party(false, 4).unwrap(),
        socket.rpc("f", "").unwrap(),
        socket.follow_users(&[], &[]).unwrap(),
    ];
    for (index, call) in calls.iter().enumerate() {
        assert_eq!(call.cid, index as i64 + 2);
        assert_eq!(call.envelope.cid, Some((index + 2).to_string()));
        assert!(socket.is_pending(call.cid));
    }
    assert_eq!(socket.pending_calls(), 4);
    assert!(!socket.is_pending(1));
    assert!(!socket.is_pending(6));
}

#[test]
fn requests_without_reply_carry_no_id() {
    let mut expected = WebSocketMessageEnvelope::blank();
    expected.match_leave = Some(MatchLeave { match_id: "match".to_owned() });
    assert_eq!(leave_match("match"), expected);

    let mut expected = WebSocketMessageEnvelope::blank();
    expected.channel_leave = Some(ChannelLeave { channel_id: "channel".to_owned() });
    assert_eq!(leave_chat("channel"), expected);

    let mut expected = WebSocketMessageEnvelope::blank();
    expected.status_update = Some(StatusUpdate { status: "away".to_owned() });
    assert_eq!(update_status("away"), expected);

    let mut expected = WebSocketMessageEnvelope::blank();
    expected.status_unfollow =
        Some(StatusUnfollow { user_ids: vec!["a".to_owned(), "b".to_owned()] });
    assert_eq!(unfollow_users(&["a", "b"]), expected);

    let mut expected = WebSocketMessageEnvelope::blank();
    expected.matchmaker_remove = Some(MatchmakerRemove { ticket: "ticket".to_owned() });
    assert_eq!(remove_matchmaker("ticket"), expected);
}

#[test]
fn party_requests_name_the_party() {
    let mut expected = WebSocketMessageEnvelope::blank();
    expected.party_accept = Some(PartyAccept { party_id: "party".to_owned(), presence: alice() });
    assert_eq!(accept_party_member("party", &alice()), expected);

    let mut expected = WebSocketMessageEnvelope::blank();
    expected.party_close = Some(PartyClose { party_id: "party".to_owned() });
    assert_eq!(close_party("party"), expected);

    let mut expected = WebSocketMessageEnvelope::blank();
    expected.party_join = Some(PartyJoin { party_id: "party".to_owned() });
    assert_eq!(join_party("party"), expected);

    let mut expected = WebSocketMessageEnvelope::blank();
    expected.party_leave = Some(PartyLeave { party_id: "party".to_owned() });
    assert_eq!(leave_party("party"), expected);

    let mut expected = WebSocketMessageEnvelope::blank();
    expected.party_promote = Some(PartyPromote { party_id: "party".to_owned(), presence: alice() });
    assert_eq!(promote_party_member("party", alice()), expected);

    let mut expected = WebSocketMessageEnvelope::blank();
    expected.party_remove = Some(PartyRemove { party_id: "party".to_owned(), presence: alice() });
    assert_eq!(remove_party_member("party", alice()), expected);

    let mut expected = WebSocketMessageEnvelope::blank();
    expected.party_matchmaker_remove = Some(PartyMatchmakerRemove {
        party_id: "party".to_owned(),
        ticket: "ticket".to_owned(),
    });
    assert_eq!(remove_matchmaker_party("party", "ticket"), expected);

    let mut expected = WebSocketMessageEnvelope::blank();
    expected.party_data_send =
        Some(PartyDataSend { party_id: "party".to_owned(), op_code: 1, data: vec![1, 2, 3, 4] });
    assert_eq!(send_party_data("party", 1, &[1, 2, 3, 4]), expected);
}

#[test]
fn match_state_is_sent_unreliably_to_the_named_presences() {
    let mut expected = WebSocketMessageEnvelope::blank();
    expected.match_data_send = Some(MatchDataSend {
        match_id: "match".to_owned(),
        op_code: -7,
        data: vec![0, 255],
        presences: vec![alice()],
        reliable: false,
    });
    assert_eq!(send_match_state("match", -7, &[0, 255], &[alice()]), expected);
    assert_eq!(send_match_state("m", 0, &[], &[]).match_data_send.unwrap().presences, vec![]);
}

#[test]
fn copies_are_faithful() {
    assert_eq!(alice().clone(), alice());
    assert_eq!(presences_to_vec(&[alice(), UserPresence::default()]), vec![
        alice(),
        UserPresence::default()
    ]);
    assert_eq!(str_slice_to_owned(&["a", "", "c"]), vec![
        "a".to_owned(),
        String::new(),
        "c".to_owned()
    ]);
    assert!(str_slice_to_owned(&[]).is_empty());
}

#[test]
fn kinds_and_codes_have_their_numbers() {
    assert_eq!(ChannelJoinType::Unspecified.value(), 0);
    assert_eq!(ChannelJoinType::Room.value(), 1);
    assert_eq!(ChannelJoinType::DirectMessage.value(), 2);
    assert_eq!(ChannelJoinType::Group.value(), 3);
    assert_eq!(ChannelJoinType::from_value(3), Some(ChannelJoinType::Group));
    assert_eq!(ChannelJoinType::from_value(4), None);
    assert_eq!(ChannelJoinType::from_value(-1), None);
    assert_eq!(ErrorCode::RuntimeException.value(), 0);
    assert_eq!(ErrorCode::MatchNotFound.value(), 4);
    assert_eq!(ErrorCode::RuntimeFunctionException.value(), 7);
    for value in 0..8 {
        assert_eq!(ErrorCode::from_value(value).unwrap().value(), value);
    }
    assert_eq!(ErrorCode::from_value(8), None);
}
