use nakama_rs::api::{ApiChannelMessage, ApiNotification, ApiNotificationList, ApiRpc};
use nakama_rs::envelope::DecodeError;
use nakama_rs::json::is_number_text;
use nakama_rs::properties::{NumericProperty, Property};
use nakama_rs::push::PushKind;
use nakama_rs::reply::expect_match;
use nakama_rs::sends::{leave_match, send_party_data};
use nakama_rs::socket::{
    Channel, ChannelJoin, ChannelMessageAck, ChannelPresenceEvent, Error, Match, MatchCreate,
    MatchData, MatchJoin, MatchmakerAdd, MatchmakerMatched, MatchmakerUser, Party,
    PartyMatchmakerAdd, Status, StatusFollow, StatusPresenceEvent, Stream, StreamData, Timestamp,
    UserPresence, WebSocketMessageEnvelope,
};
use nakama_rs::web_socket::{Outcome, Received, WebSocket};

fn alice() -> UserPresence {
    UserPresence {
        persistence: true,
        session_id: "session".to_owned(),
        status: "\"here\"".to_owned(),
        username: "alice".to_owned(),
        user_id: "user 1".to_owned(),
    }
}

fn property(name: &str, value: &str) -> Property {
    Property { name: name.to_owned(), value: value.to_owned() }
}

fn numeric(name: &str, value: &str) -> NumericProperty {
    NumericProperty { name: name.to_owned(), value: value.to_owned() }
}

fn with(set: impl FnOnce(&mut WebSocketMessageEnvelope)) -> WebSocketMessageEnvelope {
    let mut frame = WebSocketMessageEnvelope::blank();
    set(&mut frame);
    frame
}

fn samples() -> Vec<WebSocketMessageEnvelope> {
    let user = MatchmakerUser {
        presence: alice(),
        party_id: "party".to_owned(),
        string_properties: vec![property("region", "eu"), property("mode", "duel")],
        numeric_properties: vec![numeric("rank", "12.5"), numeric("wins", "-3e2")],
    };
    vec![
        with(|f| f.cid = Some("2".to_owned())),
        with(|f| {
            f.channel = Some(Channel {
                id: "c".to_owned(),
                presences: vec![alice(), UserPresence::default()],
                _self: alice(),
                room_name: Some("MyRoom".to_owned()),
                group_id: None,
                user_id_one: Some(String::new()),
                user_id_two: None,
            })
        }),
        with(|f| {
            f.channel_join = Some(ChannelJoin {
                hidden: true,
                persistence: false,
                target: "room".to_owned(),
                channel_type: 1,
            })
        }),
        with(|f| f.channel_leave = Some(Default::default())),
        with(|f| {
            f.channel_message = Some(ApiChannelMessage {
                code: -1,
                content: "{\"text\":\"Hello, World!\"}".to_owned(),
                persistent: true,
                ..Default::default()
            })
        }),
        with(|f| {
            f.channel_message_ack = Some(ChannelMessageAck {
                code: i32::MAX,
                create_time: Timestamp("2021-01-01T00:00:00Z".to_owned()),
                update_time: Timestamp(String::new()),
                room_name: Some("r".to_owned()),
                ..Default::default()
            })
        }),
        with(|f| f.channel_message_remove = Some(Default::default())),
        with(|f| f.channel_message_send = Some(Default::default())),
        with(|f| f.channel_message_update = Some(Default::default())),
        with(|f| {
            f.channel_presence_event = Some(ChannelPresenceEvent {
                channel_id: "c".to_owned(),
                joins: vec![alice()],
                leaves: vec![],
                ..Default::default()
            })
        }),
        with(|f| {
            f.error = Some(Error {
                code: 4,
                message: "match not found".to_owned(),
                context: vec![property("match", "m1"), property("match", "m2")],
            })
        }),
        with(|f| {
            f.matchmaker_add = Some(MatchmakerAdd {
                min_count: 2,
                max_count: 8,
                query: "*".to_owned(),
                string_properties: vec![property("region", "eu")],
                numeric_properties: vec![numeric("rank", "0.5")],
            })
        }),
        with(|f| {
            f.matchmaker_matched = Some(MatchmakerMatched {
                ticket: "t".to_owned(),
                match_id: None,
                token: Some("token".to_owned()),
                users: vec![user.clone(), MatchmakerUser::default()],
                _self: user,
            })
        }),
        with(|f| f.matchmaker_remove = Some(Default::default())),
        with(|f| f.matchmaker_ticket = Some(Default::default())),
        with(|f| {
            f.new_match = Some(Match {
                match_id: "m".to_owned(),
                authoritative: true,
                label: "caf\u{e9} \u{1f600}".to_owned(),
                size: 2,
                presences: vec![alice()],
                _self: alice(),
            })
        }),
        with(|f| f.match_create = Some(MatchCreate {})),
        with(|f| {
            f.match_join = Some(MatchJoin {
                match_id: Some("m".to_owned()),
                token: None,
                metadata: vec![property("skin", "red")],
            })
        }),
        with(|f| f.match_leave = Some(Default::default())),
        with(|f| f.match_presence_event = Some(Default::default())),
        with(|f| {
            f.match_data = Some(MatchData {
                match_id: "m".to_owned(),
                presence: alice(),
                op_code: i64::MIN,
                data: vec![0, 1, 127, 128, 255],
                reliable: true,
            })
        }),
        with(|f| f.match_data_send = Some(Default::default())),
        with(|f| {
            f.notifications = Some(ApiNotificationList {
                cacheable_cursor: "cursor".to_owned(),
                notifications: vec![
                    ApiNotification { code: 1, subject: "hi".to_owned(), ..Default::default() },
                    ApiNotification::default(),
                ],
            })
        }),
        with(|f| {
            f.rpc = Some(ApiRpc {
                http_key: String::new(),
                id: "fn".to_owned(),
                payload: "line\nbreak \\ \"quoted\"".to_owned(),
            })
        }),
        with(|f| f.status = Some(Status { presences: vec![alice()] })),
        with(|f| {
            f.status_follow = Some(StatusFollow {
                user_ids: vec!["a".to_owned(), String::new()],
                usernames: vec![],
            })
        }),
        with(|f| {
            f.status_presence_event =
                Some(StatusPresenceEvent { joins: vec![], leaves: vec![alice()] })
        }),
        with(|f| f.status_unfollow = Some(Default::default())),
        with(|f| f.status_update = Some(Default::default())),
        with(|f| f.stream_presence_event = Some(Default::default())),
        with(|f| {
            f.stream_data = Some(StreamData {
                stream: Stream {
                    mode: 2,
                    subject: "s".to_owned(),
                    subcontext: String::new(),
                    label: "l".to_owned(),
                },
                sender: alice(),
                data: "data".to_owned(),
                reliable: false,
            })
        }),
        with(|f| {
            f.party = Some(Party {
                party_id: "p".to_owned(),
                open: true,
                max_size: 4,
                _self: alice(),
                leader: alice(),
                presences: vec![alice()],
            })
        }),
        with(|f| f.party_create = Some(Default::default())),
        with(|f| f.party_join = Some(Default::default())),
        with(|f| f.party_leave = Some(Default::default())),
        with(|f| f.party_promote = Some(Default::default())),
        with(|f| f.party_leader = Some(Default::default())),
        with(|f| f.party_accept = Some(Default::default())),
        with(|f| f.party_remove = Some(Default::default())),
        with(|f| f.party_close = Some(Default::default())),
        with(|f| f.party_join_request_list = Some(Default::default())),
        with(|f| f.party_join_request = Some(Default::default())),
        with(|f| {
            f.party_matchmaker_add = Some(PartyMatchmakerAdd {
                party_id: "p".to_owned(),
                min_count: 2,
                max_count: 4,
                query: "*".to_owned(),
                string_properties: vec![],
                numeric_properties: vec![numeric("n", "1")],
            })
        }),
        with(|f| f.party_matchmaker_remove = Some(Default::default())),
        with(|f| f.party_matchmaker_ticket = Some(Default::default())),
        with(|f| f.party_data = Some(Default::default())),
        with(|f| f.party_data_send = Some(Default::default())),
        with(|f| f.party_presence_event = Some(Default::default())),
    ]
}

#[test]
fn every_kind_of_frame_is_read_back_as_it_was_written() {
    let samples = samples();
    assert_eq!(samples.len(), 48);
    for frame in samples {
        let text = frame.encode();
        assert_eq!(WebSocketMessageEnvelope::decode(&text), Ok(frame), "{}", text);
    }
}

#[test]
fn a_frame_with_id_and_payload_is_read_back() {
    for mut frame in samples() {
        frame.cid = Some("17".to_owned());
        assert_eq!(WebSocketMessageEnvelope::decode(&frame.encode()), Ok(frame));
    }
}

#[test]
fn a_frame_with_every_payload_is_read_back() {
    let mut all = WebSocketMessageEnvelope::blank();
    let samples = samples();
    all.cid = Some("2".to_owned());
    all.channel = samples[1].channel.clone();
    all.error = samples[10].error.clone();
    all.matchmaker_matched = samples[12].matchmaker_matched.clone();
    all.new_match = samples[15].new_match.clone();
    all.party_presence_event = samples[47].party_presence_event.clone();
    assert_eq!(all.count_payloads(), 5);
    assert_eq!(WebSocketMessageEnvelope::decode(&all.encode()), Ok(all));
}

#[test]
fn what_is_not_set_is_not_written() {
    assert_eq!(WebSocketMessageEnvelope::blank().encode(), "{}");
    assert_eq!(with(|f| f.cid = Some("2".to_owned())).encode(), "{\"cid\":\"2\"}");
    assert_eq!(
        with(|f| f.match_create = Some(MatchCreate {})).encode(),
        "{\"match_create\":{}}"
    );
    assert_eq!(leave_match("m").encode(), "{\"match_leave\":{\"match_id\":\"m\"}}");
}

#[test]
fn requests_have_their_text() {
    let mut socket: WebSocket<()> = WebSocket::new();
    assert_eq!(
        socket.create_match().unwrap().envelope.encode(),
        "{\"cid\":\"2\",\"match_create\":{}}"
    );
    assert_eq!(
        socket.join_chat("MyRoom", 1, false, false).unwrap().envelope.encode(),
        "{\"cid\":\"3\",\"channel_join\":{\"hidden\":false,\"persistence\":false,\
         \"target\":\"MyRoom\",\"type\":1}}"
    );
    assert_eq!(
        socket
            .add_matchmaker(
                "*",
                None,
                Some(4),
                vec![property("region", "eu")],
                vec![numeric("rank", "12.5")]
            )
            .unwrap()
            .envelope
            .encode(),
        "{\"cid\":\"4\",\"matchmaker_add\":{\"min_count\":2,\"max_count\":4,\"query\":\"*\",\
         \"string_properties\":{\"region\":\"eu\"},\"numeric_properties\":{\"rank\":12.5}}}"
    );
    assert_eq!(
        send_party_data("p", -1, &[1, 2, 255]).encode(),
        "{\"party_data_send\":{\"party_id\":\"p\",\"op_code\":-1,\"data\":[1,2,255]}}"
    );
}

#[test]
fn fields_with_other_names_on_the_wire_are_renamed() {
    let frame = with(|f| {
        f.new_match = Some(Match { _self: alice(), ..Default::default() });
    });
    let text = frame.encode();
    assert!(text.starts_with("{\"match\":{"), "{}", text);
    assert!(text.contains("\"self\":{\"persistence\":true"), "{}", text);
    assert!(!text.contains("_self"), "{}", text);
    assert!(!text.contains("new_match"), "{}", text);
}

#[test]
fn members_may_come_in_any_order_with_blanks() {
    let text = " { \"match_leave\" : { \"match_id\" : \"m\" } , \"cid\" : \"7\" } ";
    let mut expected = leave_match("m");
    expected.cid = Some("7".to_owned());
    assert_eq!(WebSocketMessageEnvelope::decode(text), Ok(expected));

    let text = "{\"status_update\":{\"status\":\"away\"}}";
    assert_eq!(
        WebSocketMessageEnvelope::decode(text).unwrap().status_update.unwrap().status,
        "away"
    );
}

#[test]
fn unknown_members_are_passed_over() {
    let text = "{\"later\":[1,{\"x\":null}],\"cid\":\"7\",\"match_leave\":{\"match_id\":\"m\",\
                \"reason\":\"bored\",\"extra\":{\"deep\":[true]}},\"ping\":{}}";
    let mut expected = leave_match("m");
    expected.cid = Some("7".to_owned());
    assert_eq!(WebSocketMessageEnvelope::decode(text), Ok(expected));
}

#[test]
fn null_is_the_same_as_not_there() {
    let text = "{\"cid\":null,\"channel\":null,\"match_leave\":{\"match_id\":\"m\"}}";
    assert_eq!(WebSocketMessageEnvelope::decode(text), Ok(leave_match("m")));
    let text = "{\"channel\":{\"id\":\"c\",\"presences\":[],\"self\":{\"persistence\":false,\
                \"session_id\":\"\",\"status\":\"\",\"username\":\"\",\"user_id\":\"\"},\
                \"room_name\":null}}";
    let channel = WebSocketMessageEnvelope::decode(text).unwrap().channel.unwrap();
    assert_eq!(channel.id, "c");
    assert_eq!(channel.room_name, None);
    assert_eq!(channel.group_id, None);
}

#[test]
fn of_a_name_that_comes_twice_the_last_counts() {
    let text = "{\"cid\":\"1\",\"cid\":\"2\",\"match_leave\":{\"match_id\":\"a\",\
                \"match_id\":\"b\"}}";
    let frame = WebSocketMessageEnvelope::decode(text).unwrap();
    assert_eq!(frame.cid, Some("2".to_owned()));
    assert_eq!(frame.match_leave.unwrap().match_id, "b");
}

#[test]
fn text_that_is_no_frame_is_malformed() {
    for bad in [
        "",
        "not json",
        "{",
        "[]",
        "\"cid\"",
        "null",
        "{\"cid\":2}",
        "{\"cid\":[\"2\"]}",
        "{\"match_leave\":{}}",
        "{\"match_leave\":{\"match_id\":7}}",
        "{\"match_leave\":\"m\"}",
        "{\"match_leave\":[]}",
        "{\"channel_join\":{\"hidden\":false,\"persistence\":false,\"target\":\"r\"}}",
        "{\"channel_join\":{\"hidden\":0,\"persistence\":false,\"target\":\"r\",\"type\":1}}",
        "{\"channel_join\":{\"hidden\":false,\"persistence\":false,\"target\":\"r\",\
         \"type\":1.0}}",
        "{\"channel_join\":{\"hidden\":false,\"persistence\":false,\"target\":\"r\",\
         \"type\":2147483648}}",
        "{\"party_data_send\":{\"party_id\":\"p\",\"op_code\":1,\"data\":[256]}}",
        "{\"party_data_send\":{\"party_id\":\"p\",\"op_code\":1,\"data\":[-1]}}",
        "{\"party_data_send\":{\"party_id\":\"p\",\"op_code\":9223372036854775808,\
         \"data\":[]}}",
        "{\"status_follow\":{\"user_ids\":[1],\"usernames\":[]}}",
        "{\"error\":{\"code\":1,\"message\":\"m\",\"context\":{\"k\":1}}}",
        "{\"matchmaker_add\":{\"min_count\":2,\"max_count\":4,\"query\":\"*\",\
         \"string_properties\":{},\"numeric_properties\":{\"rank\":\"high\"}}}",
        "{\"match_leave\":{\"match_id\":\"m\"}} x",
    ] {
        assert_eq!(
            WebSocketMessageEnvelope::decode(bad),
            Err(DecodeError::Malformed),
            "{:?} was taken for a frame",
            bad
        );
        assert_eq!(Received::decode(bad), Received::Malformed);
    }
}

#[test]
fn numbers_are_told_from_other_text() {
    for good in ["0", "-0", "7", "-12", "12.5", "0.001", "1e9", "1E-9", "-1.5e+10"] {
        assert!(is_number_text(good), "{}", good);
    }
    for bad in ["", "-", "+1", "01", "1.", ".5", "1e", "1e+", "NaN", "inf", "1 ", " 1", "0x1", "1,0"]
    {
        assert!(!is_number_text(bad), "{}", bad);
    }
}

#[test]
fn a_reply_in_text_wakes_its_caller() {
    let mut socket: WebSocket<()> = WebSocket::new();
    let call = socket.create_match().unwrap();
    let reply = "{\"cid\":\"2\",\"match\":{\"match_id\":\"m1\",\"authoritative\":false,\
                 \"label\":\"\",\"size\":1,\"presences\":[],\"self\":{\"persistence\":false,\
                 \"session_id\":\"s\",\"status\":\"\",\"username\":\"u\",\"user_id\":\"id\"}}}";
    assert_eq!(
        socket.handle_message(Received::decode(reply)),
        Outcome::Resolved { id: 2, woken: true }
    );
    let created = expect_match(call.reply.try_recv().unwrap()).unwrap();
    assert_eq!(created.match_id, "m1");
    assert_eq!(created._self.username, "u");
}

#[test]
fn malformed_text_leaves_every_call_waiting() {
    let mut socket: WebSocket<()> = WebSocket::new();
    let call = socket.create_match().unwrap();
    assert_eq!(socket.handle_message(Received::decode("{\"cid\":\"2\",")), Outcome::Dropped);
    assert_eq!(socket.handle_message(Received::decode("{\"cid\":2}")), Outcome::Dropped);
    assert!(socket.is_pending(call.cid));
    let reply = Received::decode(&with(|f| {
        f.cid = Some("2".to_owned());
        f.new_match = Some(Match::default());
    })
    .encode());
    assert_eq!(socket.handle_message(reply), Outcome::Resolved { id: 2, woken: true });
    assert!(expect_match(call.reply.try_recv().unwrap()).is_ok());
}

#[test]
fn an_event_in_text_is_delivered() {
    let mut socket: WebSocket<&str> = WebSocket::new();
    socket.on_received(PushKind::StatusPresence, "handler");
    let text = "{\"status_presence_event\":{\"joins\":[],\"leaves\":[]}}";
    match socket.handle_message(Received::decode(text)) {
        Outcome::Event(event) => assert_eq!(event.kind(), PushKind::StatusPresence),
        other => panic!("the event was not delivered: {:?}", other),
    }
}
