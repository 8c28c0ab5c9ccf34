use nakama_rs::api::ApiRpc;
use nakama_rs::reply::{
    expect_channel, expect_channel_message_ack, expect_match, expect_matchmaker_ticket,
    expect_party, expect_party_join_request, expect_party_matchmaker_ticket, expect_rpc,
    expect_status,
};
use nakama_rs::socket::{
    Channel, ChannelMessageAck, Error, Match, MatchmakerTicket, Party, PartyJoinRequest,
    PartyMatchmakerTicket, Status, UserPresence, WebSocketMessageEnvelope,
};
use nakama_rs::web_socket::SocketError;

fn server_error() -> Error {
    Error { code: 4, message: "match not found".to_owned(), ..Default::default() }
}

#[test]
fn the_expected_payload_is_the_result() {
    let mut frame = WebSocketMessageEnvelope::blank();
    frame.new_match = Some(Match { match_id: "m".to_owned(), size: 2, ..Default::default() });
    assert_eq!(
        expect_match(Ok(frame)),
        Ok(Match { match_id: "m".to_owned(), size: 2, ..Default::default() })
    );

    let mut frame = WebSocketMessageEnvelope::blank();
    frame.channel = Some(Channel { id: "c".to_owned(), ..Default::default() });
    assert_eq!(expect_channel(Ok(frame)), Ok(Channel { id: "c".to_owned(), ..Default::default() }));

    let mut frame = WebSocketMessageEnvelope::blank();
    frame.matchmaker_ticket = Some(MatchmakerTicket { ticket: "t".to_owned() });
    assert_eq!(expect_matchmaker_ticket(Ok(frame)), Ok(MatchmakerTicket { ticket: "t".to_owned() }));

    let mut frame = WebSocketMessageEnvelope::blank();
    frame.party_matchmaker_ticket =
        Some(PartyMatchmakerTicket { party_id: "p".to_owned(), ticket: "t".to_owned() });
    assert_eq!(
        expect_party_matchmaker_ticket(Ok(frame)),
        Ok(PartyMatchmakerTicket { party_id: "p".to_owned(), ticket: "t".to_owned() })
    );

    let mut frame = WebSocketMessageEnvelope::blank();
    frame.party = Some(Party { party_id: "p".to_owned(), max_size: 2, ..Default::default() });
    assert_eq!(expect_party(Ok(frame)).unwrap().max_size, 2);

    let mut frame = WebSocketMessageEnvelope::blank();
    frame.status = Some(Status { presences: vec![UserPresence::default()] });
    assert_eq!(expect_status(Ok(frame)).unwrap().presences.len(), 1);

    let mut frame = WebSocketMessageEnvelope::blank();
    frame.party_join_request =
        Some(PartyJoinRequest { party_id: "p".to_owned(), presences: vec![] });
    assert_eq!(expect_party_join_request(Ok(frame)).unwrap().party_id, "p");

    let mut frame = WebSocketMessageEnvelope::blank();
    frame.channel_message_ack =
        Some(ChannelMessageAck { message_id: "id".to_owned(), ..Default::default() });
    assert_eq!(expect_channel_message_ack(Ok(frame)).unwrap().message_id, "id");

    let mut frame = WebSocketMessageEnvelope::blank();
    frame.rpc = Some(ApiRpc { id: "f".to_owned(), payload: "42".to_owned(), ..Default::default() });
    assert_eq!(expect_rpc(Ok(frame)).unwrap().payload, "42");
}

#[test]
fn an_error_in_the_reply_is_the_servers_refusal() {
    let mut frame = WebSocketMessageEnvelope::blank();
    frame.cid = Some("2".to_owned());
    frame.error = Some(server_error());
    assert_eq!(expect_match(Ok(frame.clone())), Err(SocketError::Server(server_error())));
    assert_eq!(expect_channel(Ok(frame.clone())), Err(SocketError::Server(server_error())));
    assert_eq!(expect_rpc(Ok(frame)), Err(SocketError::Server(server_error())));
}

#[test]
fn an_error_beside_a_payload_still_is_a_refusal() {
    let mut frame = WebSocketMessageEnvelope::blank();
    frame.error = Some(server_error());
    frame.new_match = Some(Match::default());
    assert_eq!(expect_match(Ok(frame)), Err(SocketError::Server(server_error())));
}

#[test]
fn a_reply_without_the_expected_payload_is_reported() {
    assert_eq!(
        expect_match(Ok(WebSocketMessageEnvelope::blank())),
        Err(SocketError::UnexpectedReply)
    );
    let mut frame = WebSocketMessageEnvelope::blank();
    frame.channel = Some(Channel::default());
    assert_eq!(expect_match(Ok(frame.clone())), Err(SocketError::UnexpectedReply));
    assert_eq!(expect_party(Ok(frame.clone())), Err(SocketError::UnexpectedReply));
    assert_eq!(expect_status(Ok(frame.clone())), Err(SocketError::UnexpectedReply));
    assert_eq!(expect_rpc(Ok(frame.clone())), Err(SocketError::UnexpectedReply));
    assert_eq!(expect_matchmaker_ticket(Ok(frame.clone())), Err(SocketError::UnexpectedReply));
    assert_eq!(
        expect_party_matchmaker_ticket(Ok(frame.clone())),
        Err(SocketError::UnexpectedReply)
    );
    assert_eq!(expect_party_join_request(Ok(frame.clone())), Err(SocketError::UnexpectedReply));
    assert_eq!(expect_channel_message_ack(Ok(frame)), Err(SocketError::UnexpectedReply));
}

#[test]
fn the_reason_for_no_reply_is_passed_on() {
    assert_eq!(expect_match(Err(SocketError::Closed)), Err(SocketError::Closed));
    assert_eq!(expect_channel(Err(SocketError::Closed)), Err(SocketError::Closed));
    assert_eq!(expect_rpc(Err(SocketError::IdsExhausted)), Err(SocketError::IdsExhausted));
    assert_eq!(expect_party(Err(SocketError::DuplicateId)), Err(SocketError::DuplicateId));
}
