//! The requests that expect no reply.
//!
//! Such a request carries no correlation id and leaves no trace in the
//! socket: each function here only builds the frame to send.

use crate::calls::{same_texts, str_slice_to_owned};
use crate::socket::{
    ChannelLeave, MatchDataSend, MatchLeave, MatchmakerRemove, PartyAccept, PartyClose,
    PartyDataSend, PartyJoin, PartyLeave, PartyMatchmakerRemove, PartyPromote, PartyRemove,
    StatusUnfollow, StatusUpdate, UserPresence, WebSocketMessageEnvelope,
};
use vstd::prelude::*;
use vstd::slice::slice_to_vec;

verus! {

/// Copies the presences of `presences` into a vector.
pub fn presences_to_vec(presences: &[UserPresence]) -> (copied: Vec<UserPresence>)
    ensures
        copied@ == presences@,
{
    let mut copied: Vec<UserPresence> = Vec::new();
    let mut i: usize = 0;
    while i < presences.len()
        invariant
            i <= presences@.len(),
            copied@ == presences@.take(i as int),
        decreases presences@.len() - i,
    {
        copied.push(presences[i].clone());
        assert(copied@ =~= presences@.take(i + 1));
        i = i + 1;
    }
    assert(presences@.take(i as int) =~= presences@);
    copied
}

/// Accepts a user's request to join a party.
pub fn accept_party_member(
    party_id: &str,
    user_presence: &UserPresence,
) -> (envelope: WebSocketMessageEnvelope)
    ensures
        envelope.cid is None,
        envelope.payload_count() == 1,
        envelope.party_accept matches Some(p) && p.party_id@ == party_id@ && p.presence == *user_presence,
{
    let mut envelope = WebSocketMessageEnvelope::blank();
    envelope.party_accept = Some(PartyAccept { party_id: party_id.to_owned(), presence: user_presence.clone() });
    envelope
}

/// Closes a party.
pub fn close_party(party_id: &str) -> (envelope: WebSocketMessageEnvelope)
    ensures
        envelope.cid is None,
        envelope.payload_count() == 1,
        envelope.party_close matches Some(p) && p.party_id@ == party_id@,
{
    let mut envelope = WebSocketMessageEnvelope::blank();
    envelope.party_close = Some(PartyClose { party_id: party_id.to_owned() });
    envelope
}

/// Asks to join a party.
pub fn join_party(party_id: &str) -> (envelope: WebSocketMessageEnvelope)
    ensures
        envelope.cid is None,
        envelope.payload_count() == 1,
        envelope.party_join matches Some(p) && p.party_id@ == party_id@,
{
    let mut envelope = WebSocketMessageEnvelope::blank();
    envelope.party_join = Some(PartyJoin { party_id: party_id.to_owned() });
    envelope
}

/// Leaves a chat channel.
pub fn leave_chat(channel_id: &str) -> (envelope: WebSocketMessageEnvelope)
    ensures
        envelope.cid is None,
        envelope.payload_count() == 1,
        envelope.channel_leave matches Some(p) && p.channel_id@ == channel_id@,
{
    let mut envelope = WebSocketMessageEnvelope::blank();
    envelope.channel_leave = Some(ChannelLeave { channel_id: channel_id.to_owned() });
    envelope
}

/// Leaves a match.
pub fn leave_match(match_id: &str) -> (envelope: WebSocketMessageEnvelope)
    ensures
        envelope.cid is None,
        envelope.payload_count() == 1,
        envelope.match_leave matches Some(p) && p.match_id@ == match_id@,
{
    let mut envelope = WebSocketMessageEnvelope::blank();
    envelope.match_leave = Some(MatchLeave { match_id: match_id.to_owned() });
    envelope
}

/// Leaves a party.
pub fn leave_party(party_id: &str) -> (envelope: WebSocketMessageEnvelope)
    ensures
        envelope.cid is None,
        envelope.payload_count() == 1,
        envelope.party_leave matches Some(p) && p.party_id@ == party_id@,
{
    let mut envelope = WebSocketMessageEnvelope::blank();
    envelope.party_leave = Some(PartyLeave { party_id: party_id.to_owned() });
    envelope
}

/// Makes a member the leader of a party.
pub fn promote_party_member(
    party_id: &str,
    party_member: UserPresence,
) -> (envelope: WebSocketMessageEnvelope)
    ensures
        envelope.cid is None,
        envelope.payload_count() == 1,
        envelope.party_promote matches Some(p) && p.party_id@ == party_id@ && p.presence == party_member,
{
    let mut envelope = WebSocketMessageEnvelope::blank();
    envelope.party_promote = Some(PartyPromote { party_id: party_id.to_owned(), presence: party_member });
    envelope
}

/// Leaves the matchmaker pool.
pub fn remove_matchmaker(ticket: &str) -> (envelope: WebSocketMessageEnvelope)
    ensures
        envelope.cid is None,
        envelope.payload_count() == 1,
        envelope.matchmaker_remove matches Some(p) && p.ticket@ == ticket@,
{
    let mut envelope = WebSocketMessageEnvelope::blank();
    envelope.matchmaker_remove = Some(MatchmakerRemove { ticket: ticket.to_owned() });
    envelope
}

/// Takes a party out of the matchmaker pool.
pub fn remove_matchmaker_party(party_id: &str, ticket: &str) -> (envelope: WebSocketMessageEnvelope)
    ensures
        envelope.cid is None,
        envelope.payload_count() == 1,
        envelope.party_matchmaker_remove matches Some(p) && p.party_id@ == party_id@ && p.ticket@ == ticket@,
{
    let mut envelope = WebSocketMessageEnvelope::blank();
    envelope.party_matchmaker_remove = Some(PartyMatchmakerRemove { party_id: party_id.to_owned(), ticket: ticket.to_owned() });
    envelope
}

/// Removes a member from a party.
pub fn remove_party_member(
    party_id: &str,
    presence: UserPresence,
) -> (envelope: WebSocketMessageEnvelope)
    ensures
        envelope.cid is None,
        envelope.payload_count() == 1,
        envelope.party_remove matches Some(p) && p.party_id@ == party_id@ && p.presence == presence,
{
    let mut envelope = WebSocketMessageEnvelope::blank();
    envelope.party_remove = Some(PartyRemove { party_id: party_id.to_owned(), presence });
    envelope
}

/// Sends state to participants of a match.  The state is not marked
/// reliable.
pub fn send_match_state(
    match_id: &str,
    op_code: i64,
    state: &[u8],
    presences: &[UserPresence],
) -> (envelope: WebSocketMessageEnvelope)
    ensures
        envelope.cid is None,
        envelope.payload_count() == 1,
        envelope.match_data_send matches Some(p) && p.match_id@ == match_id@ && p.op_code == op_code && p.data@ == state@ && p.presences@ == presences@ && !p.reliable,
{
    let mut envelope = WebSocketMessageEnvelope::blank();
    envelope.match_data_send = Some(MatchDataSend {
        match_id: match_id.to_owned(),
        op_code,
        data: slice_to_vec(state),
        presences: presences_to_vec(presences),
        reliable: false,
    });
    envelope
}

/// Sends data to the members of a party.
pub fn send_party_data(
    party_id: &str,
    op_code: i64,
    data: &[u8],
) -> (envelope: WebSocketMessageEnvelope)
    ensures
        envelope.cid is None,
        envelope.payload_count() == 1,
        envelope.party_data_send matches Some(p) && p.party_id@ == party_id@ && p.op_code == op_code && p.data@ == data@,
{
    let mut envelope = WebSocketMessageEnvelope::blank();
    envelope.party_data_send = Some(PartyDataSend { party_id: party_id.to_owned(), op_code, data: slice_to_vec(data) });
    envelope
}

/// Stops following the status of users.
pub fn unfollow_users(user_ids: &[&str]) -> (envelope: WebSocketMessageEnvelope)
    ensures
        envelope.cid is None,
        envelope.payload_count() == 1,
        envelope.status_unfollow matches Some(p) && same_texts(p.user_ids@, user_ids@),
{
    let mut envelope = WebSocketMessageEnvelope::blank();
    envelope.status_unfollow = Some(StatusUnfollow { user_ids: str_slice_to_owned(user_ids) });
    envelope
}

/// Sets the user's own status.
pub fn update_status(status: &str) -> (envelope: WebSocketMessageEnvelope)
    ensures
        envelope.cid is None,
        envelope.payload_count() == 1,
        envelope.status_update matches Some(p) && p.status@ == status@,
{
    let mut envelope = WebSocketMessageEnvelope::blank();
    envelope.status_update = Some(StatusUpdate { status: status.to_owned() });
    envelope
}

} // verus!
