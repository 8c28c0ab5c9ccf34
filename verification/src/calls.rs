//! The operations that expect a reply.
//!
//! Each one builds its request, gives it the next correlation id and
//! registers a waiter before anything is sent, so that no reply can come
//! too early.  The caller sends the frame of the [`Call`] and waits on its
//! channel; what arrives there is read with the function of
//! [`crate::reply`] that the operation names.

use crate::api::ApiRpc;
use crate::socket::{
    ChannelJoin, ChannelMesageRemove, ChannelMesageUpdate, ChannelMessageSend, MatchCreate,
    MatchJoin, MatchmakerAdd, MatchmakerMatched, PartyCreate, PartyJoinRequestList,
    PartyMatchmakerAdd, StatusFollow, WebSocketMessageEnvelope,
};
use crate::properties::{NumericProperty, Property};
use crate::web_socket::{Call, SocketError, WebSocket};
use vstd::prelude::*;

verus! {

/// Whether `owned` holds the same texts as `borrowed`, in the same order.
pub open spec fn same_texts(owned: Seq<String>, borrowed: Seq<&str>) -> bool {
    &&& owned.len() == borrowed.len()
    &&& forall|i: int| 0 <= i < owned.len() ==> (#[trigger] owned[i])@ == borrowed[i]@
}

/// Copies each text of `texts` into a string of its own.
pub fn str_slice_to_owned(texts: &[&str]) -> (owned: Vec<String>)
    ensures
        same_texts(owned@, texts@),
{
    let mut owned: Vec<String> = Vec::new();
    let mut i: usize = 0;
    while i < texts.len()
        invariant
            i <= texts@.len(),
            owned@.len() == i,
            forall|j: int| 0 <= j < i ==> (#[trigger] owned@[j])@ == texts@[j]@,
        decreases texts@.len() - i,
    {
        owned.push(texts[i].to_owned());
        i = i + 1;
    }
    owned
}

impl<H> WebSocket<H> {
    /// Enters the matchmaker pool.  Without a lower bound, 2 opponents are
    /// asked for; without an upper bound, 8.
    ///
    /// The reply is read with [`expect_matchmaker_ticket`](crate::reply::expect_matchmaker_ticket).
    pub fn add_matchmaker(
        &mut self,
        query: &str,
        min_count: Option<i32>,
        max_count: Option<i32>,
        string_properties: Vec<Property>,
        numeric_properties: Vec<NumericProperty>,
    ) -> (outcome: Result<Call, SocketError>)
        ensures
            old(self).begins(final(self), outcome),
            outcome matches Ok(call) ==> {
                &&& call.envelope.payload_count() == 1
                &&& call.envelope.matchmaker_add matches Some(p)
                &&& p.query@ == query@
                &&& p.min_count == (if min_count is Some { min_count->0 } else { 2 })
                &&& p.max_count == (if max_count is Some { max_count->0 } else { 8 })
                &&& p.string_properties == string_properties
                &&& p.numeric_properties == numeric_properties
            },
    {
        let min_count: i32 = match min_count {
            Some(count) => count,
            None => 2,
        };
        let max_count: i32 = match max_count {
            Some(count) => count,
            None => 8,
        };
        let mut request = WebSocketMessageEnvelope::blank();
        request.matchmaker_add = Some(MatchmakerAdd {
                query: query.to_owned(),
                min_count,
                max_count,
                string_properties,
                numeric_properties,
        });
        self.begin_call(request)
    }

    /// Enters the matchmaker pool as a party.
    ///
    /// The reply is read with [`expect_party_matchmaker_ticket`](crate::reply::expect_party_matchmaker_ticket).
    pub fn add_matchmaker_party(
        &mut self,
        party_id: &str,
        query: &str,
        min_count: i32,
        max_count: i32,
        string_properties: Vec<Property>,
        numeric_properties: Vec<NumericProperty>,
    ) -> (outcome: Result<Call, SocketError>)
        ensures
            old(self).begins(final(self), outcome),
            outcome matches Ok(call) ==> {
                &&& call.envelope.payload_count() == 1
                &&& call.envelope.party_matchmaker_add matches Some(p)
                &&& p.party_id@ == party_id@
                &&& p.query@ == query@
                &&& p.min_count == min_count
                &&& p.max_count == max_count
                &&& p.string_properties == string_properties
                &&& p.numeric_properties == numeric_properties
            },
    {
        let mut request = WebSocketMessageEnvelope::blank();
        request.party_matchmaker_add = Some(PartyMatchmakerAdd {
                party_id: party_id.to_owned(),
                query: query.to_owned(),
                min_count,
                max_count,
                string_properties,
                numeric_properties,
        });
        self.begin_call(request)
    }

    /// Asks for a new match.
    ///
    /// The reply is read with [`expect_match`](crate::reply::expect_match).
    pub fn create_match(&mut self) -> (outcome: Result<Call, SocketError>)
        ensures
            old(self).begins(final(self), outcome),
            outcome matches Ok(call) ==> {
                &&& call.envelope.payload_count() == 1
                &&& call.envelope.match_create is Some
            },
    {
        let mut request = WebSocketMessageEnvelope::blank();
        request.match_create = Some(MatchCreate {});
        self.begin_call(request)
    }

    /// Asks for a new party.
    ///
    /// The reply is read with [`expect_party`](crate::reply::expect_party).
    pub fn create_party(
        &mut self,
        open: bool,
        max_size: i32,
    ) -> (outcome: Result<Call, SocketError>)
        ensures
            old(self).begins(final(self), outcome),
            outcome matches Ok(call) ==> {
                &&& call.envelope.payload_count() == 1
                &&& call.envelope.party_create matches Some(p)
                &&& p.open == open
                &&& p.max_size == max_size
            },
    {
        let mut request = WebSocketMessageEnvelope::blank();
        request.party_create = Some(PartyCreate { open, max_size });
        self.begin_call(request)
    }

    /// Starts following the status of users, named by id or by name.
    ///
    /// The reply is read with [`expect_status`](crate::reply::expect_status).
    pub fn follow_users(
        &mut self,
        user_ids: &[&str],
        usernames: &[&str],
    ) -> (outcome: Result<Call, SocketError>)
        ensures
            old(self).begins(final(self), outcome),
            outcome matches Ok(call) ==> {
                &&& call.envelope.payload_count() == 1
                &&& call.envelope.status_follow matches Some(p)
                &&& same_texts(p.user_ids@, user_ids@)
                &&& same_texts(p.usernames@, usernames@)
            },
    {
        let mut request = WebSocketMessageEnvelope::blank();
        request.status_follow = Some(StatusFollow {
                user_ids: str_slice_to_owned(user_ids),
                usernames: str_slice_to_owned(usernames),
        });
        self.begin_call(request)
    }

    /// Joins a chat channel.  `channel_type` is the number of a
    /// [`ChannelJoinType`](crate::socket::ChannelJoinType).
    ///
    /// The reply is read with [`expect_channel`](crate::reply::expect_channel).
    pub fn join_chat(
        &mut self,
        room_name: &str,
        channel_type: i32,
        persistence: bool,
        hidden: bool,
    ) -> (outcome: Result<Call, SocketError>)
        ensures
            old(self).begins(final(self), outcome),
            outcome matches Ok(call) ==> {
                &&& call.envelope.payload_count() == 1
                &&& call.envelope.channel_join matches Some(p)
                &&& p.target@ == room_name@
                &&& p.channel_type == channel_type
                &&& p.persistence == persistence
                &&& p.hidden == hidden
            },
    {
        let mut request = WebSocketMessageEnvelope::blank();
        request.channel_join = Some(ChannelJoin { hidden, persistence, target: room_name.to_owned(), channel_type });
        self.begin_call(request)
    }

    /// Joins the match that the matchmaker found.
    ///
    /// The reply is read with [`expect_match`](crate::reply::expect_match).
    pub fn join_match(&mut self, matched: MatchmakerMatched) -> (outcome: Result<Call, SocketError>)
        ensures
            old(self).begins(final(self), outcome),
            outcome matches Ok(call) ==> {
                &&& call.envelope.payload_count() == 1
                &&& call.envelope.match_join matches Some(p)
                &&& p.match_id == matched.match_id
                &&& p.token == matched.token
                &&& p.metadata@ == Seq::<Property>::empty()
            },
    {
        let mut request = WebSocketMessageEnvelope::blank();
        request.match_join = Some(MatchJoin { match_id: matched.match_id, token: matched.token, metadata: Vec::new() });
        self.begin_call(request)
    }

    /// Joins a match that is known by its id.
    ///
    /// The reply is read with [`expect_match`](crate::reply::expect_match).
    pub fn join_match_by_id(
        &mut self,
        match_id: &str,
        metadata: Vec<Property>,
    ) -> (outcome: Result<Call, SocketError>)
        ensures
            old(self).begins(final(self), outcome),
            outcome matches Ok(call) ==> {
                &&& call.envelope.payload_count() == 1
                &&& call.envelope.match_join matches Some(p)
                &&& p.match_id matches Some(id) && id@ == match_id@
                &&& p.token is None
                &&& p.metadata == metadata
            },
    {
        let mut request = WebSocketMessageEnvelope::blank();
        request.match_join = Some(MatchJoin { match_id: Some(match_id.to_owned()), token: None, metadata });
        self.begin_call(request)
    }

    /// Asks who wants to join a party.
    ///
    /// The reply is read with [`expect_party_join_request`](crate::reply::expect_party_join_request).
    pub fn list_party_join_requests(
        &mut self,
        party_id: &str,
    ) -> (outcome: Result<Call, SocketError>)
        ensures
            old(self).begins(final(self), outcome),
            outcome matches Ok(call) ==> {
                &&& call.envelope.payload_count() == 1
                &&& call.envelope.party_join_request_list matches Some(p)
                &&& p.party_id@ == party_id@
            },
    {
        let mut request = WebSocketMessageEnvelope::blank();
        request.party_join_request_list = Some(PartyJoinRequestList { party_id: party_id.to_owned() });
        self.begin_call(request)
    }

    /// Removes a chat message.
    ///
    /// The reply is read with [`expect_channel_message_ack`](crate::reply::expect_channel_message_ack).
    pub fn remove_chat_message(
        &mut self,
        channel_id: &str,
        message_id: &str,
    ) -> (outcome: Result<Call, SocketError>)
        ensures
            old(self).begins(final(self), outcome),
            outcome matches Ok(call) ==> {
                &&& call.envelope.payload_count() == 1
                &&& call.envelope.channel_message_remove matches Some(p)
                &&& p.channel_id@ == channel_id@
                &&& p.message_id@ == message_id@
            },
    {
        let mut request = WebSocketMessageEnvelope::blank();
        request.channel_message_remove = Some(ChannelMesageRemove {
                channel_id: channel_id.to_owned(),
                message_id: message_id.to_owned(),
        });
        self.begin_call(request)
    }

    /// Calls a function on the server.
    ///
    /// The reply is read with [`expect_rpc`](crate::reply::expect_rpc).
    pub fn rpc(&mut self, func_id: &str, payload: &str) -> (outcome: Result<Call, SocketError>)
        ensures
            old(self).begins(final(self), outcome),
            outcome matches Ok(call) ==> {
                &&& call.envelope.payload_count() == 1
                &&& call.envelope.rpc matches Some(p)
                &&& p.id@ == func_id@
                &&& p.payload@ == payload@
                &&& p.http_key@.len() == 0
            },
    {
        let mut request = WebSocketMessageEnvelope::blank();
        request.rpc = Some(ApiRpc { id: func_id.to_owned(), http_key: String::new(), payload: payload.to_owned() });
        self.begin_call(request)
    }

    /// Calls a function on the server without a text payload.  Bytes have no
    /// place in the request: `payload` is not sent, and the request's payload
    /// is empty.
    ///
    /// The reply is read with [`expect_rpc`](crate::reply::expect_rpc).
    pub fn rpc_bytes(
        &mut self,
        func_id: &str,
        payload: &[u8],
    ) -> (outcome: Result<Call, SocketError>)
        ensures
            old(self).begins(final(self), outcome),
            outcome matches Ok(call) ==> {
                &&& call.envelope.payload_count() == 1
                &&& call.envelope.rpc matches Some(p)
                &&& p.id@ == func_id@
                &&& p.payload@.len() == 0
                &&& p.http_key@.len() == 0
            },
    {
        let mut request = WebSocketMessageEnvelope::blank();
        request.rpc = Some(ApiRpc { id: func_id.to_owned(), http_key: String::new(), payload: String::new() });
        self.begin_call(request)
    }

    /// Replaces the content of a chat message.
    ///
    /// The reply is read with [`expect_channel_message_ack`](crate::reply::expect_channel_message_ack).
    pub fn update_chat_message(
        &mut self,
        channel_id: &str,
        message_id: &str,
        content: &str,
    ) -> (outcome: Result<Call, SocketError>)
        ensures
            old(self).begins(final(self), outcome),
            outcome matches Ok(call) ==> {
                &&& call.envelope.payload_count() == 1
                &&& call.envelope.channel_message_update matches Some(p)
                &&& p.channel_id@ == channel_id@
                &&& p.message_id@ == message_id@
                &&& p.content@ == content@
            },
    {
        let mut request = WebSocketMessageEnvelope::blank();
        request.channel_message_update = Some(ChannelMesageUpdate {
                channel_id: channel_id.to_owned(),
                message_id: message_id.to_owned(),
                content: content.to_owned(),
        });
        self.begin_call(request)
    }

    /// Sends a message to a chat channel.
    ///
    /// The reply is read with [`expect_channel_message_ack`](crate::reply::expect_channel_message_ack).
    pub fn write_chat_message(
        &mut self,
        channel_id: &str,
        content: &str,
    ) -> (outcome: Result<Call, SocketError>)
        ensures
            old(self).begins(final(self), outcome),
            outcome matches Ok(call) ==> {
                &&& call.envelope.payload_count() == 1
                &&& call.envelope.channel_message_send matches Some(p)
                &&& p.channel_id@ == channel_id@
                &&& p.content@ == content@
            },
    {
        let mut request = WebSocketMessageEnvelope::blank();
        request.channel_message_send = Some(ChannelMessageSend { channel_id: channel_id.to_owned(), content: content.to_owned() });
        self.begin_call(request)
    }
}

} // verus!
