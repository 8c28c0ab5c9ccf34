//! The messages of the realtime channel.
//!
//! Every frame on the wire is one [`WebSocketMessageEnvelope`]: an optional
//! correlation id and one payload out of a closed set.  The records here are
//! plain data; what the fields mean is the server's business.

use crate::api::{ApiChannelMessage, ApiNotification, ApiNotificationList, ApiRpc};
use crate::properties::{NumericProperty, Property};
use vstd::prelude::*;

verus! {

/// A point in time, in the server's text form.
#[derive(Debug, Clone, Default, PartialEq)]
pub struct Timestamp(pub String);

/// One session of one user, as others see it.
#[derive(Debug, Default, PartialEq)]
pub struct UserPresence {
    pub persistence: bool,
    pub session_id: String,
    pub status: String,
    pub username: String,
    pub user_id: String,
}

impl Clone for UserPresence {
    fn clone(&self) -> (copy: Self)
        ensures
            copy == *self,
    {
        UserPresence {
            persistence: self.persistence,
            session_id: self.session_id.clone(),
            status: self.status.clone(),
            username: self.username.clone(),
            user_id: self.user_id.clone(),
        }
    }
}

/// The kind of chat channel that a join request names.
#[derive(Debug, Clone, Copy, PartialEq, Eq)]
pub enum ChannelJoinType {
    Unspecified,
    Room,
    DirectMessage,
    Group,
}

impl ChannelJoinType {
    /// The number that stands for this kind on the wire.
    pub open spec fn spec_value(self) -> i32 {
        match self {
            ChannelJoinType::Unspecified => 0,
            ChannelJoinType::Room => 1,
            ChannelJoinType::DirectMessage => 2,
            ChannelJoinType::Group => 3,
        }
    }

    /// The number that stands for this kind on the wire.
    #[verifier::when_used_as_spec(spec_value)]
    pub fn value(self) -> (v: i32)
        ensures
            v == self.spec_value(),
    {
        match self {
            ChannelJoinType::Unspecified => 0,
            ChannelJoinType::Room => 1,
            ChannelJoinType::DirectMessage => 2,
            ChannelJoinType::Group => 3,
        }
    }

    /// The kind that `v` stands for, if it stands for one.
    pub fn from_value(v: i32) -> (kind: Option<ChannelJoinType>)
        ensures
            match kind {
                Some(k) => k.spec_value() == v,
                None => v < 0 || v > 3,
            },
    {
        if v == 0 {
            Some(ChannelJoinType::Unspecified)
        } else if v == 1 {
            Some(ChannelJoinType::Room)
        } else if v == 2 {
            Some(ChannelJoinType::DirectMessage)
        } else if v == 3 {
            Some(ChannelJoinType::Group)
        } else {
            None
        }
    }
}

/// Why the server refused a message.
#[derive(Debug, Clone, Copy, PartialEq, Eq)]
pub enum ErrorCode {
    RuntimeException,
    UnrecognizedPayload,
    MissingPayload,
    BadInput,
    MatchNotFound,
    MatchJoinRejected,
    RuntimeFunctionNotFound,
    RuntimeFunctionException,
}

impl ErrorCode {
    /// The number that stands for this reason on the wire.
    pub open spec fn spec_value(self) -> i32 {
        match self {
            ErrorCode::RuntimeException => 0,
            ErrorCode::UnrecognizedPayload => 1,
            ErrorCode::MissingPayload => 2,
            ErrorCode::BadInput => 3,
            ErrorCode::MatchNotFound => 4,
            ErrorCode::MatchJoinRejected => 5,
            ErrorCode::RuntimeFunctionNotFound => 6,
            ErrorCode::RuntimeFunctionException => 7,
        }
    }

    /// The number that stands for this reason on the wire.
    #[verifier::when_used_as_spec(spec_value)]
    pub fn value(self) -> (v: i32)
        ensures
            v == self.spec_value(),
    {
        match self {
            ErrorCode::RuntimeException => 0,
            ErrorCode::UnrecognizedPayload => 1,
            ErrorCode::MissingPayload => 2,
            ErrorCode::BadInput => 3,
            ErrorCode::MatchNotFound => 4,
            ErrorCode::MatchJoinRejected => 5,
            ErrorCode::RuntimeFunctionNotFound => 6,
            ErrorCode::RuntimeFunctionException => 7,
        }
    }

    /// The reason that `v` stands for, if it stands for one.
    pub fn from_value(v: i32) -> (code: Option<ErrorCode>)
        ensures
            match code {
                Some(c) => c.spec_value() == v,
                None => v < 0 || v > 7,
            },
    {
        if v == 0 {
            Some(ErrorCode::RuntimeException)
        } else if v == 1 {
            Some(ErrorCode::UnrecognizedPayload)
        } else if v == 2 {
            Some(ErrorCode::MissingPayload)
        } else if v == 3 {
            Some(ErrorCode::BadInput)
        } else if v == 4 {
            Some(ErrorCode::MatchNotFound)
        } else if v == 5 {
            Some(ErrorCode::MatchJoinRejected)
        } else if v == 6 {
            Some(ErrorCode::RuntimeFunctionNotFound)
        } else if v == 7 {
            Some(ErrorCode::RuntimeFunctionException)
        } else {
            None
        }
    }
}

/// A chat channel that the user has joined.
#[derive(Debug, Clone, Default, PartialEq)]
pub struct Channel {
    pub id: String,
    pub presences: Vec<UserPresence>,
    /// On the wire this field is called `self`.
    pub _self: UserPresence,
    pub room_name: Option<String>,
    pub group_id: Option<String>,
    pub user_id_one: Option<String>,
    pub user_id_two: Option<String>,
}

/// Asks to join a chat channel.
#[derive(Debug, Clone, Default, PartialEq)]
pub struct ChannelJoin {
    pub hidden: bool,
    pub persistence: bool,
    pub target: String,
    /// On the wire this field is called `type`.
    pub channel_type: i32,
}

/// Asks to leave a chat channel.
#[derive(Debug, Clone, Default, PartialEq)]
pub struct ChannelLeave {
    pub channel_id: String,
}

/// Confirms that a chat message was accepted.
#[derive(Debug, Clone, Default, PartialEq)]
pub struct ChannelMessageAck {
    pub channel_id: String,
    pub message_id: String,
    pub code: i32,
    pub username: String,
    pub create_time: Timestamp,
    pub update_time: Timestamp,
    pub persistent: bool,
    pub room_name: Option<String>,
    pub group_id: Option<String>,
    pub user_id_one: Option<String>,
    pub user_id_two: Option<String>,
}

/// Sends a message to a chat channel.
#[derive(Debug, Clone, Default, PartialEq)]
pub struct ChannelMessageSend {
    pub channel_id: String,
    pub content: String,
}

/// Replaces the content of a chat message.
#[derive(Debug, Clone, Default, PartialEq)]
pub struct ChannelMesageUpdate {
    pub channel_id: String,
    pub message_id: String,
    pub content: String,
}

/// Removes a chat message.
#[derive(Debug, Clone, Default, PartialEq)]
pub struct ChannelMesageRemove {
    pub channel_id: String,
    pub message_id: String,
}

/// Users joined or left a chat channel.
#[derive(Debug, Clone, Default, PartialEq)]
pub struct ChannelPresenceEvent {
    pub channel_id: String,
    pub joins: Vec<UserPresence>,
    pub leaves: Vec<UserPresence>,
    pub room_name: Option<String>,
    pub group_id: Option<String>,
    pub user_id_one: Option<String>,
    pub user_id_two: Option<String>,
}

/// An error that the server reports.
#[derive(Debug, Clone, Default, PartialEq)]
pub struct Error {
    pub code: i32,
    pub message: String,
    pub context: Vec<Property>,
}

/// A realtime match.
#[derive(Debug, Clone, Default, PartialEq)]
pub struct Match {
    pub match_id: String,
    pub authoritative: bool,
    pub label: String,
    pub size: i32,
    pub presences: Vec<UserPresence>,
    /// On the wire this field is called `self`.
    pub _self: UserPresence,
}

/// Asks to create a match.
#[derive(Debug, Clone, Default, PartialEq)]
pub struct MatchCreate {}

/// State that a match participant sent.
#[derive(Debug, Clone, Default, PartialEq)]
pub struct MatchData {
    pub match_id: String,
    pub presence: UserPresence,
    pub op_code: i64,
    pub data: Vec<u8>,
    pub reliable: bool,
}

/// Sends state to the participants of a match.
#[derive(Debug, Clone, Default, PartialEq)]
pub struct MatchDataSend {
    pub match_id: String,
    pub op_code: i64,
    pub data: Vec<u8>,
    pub presences: Vec<UserPresence>,
    pub reliable: bool,
}

/// Asks to join a match, by its id or by a matchmaker token.
#[derive(Debug, Clone, Default, PartialEq)]
pub struct MatchJoin {
    pub match_id: Option<String>,
    pub token: Option<String>,
    pub metadata: Vec<Property>,
}

/// Asks to leave a match.
#[derive(Debug, Clone, Default, PartialEq)]
pub struct MatchLeave {
    pub match_id: String,
}

/// Users joined or left a match.
#[derive(Debug, Clone, Default, PartialEq)]
pub struct MatchPresenceEvent {
    pub match_id: String,
    pub joins: Vec<UserPresence>,
    pub leaves: Vec<UserPresence>,
}

/// Enters the matchmaker pool.
#[derive(Debug, Clone, Default, PartialEq)]
pub struct MatchmakerAdd {
    pub min_count: i32,
    pub max_count: i32,
    pub query: String,
    pub string_properties: Vec<Property>,
    pub numeric_properties: Vec<NumericProperty>,
}

/// A user that the matchmaker placed.
#[derive(Debug, Clone, Default, PartialEq)]
pub struct MatchmakerUser {
    pub presence: UserPresence,
    pub party_id: String,
    pub string_properties: Vec<Property>,
    pub numeric_properties: Vec<NumericProperty>,
}

/// The matchmaker found opponents.
#[derive(Debug, Clone, Default, PartialEq)]
pub struct MatchmakerMatched {
    pub ticket: String,
    pub match_id: Option<String>,
    pub token: Option<String>,
    pub users: Vec<MatchmakerUser>,
    /// On the wire this field is called `self`.
    pub _self: MatchmakerUser,
}

/// Leaves the matchmaker pool.
#[derive(Debug, Clone, Default, PartialEq)]
pub struct MatchmakerRemove {
    pub ticket: String,
}

/// The ticket of an entry in the matchmaker pool.
#[derive(Debug, Clone, Default, PartialEq)]
pub struct MatchmakerTicket {
    pub ticket: String,
}

/// Notifications that arrived.
#[derive(Debug, Clone, Default, PartialEq)]
pub struct Notifications {
    pub notifications: Vec<ApiNotification>,
}

/// A party of users.
#[derive(Debug, Clone, Default, PartialEq)]
pub struct Party {
    pub party_id: String,
    pub open: bool,
    pub max_size: i32,
    /// On the wire this field is called `self`.
    pub _self: UserPresence,
    pub leader: UserPresence,
    pub presences: Vec<UserPresence>,
}

/// Asks to create a party.
#[derive(Debug, Clone, Default, PartialEq)]
pub struct PartyCreate {
    pub open: bool,
    pub max_size: i32,
}

/// Asks to join a party.
#[derive(Debug, Clone, Default, PartialEq)]
pub struct PartyJoin {
    pub party_id: String,
}

/// Asks to leave a party.
#[derive(Debug, Clone, Default, PartialEq)]
pub struct PartyLeave {
    pub party_id: String,
}

/// Makes a member the leader of a party.
#[derive(Debug, Clone, Default, PartialEq)]
pub struct PartyPromote {
    pub party_id: String,
    pub presence: UserPresence,
}

/// A party has a new leader.
#[derive(Debug, Clone, Default, PartialEq)]
pub struct PartyLeader {
    pub party_id: String,
    pub presence: UserPresence,
}

/// Accepts a user's request to join a party.
#[derive(Debug, Clone, Default, PartialEq)]
pub struct PartyAccept {
    pub party_id: String,
    pub presence: UserPresence,
}

/// Removes a member from a party.
#[derive(Debug, Clone, Default, PartialEq)]
pub struct PartyRemove {
    pub party_id: String,
    pub presence: UserPresence,
}

/// Closes a party, or reports that one was closed.
#[derive(Debug, Clone, Default, PartialEq)]
pub struct PartyClose {
    pub party_id: String,
}

/// Asks for the pending requests to join a party.
#[derive(Debug, Clone, Default, PartialEq)]
pub struct PartyJoinRequestList {
    pub party_id: String,
}

/// The users that ask to join a party.
#[derive(Debug, Clone, Default, PartialEq)]
pub struct PartyJoinRequest {
    pub party_id: String,
    pub presences: Vec<UserPresence>,
}

/// Enters the matchmaker pool as a party.
#[derive(Debug, Clone, Default, PartialEq)]
pub struct PartyMatchmakerAdd {
    pub party_id: String,
    pub min_count: i32,
    pub max_count: i32,
    pub query: String,
    pub string_properties: Vec<Property>,
    pub numeric_properties: Vec<NumericProperty>,
}

/// Takes a party out of the matchmaker pool.
#[derive(Debug, Clone, Default, PartialEq)]
pub struct PartyMatchmakerRemove {
    pub party_id: String,
    pub ticket: String,
}

/// The ticket of a party's entry in the matchmaker pool.
#[derive(Debug, Clone, Default, PartialEq)]
pub struct PartyMatchmakerTicket {
    pub party_id: String,
    pub ticket: String,
}

/// Data that a party member sent.
#[derive(Debug, Clone, Default, PartialEq)]
pub struct PartyData {
    pub party_id: String,
    pub presence: UserPresence,
    pub op_code: i64,
    pub data: Vec<u8>,
}

/// Sends data to the members of a party.
#[derive(Debug, Clone, Default, PartialEq)]
pub struct PartyDataSend {
    pub party_id: String,
    pub op_code: i64,
    pub data: Vec<u8>,
}

/// Users joined or left a party.
#[derive(Debug, Clone, Default, PartialEq)]
pub struct PartyPresenceEvent {
    pub party_id: String,
    pub joins: Vec<UserPresence>,
    pub leaves: Vec<UserPresence>,
}

/// Asks the server for a sign of life.
#[derive(Debug, Clone, Default, PartialEq)]
pub struct Ping {}

/// The server's sign of life.
#[derive(Debug, Clone, Default, PartialEq)]
pub struct Pong {}

/// The presences of the users that are followed.
#[derive(Debug, Clone, Default, PartialEq)]
pub struct Status {
    pub presences: Vec<UserPresence>,
}

/// Starts following the status of users.
#[derive(Debug, Clone, Default, PartialEq)]
pub struct StatusFollow {
    pub user_ids: Vec<String>,
    pub usernames: Vec<String>,
}

/// Followed users came online or went offline.
#[derive(Debug, Clone, Default, PartialEq)]
pub struct StatusPresenceEvent {
    pub joins: Vec<UserPresence>,
    pub leaves: Vec<UserPresence>,
}

/// Stops following the status of users.
#[derive(Debug, Clone, Default, PartialEq)]
pub struct StatusUnfollow {
    pub user_ids: Vec<String>,
}

/// Sets the user's own status.
#[derive(Debug, Clone, Default, PartialEq)]
pub struct StatusUpdate {
    pub status: String,
}

/// The address of a realtime stream.
#[derive(Debug, Clone, Default, PartialEq)]
pub struct Stream {
    pub mode: i32,
    pub subject: String,
    pub subcontext: String,
    pub label: String,
}

/// Data that arrived on a stream.
#[derive(Debug, Clone, Default, PartialEq)]
pub struct StreamData {
    pub stream: Stream,
    pub sender: UserPresence,
    pub data: String,
    pub reliable: bool,
}

/// Users joined or left a stream.
#[derive(Debug, Clone, Default, PartialEq)]
pub struct StreamPresenceEvent {
    pub stream: Stream,
    pub joins: Vec<UserPresence>,
    pub leaves: Vec<UserPresence>,
}

/// 1 if `present`, else 0.
pub open spec fn tally(present: bool) -> int {
    if present {
        1
    } else {
        0
    }
}

fn one_if(present: bool) -> (n: usize)
    ensures
        n == tally(present),
        n <= 1,
{
    if present {
        1
    } else {
        0
    }
}

/// One frame of the realtime channel.
///
/// A request carries the correlation id that its reply will echo; an event
/// that the server sends on its own carries none.  A well-formed frame has
/// exactly one payload field set; the others are absent, not empty.
#[derive(Debug, Clone, PartialEq)]
pub struct WebSocketMessageEnvelope {
    pub cid: Option<String>,
    pub channel: Option<Channel>,
    pub channel_join: Option<ChannelJoin>,
    pub channel_leave: Option<ChannelLeave>,
    pub channel_message: Option<ApiChannelMessage>,
    pub channel_message_ack: Option<ChannelMessageAck>,
    pub channel_message_remove: Option<ChannelMesageRemove>,
    pub channel_message_send: Option<ChannelMessageSend>,
    pub channel_message_update: Option<ChannelMesageUpdate>,
    pub channel_presence_event: Option<ChannelPresenceEvent>,
    pub error: Option<Error>,
    pub matchmaker_add: Option<MatchmakerAdd>,
    pub matchmaker_matched: Option<MatchmakerMatched>,
    pub matchmaker_remove: Option<MatchmakerRemove>,
    pub matchmaker_ticket: Option<MatchmakerTicket>,
    /// On the wire this field is called `match`.
    pub new_match: Option<Match>,
    pub match_create: Option<MatchCreate>,
    pub match_join: Option<MatchJoin>,
    pub match_leave: Option<MatchLeave>,
    pub match_presence_event: Option<MatchPresenceEvent>,
    pub match_data: Option<MatchData>,
    pub match_data_send: Option<MatchDataSend>,
    pub notifications: Option<ApiNotificationList>,
    pub rpc: Option<ApiRpc>,
    pub status: Option<Status>,
    pub status_follow: Option<StatusFollow>,
    pub status_presence_event: Option<StatusPresenceEvent>,
    pub status_unfollow: Option<StatusUnfollow>,
    pub status_update: Option<StatusUpdate>,
    pub stream_presence_event: Option<StreamPresenceEvent>,
    pub stream_data: Option<StreamData>,
    pub party: Option<Party>,
    pub party_create: Option<PartyCreate>,
    pub party_join: Option<PartyJoin>,
    pub party_leave: Option<PartyLeave>,
    pub party_promote: Option<PartyPromote>,
    pub party_leader: Option<PartyLeader>,
    pub party_accept: Option<PartyAccept>,
    pub party_remove: Option<PartyRemove>,
    pub party_close: Option<PartyClose>,
    pub party_join_request_list: Option<PartyJoinRequestList>,
    pub party_join_request: Option<PartyJoinRequest>,
    pub party_matchmaker_add: Option<PartyMatchmakerAdd>,
    pub party_matchmaker_remove: Option<PartyMatchmakerRemove>,
    pub party_matchmaker_ticket: Option<PartyMatchmakerTicket>,
    pub party_data: Option<PartyData>,
    pub party_data_send: Option<PartyDataSend>,
    pub party_presence_event: Option<PartyPresenceEvent>,
}

impl WebSocketMessageEnvelope {
    /// How many payload fields are set.
    pub open spec fn payload_count(&self) -> int {
        tally(self.channel is Some)
        + tally(self.channel_join is Some)
        + tally(self.channel_leave is Some)
        + tally(self.channel_message is Some)
        + tally(self.channel_message_ack is Some)
        + tally(self.channel_message_remove is Some)
        + tally(self.channel_message_send is Some)
        + tally(self.channel_message_update is Some)
        + tally(self.channel_presence_event is Some)
        + tally(self.error is Some)
        + tally(self.matchmaker_add is Some)
        + tally(self.matchmaker_matched is Some)
        + tally(self.matchmaker_remove is Some)
        + tally(self.matchmaker_ticket is Some)
        + tally(self.new_match is Some)
        + tally(self.match_create is Some)
        + tally(self.match_join is Some)
        + tally(self.match_leave is Some)
        + tally(self.match_presence_event is Some)
        + tally(self.match_data is Some)
        + tally(self.match_data_send is Some)
        + tally(self.notifications is Some)
        + tally(self.rpc is Some)
        + tally(self.status is Some)
        + tally(self.status_follow is Some)
        + tally(self.status_presence_event is Some)
        + tally(self.status_unfollow is Some)
        + tally(self.status_update is Some)
        + tally(self.stream_presence_event is Some)
        + tally(self.stream_data is Some)
        + tally(self.party is Some)
        + tally(self.party_create is Some)
        + tally(self.party_join is Some)
        + tally(self.party_leave is Some)
        + tally(self.party_promote is Some)
        + tally(self.party_leader is Some)
        + tally(self.party_accept is Some)
        + tally(self.party_remove is Some)
        + tally(self.party_close is Some)
        + tally(self.party_join_request_list is Some)
        + tally(self.party_join_request is Some)
        + tally(self.party_matchmaker_add is Some)
        + tally(self.party_matchmaker_remove is Some)
        + tally(self.party_matchmaker_ticket is Some)
        + tally(self.party_data is Some)
        + tally(self.party_data_send is Some)
        + tally(self.party_presence_event is Some)
    }

    fn count_group_0(&self) -> (n: usize)
        ensures
            n == tally(self.channel is Some)
                + tally(self.channel_join is Some)
                + tally(self.channel_leave is Some)
                + tally(self.channel_message is Some)
                + tally(self.channel_message_ack is Some)
                + tally(self.channel_message_remove is Some)
                + tally(self.channel_message_send is Some)
                + tally(self.channel_message_update is Some),
            n <= 8,
    {
        let mut n: usize = 0;
        n = n + one_if(self.channel.is_some());
        n = n + one_if(self.channel_join.is_some());
        n = n + one_if(self.channel_leave.is_some());
        n = n + one_if(self.channel_message.is_some());
        n = n + one_if(self.channel_message_ack.is_some());
        n = n + one_if(self.channel_message_remove.is_some());
        n = n + one_if(self.channel_message_send.is_some());
        n = n + one_if(self.channel_message_update.is_some());
        n
    }

    fn count_group_1(&self) -> (n: usize)
        ensures
            n == tally(self.channel_presence_event is Some)
                + tally(self.error is Some)
                + tally(self.matchmaker_add is Some)
                + tally(self.matchmaker_matched is Some)
                + tally(self.matchmaker_remove is Some)
                + tally(self.matchmaker_ticket is Some)
                + tally(self.new_match is Some)
                + tally(self.match_create is Some),
            n <= 8,
    {
        let mut n: usize = 0;
        n = n + one_if(self.channel_presence_event.is_some());
        n = n + one_if(self.error.is_some());
        n = n + one_if(self.matchmaker_add.is_some());
        n = n + one_if(self.matchmaker_matched.is_some());
        n = n + one_if(self.matchmaker_remove.is_some());
        n = n + one_if(self.matchmaker_ticket.is_some());
        n = n + one_if(self.new_match.is_some());
        n = n + one_if(self.match_create.is_some());
        n
    }

    fn count_group_2(&self) -> (n: usize)
        ensures
            n == tally(self.match_join is Some)
                + tally(self.match_leave is Some)
                + tally(self.match_presence_event is Some)
                + tally(self.match_data is Some)
                + tally(self.match_data_send is Some)
                + tally(self.notifications is Some)
                + tally(self.rpc is Some)
                + tally(self.status is Some),
            n <= 8,
    {
        let mut n: usize = 0;
        n = n + one_if(self.match_join.is_some());
        n = n + one_if(self.match_leave.is_some());
        n = n + one_if(self.match_presence_event.is_some());
        n = n + one_if(self.match_data.is_some());
        n = n + one_if(self.match_data_send.is_some());
        n = n + one_if(self.notifications.is_some());
        n = n + one_if(self.rpc.is_some());
        n = n + one_if(self.status.is_some());
        n
    }

    fn count_group_3(&self) -> (n: usize)
        ensures
            n == tally(self.status_follow is Some)
                + tally(self.status_presence_event is Some)
                + tally(self.status_unfollow is Some)
                + tally(self.status_update is Some)
                + tally(self.stream_presence_event is Some)
                + tally(self.stream_data is Some)
                + tally(self.party is Some)
                + tally(self.party_create is Some),
            n <= 8,
    {
        let mut n: usize = 0;
        n = n + one_if(self.status_follow.is_some());
        n = n + one_if(self.status_presence_event.is_some());
        n = n + one_if(self.status_unfollow.is_some());
        n = n + one_if(self.status_update.is_some());
        n = n + one_if(self.stream_presence_event.is_some());
        n = n + one_if(self.stream_data.is_some());
        n = n + one_if(self.party.is_some());
        n = n + one_if(self.party_create.is_some());
        n
    }

    fn count_group_4(&self) -> (n: usize)
        ensures
            n == tally(self.party_join is Some)
                + tally(self.party_leave is Some)
                + tally(self.party_promote is Some)
                + tally(self.party_leader is Some)
                + tally(self.party_accept is Some)
                + tally(self.party_remove is Some)
                + tally(self.party_close is Some)
                + tally(self.party_join_request_list is Some),
            n <= 8,
    {
        let mut n: usize = 0;
        n = n + one_if(self.party_join.is_some());
        n = n + one_if(self.party_leave.is_some());
        n = n + one_if(self.party_promote.is_some());
        n = n + one_if(self.party_leader.is_some());
        n = n + one_if(self.party_accept.is_some());
        n = n + one_if(self.party_remove.is_some());
        n = n + one_if(self.party_close.is_some());
        n = n + one_if(self.party_join_request_list.is_some());
        n
    }

    fn count_group_5(&self) -> (n: usize)
        ensures
            n == tally(self.party_join_request is Some)
                + tally(self.party_matchmaker_add is Some)
                + tally(self.party_matchmaker_remove is Some)
                + tally(self.party_matchmaker_ticket is Some)
                + tally(self.party_data is Some)
                + tally(self.party_data_send is Some)
                + tally(self.party_presence_event is Some),
            n <= 8,
    {
        let mut n: usize = 0;
        n = n + one_if(self.party_join_request.is_some());
        n = n + one_if(self.party_matchmaker_add.is_some());
        n = n + one_if(self.party_matchmaker_remove.is_some());
        n = n + one_if(self.party_matchmaker_ticket.is_some());
        n = n + one_if(self.party_data.is_some());
        n = n + one_if(self.party_data_send.is_some());
        n = n + one_if(self.party_presence_event.is_some());
        n
    }

    /// How many payload fields are set.
    pub fn count_payloads(&self) -> (n: usize)
        ensures
            n == self.payload_count(),
    {
        self.count_group_0() + self.count_group_1() + self.count_group_2() + self.count_group_3() + self.count_group_4() + self.count_group_5()
    }

    /// Whether the frame carries neither a correlation id nor a payload.
    pub open spec fn is_blank(&self) -> bool {
        self.cid is None && self.payload_count() == 0
    }

    /// A frame with nothing set.
    pub fn blank() -> (envelope: Self)
        ensures
            envelope.is_blank(),
    {
        WebSocketMessageEnvelope {
            cid: None,
            channel: None,
            channel_join: None,
            channel_leave: None,
            channel_message: None,
            channel_message_ack: None,
            channel_message_remove: None,
            channel_message_send: None,
            channel_message_update: None,
            channel_presence_event: None,
            error: None,
            matchmaker_add: None,
            matchmaker_matched: None,
            matchmaker_remove: None,
            matchmaker_ticket: None,
            new_match: None,
            match_create: None,
            match_join: None,
            match_leave: None,
            match_presence_event: None,
            match_data: None,
            match_data_send: None,
            notifications: None,
            rpc: None,
            status: None,
            status_follow: None,
            status_presence_event: None,
            status_unfollow: None,
            status_update: None,
            stream_presence_event: None,
            stream_data: None,
            party: None,
            party_create: None,
            party_join: None,
            party_leave: None,
            party_promote: None,
            party_leader: None,
            party_accept: None,
            party_remove: None,
            party_close: None,
            party_join_request_list: None,
            party_join_request: None,
            party_matchmaker_add: None,
            party_matchmaker_remove: None,
            party_matchmaker_ticket: None,
            party_data: None,
            party_data_send: None,
            party_presence_event: None,
        }
    }

}

impl Default for WebSocketMessageEnvelope {
    fn default() -> (envelope: Self)
        ensures
            envelope.is_blank(),
    {
        WebSocketMessageEnvelope::blank()
    }
}

} // verus!
