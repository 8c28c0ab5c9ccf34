//! Which unsolicited events there are, and how a frame becomes one.
//!
//! The wire has no flag that marks an event: a frame is an event of some
//! kind because the payload field of that kind is set.  A well-formed frame
//! has one payload; should several be set, the kind that [`PushKind`] lists
//! first wins, so the same frame always gives the same event.

use crate::api::{ApiChannelMessage, ApiNotificationList};
use crate::socket::{
    ChannelPresenceEvent, Error, MatchData, MatchPresenceEvent, MatchmakerMatched, PartyClose,
    PartyData, PartyJoinRequest, PartyLeader, PartyPresenceEvent, StatusPresenceEvent, StreamData,
    StreamPresenceEvent, WebSocketMessageEnvelope,
};
use vstd::prelude::*;

verus! {

/// The kinds of event that the server sends on its own.
#[derive(Debug, Clone, Copy, PartialEq, Eq, Hash)]
pub enum PushKind {
    /// A message arrived in a chat channel.
    ChannelMessage,
    /// Users joined or left a chat channel.
    ChannelPresence,
    /// The server reported an error that belongs to no call.
    Error,
    /// The matchmaker found opponents.
    MatchmakerMatched,
    /// A match participant sent state.
    MatchState,
    /// Users joined or left a match.
    MatchPresence,
    /// Notifications arrived.
    Notification,
    /// A party was closed.
    PartyClose,
    /// A party member sent data.
    PartyData,
    /// Users ask to join a party.
    PartyJoinRequest,
    /// A party has a new leader.
    PartyLeader,
    /// Users joined or left a party.
    PartyPresence,
    /// Followed users came online or went offline.
    StatusPresence,
    /// Users joined or left a stream.
    StreamPresence,
    /// Data arrived on a stream.
    StreamState,
}

/// How many kinds of event there are.
pub const PUSH_KINDS: usize = 15;

impl PushKind {
    /// The place of this kind in the list of kinds, counted from 0.
    pub open spec fn spec_index(self) -> usize {
        match self {
            PushKind::ChannelMessage => 0,
            PushKind::ChannelPresence => 1,
            PushKind::Error => 2,
            PushKind::MatchmakerMatched => 3,
            PushKind::MatchState => 4,
            PushKind::MatchPresence => 5,
            PushKind::Notification => 6,
            PushKind::PartyClose => 7,
            PushKind::PartyData => 8,
            PushKind::PartyJoinRequest => 9,
            PushKind::PartyLeader => 10,
            PushKind::PartyPresence => 11,
            PushKind::StatusPresence => 12,
            PushKind::StreamPresence => 13,
            PushKind::StreamState => 14,
        }
    }

    /// The place of this kind in the list of kinds, counted from 0.
    #[verifier::when_used_as_spec(spec_index)]
    pub fn index(self) -> (i: usize)
        ensures
            i == self.spec_index(),
            i < PUSH_KINDS,
    {
        match self {
            PushKind::ChannelMessage => 0,
            PushKind::ChannelPresence => 1,
            PushKind::Error => 2,
            PushKind::MatchmakerMatched => 3,
            PushKind::MatchState => 4,
            PushKind::MatchPresence => 5,
            PushKind::Notification => 6,
            PushKind::PartyClose => 7,
            PushKind::PartyData => 8,
            PushKind::PartyJoinRequest => 9,
            PushKind::PartyLeader => 10,
            PushKind::PartyPresence => 11,
            PushKind::StatusPresence => 12,
            PushKind::StreamPresence => 13,
            PushKind::StreamState => 14,
        }
    }

    /// The kind at place `i` of the list of kinds.
    pub open spec fn spec_from_index(i: usize) -> Option<PushKind> {
        if i == 0 {
            Some(PushKind::ChannelMessage)
        } else if i == 1 {
            Some(PushKind::ChannelPresence)
        } else if i == 2 {
            Some(PushKind::Error)
        } else if i == 3 {
            Some(PushKind::MatchmakerMatched)
        } else if i == 4 {
            Some(PushKind::MatchState)
        } else if i == 5 {
            Some(PushKind::MatchPresence)
        } else if i == 6 {
            Some(PushKind::Notification)
        } else if i == 7 {
            Some(PushKind::PartyClose)
        } else if i == 8 {
            Some(PushKind::PartyData)
        } else if i == 9 {
            Some(PushKind::PartyJoinRequest)
        } else if i == 10 {
            Some(PushKind::PartyLeader)
        } else if i == 11 {
            Some(PushKind::PartyPresence)
        } else if i == 12 {
            Some(PushKind::StatusPresence)
        } else if i == 13 {
            Some(PushKind::StreamPresence)
        } else if i == 14 {
            Some(PushKind::StreamState)
        } else {
            None
        }
    }

    /// The kind at place `i` of the list of kinds.
    #[verifier::when_used_as_spec(spec_from_index)]
    pub fn from_index(i: usize) -> (kind: Option<PushKind>)
        ensures
            kind == PushKind::spec_from_index(i),
            kind is Some <==> i < PUSH_KINDS,
            kind matches Some(k) ==> k.spec_index() == i,
    {
        if i == 0 {
            Some(PushKind::ChannelMessage)
        } else if i == 1 {
            Some(PushKind::ChannelPresence)
        } else if i == 2 {
            Some(PushKind::Error)
        } else if i == 3 {
            Some(PushKind::MatchmakerMatched)
        } else if i == 4 {
            Some(PushKind::MatchState)
        } else if i == 5 {
            Some(PushKind::MatchPresence)
        } else if i == 6 {
            Some(PushKind::Notification)
        } else if i == 7 {
            Some(PushKind::PartyClose)
        } else if i == 8 {
            Some(PushKind::PartyData)
        } else if i == 9 {
            Some(PushKind::PartyJoinRequest)
        } else if i == 10 {
            Some(PushKind::PartyLeader)
        } else if i == 11 {
            Some(PushKind::PartyPresence)
        } else if i == 12 {
            Some(PushKind::StatusPresence)
        } else if i == 13 {
            Some(PushKind::StreamPresence)
        } else if i == 14 {
            Some(PushKind::StreamState)
        } else {
            None
        }
    }

    /// Every kind has its own place, and gets it back from there.
    pub proof fn lemma_index(self)
        ensures
            self.spec_index() < PUSH_KINDS,
            PushKind::spec_from_index(self.spec_index()) == Some(self),
    {
    }
}

/// An event that the server sent on its own, with its payload.
#[derive(Debug, Clone, PartialEq)]
pub enum PushEvent {
    ChannelMessage(ApiChannelMessage),
    ChannelPresence(ChannelPresenceEvent),
    Error(Error),
    MatchmakerMatched(MatchmakerMatched),
    MatchState(MatchData),
    MatchPresence(MatchPresenceEvent),
    Notification(ApiNotificationList),
    PartyClose(PartyClose),
    PartyData(PartyData),
    PartyJoinRequest(PartyJoinRequest),
    PartyLeader(PartyLeader),
    PartyPresence(PartyPresenceEvent),
    StatusPresence(StatusPresenceEvent),
    StreamPresence(StreamPresenceEvent),
    StreamState(StreamData),
}

impl PushEvent {
    /// The kind of this event.
    pub open spec fn spec_kind(&self) -> PushKind {
        match self {
            PushEvent::ChannelMessage(_) => PushKind::ChannelMessage,
            PushEvent::ChannelPresence(_) => PushKind::ChannelPresence,
            PushEvent::Error(_) => PushKind::Error,
            PushEvent::MatchmakerMatched(_) => PushKind::MatchmakerMatched,
            PushEvent::MatchState(_) => PushKind::MatchState,
            PushEvent::MatchPresence(_) => PushKind::MatchPresence,
            PushEvent::Notification(_) => PushKind::Notification,
            PushEvent::PartyClose(_) => PushKind::PartyClose,
            PushEvent::PartyData(_) => PushKind::PartyData,
            PushEvent::PartyJoinRequest(_) => PushKind::PartyJoinRequest,
            PushEvent::PartyLeader(_) => PushKind::PartyLeader,
            PushEvent::PartyPresence(_) => PushKind::PartyPresence,
            PushEvent::StatusPresence(_) => PushKind::StatusPresence,
            PushEvent::StreamPresence(_) => PushKind::StreamPresence,
            PushEvent::StreamState(_) => PushKind::StreamState,
        }
    }

    /// The kind of this event.
    #[verifier::when_used_as_spec(spec_kind)]
    pub fn kind(&self) -> (kind: PushKind)
        ensures
            kind == self.spec_kind(),
    {
        match self {
            PushEvent::ChannelMessage(_) => PushKind::ChannelMessage,
            PushEvent::ChannelPresence(_) => PushKind::ChannelPresence,
            PushEvent::Error(_) => PushKind::Error,
            PushEvent::MatchmakerMatched(_) => PushKind::MatchmakerMatched,
            PushEvent::MatchState(_) => PushKind::MatchState,
            PushEvent::MatchPresence(_) => PushKind::MatchPresence,
            PushEvent::Notification(_) => PushKind::Notification,
            PushEvent::PartyClose(_) => PushKind::PartyClose,
            PushEvent::PartyData(_) => PushKind::PartyData,
            PushEvent::PartyJoinRequest(_) => PushKind::PartyJoinRequest,
            PushEvent::PartyLeader(_) => PushKind::PartyLeader,
            PushEvent::PartyPresence(_) => PushKind::PartyPresence,
            PushEvent::StatusPresence(_) => PushKind::StatusPresence,
            PushEvent::StreamPresence(_) => PushKind::StreamPresence,
            PushEvent::StreamState(_) => PushKind::StreamState,
        }
    }
}

impl WebSocketMessageEnvelope {
    /// The event that this frame carries, if it carries one: the payload of
    /// the first kind, in the order of [`PushKind`], whose field is set.
    pub open spec fn push_event(&self) -> Option<PushEvent> {
        if self.channel_message is Some {
            Some(PushEvent::ChannelMessage(self.channel_message->0))
        } else if self.channel_presence_event is Some {
            Some(PushEvent::ChannelPresence(self.channel_presence_event->0))
        } else if self.error is Some {
            Some(PushEvent::Error(self.error->0))
        } else if self.matchmaker_matched is Some {
            Some(PushEvent::MatchmakerMatched(self.matchmaker_matched->0))
        } else if self.match_data is Some {
            Some(PushEvent::MatchState(self.match_data->0))
        } else if self.match_presence_event is Some {
            Some(PushEvent::MatchPresence(self.match_presence_event->0))
        } else if self.notifications is Some {
            Some(PushEvent::Notification(self.notifications->0))
        } else if self.party_close is Some {
            Some(PushEvent::PartyClose(self.party_close->0))
        } else if self.party_data is Some {
            Some(PushEvent::PartyData(self.party_data->0))
        } else if self.party_join_request is Some {
            Some(PushEvent::PartyJoinRequest(self.party_join_request->0))
        } else if self.party_leader is Some {
            Some(PushEvent::PartyLeader(self.party_leader->0))
        } else if self.party_presence_event is Some {
            Some(PushEvent::PartyPresence(self.party_presence_event->0))
        } else if self.status_presence_event is Some {
            Some(PushEvent::StatusPresence(self.status_presence_event->0))
        } else if self.stream_presence_event is Some {
            Some(PushEvent::StreamPresence(self.stream_presence_event->0))
        } else if self.stream_data is Some {
            Some(PushEvent::StreamState(self.stream_data->0))
        } else {
            None
        }
    }

    /// Whether the payload field of `kind` is set.
    pub open spec fn has_push(&self, kind: PushKind) -> bool {
        match kind {
            PushKind::ChannelMessage => self.channel_message is Some,
            PushKind::ChannelPresence => self.channel_presence_event is Some,
            PushKind::Error => self.error is Some,
            PushKind::MatchmakerMatched => self.matchmaker_matched is Some,
            PushKind::MatchState => self.match_data is Some,
            PushKind::MatchPresence => self.match_presence_event is Some,
            PushKind::Notification => self.notifications is Some,
            PushKind::PartyClose => self.party_close is Some,
            PushKind::PartyData => self.party_data is Some,
            PushKind::PartyJoinRequest => self.party_join_request is Some,
            PushKind::PartyLeader => self.party_leader is Some,
            PushKind::PartyPresence => self.party_presence_event is Some,
            PushKind::StatusPresence => self.status_presence_event is Some,
            PushKind::StreamPresence => self.stream_presence_event is Some,
            PushKind::StreamState => self.stream_data is Some,
        }
    }

    /// Takes the event out of this frame, if it carries one.
    pub fn into_push_event(self) -> (event: Option<PushEvent>)
        ensures
            event == self.push_event(),
    {
        if let Some(payload) = self.channel_message {
            Some(PushEvent::ChannelMessage(payload))
        } else if let Some(payload) = self.channel_presence_event {
            Some(PushEvent::ChannelPresence(payload))
        } else if let Some(payload) = self.error {
            Some(PushEvent::Error(payload))
        } else if let Some(payload) = self.matchmaker_matched {
            Some(PushEvent::MatchmakerMatched(payload))
        } else if let Some(payload) = self.match_data {
            Some(PushEvent::MatchState(payload))
        } else if let Some(payload) = self.match_presence_event {
            Some(PushEvent::MatchPresence(payload))
        } else if let Some(payload) = self.notifications {
            Some(PushEvent::Notification(payload))
        } else if let Some(payload) = self.party_close {
            Some(PushEvent::PartyClose(payload))
        } else if let Some(payload) = self.party_data {
            Some(PushEvent::PartyData(payload))
        } else if let Some(payload) = self.party_join_request {
            Some(PushEvent::PartyJoinRequest(payload))
        } else if let Some(payload) = self.party_leader {
            Some(PushEvent::PartyLeader(payload))
        } else if let Some(payload) = self.party_presence_event {
            Some(PushEvent::PartyPresence(payload))
        } else if let Some(payload) = self.status_presence_event {
            Some(PushEvent::StatusPresence(payload))
        } else if let Some(payload) = self.stream_presence_event {
            Some(PushEvent::StreamPresence(payload))
        } else if let Some(payload) = self.stream_data {
            Some(PushEvent::StreamState(payload))
        } else {
            None
        }
    }

    /// A frame carries an event exactly if some event field is set, and
    /// the event is of a kind whose field is set.  If one event field only
    /// is set, the event is of that kind.
    pub proof fn lemma_push_event(&self)
        ensures
            self.push_event() is Some <==> exists|kind: PushKind| self.has_push(kind),
            self.push_event() matches Some(event) ==> self.has_push(event.spec_kind()),
            forall|kind: PushKind|
                #[trigger] self.has_push(kind) && (forall|other: PushKind|
                    self.has_push(other) ==> other == kind) ==> self.push_event() is Some
                    && self.push_event()->0.spec_kind() == kind,
    {
        if self.push_event() is Some {
            assert(self.has_push(self.push_event()->0.spec_kind()));
        }
    }
}

} // verus!
