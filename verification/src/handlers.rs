//! The table of event handlers.
//!
//! Each kind of event has at most one handler.  Registering a handler for
//! a kind replaces the one that was there; the other kinds keep theirs.
//! What a handler is, and how it is called, is up to the embedding program:
//! the table only keeps it.

use crate::push::PushKind;
use vstd::prelude::*;

verus! {

/// The handlers of unsolicited events: at most one for each kind.
///
/// Its view is the map from each kind that has a handler to that handler.
pub struct Handlers<H> {
    channel_message: Option<H>,
    channel_presence: Option<H>,
    error: Option<H>,
    matchmaker_matched: Option<H>,
    match_state: Option<H>,
    match_presence: Option<H>,
    notification: Option<H>,
    party_close: Option<H>,
    party_data: Option<H>,
    party_join_request: Option<H>,
    party_leader: Option<H>,
    party_presence: Option<H>,
    status_presence: Option<H>,
    stream_presence: Option<H>,
    stream_state: Option<H>,
}

impl<H> Handlers<H> {
    spec fn slot(&self, kind: PushKind) -> Option<H> {
        match kind {
            PushKind::ChannelMessage => self.channel_message,
            PushKind::ChannelPresence => self.channel_presence,
            PushKind::Error => self.error,
            PushKind::MatchmakerMatched => self.matchmaker_matched,
            PushKind::MatchState => self.match_state,
            PushKind::MatchPresence => self.match_presence,
            PushKind::Notification => self.notification,
            PushKind::PartyClose => self.party_close,
            PushKind::PartyData => self.party_data,
            PushKind::PartyJoinRequest => self.party_join_request,
            PushKind::PartyLeader => self.party_leader,
            PushKind::PartyPresence => self.party_presence,
            PushKind::StatusPresence => self.status_presence,
            PushKind::StreamPresence => self.stream_presence,
            PushKind::StreamState => self.stream_state,
        }
    }
}

impl<H> View for Handlers<H> {
    type V = Map<PushKind, H>;

    closed spec fn view(&self) -> Map<PushKind, H> {
        Map::new(|kind: PushKind| self.slot(kind) is Some, |kind: PushKind| self.slot(kind)->0)
    }
}

impl<H> Handlers<H> {
    /// A table without handlers.
    pub fn new() -> (handlers: Self)
        ensures
            handlers@ == Map::<PushKind, H>::empty(),
    {
        let handlers = Handlers {
            channel_message: None,
            channel_presence: None,
            error: None,
            matchmaker_matched: None,
            match_state: None,
            match_presence: None,
            notification: None,
            party_close: None,
            party_data: None,
            party_join_request: None,
            party_leader: None,
            party_presence: None,
            status_presence: None,
            stream_presence: None,
            stream_state: None,
        };
        assert(handlers@ =~= Map::<PushKind, H>::empty());
        handlers
    }

    /// Makes `handler` the handler of `kind`, in place of the one it had.
    pub fn register(&mut self, kind: PushKind, handler: H)
        ensures
            final(self)@ == old(self)@.insert(kind, handler),
    {
        match kind {
            PushKind::ChannelMessage => {
                self.channel_message = Some(handler);
            },
            PushKind::ChannelPresence => {
                self.channel_presence = Some(handler);
            },
            PushKind::Error => {
                self.error = Some(handler);
            },
            PushKind::MatchmakerMatched => {
                self.matchmaker_matched = Some(handler);
            },
            PushKind::MatchState => {
                self.match_state = Some(handler);
            },
            PushKind::MatchPresence => {
                self.match_presence = Some(handler);
            },
            PushKind::Notification => {
                self.notification = Some(handler);
            },
            PushKind::PartyClose => {
                self.party_close = Some(handler);
            },
            PushKind::PartyData => {
                self.party_data = Some(handler);
            },
            PushKind::PartyJoinRequest => {
                self.party_join_request = Some(handler);
            },
            PushKind::PartyLeader => {
                self.party_leader = Some(handler);
            },
            PushKind::PartyPresence => {
                self.party_presence = Some(handler);
            },
            PushKind::StatusPresence => {
                self.status_presence = Some(handler);
            },
            PushKind::StreamPresence => {
                self.stream_presence = Some(handler);
            },
            PushKind::StreamState => {
                self.stream_state = Some(handler);
            },
        }
        assert forall|other: PushKind| other != kind implies self.slot(other) == old(self).slot(
            other,
        ) by {}
        assert(self.slot(kind) == Some(handler));
        assert(self@ =~= old(self)@.insert(kind, handler));
    }

    /// Leaves `kind` without a handler.
    pub fn unregister(&mut self, kind: PushKind)
        ensures
            final(self)@ == old(self)@.remove(kind),
    {
        match kind {
            PushKind::ChannelMessage => {
                self.channel_message = None;
            },
            PushKind::ChannelPresence => {
                self.channel_presence = None;
            },
            PushKind::Error => {
                self.error = None;
            },
            PushKind::MatchmakerMatched => {
                self.matchmaker_matched = None;
            },
            PushKind::MatchState => {
                self.match_state = None;
            },
            PushKind::MatchPresence => {
                self.match_presence = None;
            },
            PushKind::Notification => {
                self.notification = None;
            },
            PushKind::PartyClose => {
                self.party_close = None;
            },
            PushKind::PartyData => {
                self.party_data = None;
            },
            PushKind::PartyJoinRequest => {
                self.party_join_request = None;
            },
            PushKind::PartyLeader => {
                self.party_leader = None;
            },
            PushKind::PartyPresence => {
                self.party_presence = None;
            },
            PushKind::StatusPresence => {
                self.status_presence = None;
            },
            PushKind::StreamPresence => {
                self.stream_presence = None;
            },
            PushKind::StreamState => {
                self.stream_state = None;
            },
        }
        assert forall|other: PushKind| other != kind implies self.slot(other) == old(self).slot(
            other,
        ) by {}
        assert(self.slot(kind) is None);
        assert(self@ =~= old(self)@.remove(kind));
    }

    /// The handler of `kind`, if it has one.
    pub fn get(&self, kind: PushKind) -> (handler: Option<&H>)
        ensures
            handler == if self@.contains_key(kind) {
                Some(&self@[kind])
            } else {
                None
            },
    {
        match kind {
            PushKind::ChannelMessage => self.channel_message.as_ref(),
            PushKind::ChannelPresence => self.channel_presence.as_ref(),
            PushKind::Error => self.error.as_ref(),
            PushKind::MatchmakerMatched => self.matchmaker_matched.as_ref(),
            PushKind::MatchState => self.match_state.as_ref(),
            PushKind::MatchPresence => self.match_presence.as_ref(),
            PushKind::Notification => self.notification.as_ref(),
            PushKind::PartyClose => self.party_close.as_ref(),
            PushKind::PartyData => self.party_data.as_ref(),
            PushKind::PartyJoinRequest => self.party_join_request.as_ref(),
            PushKind::PartyLeader => self.party_leader.as_ref(),
            PushKind::PartyPresence => self.party_presence.as_ref(),
            PushKind::StatusPresence => self.status_presence.as_ref(),
            PushKind::StreamPresence => self.stream_presence.as_ref(),
            PushKind::StreamState => self.stream_state.as_ref(),
        }
    }

    /// Whether `kind` has a handler.
    pub fn has(&self, kind: PushKind) -> (registered: bool)
        ensures
            registered == self@.contains_key(kind),
    {
        self.get(kind).is_some()
    }
}

} // verus!
