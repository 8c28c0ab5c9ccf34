//! Registration of event handlers, one function for each kind of event.
//!
//! Each function makes its argument the one handler of its kind.  The
//! handler that was registered before, if any, is dropped; the handlers of
//! the other kinds, the pending calls and the connection are not touched.

use crate::push::PushKind;
use crate::web_socket::WebSocket;
use vstd::prelude::*;

verus! {

impl<H> WebSocket<H> {
    /// Whether `self` is `before` with `handler` registered for `kind`.
    pub open spec fn registered(&self, before: &Self, kind: PushKind, handler: H) -> bool {
        &&& self.handlers() == before.handlers().insert(kind, handler)
        &&& self.last_cid() == before.last_cid()
        &&& self.pending() == before.pending()
        &&& self.connect_waiters() == before.connect_waiters()
        &&& self.connection() == before.connection()
    }

    /// Registers the handler of messages in chat channels.
    pub fn on_received_channel_message(&mut self, handler: H)
        ensures
            final(self).registered(old(self), PushKind::ChannelMessage, handler),
    {
        self.on_received(PushKind::ChannelMessage, handler);
    }

    /// Registers the handler of users joining or leaving a chat channel.
    pub fn on_received_channel_presence(&mut self, handler: H)
        ensures
            final(self).registered(old(self), PushKind::ChannelPresence, handler),
    {
        self.on_received(PushKind::ChannelPresence, handler);
    }

    /// Registers the handler of errors that belong to no call.
    pub fn on_received_error(&mut self, handler: H)
        ensures
            final(self).registered(old(self), PushKind::Error, handler),
    {
        self.on_received(PushKind::Error, handler);
    }

    /// Registers the handler of matches that the matchmaker found.
    pub fn on_received_matchmaker_matched(&mut self, handler: H)
        ensures
            final(self).registered(old(self), PushKind::MatchmakerMatched, handler),
    {
        self.on_received(PushKind::MatchmakerMatched, handler);
    }

    /// Registers the handler of state sent by match participants.
    pub fn on_received_match_state(&mut self, handler: H)
        ensures
            final(self).registered(old(self), PushKind::MatchState, handler),
    {
        self.on_received(PushKind::MatchState, handler);
    }

    /// Registers the handler of users joining or leaving a match.
    pub fn on_received_match_presence(&mut self, handler: H)
        ensures
            final(self).registered(old(self), PushKind::MatchPresence, handler),
    {
        self.on_received(PushKind::MatchPresence, handler);
    }

    /// Registers the handler of notifications.
    pub fn on_received_notification(&mut self, handler: H)
        ensures
            final(self).registered(old(self), PushKind::Notification, handler),
    {
        self.on_received(PushKind::Notification, handler);
    }

    /// Registers the handler of parties being closed.
    pub fn on_received_party_close(&mut self, handler: H)
        ensures
            final(self).registered(old(self), PushKind::PartyClose, handler),
    {
        self.on_received(PushKind::PartyClose, handler);
    }

    /// Registers the handler of data sent by party members.
    pub fn on_received_party_data(&mut self, handler: H)
        ensures
            final(self).registered(old(self), PushKind::PartyData, handler),
    {
        self.on_received(PushKind::PartyData, handler);
    }

    /// Registers the handler of requests to join a party.
    pub fn on_received_party_join_request(&mut self, handler: H)
        ensures
            final(self).registered(old(self), PushKind::PartyJoinRequest, handler),
    {
        self.on_received(PushKind::PartyJoinRequest, handler);
    }

    /// Registers the handler of parties getting a new leader.
    pub fn on_received_party_leader(&mut self, handler: H)
        ensures
            final(self).registered(old(self), PushKind::PartyLeader, handler),
    {
        self.on_received(PushKind::PartyLeader, handler);
    }

    /// Registers the handler of users joining or leaving a party.
    pub fn on_received_party_presence(&mut self, handler: H)
        ensures
            final(self).registered(old(self), PushKind::PartyPresence, handler),
    {
        self.on_received(PushKind::PartyPresence, handler);
    }

    /// Registers the handler of followed users coming online or going offline.
    pub fn on_received_status_presence(&mut self, handler: H)
        ensures
            final(self).registered(old(self), PushKind::StatusPresence, handler),
    {
        self.on_received(PushKind::StatusPresence, handler);
    }

    /// Registers the handler of users joining or leaving a stream.
    pub fn on_received_stream_presence(&mut self, handler: H)
        ensures
            final(self).registered(old(self), PushKind::StreamPresence, handler),
    {
        self.on_received(PushKind::StreamPresence, handler);
    }

    /// Registers the handler of data arriving on a stream.
    pub fn on_received_stream_state(&mut self, handler: H)
        ensures
            final(self).registered(old(self), PushKind::StreamState, handler),
    {
        self.on_received(PushKind::StreamState, handler);
    }
}

} // verus!
