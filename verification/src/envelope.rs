//! The envelope on the wire.
//!
//! A frame is the text of one JSON object: the correlation id under `cid`,
//! if there is one, and each payload that is set under its name.  What is
//! not set is not written, and what is not written is not set after
//! reading.

use crate::api::{ApiChannelMessage, ApiNotificationList, ApiRpc};
use crate::codec::{
    ApiChannelMessageView, ApiNotificationListView, ApiRpcView, ChannelJoinView, ChannelLeaveView, ChannelMesageRemoveView, ChannelMesageUpdateView, ChannelMessageAckView, ChannelMessageSendView, ChannelPresenceEventView, ChannelView, ErrorView, MatchCreateView, MatchDataSendView, MatchDataView, MatchJoinView, MatchLeaveView, MatchPresenceEventView, MatchView, MatchmakerAddView, MatchmakerMatchedView, MatchmakerRemoveView, MatchmakerTicketView, PartyAcceptView, PartyCloseView, PartyCreateView, PartyDataSendView, PartyDataView, PartyJoinRequestListView, PartyJoinRequestView, PartyJoinView, PartyLeaderView, PartyLeaveView, PartyMatchmakerAddView, PartyMatchmakerRemoveView, PartyMatchmakerTicketView, PartyPresenceEventView, PartyPromoteView, PartyRemoveView, PartyView, StatusFollowView, StatusPresenceEventView, StatusUnfollowView, StatusUpdateView, StatusView, StreamDataView, StreamPresenceEventView,
};
use crate::json::{
    lemma_parse_print, parse, parse_spec, print, printable, Json, JsonValue, Member, MemberValue,
    MAX_DEPTH,
};
use crate::socket::{
    tally, Channel, ChannelJoin, ChannelLeave, ChannelMesageRemove, ChannelMesageUpdate, ChannelMessageAck, ChannelMessageSend, ChannelPresenceEvent, Error, Match, MatchCreate, MatchData, MatchDataSend, MatchJoin, MatchLeave, MatchPresenceEvent, MatchmakerAdd, MatchmakerMatched, MatchmakerRemove, MatchmakerTicket, Party, PartyAccept, PartyClose, PartyCreate, PartyData, PartyDataSend, PartyJoin, PartyJoinRequest, PartyJoinRequestList, PartyLeader, PartyLeave, PartyMatchmakerAdd, PartyMatchmakerRemove, PartyMatchmakerTicket, PartyPresenceEvent, PartyPromote, PartyRemove, Status, StatusFollow, StatusPresenceEvent, StatusUnfollow, StatusUpdate, StreamData, StreamPresenceEvent, WebSocketMessageEnvelope,
};
use crate::wire::{
    all_printable, find, group_printable, lemma_lookup_add, lemma_lookup_insert,
    lemma_lookup_none, lemma_lookup_one,
    lemma_object_printable, lemma_printable_deeper, lookup, member, member_values, members_of,
    object, object_members, opt_record, opt_text, opt_text_field, put, put_text,
};
use vstd::prelude::*;

verus! {

/// [`WebSocketMessageEnvelope`], as mathematics.
pub struct EnvelopeView {
    pub cid: Option<Seq<char>>,
    pub channel: Option<ChannelView>,
    pub channel_join: Option<ChannelJoinView>,
    pub channel_leave: Option<ChannelLeaveView>,
    pub channel_message: Option<ApiChannelMessageView>,
    pub channel_message_ack: Option<ChannelMessageAckView>,
    pub channel_message_remove: Option<ChannelMesageRemoveView>,
    pub channel_message_send: Option<ChannelMessageSendView>,
    pub channel_message_update: Option<ChannelMesageUpdateView>,
    pub channel_presence_event: Option<ChannelPresenceEventView>,
    pub error: Option<ErrorView>,
    pub matchmaker_add: Option<MatchmakerAddView>,
    pub matchmaker_matched: Option<MatchmakerMatchedView>,
    pub matchmaker_remove: Option<MatchmakerRemoveView>,
    pub matchmaker_ticket: Option<MatchmakerTicketView>,
    pub new_match: Option<MatchView>,
    pub match_create: Option<MatchCreateView>,
    pub match_join: Option<MatchJoinView>,
    pub match_leave: Option<MatchLeaveView>,
    pub match_presence_event: Option<MatchPresenceEventView>,
    pub match_data: Option<MatchDataView>,
    pub match_data_send: Option<MatchDataSendView>,
    pub notifications: Option<ApiNotificationListView>,
    pub rpc: Option<ApiRpcView>,
    pub status: Option<StatusView>,
    pub status_follow: Option<StatusFollowView>,
    pub status_presence_event: Option<StatusPresenceEventView>,
    pub status_unfollow: Option<StatusUnfollowView>,
    pub status_update: Option<StatusUpdateView>,
    pub stream_presence_event: Option<StreamPresenceEventView>,
    pub stream_data: Option<StreamDataView>,
    pub party: Option<PartyView>,
    pub party_create: Option<PartyCreateView>,
    pub party_join: Option<PartyJoinView>,
    pub party_leave: Option<PartyLeaveView>,
    pub party_promote: Option<PartyPromoteView>,
    pub party_leader: Option<PartyLeaderView>,
    pub party_accept: Option<PartyAcceptView>,
    pub party_remove: Option<PartyRemoveView>,
    pub party_close: Option<PartyCloseView>,
    pub party_join_request_list: Option<PartyJoinRequestListView>,
    pub party_join_request: Option<PartyJoinRequestView>,
    pub party_matchmaker_add: Option<PartyMatchmakerAddView>,
    pub party_matchmaker_remove: Option<PartyMatchmakerRemoveView>,
    pub party_matchmaker_ticket: Option<PartyMatchmakerTicketView>,
    pub party_data: Option<PartyDataView>,
    pub party_data_send: Option<PartyDataSendView>,
    pub party_presence_event: Option<PartyPresenceEventView>,
}

impl DeepView for WebSocketMessageEnvelope {
    type V = EnvelopeView;

    open spec fn deep_view(&self) -> EnvelopeView {
        EnvelopeView {
            cid: self.cid.deep_view(),
            channel: self.channel.deep_view(),
            channel_join: self.channel_join.deep_view(),
            channel_leave: self.channel_leave.deep_view(),
            channel_message: self.channel_message.deep_view(),
            channel_message_ack: self.channel_message_ack.deep_view(),
            channel_message_remove: self.channel_message_remove.deep_view(),
            channel_message_send: self.channel_message_send.deep_view(),
            channel_message_update: self.channel_message_update.deep_view(),
            channel_presence_event: self.channel_presence_event.deep_view(),
            error: self.error.deep_view(),
            matchmaker_add: self.matchmaker_add.deep_view(),
            matchmaker_matched: self.matchmaker_matched.deep_view(),
            matchmaker_remove: self.matchmaker_remove.deep_view(),
            matchmaker_ticket: self.matchmaker_ticket.deep_view(),
            new_match: self.new_match.deep_view(),
            match_create: self.match_create.deep_view(),
            match_join: self.match_join.deep_view(),
            match_leave: self.match_leave.deep_view(),
            match_presence_event: self.match_presence_event.deep_view(),
            match_data: self.match_data.deep_view(),
            match_data_send: self.match_data_send.deep_view(),
            notifications: self.notifications.deep_view(),
            rpc: self.rpc.deep_view(),
            status: self.status.deep_view(),
            status_follow: self.status_follow.deep_view(),
            status_presence_event: self.status_presence_event.deep_view(),
            status_unfollow: self.status_unfollow.deep_view(),
            status_update: self.status_update.deep_view(),
            stream_presence_event: self.stream_presence_event.deep_view(),
            stream_data: self.stream_data.deep_view(),
            party: self.party.deep_view(),
            party_create: self.party_create.deep_view(),
            party_join: self.party_join.deep_view(),
            party_leave: self.party_leave.deep_view(),
            party_promote: self.party_promote.deep_view(),
            party_leader: self.party_leader.deep_view(),
            party_accept: self.party_accept.deep_view(),
            party_remove: self.party_remove.deep_view(),
            party_close: self.party_close.deep_view(),
            party_join_request_list: self.party_join_request_list.deep_view(),
            party_join_request: self.party_join_request.deep_view(),
            party_matchmaker_add: self.party_matchmaker_add.deep_view(),
            party_matchmaker_remove: self.party_matchmaker_remove.deep_view(),
            party_matchmaker_ticket: self.party_matchmaker_ticket.deep_view(),
            party_data: self.party_data.deep_view(),
            party_data_send: self.party_data_send.deep_view(),
            party_presence_event: self.party_presence_event.deep_view(),
        }
    }
}

impl EnvelopeView {
    /// Whether every numeric property in this frame holds the text of a
    /// JSON number.
    pub open spec fn wf(self) -> bool {
        &&& (self.matchmaker_add is Some ==> self.matchmaker_add->0.wf())
        &&& (self.matchmaker_matched is Some ==> self.matchmaker_matched->0.wf())
        &&& (self.party_matchmaker_add is Some ==> self.party_matchmaker_add->0.wf())
    }

    /// The frame with nothing set.
    pub open spec fn blank() -> EnvelopeView {
        EnvelopeView {
            cid: None,
            channel: None,
            channel_join: None,
            channel_leave: None,
            channel_message: None,
            channel_message_ack: None,
            channel_message_remove: None,
            channel_message_send: None,
            channel_message_update: None,
            channel_presence_event: None,
            error: None,
            matchmaker_add: None,
            matchmaker_matched: None,
            matchmaker_remove: None,
            matchmaker_ticket: None,
            new_match: None,
            match_create: None,
            match_join: None,
            match_leave: None,
            match_presence_event: None,
            match_data: None,
            match_data_send: None,
            notifications: None,
            rpc: None,
            status: None,
            status_follow: None,
            status_presence_event: None,
            status_unfollow: None,
            status_update: None,
            stream_presence_event: None,
            stream_data: None,
            party: None,
            party_create: None,
            party_join: None,
            party_leave: None,
            party_promote: None,
            party_leader: None,
            party_accept: None,
            party_remove: None,
            party_close: None,
            party_join_request_list: None,
            party_join_request: None,
            party_matchmaker_add: None,
            party_matchmaker_remove: None,
            party_matchmaker_ticket: None,
            party_data: None,
            party_data_send: None,
            party_presence_event: None,
        }
    }

    /// The members before the first field.
    pub open spec fn members_0(self) -> Seq<MemberValue> {
        Seq::empty()
    }

    /// The members up to `cid`.
    pub open spec fn members_1(self) -> Seq<MemberValue> {
        self.members_0() + self.part_1()
    }

    /// The member of `cid`, if it is set.
    pub open spec fn part_1(self) -> Seq<MemberValue> {
        if self.cid is Some {
            seq![member("cid"@, JsonValue::Text(self.cid->0))]
        } else {
            Seq::empty()
        }
    }

    /// The members up to `channel`.
    pub open spec fn members_2(self) -> Seq<MemberValue> {
        self.members_1() + self.part_2()
    }

    /// The member of `channel`, if it is set.
    pub open spec fn part_2(self) -> Seq<MemberValue> {
        if self.channel is Some {
            seq![member("channel"@, self.channel->0.json())]
        } else {
            Seq::empty()
        }
    }

    /// The members up to `channel_join`.
    pub open spec fn members_3(self) -> Seq<MemberValue> {
        self.members_2() + self.part_3()
    }

    /// The member of `channel_join`, if it is set.
    pub open spec fn part_3(self) -> Seq<MemberValue> {
        if self.channel_join is Some {
            seq![member("channel_join"@, self.channel_join->0.json())]
        } else {
            Seq::empty()
        }
    }

    /// The members up to `channel_leave`.
    pub open spec fn members_4(self) -> Seq<MemberValue> {
        self.members_3() + self.part_4()
    }

    /// The member of `channel_leave`, if it is set.
    pub open spec fn part_4(self) -> Seq<MemberValue> {
        if self.channel_leave is Some {
            seq![member("channel_leave"@, self.channel_leave->0.json())]
        } else {
            Seq::empty()
        }
    }

    /// The members up to `channel_message`.
    pub open spec fn members_5(self) -> Seq<MemberValue> {
        self.members_4() + self.part_5()
    }

    /// The member of `channel_message`, if it is set.
    pub open spec fn part_5(self) -> Seq<MemberValue> {
        if self.channel_message is Some {
            seq![member("channel_message"@, self.channel_message->0.json())]
        } else {
            Seq::empty()
        }
    }

    /// The members up to `channel_message_ack`.
    pub open spec fn members_6(self) -> Seq<MemberValue> {
        self.members_5() + self.part_6()
    }

    /// The member of `channel_message_ack`, if it is set.
    pub open spec fn part_6(self) -> Seq<MemberValue> {
        if self.channel_message_ack is Some {
            seq![member("channel_message_ack"@, self.channel_message_ack->0.json())]
        } else {
            Seq::empty()
        }
    }

    /// The members up to `channel_message_remove`.
    pub open spec fn members_7(self) -> Seq<MemberValue> {
        self.members_6() + self.part_7()
    }

    /// The member of `channel_message_remove`, if it is set.
    pub open spec fn part_7(self) -> Seq<MemberValue> {
        if self.channel_message_remove is Some {
            seq![member("channel_message_remove"@, self.channel_message_remove->0.json())]
        } else {
            Seq::empty()
        }
    }

    /// The members up to `channel_message_send`.
    pub open spec fn members_8(self) -> Seq<MemberValue> {
        self.members_7() + self.part_8()
    }

    /// The member of `channel_message_send`, if it is set.
    pub open spec fn part_8(self) -> Seq<MemberValue> {
        if self.channel_message_send is Some {
            seq![member("channel_message_send"@, self.channel_message_send->0.json())]
        } else {
            Seq::empty()
        }
    }

    /// The members up to `channel_message_update`.
    pub open spec fn members_9(self) -> Seq<MemberValue> {
        self.members_8() + self.part_9()
    }

    /// The member of `channel_message_update`, if it is set.
    pub open spec fn part_9(self) -> Seq<MemberValue> {
        if self.channel_message_update is Some {
            seq![member("channel_message_update"@, self.channel_message_update->0.json())]
        } else {
            Seq::empty()
        }
    }

    /// The members up to `channel_presence_event`.
    pub open spec fn members_10(self) -> Seq<MemberValue> {
        self.members_9() + self.part_10()
    }

    /// The member of `channel_presence_event`, if it is set.
    pub open spec fn part_10(self) -> Seq<MemberValue> {
        if self.channel_presence_event is Some {
            seq![member("channel_presence_event"@, self.channel_presence_event->0.json())]
        } else {
            Seq::empty()
        }
    }

    /// The members up to `error`.
    pub open spec fn members_11(self) -> Seq<MemberValue> {
        self.members_10() + self.part_11()
    }

    /// The member of `error`, if it is set.
    pub open spec fn part_11(self) -> Seq<MemberValue> {
        if self.error is Some {
            seq![member("error"@, self.error->0.json())]
        } else {
            Seq::empty()
        }
    }

    /// The members up to `matchmaker_add`.
    pub open spec fn members_12(self) -> Seq<MemberValue> {
        self.members_11() + self.part_12()
    }

    /// The member of `matchmaker_add`, if it is set.
    pub open spec fn part_12(self) -> Seq<MemberValue> {
        if self.matchmaker_add is Some {
            seq![member("matchmaker_add"@, self.matchmaker_add->0.json())]
        } else {
            Seq::empty()
        }
    }

    /// The members up to `matchmaker_matched`.
    pub open spec fn members_13(self) -> Seq<MemberValue> {
        self.members_12() + self.part_13()
    }

    /// The member of `matchmaker_matched`, if it is set.
    pub open spec fn part_13(self) -> Seq<MemberValue> {
        if self.matchmaker_matched is Some {
            seq![member("matchmaker_matched"@, self.matchmaker_matched->0.json())]
        } else {
            Seq::empty()
        }
    }

    /// The members up to `matchmaker_remove`.
    pub open spec fn members_14(self) -> Seq<MemberValue> {
        self.members_13() + self.part_14()
    }

    /// The member of `matchmaker_remove`, if it is set.
    pub open spec fn part_14(self) -> Seq<MemberValue> {
        if self.matchmaker_remove is Some {
            seq![member("matchmaker_remove"@, self.matchmaker_remove->0.json())]
        } else {
            Seq::empty()
        }
    }

    /// The members up to `matchmaker_ticket`.
    pub open spec fn members_15(self) -> Seq<MemberValue> {
        self.members_14() + self.part_15()
    }

    /// The member of `matchmaker_ticket`, if it is set.
    pub open spec fn part_15(self) -> Seq<MemberValue> {
        if self.matchmaker_ticket is Some {
            seq![member("matchmaker_ticket"@, self.matchmaker_ticket->0.json())]
        } else {
            Seq::empty()
        }
    }

    /// The members up to `match`.
    pub open spec fn members_16(self) -> Seq<MemberValue> {
        self.members_15() + self.part_16()
    }

    /// The member of `match`, if it is set.
    pub open spec fn part_16(self) -> Seq<MemberValue> {
        if self.new_match is Some {
            seq![member("match"@, self.new_match->0.json())]
        } else {
            Seq::empty()
        }
    }

    /// The members up to `match_create`.
    pub open spec fn members_17(self) -> Seq<MemberValue> {
        self.members_16() + self.part_17()
    }

    /// The member of `match_create`, if it is set.
    pub open spec fn part_17(self) -> Seq<MemberValue> {
        if self.match_create is Some {
            seq![member("match_create"@, self.match_create->0.json())]
        } else {
            Seq::empty()
        }
    }

    /// The members up to `match_join`.
    pub open spec fn members_18(self) -> Seq<MemberValue> {
        self.members_17() + self.part_18()
    }

    /// The member of `match_join`, if it is set.
    pub open spec fn part_18(self) -> Seq<MemberValue> {
        if self.match_join is Some {
            seq![member("match_join"@, self.match_join->0.json())]
        } else {
            Seq::empty()
        }
    }

    /// The members up to `match_leave`.
    pub open spec fn members_19(self) -> Seq<MemberValue> {
        self.members_18() + self.part_19()
    }

    /// The member of `match_leave`, if it is set.
    pub open spec fn part_19(self) -> Seq<MemberValue> {
        if self.match_leave is Some {
            seq![member("match_leave"@, self.match_leave->0.json())]
        } else {
            Seq::empty()
        }
    }

    /// The members up to `match_presence_event`.
    pub open spec fn members_20(self) -> Seq<MemberValue> {
        self.members_19() + self.part_20()
    }

    /// The member of `match_presence_event`, if it is set.
    pub open spec fn part_20(self) -> Seq<MemberValue> {
        if self.match_presence_event is Some {
            seq![member("match_presence_event"@, self.match_presence_event->0.json())]
        } else {
            Seq::empty()
        }
    }

    /// The members up to `match_data`.
    pub open spec fn members_21(self) -> Seq<MemberValue> {
        self.members_20() + self.part_21()
    }

    /// The member of `match_data`, if it is set.
    pub open spec fn part_21(self) -> Seq<MemberValue> {
        if self.match_data is Some {
            seq![member("match_data"@, self.match_data->0.json())]
        } else {
            Seq::empty()
        }
    }

    /// The members up to `match_data_send`.
    pub open spec fn members_22(self) -> Seq<MemberValue> {
        self.members_21() + self.part_22()
    }

    /// The member of `match_data_send`, if it is set.
    pub open spec fn part_22(self) -> Seq<MemberValue> {
        if self.match_data_send is Some {
            seq![member("match_data_send"@, self.match_data_send->0.json())]
        } else {
            Seq::empty()
        }
    }

    /// The members up to `notifications`.
    pub open spec fn members_23(self) -> Seq<MemberValue> {
        self.members_22() + self.part_23()
    }

    /// The member of `notifications`, if it is set.
    pub open spec fn part_23(self) -> Seq<MemberValue> {
        if self.notifications is Some {
            seq![member("notifications"@, self.notifications->0.json())]
        } else {
            Seq::empty()
        }
    }

    /// The members up to `rpc`.
    pub open spec fn members_24(self) -> Seq<MemberValue> {
        self.members_23() + self.part_24()
    }

    /// The member of `rpc`, if it is set.
    pub open spec fn part_24(self) -> Seq<MemberValue> {
        if self.rpc is Some {
            seq![member("rpc"@, self.rpc->0.json())]
        } else {
            Seq::empty()
        }
    }

    /// The members up to `status`.
    pub open spec fn members_25(self) -> Seq<MemberValue> {
        self.members_24() + self.part_25()
    }

    /// The member of `status`, if it is set.
    pub open spec fn part_25(self) -> Seq<MemberValue> {
        if self.status is Some {
            seq![member("status"@, self.status->0.json())]
        } else {
            Seq::empty()
        }
    }

    /// The members up to `status_follow`.
    pub open spec fn members_26(self) -> Seq<MemberValue> {
        self.members_25() + self.part_26()
    }

    /// The member of `status_follow`, if it is set.
    pub open spec fn part_26(self) -> Seq<MemberValue> {
        if self.status_follow is Some {
            seq![member("status_follow"@, self.status_follow->0.json())]
        } else {
            Seq::empty()
        }
    }

    /// The members up to `status_presence_event`.
    pub open spec fn members_27(self) -> Seq<MemberValue> {
        self.members_26() + self.part_27()
    }

    /// The member of `status_presence_event`, if it is set.
    pub open spec fn part_27(self) -> Seq<MemberValue> {
        if self.status_presence_event is Some {
            seq![member("status_presence_event"@, self.status_presence_event->0.json())]
        } else {
            Seq::empty()
        }
    }

    /// The members up to `status_unfollow`.
    pub open spec fn members_28(self) -> Seq<MemberValue> {
        self.members_27() + self.part_28()
    }

    /// The member of `status_unfollow`, if it is set.
    pub open spec fn part_28(self) -> Seq<MemberValue> {
        if self.status_unfollow is Some {
            seq![member("status_unfollow"@, self.status_unfollow->0.json())]
        } else {
            Seq::empty()
        }
    }

    /// The members up to `status_update`.
    pub open spec fn members_29(self) -> Seq<MemberValue> {
        self.members_28() + self.part_29()
    }

    /// The member of `status_update`, if it is set.
    pub open spec fn part_29(self) -> Seq<MemberValue> {
        if self.status_update is Some {
            seq![member("status_update"@, self.status_update->0.json())]
        } else {
            Seq::empty()
        }
    }

    /// The members up to `stream_presence_event`.
    pub open spec fn members_30(self) -> Seq<MemberValue> {
        self.members_29() + self.part_30()
    }

    /// The member of `stream_presence_event`, if it is set.
    pub open spec fn part_30(self) -> Seq<MemberValue> {
        if self.stream_presence_event is Some {
            seq![member("stream_presence_event"@, self.stream_presence_event->0.json())]
        } else {
            Seq::empty()
        }
    }

    /// The members up to `stream_data`.
    pub open spec fn members_31(self) -> Seq<MemberValue> {
        self.members_30() + self.part_31()
    }

    /// The member of `stream_data`, if it is set.
    pub open spec fn part_31(self) -> Seq<MemberValue> {
        if self.stream_data is Some {
            seq![member("stream_data"@, self.stream_data->0.json())]
        } else {
            Seq::empty()
        }
    }

    /// The members up to `party`.
    pub open spec fn members_32(self) -> Seq<MemberValue> {
        self.members_31() + self.part_32()
    }

    /// The member of `party`, if it is set.
    pub open spec fn part_32(self) -> Seq<MemberValue> {
        if self.party is Some {
            seq![member("party"@, self.party->0.json())]
        } else {
            Seq::empty()
        }
    }

    /// The members up to `party_create`.
    pub open spec fn members_33(self) -> Seq<MemberValue> {
        self.members_32() + self.part_33()
    }

    /// The member of `party_create`, if it is set.
    pub open spec fn part_33(self) -> Seq<MemberValue> {
        if self.party_create is Some {
            seq![member("party_create"@, self.party_create->0.json())]
        } else {
            Seq::empty()
        }
    }

    /// The members up to `party_join`.
    pub open spec fn members_34(self) -> Seq<MemberValue> {
        self.members_33() + self.part_34()
    }

    /// The member of `party_join`, if it is set.
    pub open spec fn part_34(self) -> Seq<MemberValue> {
        if self.party_join is Some {
            seq![member("party_join"@, self.party_join->0.json())]
        } else {
            Seq::empty()
        }
    }

    /// The members up to `party_leave`.
    pub open spec fn members_35(self) -> Seq<MemberValue> {
        self.members_34() + self.part_35()
    }

    /// The member of `party_leave`, if it is set.
    pub open spec fn part_35(self) -> Seq<MemberValue> {
        if self.party_leave is Some {
            seq![member("party_leave"@, self.party_leave->0.json())]
        } else {
            Seq::empty()
        }
    }

    /// The members up to `party_promote`.
    pub open spec fn members_36(self) -> Seq<MemberValue> {
        self.members_35() + self.part_36()
    }

    /// The member of `party_promote`, if it is set.
    pub open spec fn part_36(self) -> Seq<MemberValue> {
        if self.party_promote is Some {
            seq![member("party_promote"@, self.party_promote->0.json())]
        } else {
            Seq::empty()
        }
    }

    /// The members up to `party_leader`.
    pub open spec fn members_37(self) -> Seq<MemberValue> {
        self.members_36() + self.part_37()
    }

    /// The member of `party_leader`, if it is set.
    pub open spec fn part_37(self) -> Seq<MemberValue> {
        if self.party_leader is Some {
            seq![member("party_leader"@, self.party_leader->0.json())]
        } else {
            Seq::empty()
        }
    }

    /// The members up to `party_accept`.
    pub open spec fn members_38(self) -> Seq<MemberValue> {
        self.members_37() + self.part_38()
    }

    /// The member of `party_accept`, if it is set.
    pub open spec fn part_38(self) -> Seq<MemberValue> {
        if self.party_accept is Some {
            seq![member("party_accept"@, self.party_accept->0.json())]
        } else {
            Seq::empty()
        }
    }

    /// The members up to `party_remove`.
    pub open spec fn members_39(self) -> Seq<MemberValue> {
        self.members_38() + self.part_39()
    }

    /// The member of `party_remove`, if it is set.
    pub open spec fn part_39(self) -> Seq<MemberValue> {
        if self.party_remove is Some {
            seq![member("party_remove"@, self.party_remove->0.json())]
        } else {
            Seq::empty()
        }
    }

    /// The members up to `party_close`.
    pub open spec fn members_40(self) -> Seq<MemberValue> {
        self.members_39() + self.part_40()
    }

    /// The member of `party_close`, if it is set.
    pub open spec fn part_40(self) -> Seq<MemberValue> {
        if self.party_close is Some {
            seq![member("party_close"@, self.party_close->0.json())]
        } else {
            Seq::empty()
        }
    }

    /// The members up to `party_join_request_list`.
    pub open spec fn members_41(self) -> Seq<MemberValue> {
        self.members_40() + self.part_41()
    }

    /// The member of `party_join_request_list`, if it is set.
    pub open spec fn part_41(self) -> Seq<MemberValue> {
        if self.party_join_request_list is Some {
            seq![member("party_join_request_list"@, self.party_join_request_list->0.json())]
        } else {
            Seq::empty()
        }
    }

    /// The members up to `party_join_request`.
    pub open spec fn members_42(self) -> Seq<MemberValue> {
        self.members_41() + self.part_42()
    }

    /// The member of `party_join_request`, if it is set.
    pub open spec fn part_42(self) -> Seq<MemberValue> {
        if self.party_join_request is Some {
            seq![member("party_join_request"@, self.party_join_request->0.json())]
        } else {
            Seq::empty()
        }
    }

    /// The members up to `party_matchmaker_add`.
    pub open spec fn members_43(self) -> Seq<MemberValue> {
        self.members_42() + self.part_43()
    }

    /// The member of `party_matchmaker_add`, if it is set.
    pub open spec fn part_43(self) -> Seq<MemberValue> {
        if self.party_matchmaker_add is Some {
            seq![member("party_matchmaker_add"@, self.party_matchmaker_add->0.json())]
        } else {
            Seq::empty()
        }
    }

    /// The members up to `party_matchmaker_remove`.
    pub open spec fn members_44(self) -> Seq<MemberValue> {
        self.members_43() + self.part_44()
    }

    /// The member of `party_matchmaker_remove`, if it is set.
    pub open spec fn part_44(self) -> Seq<MemberValue> {
        if self.party_matchmaker_remove is Some {
            seq![member("party_matchmaker_remove"@, self.party_matchmaker_remove->0.json())]
        } else {
            Seq::empty()
        }
    }

    /// The members up to `party_matchmaker_ticket`.
    pub open spec fn members_45(self) -> Seq<MemberValue> {
        self.members_44() + self.part_45()
    }

    /// The member of `party_matchmaker_ticket`, if it is set.
    pub open spec fn part_45(self) -> Seq<MemberValue> {
        if self.party_matchmaker_ticket is Some {
            seq![member("party_matchmaker_ticket"@, self.party_matchmaker_ticket->0.json())]
        } else {
            Seq::empty()
        }
    }

    /// The members up to `party_data`.
    pub open spec fn members_46(self) -> Seq<MemberValue> {
        self.members_45() + self.part_46()
    }

    /// The member of `party_data`, if it is set.
    pub open spec fn part_46(self) -> Seq<MemberValue> {
        if self.party_data is Some {
            seq![member("party_data"@, self.party_data->0.json())]
        } else {
            Seq::empty()
        }
    }

    /// The members up to `party_data_send`.
    pub open spec fn members_47(self) -> Seq<MemberValue> {
        self.members_46() + self.part_47()
    }

    /// The member of `party_data_send`, if it is set.
    pub open spec fn part_47(self) -> Seq<MemberValue> {
        if self.party_data_send is Some {
            seq![member("party_data_send"@, self.party_data_send->0.json())]
        } else {
            Seq::empty()
        }
    }

    /// The members up to `party_presence_event`.
    pub open spec fn members_48(self) -> Seq<MemberValue> {
        self.members_47() + self.part_48()
    }

    /// The member of `party_presence_event`, if it is set.
    pub open spec fn part_48(self) -> Seq<MemberValue> {
        if self.party_presence_event is Some {
            seq![member("party_presence_event"@, self.party_presence_event->0.json())]
        } else {
            Seq::empty()
        }
    }

    /// The JSON value that this frame is written as.
    pub open spec fn json(self) -> JsonValue {
        JsonValue::Object(self.members_48())
    }

    /// This frame, whole.
    pub open spec fn upto_48(self) -> EnvelopeView {
        EnvelopeView {
            cid: self.cid,
            channel: self.channel,
            channel_join: self.channel_join,
            channel_leave: self.channel_leave,
            channel_message: self.channel_message,
            channel_message_ack: self.channel_message_ack,
            channel_message_remove: self.channel_message_remove,
            channel_message_send: self.channel_message_send,
            channel_message_update: self.channel_message_update,
            channel_presence_event: self.channel_presence_event,
            error: self.error,
            matchmaker_add: self.matchmaker_add,
            matchmaker_matched: self.matchmaker_matched,
            matchmaker_remove: self.matchmaker_remove,
            matchmaker_ticket: self.matchmaker_ticket,
            new_match: self.new_match,
            match_create: self.match_create,
            match_join: self.match_join,
            match_leave: self.match_leave,
            match_presence_event: self.match_presence_event,
            match_data: self.match_data,
            match_data_send: self.match_data_send,
            notifications: self.notifications,
            rpc: self.rpc,
            status: self.status,
            status_follow: self.status_follow,
            status_presence_event: self.status_presence_event,
            status_unfollow: self.status_unfollow,
            status_update: self.status_update,
            stream_presence_event: self.stream_presence_event,
            stream_data: self.stream_data,
            party: self.party,
            party_create: self.party_create,
            party_join: self.party_join,
            party_leave: self.party_leave,
            party_promote: self.party_promote,
            party_leader: self.party_leader,
            party_accept: self.party_accept,
            party_remove: self.party_remove,
            party_close: self.party_close,
            party_join_request_list: self.party_join_request_list,
            party_join_request: self.party_join_request,
            party_matchmaker_add: self.party_matchmaker_add,
            party_matchmaker_remove: self.party_matchmaker_remove,
            party_matchmaker_ticket: self.party_matchmaker_ticket,
            party_data: self.party_data,
            party_data_send: self.party_data_send,
            party_presence_event: self.party_presence_event,
        }
    }

    /// This frame with `party_presence_event` and the fields behind it unset.
    pub open spec fn upto_47(self) -> EnvelopeView {
        EnvelopeView {
            cid: self.cid,
            channel: self.channel,
            channel_join: self.channel_join,
            channel_leave: self.channel_leave,
            channel_message: self.channel_message,
            channel_message_ack: self.channel_message_ack,
            channel_message_remove: self.channel_message_remove,
            channel_message_send: self.channel_message_send,
            channel_message_update: self.channel_message_update,
            channel_presence_event: self.channel_presence_event,
            error: self.error,
            matchmaker_add: self.matchmaker_add,
            matchmaker_matched: self.matchmaker_matched,
            matchmaker_remove: self.matchmaker_remove,
            matchmaker_ticket: self.matchmaker_ticket,
            new_match: self.new_match,
            match_create: self.match_create,
            match_join: self.match_join,
            match_leave: self.match_leave,
            match_presence_event: self.match_presence_event,
            match_data: self.match_data,
            match_data_send: self.match_data_send,
            notifications: self.notifications,
            rpc: self.rpc,
            status: self.status,
            status_follow: self.status_follow,
            status_presence_event: self.status_presence_event,
            status_unfollow: self.status_unfollow,
            status_update: self.status_update,
            stream_presence_event: self.stream_presence_event,
            stream_data: self.stream_data,
            party: self.party,
            party_create: self.party_create,
            party_join: self.party_join,
            party_leave: self.party_leave,
            party_promote: self.party_promote,
            party_leader: self.party_leader,
            party_accept: self.party_accept,
            party_remove: self.party_remove,
            party_close: self.party_close,
            party_join_request_list: self.party_join_request_list,
            party_join_request: self.party_join_request,
            party_matchmaker_add: self.party_matchmaker_add,
            party_matchmaker_remove: self.party_matchmaker_remove,
            party_matchmaker_ticket: self.party_matchmaker_ticket,
            party_data: self.party_data,
            party_data_send: self.party_data_send,
            party_presence_event: None,
        }
    }

    /// This frame with `party_data_send` and the fields behind it unset.
    pub open spec fn upto_46(self) -> EnvelopeView {
        EnvelopeView {
            cid: self.cid,
            channel: self.channel,
            channel_join: self.channel_join,
            channel_leave: self.channel_leave,
            channel_message: self.channel_message,
            channel_message_ack: self.channel_message_ack,
            channel_message_remove: self.channel_message_remove,
            channel_message_send: self.channel_message_send,
            channel_message_update: self.channel_message_update,
            channel_presence_event: self.channel_presence_event,
            error: self.error,
            matchmaker_add: self.matchmaker_add,
            matchmaker_matched: self.matchmaker_matched,
            matchmaker_remove: self.matchmaker_remove,
            matchmaker_ticket: self.matchmaker_ticket,
            new_match: self.new_match,
            match_create: self.match_create,
            match_join: self.match_join,
            match_leave: self.match_leave,
            match_presence_event: self.match_presence_event,
            match_data: self.match_data,
            match_data_send: self.match_data_send,
            notifications: self.notifications,
            rpc: self.rpc,
            status: self.status,
            status_follow: self.status_follow,
            status_presence_event: self.status_presence_event,
            status_unfollow: self.status_unfollow,
            status_update: self.status_update,
            stream_presence_event: self.stream_presence_event,
            stream_data: self.stream_data,
            party: self.party,
            party_create: self.party_create,
            party_join: self.party_join,
            party_leave: self.party_leave,
            party_promote: self.party_promote,
            party_leader: self.party_leader,
            party_accept: self.party_accept,
            party_remove: self.party_remove,
            party_close: self.party_close,
            party_join_request_list: self.party_join_request_list,
            party_join_request: self.party_join_request,
            party_matchmaker_add: self.party_matchmaker_add,
            party_matchmaker_remove: self.party_matchmaker_remove,
            party_matchmaker_ticket: self.party_matchmaker_ticket,
            party_data: self.party_data,
            party_data_send: None,
            party_presence_event: None,
        }
    }

    /// This frame with `party_data` and the fields behind it unset.
    pub open spec fn upto_45(self) -> EnvelopeView {
        EnvelopeView {
            cid: self.cid,
            channel: self.channel,
            channel_join: self.channel_join,
            channel_leave: self.channel_leave,
            channel_message: self.channel_message,
            channel_message_ack: self.channel_message_ack,
            channel_message_remove: self.channel_message_remove,
            channel_message_send: self.channel_message_send,
            channel_message_update: self.channel_message_update,
            channel_presence_event: self.channel_presence_event,
            error: self.error,
            matchmaker_add: self.matchmaker_add,
            matchmaker_matched: self.matchmaker_matched,
            matchmaker_remove: self.matchmaker_remove,
            matchmaker_ticket: self.matchmaker_ticket,
            new_match: self.new_match,
            match_create: self.match_create,
            match_join: self.match_join,
            match_leave: self.match_leave,
            match_presence_event: self.match_presence_event,
            match_data: self.match_data,
            match_data_send: self.match_data_send,
            notifications: self.notifications,
            rpc: self.rpc,
            status: self.status,
            status_follow: self.status_follow,
            status_presence_event: self.status_presence_event,
            status_unfollow: self.status_unfollow,
            status_update: self.status_update,
            stream_presence_event: self.stream_presence_event,
            stream_data: self.stream_data,
            party: self.party,
            party_create: self.party_create,
            party_join: self.party_join,
            party_leave: self.party_leave,
            party_promote: self.party_promote,
            party_leader: self.party_leader,
            party_accept: self.party_accept,
            party_remove: self.party_remove,
            party_close: self.party_close,
            party_join_request_list: self.party_join_request_list,
            party_join_request: self.party_join_request,
            party_matchmaker_add: self.party_matchmaker_add,
            party_matchmaker_remove: self.party_matchmaker_remove,
            party_matchmaker_ticket: self.party_matchmaker_ticket,
            party_data: None,
            party_data_send: None,
            party_presence_event: None,
        }
    }

    /// This frame with `party_matchmaker_ticket` and the fields behind it unset.
    pub open spec fn upto_44(self) -> EnvelopeView {
        EnvelopeView {
            cid: self.cid,
            channel: self.channel,
            channel_join: self.channel_join,
            channel_leave: self.channel_leave,
            channel_message: self.channel_message,
            channel_message_ack: self.channel_message_ack,
            channel_message_remove: self.channel_message_remove,
            channel_message_send: self.channel_message_send,
            channel_message_update: self.channel_message_update,
            channel_presence_event: self.channel_presence_event,
            error: self.error,
            matchmaker_add: self.matchmaker_add,
            matchmaker_matched: self.matchmaker_matched,
            matchmaker_remove: self.matchmaker_remove,
            matchmaker_ticket: self.matchmaker_ticket,
            new_match: self.new_match,
            match_create: self.match_create,
            match_join: self.match_join,
            match_leave: self.match_leave,
            match_presence_event: self.match_presence_event,
            match_data: self.match_data,
            match_data_send: self.match_data_send,
            notifications: self.notifications,
            rpc: self.rpc,
            status: self.status,
            status_follow: self.status_follow,
            status_presence_event: self.status_presence_event,
            status_unfollow: self.status_unfollow,
            status_update: self.status_update,
            stream_presence_event: self.stream_presence_event,
            stream_data: self.stream_data,
            party: self.party,
            party_create: self.party_create,
            party_join: self.party_join,
            party_leave: self.party_leave,
            party_promote: self.party_promote,
            party_leader: self.party_leader,
            party_accept: self.party_accept,
            party_remove: self.party_remove,
            party_close: self.party_close,
            party_join_request_list: self.party_join_request_list,
            party_join_request: self.party_join_request,
            party_matchmaker_add: self.party_matchmaker_add,
            party_matchmaker_remove: self.party_matchmaker_remove,
            party_matchmaker_ticket: None,
            party_data: None,
            party_data_send: None,
            party_presence_event: None,
        }
    }

    /// This frame with `party_matchmaker_remove` and the fields behind it unset.
    pub open spec fn upto_43(self) -> EnvelopeView {
        EnvelopeView {
            cid: self.cid,
            channel: self.channel,
            channel_join: self.channel_join,
            channel_leave: self.channel_leave,
            channel_message: self.channel_message,
            channel_message_ack: self.channel_message_ack,
            channel_message_remove: self.channel_message_remove,
            channel_message_send: self.channel_message_send,
            channel_message_update: self.channel_message_update,
            channel_presence_event: self.channel_presence_event,
            error: self.error,
            matchmaker_add: self.matchmaker_add,
            matchmaker_matched: self.matchmaker_matched,
            matchmaker_remove: self.matchmaker_remove,
            matchmaker_ticket: self.matchmaker_ticket,
            new_match: self.new_match,
            match_create: self.match_create,
            match_join: self.match_join,
            match_leave: self.match_leave,
            match_presence_event: self.match_presence_event,
            match_data: self.match_data,
            match_data_send: self.match_data_send,
            notifications: self.notifications,
            rpc: self.rpc,
            status: self.status,
            status_follow: self.status_follow,
            status_presence_event: self.status_presence_event,
            status_unfollow: self.status_unfollow,
            status_update: self.status_update,
            stream_presence_event: self.stream_presence_event,
            stream_data: self.stream_data,
            party: self.party,
            party_create: self.party_create,
            party_join: self.party_join,
            party_leave: self.party_leave,
            party_promote: self.party_promote,
            party_leader: self.party_leader,
            party_accept: self.party_accept,
            party_remove: self.party_remove,
            party_close: self.party_close,
            party_join_request_list: self.party_join_request_list,
            party_join_request: self.party_join_request,
            party_matchmaker_add: self.party_matchmaker_add,
            party_matchmaker_remove: None,
            party_matchmaker_ticket: None,
            party_data: None,
            party_data_send: None,
            party_presence_event: None,
        }
    }

    /// This frame with `party_matchmaker_add` and the fields behind it unset.
    pub open spec fn upto_42(self) -> EnvelopeView {
        EnvelopeView {
            cid: self.cid,
            channel: self.channel,
            channel_join: self.channel_join,
            channel_leave: self.channel_leave,
            channel_message: self.channel_message,
            channel_message_ack: self.channel_message_ack,
            channel_message_remove: self.channel_message_remove,
            channel_message_send: self.channel_message_send,
            channel_message_update: self.channel_message_update,
            channel_presence_event: self.channel_presence_event,
            error: self.error,
            matchmaker_add: self.matchmaker_add,
            matchmaker_matched: self.matchmaker_matched,
            matchmaker_remove: self.matchmaker_remove,
            matchmaker_ticket: self.matchmaker_ticket,
            new_match: self.new_match,
            match_create: self.match_create,
            match_join: self.match_join,
            match_leave: self.match_leave,
            match_presence_event: self.match_presence_event,
            match_data: self.match_data,
            match_data_send: self.match_data_send,
            notifications: self.notifications,
            rpc: self.rpc,
            status: self.status,
            status_follow: self.status_follow,
            status_presence_event: self.status_presence_event,
            status_unfollow: self.status_unfollow,
            status_update: self.status_update,
            stream_presence_event: self.stream_presence_event,
            stream_data: self.stream_data,
            party: self.party,
            party_create: self.party_create,
            party_join: self.party_join,
            party_leave: self.party_leave,
            party_promote: self.party_promote,
            party_leader: self.party_leader,
            party_accept: self.party_accept,
            party_remove: self.party_remove,
            party_close: self.party_close,
            party_join_request_list: self.party_join_request_list,
            party_join_request: self.party_join_request,
            party_matchmaker_add: None,
            party_matchmaker_remove: None,
            party_matchmaker_ticket: None,
            party_data: None,
            party_data_send: None,
            party_presence_event: None,
        }
    }

    /// This frame with `party_join_request` and the fields behind it unset.
    pub open spec fn upto_41(self) -> EnvelopeView {
        EnvelopeView {
            cid: self.cid,
            channel: self.channel,
            channel_join: self.channel_join,
            channel_leave: self.channel_leave,
            channel_message: self.channel_message,
            channel_message_ack: self.channel_message_ack,
            channel_message_remove: self.channel_message_remove,
            channel_message_send: self.channel_message_send,
            channel_message_update: self.channel_message_update,
            channel_presence_event: self.channel_presence_event,
            error: self.error,
            matchmaker_add: self.matchmaker_add,
            matchmaker_matched: self.matchmaker_matched,
            matchmaker_remove: self.matchmaker_remove,
            matchmaker_ticket: self.matchmaker_ticket,
            new_match: self.new_match,
            match_create: self.match_create,
            match_join: self.match_join,
            match_leave: self.match_leave,
            match_presence_event: self.match_presence_event,
            match_data: self.match_data,
            match_data_send: self.match_data_send,
            notifications: self.notifications,
            rpc: self.rpc,
            status: self.status,
            status_follow: self.status_follow,
            status_presence_event: self.status_presence_event,
            status_unfollow: self.status_unfollow,
            status_update: self.status_update,
            stream_presence_event: self.stream_presence_event,
            stream_data: self.stream_data,
            party: self.party,
            party_create: self.party_create,
            party_join: self.party_join,
            party_leave: self.party_leave,
            party_promote: self.party_promote,
            party_leader: self.party_leader,
            party_accept: self.party_accept,
            party_remove: self.party_remove,
            party_close: self.party_close,
            party_join_request_list: self.party_join_request_list,
            party_join_request: None,
            party_matchmaker_add: None,
            party_matchmaker_remove: None,
            party_matchmaker_ticket: None,
            party_data: None,
            party_data_send: None,
            party_presence_event: None,
        }
    }

    /// This frame with `party_join_request_list` and the fields behind it unset.
    pub open spec fn upto_40(self) -> EnvelopeView {
        EnvelopeView {
            cid: self.cid,
            channel: self.channel,
            channel_join: self.channel_join,
            channel_leave: self.channel_leave,
            channel_message: self.channel_message,
            channel_message_ack: self.channel_message_ack,
            channel_message_remove: self.channel_message_remove,
            channel_message_send: self.channel_message_send,
            channel_message_update: self.channel_message_update,
            channel_presence_event: self.channel_presence_event,
            error: self.error,
            matchmaker_add: self.matchmaker_add,
            matchmaker_matched: self.matchmaker_matched,
            matchmaker_remove: self.matchmaker_remove,
            matchmaker_ticket: self.matchmaker_ticket,
            new_match: self.new_match,
            match_create: self.match_create,
            match_join: self.match_join,
            match_leave: self.match_leave,
            match_presence_event: self.match_presence_event,
            match_data: self.match_data,
            match_data_send: self.match_data_send,
            notifications: self.notifications,
            rpc: self.rpc,
            status: self.status,
            status_follow: self.status_follow,
            status_presence_event: self.status_presence_event,
            status_unfollow: self.status_unfollow,
            status_update: self.status_update,
            stream_presence_event: self.stream_presence_event,
            stream_data: self.stream_data,
            party: self.party,
            party_create: self.party_create,
            party_join: self.party_join,
            party_leave: self.party_leave,
            party_promote: self.party_promote,
            party_leader: self.party_leader,
            party_accept: self.party_accept,
            party_remove: self.party_remove,
            party_close: self.party_close,
            party_join_request_list: None,
            party_join_request: None,
            party_matchmaker_add: None,
            party_matchmaker_remove: None,
            party_matchmaker_ticket: None,
            party_data: None,
            party_data_send: None,
            party_presence_event: None,
        }
    }

    /// This frame with `party_close` and the fields behind it unset.
    pub open spec fn upto_39(self) -> EnvelopeView {
        EnvelopeView {
            cid: self.cid,
            channel: self.channel,
            channel_join: self.channel_join,
            channel_leave: self.channel_leave,
            channel_message: self.channel_message,
            channel_message_ack: self.channel_message_ack,
            channel_message_remove: self.channel_message_remove,
            channel_message_send: self.channel_message_send,
            channel_message_update: self.channel_message_update,
            channel_presence_event: self.channel_presence_event,
            error: self.error,
            matchmaker_add: self.matchmaker_add,
            matchmaker_matched: self.matchmaker_matched,
            matchmaker_remove: self.matchmaker_remove,
            matchmaker_ticket: self.matchmaker_ticket,
            new_match: self.new_match,
            match_create: self.match_create,
            match_join: self.match_join,
            match_leave: self.match_leave,
            match_presence_event: self.match_presence_event,
            match_data: self.match_data,
            match_data_send: self.match_data_send,
            notifications: self.notifications,
            rpc: self.rpc,
            status: self.status,
            status_follow: self.status_follow,
            status_presence_event: self.status_presence_event,
            status_unfollow: self.status_unfollow,
            status_update: self.status_update,
            stream_presence_event: self.stream_presence_event,
            stream_data: self.stream_data,
            party: self.party,
            party_create: self.party_create,
            party_join: self.party_join,
            party_leave: self.party_leave,
            party_promote: self.party_promote,
            party_leader: self.party_leader,
            party_accept: self.party_accept,
            party_remove: self.party_remove,
            party_close: None,
            party_join_request_list: None,
            party_join_request: None,
            party_matchmaker_add: None,
            party_matchmaker_remove: None,
            party_matchmaker_ticket: None,
            party_data: None,
            party_data_send: None,
            party_presence_event: None,
        }
    }

    /// This frame with `party_remove` and the fields behind it unset.
    pub open spec fn upto_38(self) -> EnvelopeView {
        EnvelopeView {
            cid: self.cid,
            channel: self.channel,
            channel_join: self.channel_join,
            channel_leave: self.channel_leave,
            channel_message: self.channel_message,
            channel_message_ack: self.channel_message_ack,
            channel_message_remove: self.channel_message_remove,
            channel_message_send: self.channel_message_send,
            channel_message_update: self.channel_message_update,
            channel_presence_event: self.channel_presence_event,
            error: self.error,
            matchmaker_add: self.matchmaker_add,
            matchmaker_matched: self.matchmaker_matched,
            matchmaker_remove: self.matchmaker_remove,
            matchmaker_ticket: self.matchmaker_ticket,
            new_match: self.new_match,
            match_create: self.match_create,
            match_join: self.match_join,
            match_leave: self.match_leave,
            match_presence_event: self.match_presence_event,
            match_data: self.match_data,
            match_data_send: self.match_data_send,
            notifications: self.notifications,
            rpc: self.rpc,
            status: self.status,
            status_follow: self.status_follow,
            status_presence_event: self.status_presence_event,
            status_unfollow: self.status_unfollow,
            status_update: self.status_update,
            stream_presence_event: self.stream_presence_event,
            stream_data: self.stream_data,
            party: self.party,
            party_create: self.party_create,
            party_join: self.party_join,
            party_leave: self.party_leave,
            party_promote: self.party_promote,
            party_leader: self.party_leader,
            party_accept: self.party_accept,
            party_remove: None,
            party_close: None,
            party_join_request_list: None,
            party_join_request: None,
            party_matchmaker_add: None,
            party_matchmaker_remove: None,
            party_matchmaker_ticket: None,
            party_data: None,
            party_data_send: None,
            party_presence_event: None,
        }
    }

    /// This frame with `party_accept` and the fields behind it unset.
    pub open spec fn upto_37(self) -> EnvelopeView {
        EnvelopeView {
            cid: self.cid,
            channel: self.channel,
            channel_join: self.channel_join,
            channel_leave: self.channel_leave,
            channel_message: self.channel_message,
            channel_message_ack: self.channel_message_ack,
            channel_message_remove: self.channel_message_remove,
            channel_message_send: self.channel_message_send,
            channel_message_update: self.channel_message_update,
            channel_presence_event: self.channel_presence_event,
            error: self.error,
            matchmaker_add: self.matchmaker_add,
            matchmaker_matched: self.matchmaker_matched,
            matchmaker_remove: self.matchmaker_remove,
            matchmaker_ticket: self.matchmaker_ticket,
            new_match: self.new_match,
            match_create: self.match_create,
            match_join: self.match_join,
            match_leave: self.match_leave,
            match_presence_event: self.match_presence_event,
            match_data: self.match_data,
            match_data_send: self.match_data_send,
            notifications: self.notifications,
            rpc: self.rpc,
            status: self.status,
            status_follow: self.status_follow,
            status_presence_event: self.status_presence_event,
            status_unfollow: self.status_unfollow,
            status_update: self.status_update,
            stream_presence_event: self.stream_presence_event,
            stream_data: self.stream_data,
            party: self.party,
            party_create: self.party_create,
            party_join: self.party_join,
            party_leave: self.party_leave,
            party_promote: self.party_promote,
            party_leader: self.party_leader,
            party_accept: None,
            party_remove: None,
            party_close: None,
            party_join_request_list: None,
            party_join_request: None,
            party_matchmaker_add: None,
            party_matchmaker_remove: None,
            party_matchmaker_ticket: None,
            party_data: None,
            party_data_send: None,
            party_presence_event: None,
        }
    }

    /// This frame with `party_leader` and the fields behind it unset.
    pub open spec fn upto_36(self) -> EnvelopeView {
        EnvelopeView {
            cid: self.cid,
            channel: self.channel,
            channel_join: self.channel_join,
            channel_leave: self.channel_leave,
            channel_message: self.channel_message,
            channel_message_ack: self.channel_message_ack,
            channel_message_remove: self.channel_message_remove,
            channel_message_send: self.channel_message_send,
            channel_message_update: self.channel_message_update,
            channel_presence_event: self.channel_presence_event,
            error: self.error,
            matchmaker_add: self.matchmaker_add,
            matchmaker_matched: self.matchmaker_matched,
            matchmaker_remove: self.matchmaker_remove,
            matchmaker_ticket: self.matchmaker_ticket,
            new_match: self.new_match,
            match_create: self.match_create,
            match_join: self.match_join,
            match_leave: self.match_leave,
            match_presence_event: self.match_presence_event,
            match_data: self.match_data,
            match_data_send: self.match_data_send,
            notifications: self.notifications,
            rpc: self.rpc,
            status: self.status,
            status_follow: self.status_follow,
            status_presence_event: self.status_presence_event,
            status_unfollow: self.status_unfollow,
            status_update: self.status_update,
            stream_presence_event: self.stream_presence_event,
            stream_data: self.stream_data,
            party: self.party,
            party_create: self.party_create,
            party_join: self.party_join,
            party_leave: self.party_leave,
            party_promote: self.party_promote,
            party_leader: None,
            party_accept: None,
            party_remove: None,
            party_close: None,
            party_join_request_list: None,
            party_join_request: None,
            party_matchmaker_add: None,
            party_matchmaker_remove: None,
            party_matchmaker_ticket: None,
            party_data: None,
            party_data_send: None,
            party_presence_event: None,
        }
    }

    /// This frame with `party_promote` and the fields behind it unset.
    pub open spec fn upto_35(self) -> EnvelopeView {
        EnvelopeView {
            cid: self.cid,
            channel: self.channel,
            channel_join: self.channel_join,
            channel_leave: self.channel_leave,
            channel_message: self.channel_message,
            channel_message_ack: self.channel_message_ack,
            channel_message_remove: self.channel_message_remove,
            channel_message_send: self.channel_message_send,
            channel_message_update: self.channel_message_update,
            channel_presence_event: self.channel_presence_event,
            error: self.error,
            matchmaker_add: self.matchmaker_add,
            matchmaker_matched: self.matchmaker_matched,
            matchmaker_remove: self.matchmaker_remove,
            matchmaker_ticket: self.matchmaker_ticket,
            new_match: self.new_match,
            match_create: self.match_create,
            match_join: self.match_join,
            match_leave: self.match_leave,
            match_presence_event: self.match_presence_event,
            match_data: self.match_data,
            match_data_send: self.match_data_send,
            notifications: self.notifications,
            rpc: self.rpc,
            status: self.status,
            status_follow: self.status_follow,
            status_presence_event: self.status_presence_event,
            status_unfollow: self.status_unfollow,
            status_update: self.status_update,
            stream_presence_event: self.stream_presence_event,
            stream_data: self.stream_data,
            party: self.party,
            party_create: self.party_create,
            party_join: self.party_join,
            party_leave: self.party_leave,
            party_promote: None,
            party_leader: None,
            party_accept: None,
            party_remove: None,
            party_close: None,
            party_join_request_list: None,
            party_join_request: None,
            party_matchmaker_add: None,
            party_matchmaker_remove: None,
            party_matchmaker_ticket: None,
            party_data: None,
            party_data_send: None,
            party_presence_event: None,
        }
    }

    /// This frame with `party_leave` and the fields behind it unset.
    pub open spec fn upto_34(self) -> EnvelopeView {
        EnvelopeView {
            cid: self.cid,
            channel: self.channel,
            channel_join: self.channel_join,
            channel_leave: self.channel_leave,
            channel_message: self.channel_message,
            channel_message_ack: self.channel_message_ack,
            channel_message_remove: self.channel_message_remove,
            channel_message_send: self.channel_message_send,
            channel_message_update: self.channel_message_update,
            channel_presence_event: self.channel_presence_event,
            error: self.error,
            matchmaker_add: self.matchmaker_add,
            matchmaker_matched: self.matchmaker_matched,
            matchmaker_remove: self.matchmaker_remove,
            matchmaker_ticket: self.matchmaker_ticket,
            new_match: self.new_match,
            match_create: self.match_create,
            match_join: self.match_join,
            match_leave: self.match_leave,
            match_presence_event: self.match_presence_event,
            match_data: self.match_data,
            match_data_send: self.match_data_send,
            notifications: self.notifications,
            rpc: self.rpc,
            status: self.status,
            status_follow: self.status_follow,
            status_presence_event: self.status_presence_event,
            status_unfollow: self.status_unfollow,
            status_update: self.status_update,
            stream_presence_event: self.stream_presence_event,
            stream_data: self.stream_data,
            party: self.party,
            party_create: self.party_create,
            party_join: self.party_join,
            party_leave: None,
            party_promote: None,
            party_leader: None,
            party_accept: None,
            party_remove: None,
            party_close: None,
            party_join_request_list: None,
            party_join_request: None,
            party_matchmaker_add: None,
            party_matchmaker_remove: None,
            party_matchmaker_ticket: None,
            party_data: None,
            party_data_send: None,
            party_presence_event: None,
        }
    }

    /// This frame with `party_join` and the fields behind it unset.
    pub open spec fn upto_33(self) -> EnvelopeView {
        EnvelopeView {
            cid: self.cid,
            channel: self.channel,
            channel_join: self.channel_join,
            channel_leave: self.channel_leave,
            channel_message: self.channel_message,
            channel_message_ack: self.channel_message_ack,
            channel_message_remove: self.channel_message_remove,
            channel_message_send: self.channel_message_send,
            channel_message_update: self.channel_message_update,
            channel_presence_event: self.channel_presence_event,
            error: self.error,
            matchmaker_add: self.matchmaker_add,
            matchmaker_matched: self.matchmaker_matched,
            matchmaker_remove: self.matchmaker_remove,
            matchmaker_ticket: self.matchmaker_ticket,
            new_match: self.new_match,
            match_create: self.match_create,
            match_join: self.match_join,
            match_leave: self.match_leave,
            match_presence_event: self.match_presence_event,
            match_data: self.match_data,
            match_data_send: self.match_data_send,
            notifications: self.notifications,
            rpc: self.rpc,
            status: self.status,
            status_follow: self.status_follow,
            status_presence_event: self.status_presence_event,
            status_unfollow: self.status_unfollow,
            status_update: self.status_update,
            stream_presence_event: self.stream_presence_event,
            stream_data: self.stream_data,
            party: self.party,
            party_create: self.party_create,
            party_join: None,
            party_leave: None,
            party_promote: None,
            party_leader: None,
            party_accept: None,
            party_remove: None,
            party_close: None,
            party_join_request_list: None,
            party_join_request: None,
            party_matchmaker_add: None,
            party_matchmaker_remove: None,
            party_matchmaker_ticket: None,
            party_data: None,
            party_data_send: None,
            party_presence_event: None,
        }
    }

    /// This frame with `party_create` and the fields behind it unset.
    pub open spec fn upto_32(self) -> EnvelopeView {
        EnvelopeView {
            cid: self.cid,
            channel: self.channel,
            channel_join: self.channel_join,
            channel_leave: self.channel_leave,
            channel_message: self.channel_message,
            channel_message_ack: self.channel_message_ack,
            channel_message_remove: self.channel_message_remove,
            channel_message_send: self.channel_message_send,
            channel_message_update: self.channel_message_update,
            channel_presence_event: self.channel_presence_event,
            error: self.error,
            matchmaker_add: self.matchmaker_add,
            matchmaker_matched: self.matchmaker_matched,
            matchmaker_remove: self.matchmaker_remove,
            matchmaker_ticket: self.matchmaker_ticket,
            new_match: self.new_match,
            match_create: self.match_create,
            match_join: self.match_join,
            match_leave: self.match_leave,
            match_presence_event: self.match_presence_event,
            match_data: self.match_data,
            match_data_send: self.match_data_send,
            notifications: self.notifications,
            rpc: self.rpc,
            status: self.status,
            status_follow: self.status_follow,
            status_presence_event: self.status_presence_event,
            status_unfollow: self.status_unfollow,
            status_update: self.status_update,
            stream_presence_event: self.stream_presence_event,
            stream_data: self.stream_data,
            party: self.party,
            party_create: None,
            party_join: None,
            party_leave: None,
            party_promote: None,
            party_leader: None,
            party_accept: None,
            party_remove: None,
            party_close: None,
            party_join_request_list: None,
            party_join_request: None,
            party_matchmaker_add: None,
            party_matchmaker_remove: None,
            party_matchmaker_ticket: None,
            party_data: None,
            party_data_send: None,
            party_presence_event: None,
        }
    }

    /// This frame with `party` and the fields behind it unset.
    pub open spec fn upto_31(self) -> EnvelopeView {
        EnvelopeView {
            cid: self.cid,
            channel: self.channel,
            channel_join: self.channel_join,
            channel_leave: self.channel_leave,
            channel_message: self.channel_message,
            channel_message_ack: self.channel_message_ack,
            channel_message_remove: self.channel_message_remove,
            channel_message_send: self.channel_message_send,
            channel_message_update: self.channel_message_update,
            channel_presence_event: self.channel_presence_event,
            error: self.error,
            matchmaker_add: self.matchmaker_add,
            matchmaker_matched: self.matchmaker_matched,
            matchmaker_remove: self.matchmaker_remove,
            matchmaker_ticket: self.matchmaker_ticket,
            new_match: self.new_match,
            match_create: self.match_create,
            match_join: self.match_join,
            match_leave: self.match_leave,
            match_presence_event: self.match_presence_event,
            match_data: self.match_data,
            match_data_send: self.match_data_send,
            notifications: self.notifications,
            rpc: self.rpc,
            status: self.status,
            status_follow: self.status_follow,
            status_presence_event: self.status_presence_event,
            status_unfollow: self.status_unfollow,
            status_update: self.status_update,
            stream_presence_event: self.stream_presence_event,
            stream_data: self.stream_data,
            party: None,
            party_create: None,
            party_join: None,
            party_leave: None,
            party_promote: None,
            party_leader: None,
            party_accept: None,
            party_remove: None,
            party_close: None,
            party_join_request_list: None,
            party_join_request: None,
            party_matchmaker_add: None,
            party_matchmaker_remove: None,
            party_matchmaker_ticket: None,
            party_data: None,
            party_data_send: None,
            party_presence_event: None,
        }
    }

    /// This frame with `stream_data` and the fields behind it unset.
    pub open spec fn upto_30(self) -> EnvelopeView {
        EnvelopeView {
            cid: self.cid,
            channel: self.channel,
            channel_join: self.channel_join,
            channel_leave: self.channel_leave,
            channel_message: self.channel_message,
            channel_message_ack: self.channel_message_ack,
            channel_message_remove: self.channel_message_remove,
            channel_message_send: self.channel_message_send,
            channel_message_update: self.channel_message_update,
            channel_presence_event: self.channel_presence_event,
            error: self.error,
            matchmaker_add: self.matchmaker_add,
            matchmaker_matched: self.matchmaker_matched,
            matchmaker_remove: self.matchmaker_remove,
            matchmaker_ticket: self.matchmaker_ticket,
            new_match: self.new_match,
            match_create: self.match_create,
            match_join: self.match_join,
            match_leave: self.match_leave,
            match_presence_event: self.match_presence_event,
            match_data: self.match_data,
            match_data_send: self.match_data_send,
            notifications: self.notifications,
            rpc: self.rpc,
            status: self.status,
            status_follow: self.status_follow,
            status_presence_event: self.status_presence_event,
            status_unfollow: self.status_unfollow,
            status_update: self.status_update,
            stream_presence_event: self.stream_presence_event,
            stream_data: None,
            party: None,
            party_create: None,
            party_join: None,
            party_leave: None,
            party_promote: None,
            party_leader: None,
            party_accept: None,
            party_remove: None,
            party_close: None,
            party_join_request_list: None,
            party_join_request: None,
            party_matchmaker_add: None,
            party_matchmaker_remove: None,
            party_matchmaker_ticket: None,
            party_data: None,
            party_data_send: None,
            party_presence_event: None,
        }
    }

    /// This frame with `stream_presence_event` and the fields behind it unset.
    pub open spec fn upto_29(self) -> EnvelopeView {
        EnvelopeView {
            cid: self.cid,
            channel: self.channel,
            channel_join: self.channel_join,
            channel_leave: self.channel_leave,
            channel_message: self.channel_message,
            channel_message_ack: self.channel_message_ack,
            channel_message_remove: self.channel_message_remove,
            channel_message_send: self.channel_message_send,
            channel_message_update: self.channel_message_update,
            channel_presence_event: self.channel_presence_event,
            error: self.error,
            matchmaker_add: self.matchmaker_add,
            matchmaker_matched: self.matchmaker_matched,
            matchmaker_remove: self.matchmaker_remove,
            matchmaker_ticket: self.matchmaker_ticket,
            new_match: self.new_match,
            match_create: self.match_create,
            match_join: self.match_join,
            match_leave: self.match_leave,
            match_presence_event: self.match_presence_event,
            match_data: self.match_data,
            match_data_send: self.match_data_send,
            notifications: self.notifications,
            rpc: self.rpc,
            status: self.status,
            status_follow: self.status_follow,
            status_presence_event: self.status_presence_event,
            status_unfollow: self.status_unfollow,
            status_update: self.status_update,
            stream_presence_event: None,
            stream_data: None,
            party: None,
            party_create: None,
            party_join: None,
            party_leave: None,
            party_promote: None,
            party_leader: None,
            party_accept: None,
            party_remove: None,
            party_close: None,
            party_join_request_list: None,
            party_join_request: None,
            party_matchmaker_add: None,
            party_matchmaker_remove: None,
            party_matchmaker_ticket: None,
            party_data: None,
            party_data_send: None,
            party_presence_event: None,
        }
    }

    /// This frame with `status_update` and the fields behind it unset.
    pub open spec fn upto_28(self) -> EnvelopeView {
        EnvelopeView {
            cid: self.cid,
            channel: self.channel,
            channel_join: self.channel_join,
            channel_leave: self.channel_leave,
            channel_message: self.channel_message,
            channel_message_ack: self.channel_message_ack,
            channel_message_remove: self.channel_message_remove,
            channel_message_send: self.channel_message_send,
            channel_message_update: self.channel_message_update,
            channel_presence_event: self.channel_presence_event,
            error: self.error,
            matchmaker_add: self.matchmaker_add,
            matchmaker_matched: self.matchmaker_matched,
            matchmaker_remove: self.matchmaker_remove,
            matchmaker_ticket: self.matchmaker_ticket,
            new_match: self.new_match,
            match_create: self.match_create,
            match_join: self.match_join,
            match_leave: self.match_leave,
            match_presence_event: self.match_presence_event,
            match_data: self.match_data,
            match_data_send: self.match_data_send,
            notifications: self.notifications,
            rpc: self.rpc,
            status: self.status,
            status_follow: self.status_follow,
            status_presence_event: self.status_presence_event,
            status_unfollow: self.status_unfollow,
            status_update: None,
            stream_presence_event: None,
            stream_data: None,
            party: None,
            party_create: None,
            party_join: None,
            party_leave: None,
            party_promote: None,
            party_leader: None,
            party_accept: None,
            party_remove: None,
            party_close: None,
            party_join_request_list: None,
            party_join_request: None,
            party_matchmaker_add: None,
            party_matchmaker_remove: None,
            party_matchmaker_ticket: None,
            party_data: None,
            party_data_send: None,
            party_presence_event: None,
        }
    }

    /// This frame with `status_unfollow` and the fields behind it unset.
    pub open spec fn upto_27(self) -> EnvelopeView {
        EnvelopeView {
            cid: self.cid,
            channel: self.channel,
            channel_join: self.channel_join,
            channel_leave: self.channel_leave,
            channel_message: self.channel_message,
            channel_message_ack: self.channel_message_ack,
            channel_message_remove: self.channel_message_remove,
            channel_message_send: self.channel_message_send,
            channel_message_update: self.channel_message_update,
            channel_presence_event: self.channel_presence_event,
            error: self.error,
            matchmaker_add: self.matchmaker_add,
            matchmaker_matched: self.matchmaker_matched,
            matchmaker_remove: self.matchmaker_remove,
            matchmaker_ticket: self.matchmaker_ticket,
            new_match: self.new_match,
            match_create: self.match_create,
            match_join: self.match_join,
            match_leave: self.match_leave,
            match_presence_event: self.match_presence_event,
            match_data: self.match_data,
            match_data_send: self.match_data_send,
            notifications: self.notifications,
            rpc: self.rpc,
            status: self.status,
            status_follow: self.status_follow,
            status_presence_event: self.status_presence_event,
            status_unfollow: None,
            status_update: None,
            stream_presence_event: None,
            stream_data: None,
            party: None,
            party_create: None,
            party_join: None,
            party_leave: None,
            party_promote: None,
            party_leader: None,
            party_accept: None,
            party_remove: None,
            party_close: None,
            party_join_request_list: None,
            party_join_request: None,
            party_matchmaker_add: None,
            party_matchmaker_remove: None,
            party_matchmaker_ticket: None,
            party_data: None,
            party_data_send: None,
            party_presence_event: None,
        }
    }

    /// This frame with `status_presence_event` and the fields behind it unset.
    pub open spec fn upto_26(self) -> EnvelopeView {
        EnvelopeView {
            cid: self.cid,
            channel: self.channel,
            channel_join: self.channel_join,
            channel_leave: self.channel_leave,
            channel_message: self.channel_message,
            channel_message_ack: self.channel_message_ack,
            channel_message_remove: self.channel_message_remove,
            channel_message_send: self.channel_message_send,
            channel_message_update: self.channel_message_update,
            channel_presence_event: self.channel_presence_event,
            error: self.error,
            matchmaker_add: self.matchmaker_add,
            matchmaker_matched: self.matchmaker_matched,
            matchmaker_remove: self.matchmaker_remove,
            matchmaker_ticket: self.matchmaker_ticket,
            new_match: self.new_match,
            match_create: self.match_create,
            match_join: self.match_join,
            match_leave: self.match_leave,
            match_presence_event: self.match_presence_event,
            match_data: self.match_data,
            match_data_send: self.match_data_send,
            notifications: self.notifications,
            rpc: self.rpc,
            status: self.status,
            status_follow: self.status_follow,
            status_presence_event: None,
            status_unfollow: None,
            status_update: None,
            stream_presence_event: None,
            stream_data: None,
            party: None,
            party_create: None,
            party_join: None,
            party_leave: None,
            party_promote: None,
            party_leader: None,
            party_accept: None,
            party_remove: None,
            party_close: None,
            party_join_request_list: None,
            party_join_request: None,
            party_matchmaker_add: None,
            party_matchmaker_remove: None,
            party_matchmaker_ticket: None,
            party_data: None,
            party_data_send: None,
            party_presence_event: None,
        }
    }

    /// This frame with `status_follow` and the fields behind it unset.
    pub open spec fn upto_25(self) -> EnvelopeView {
        EnvelopeView {
            cid: self.cid,
            channel: self.channel,
            channel_join: self.channel_join,
            channel_leave: self.channel_leave,
            channel_message: self.channel_message,
            channel_message_ack: self.channel_message_ack,
            channel_message_remove: self.channel_message_remove,
            channel_message_send: self.channel_message_send,
            channel_message_update: self.channel_message_update,
            channel_presence_event: self.channel_presence_event,
            error: self.error,
            matchmaker_add: self.matchmaker_add,
            matchmaker_matched: self.matchmaker_matched,
            matchmaker_remove: self.matchmaker_remove,
            matchmaker_ticket: self.matchmaker_ticket,
            new_match: self.new_match,
            match_create: self.match_create,
            match_join: self.match_join,
            match_leave: self.match_leave,
            match_presence_event: self.match_presence_event,
            match_data: self.match_data,
            match_data_send: self.match_data_send,
            notifications: self.notifications,
            rpc: self.rpc,
            status: self.status,
            status_follow: None,
            status_presence_event: None,
            status_unfollow: None,
            status_update: None,
            stream_presence_event: None,
            stream_data: None,
            party: None,
            party_create: None,
            party_join: None,
            party_leave: None,
            party_promote: None,
            party_leader: None,
            party_accept: None,
            party_remove: None,
            party_close: None,
            party_join_request_list: None,
            party_join_request: None,
            party_matchmaker_add: None,
            party_matchmaker_remove: None,
            party_matchmaker_ticket: None,
            party_data: None,
            party_data_send: None,
            party_presence_event: None,
        }
    }

    /// This frame with `status` and the fields behind it unset.
    pub open spec fn upto_24(self) -> EnvelopeView {
        EnvelopeView {
            cid: self.cid,
            channel: self.channel,
            channel_join: self.channel_join,
            channel_leave: self.channel_leave,
            channel_message: self.channel_message,
            channel_message_ack: self.channel_message_ack,
            channel_message_remove: self.channel_message_remove,
            channel_message_send: self.channel_message_send,
            channel_message_update: self.channel_message_update,
            channel_presence_event: self.channel_presence_event,
            error: self.error,
            matchmaker_add: self.matchmaker_add,
            matchmaker_matched: self.matchmaker_matched,
            matchmaker_remove: self.matchmaker_remove,
            matchmaker_ticket: self.matchmaker_ticket,
            new_match: self.new_match,
            match_create: self.match_create,
            match_join: self.match_join,
            match_leave: self.match_leave,
            match_presence_event: self.match_presence_event,
            match_data: self.match_data,
            match_data_send: self.match_data_send,
            notifications: self.notifications,
            rpc: self.rpc,
            status: None,
            status_follow: None,
            status_presence_event: None,
            status_unfollow: None,
            status_update: None,
            stream_presence_event: None,
            stream_data: None,
            party: None,
            party_create: None,
            party_join: None,
            party_leave: None,
            party_promote: None,
            party_leader: None,
            party_accept: None,
            party_remove: None,
            party_close: None,
            party_join_request_list: None,
            party_join_request: None,
            party_matchmaker_add: None,
            party_matchmaker_remove: None,
            party_matchmaker_ticket: None,
            party_data: None,
            party_data_send: None,
            party_presence_event: None,
        }
    }

    /// This frame with `rpc` and the fields behind it unset.
    pub open spec fn upto_23(self) -> EnvelopeView {
        EnvelopeView {
            cid: self.cid,
            channel: self.channel,
            channel_join: self.channel_join,
            channel_leave: self.channel_leave,
            channel_message: self.channel_message,
            channel_message_ack: self.channel_message_ack,
            channel_message_remove: self.channel_message_remove,
            channel_message_send: self.channel_message_send,
            channel_message_update: self.channel_message_update,
            channel_presence_event: self.channel_presence_event,
            error: self.error,
            matchmaker_add: self.matchmaker_add,
            matchmaker_matched: self.matchmaker_matched,
            matchmaker_remove: self.matchmaker_remove,
            matchmaker_ticket: self.matchmaker_ticket,
            new_match: self.new_match,
            match_create: self.match_create,
            match_join: self.match_join,
            match_leave: self.match_leave,
            match_presence_event: self.match_presence_event,
            match_data: self.match_data,
            match_data_send: self.match_data_send,
            notifications: self.notifications,
            rpc: None,
            status: None,
            status_follow: None,
            status_presence_event: None,
            status_unfollow: None,
            status_update: None,
            stream_presence_event: None,
            stream_data: None,
            party: None,
            party_create: None,
            party_join: None,
            party_leave: None,
            party_promote: None,
            party_leader: None,
            party_accept: None,
            party_remove: None,
            party_close: None,
            party_join_request_list: None,
            party_join_request: None,
            party_matchmaker_add: None,
            party_matchmaker_remove: None,
            party_matchmaker_ticket: None,
            party_data: None,
            party_data_send: None,
            party_presence_event: None,
        }
    }

    /// This frame with `notifications` and the fields behind it unset.
    pub open spec fn upto_22(self) -> EnvelopeView {
        EnvelopeView {
            cid: self.cid,
            channel: self.channel,
            channel_join: self.channel_join,
            channel_leave: self.channel_leave,
            channel_message: self.channel_message,
            channel_message_ack: self.channel_message_ack,
            channel_message_remove: self.channel_message_remove,
            channel_message_send: self.channel_message_send,
            channel_message_update: self.channel_message_update,
            channel_presence_event: self.channel_presence_event,
            error: self.error,
            matchmaker_add: self.matchmaker_add,
            matchmaker_matched: self.matchmaker_matched,
            matchmaker_remove: self.matchmaker_remove,
            matchmaker_ticket: self.matchmaker_ticket,
            new_match: self.new_match,
            match_create: self.match_create,
            match_join: self.match_join,
            match_leave: self.match_leave,
            match_presence_event: self.match_presence_event,
            match_data: self.match_data,
            match_data_send: self.match_data_send,
            notifications: None,
            rpc: None,
            status: None,
            status_follow: None,
            status_presence_event: None,
            status_unfollow: None,
            status_update: None,
            stream_presence_event: None,
            stream_data: None,
            party: None,
            party_create: None,
            party_join: None,
            party_leave: None,
            party_promote: None,
            party_leader: None,
            party_accept: None,
            party_remove: None,
            party_close: None,
            party_join_request_list: None,
            party_join_request: None,
            party_matchmaker_add: None,
            party_matchmaker_remove: None,
            party_matchmaker_ticket: None,
            party_data: None,
            party_data_send: None,
            party_presence_event: None,
        }
    }

    /// This frame with `match_data_send` and the fields behind it unset.
    pub open spec fn upto_21(self) -> EnvelopeView {
        EnvelopeView {
            cid: self.cid,
            channel: self.channel,
            channel_join: self.channel_join,
            channel_leave: self.channel_leave,
            channel_message: self.channel_message,
            channel_message_ack: self.channel_message_ack,
            channel_message_remove: self.channel_message_remove,
            channel_message_send: self.channel_message_send,
            channel_message_update: self.channel_message_update,
            channel_presence_event: self.channel_presence_event,
            error: self.error,
            matchmaker_add: self.matchmaker_add,
            matchmaker_matched: self.matchmaker_matched,
            matchmaker_remove: self.matchmaker_remove,
            matchmaker_ticket: self.matchmaker_ticket,
            new_match: self.new_match,
            match_create: self.match_create,
            match_join: self.match_join,
            match_leave: self.match_leave,
            match_presence_event: self.match_presence_event,
            match_data: self.match_data,
            match_data_send: None,
            notifications: None,
            rpc: None,
            status: None,
            status_follow: None,
            status_presence_event: None,
            status_unfollow: None,
            status_update: None,
            stream_presence_event: None,
            stream_data: None,
            party: None,
            party_create: None,
            party_join: None,
            party_leave: None,
            party_promote: None,
            party_leader: None,
            party_accept: None,
            party_remove: None,
            party_close: None,
            party_join_request_list: None,
            party_join_request: None,
            party_matchmaker_add: None,
            party_matchmaker_remove: None,
            party_matchmaker_ticket: None,
            party_data: None,
            party_data_send: None,
            party_presence_event: None,
        }
    }

    /// This frame with `match_data` and the fields behind it unset.
    pub open spec fn upto_20(self) -> EnvelopeView {
        EnvelopeView {
            cid: self.cid,
            channel: self.channel,
            channel_join: self.channel_join,
            channel_leave: self.channel_leave,
            channel_message: self.channel_message,
            channel_message_ack: self.channel_message_ack,
            channel_message_remove: self.channel_message_remove,
            channel_message_send: self.channel_message_send,
            channel_message_update: self.channel_message_update,
            channel_presence_event: self.channel_presence_event,
            error: self.error,
            matchmaker_add: self.matchmaker_add,
            matchmaker_matched: self.matchmaker_matched,
            matchmaker_remove: self.matchmaker_remove,
            matchmaker_ticket: self.matchmaker_ticket,
            new_match: self.new_match,
            match_create: self.match_create,
            match_join: self.match_join,
            match_leave: self.match_leave,
            match_presence_event: self.match_presence_event,
            match_data: None,
            match_data_send: None,
            notifications: None,
            rpc: None,
            status: None,
            status_follow: None,
            status_presence_event: None,
            status_unfollow: None,
            status_update: None,
            stream_presence_event: None,
            stream_data: None,
            party: None,
            party_create: None,
            party_join: None,
            party_leave: None,
            party_promote: None,
            party_leader: None,
            party_accept: None,
            party_remove: None,
            party_close: None,
            party_join_request_list: None,
            party_join_request: None,
            party_matchmaker_add: None,
            party_matchmaker_remove: None,
            party_matchmaker_ticket: None,
            party_data: None,
            party_data_send: None,
            party_presence_event: None,
        }
    }

    /// This frame with `match_presence_event` and the fields behind it unset.
    pub open spec fn upto_19(self) -> EnvelopeView {
        EnvelopeView {
            cid: self.cid,
            channel: self.channel,
            channel_join: self.channel_join,
            channel_leave: self.channel_leave,
            channel_message: self.channel_message,
            channel_message_ack: self.channel_message_ack,
            channel_message_remove: self.channel_message_remove,
            channel_message_send: self.channel_message_send,
            channel_message_update: self.channel_message_update,
            channel_presence_event: self.channel_presence_event,
            error: self.error,
            matchmaker_add: self.matchmaker_add,
            matchmaker_matched: self.matchmaker_matched,
            matchmaker_remove: self.matchmaker_remove,
            matchmaker_ticket: self.matchmaker_ticket,
            new_match: self.new_match,
            match_create: self.match_create,
            match_join: self.match_join,
            match_leave: self.match_leave,
            match_presence_event: None,
            match_data: None,
            match_data_send: None,
            notifications: None,
            rpc: None,
            status: None,
            status_follow: None,
            status_presence_event: None,
            status_unfollow: None,
            status_update: None,
            stream_presence_event: None,
            stream_data: None,
            party: None,
            party_create: None,
            party_join: None,
            party_leave: None,
            party_promote: None,
            party_leader: None,
            party_accept: None,
            party_remove: None,
            party_close: None,
            party_join_request_list: None,
            party_join_request: None,
            party_matchmaker_add: None,
            party_matchmaker_remove: None,
            party_matchmaker_ticket: None,
            party_data: None,
            party_data_send: None,
            party_presence_event: None,
        }
    }

    /// This frame with `match_leave` and the fields behind it unset.
    pub open spec fn upto_18(self) -> EnvelopeView {
        EnvelopeView {
            cid: self.cid,
            channel: self.channel,
            channel_join: self.channel_join,
            channel_leave: self.channel_leave,
            channel_message: self.channel_message,
            channel_message_ack: self.channel_message_ack,
            channel_message_remove: self.channel_message_remove,
            channel_message_send: self.channel_message_send,
            channel_message_update: self.channel_message_update,
            channel_presence_event: self.channel_presence_event,
            error: self.error,
            matchmaker_add: self.matchmaker_add,
            matchmaker_matched: self.matchmaker_matched,
            matchmaker_remove: self.matchmaker_remove,
            matchmaker_ticket: self.matchmaker_ticket,
            new_match: self.new_match,
            match_create: self.match_create,
            match_join: self.match_join,
            match_leave: None,
            match_presence_event: None,
            match_data: None,
            match_data_send: None,
            notifications: None,
            rpc: None,
            status: None,
            status_follow: None,
            status_presence_event: None,
            status_unfollow: None,
            status_update: None,
            stream_presence_event: None,
            stream_data: None,
            party: None,
            party_create: None,
            party_join: None,
            party_leave: None,
            party_promote: None,
            party_leader: None,
            party_accept: None,
            party_remove: None,
            party_close: None,
            party_join_request_list: None,
            party_join_request: None,
            party_matchmaker_add: None,
            party_matchmaker_remove: None,
            party_matchmaker_ticket: None,
            party_data: None,
            party_data_send: None,
            party_presence_event: None,
        }
    }

    /// This frame with `match_join` and the fields behind it unset.
    pub open spec fn upto_17(self) -> EnvelopeView {
        EnvelopeView {
            cid: self.cid,
            channel: self.channel,
            channel_join: self.channel_join,
            channel_leave: self.channel_leave,
            channel_message: self.channel_message,
            channel_message_ack: self.channel_message_ack,
            channel_message_remove: self.channel_message_remove,
            channel_message_send: self.channel_message_send,
            channel_message_update: self.channel_message_update,
            channel_presence_event: self.channel_presence_event,
            error: self.error,
            matchmaker_add: self.matchmaker_add,
            matchmaker_matched: self.matchmaker_matched,
            matchmaker_remove: self.matchmaker_remove,
            matchmaker_ticket: self.matchmaker_ticket,
            new_match: self.new_match,
            match_create: self.match_create,
            match_join: None,
            match_leave: None,
            match_presence_event: None,
            match_data: None,
            match_data_send: None,
            notifications: None,
            rpc: None,
            status: None,
            status_follow: None,
            status_presence_event: None,
            status_unfollow: None,
            status_update: None,
            stream_presence_event: None,
            stream_data: None,
            party: None,
            party_create: None,
            party_join: None,
            party_leave: None,
            party_promote: None,
            party_leader: None,
            party_accept: None,
            party_remove: None,
            party_close: None,
            party_join_request_list: None,
            party_join_request: None,
            party_matchmaker_add: None,
            party_matchmaker_remove: None,
            party_matchmaker_ticket: None,
            party_data: None,
            party_data_send: None,
            party_presence_event: None,
        }
    }

    /// This frame with `match_create` and the fields behind it unset.
    pub open spec fn upto_16(self) -> EnvelopeView {
        EnvelopeView {
            cid: self.cid,
            channel: self.channel,
            channel_join: self.channel_join,
            channel_leave: self.channel_leave,
            channel_message: self.channel_message,
            channel_message_ack: self.channel_message_ack,
            channel_message_remove: self.channel_message_remove,
            channel_message_send: self.channel_message_send,
            channel_message_update: self.channel_message_update,
            channel_presence_event: self.channel_presence_event,
            error: self.error,
            matchmaker_add: self.matchmaker_add,
            matchmaker_matched: self.matchmaker_matched,
            matchmaker_remove: self.matchmaker_remove,
            matchmaker_ticket: self.matchmaker_ticket,
            new_match: self.new_match,
            match_create: None,
            match_join: None,
            match_leave: None,
            match_presence_event: None,
            match_data: None,
            match_data_send: None,
            notifications: None,
            rpc: None,
            status: None,
            status_follow: None,
            status_presence_event: None,
            status_unfollow: None,
            status_update: None,
            stream_presence_event: None,
            stream_data: None,
            party: None,
            party_create: None,
            party_join: None,
            party_leave: None,
            party_promote: None,
            party_leader: None,
            party_accept: None,
            party_remove: None,
            party_close: None,
            party_join_request_list: None,
            party_join_request: None,
            party_matchmaker_add: None,
            party_matchmaker_remove: None,
            party_matchmaker_ticket: None,
            party_data: None,
            party_data_send: None,
            party_presence_event: None,
        }
    }

    /// This frame with `match` and the fields behind it unset.
    pub open spec fn upto_15(self) -> EnvelopeView {
        EnvelopeView {
            cid: self.cid,
            channel: self.channel,
            channel_join: self.channel_join,
            channel_leave: self.channel_leave,
            channel_message: self.channel_message,
            channel_message_ack: self.channel_message_ack,
            channel_message_remove: self.channel_message_remove,
            channel_message_send: self.channel_message_send,
            channel_message_update: self.channel_message_update,
            channel_presence_event: self.channel_presence_event,
            error: self.error,
            matchmaker_add: self.matchmaker_add,
            matchmaker_matched: self.matchmaker_matched,
            matchmaker_remove: self.matchmaker_remove,
            matchmaker_ticket: self.matchmaker_ticket,
            new_match: None,
            match_create: None,
            match_join: None,
            match_leave: None,
            match_presence_event: None,
            match_data: None,
            match_data_send: None,
            notifications: None,
            rpc: None,
            status: None,
            status_follow: None,
            status_presence_event: None,
            status_unfollow: None,
            status_update: None,
            stream_presence_event: None,
            stream_data: None,
            party: None,
            party_create: None,
            party_join: None,
            party_leave: None,
            party_promote: None,
            party_leader: None,
            party_accept: None,
            party_remove: None,
            party_close: None,
            party_join_request_list: None,
            party_join_request: None,
            party_matchmaker_add: None,
            party_matchmaker_remove: None,
            party_matchmaker_ticket: None,
            party_data: None,
            party_data_send: None,
            party_presence_event: None,
        }
    }

    /// This frame with `matchmaker_ticket` and the fields behind it unset.
    pub open spec fn upto_14(self) -> EnvelopeView {
        EnvelopeView {
            cid: self.cid,
            channel: self.channel,
            channel_join: self.channel_join,
            channel_leave: self.channel_leave,
            channel_message: self.channel_message,
            channel_message_ack: self.channel_message_ack,
            channel_message_remove: self.channel_message_remove,
            channel_message_send: self.channel_message_send,
            channel_message_update: self.channel_message_update,
            channel_presence_event: self.channel_presence_event,
            error: self.error,
            matchmaker_add: self.matchmaker_add,
            matchmaker_matched: self.matchmaker_matched,
            matchmaker_remove: self.matchmaker_remove,
            matchmaker_ticket: None,
            new_match: None,
            match_create: None,
            match_join: None,
            match_leave: None,
            match_presence_event: None,
            match_data: None,
            match_data_send: None,
            notifications: None,
            rpc: None,
            status: None,
            status_follow: None,
            status_presence_event: None,
            status_unfollow: None,
            status_update: None,
            stream_presence_event: None,
            stream_data: None,
            party: None,
            party_create: None,
            party_join: None,
            party_leave: None,
            party_promote: None,
            party_leader: None,
            party_accept: None,
            party_remove: None,
            party_close: None,
            party_join_request_list: None,
            party_join_request: None,
            party_matchmaker_add: None,
            party_matchmaker_remove: None,
            party_matchmaker_ticket: None,
            party_data: None,
            party_data_send: None,
            party_presence_event: None,
        }
    }

    /// This frame with `matchmaker_remove` and the fields behind it unset.
    pub open spec fn upto_13(self) -> EnvelopeView {
        EnvelopeView {
            cid: self.cid,
            channel: self.channel,
            channel_join: self.channel_join,
            channel_leave: self.channel_leave,
            channel_message: self.channel_message,
            channel_message_ack: self.channel_message_ack,
            channel_message_remove: self.channel_message_remove,
            channel_message_send: self.channel_message_send,
            channel_message_update: self.channel_message_update,
            channel_presence_event: self.channel_presence_event,
            error: self.error,
            matchmaker_add: self.matchmaker_add,
            matchmaker_matched: self.matchmaker_matched,
            matchmaker_remove: None,
            matchmaker_ticket: None,
            new_match: None,
            match_create: None,
            match_join: None,
            match_leave: None,
            match_presence_event: None,
            match_data: None,
            match_data_send: None,
            notifications: None,
            rpc: None,
            status: None,
            status_follow: None,
            status_presence_event: None,
            status_unfollow: None,
            status_update: None,
            stream_presence_event: None,
            stream_data: None,
            party: None,
            party_create: None,
            party_join: None,
            party_leave: None,
            party_promote: None,
            party_leader: None,
            party_accept: None,
            party_remove: None,
            party_close: None,
            party_join_request_list: None,
            party_join_request: None,
            party_matchmaker_add: None,
            party_matchmaker_remove: None,
            party_matchmaker_ticket: None,
            party_data: None,
            party_data_send: None,
            party_presence_event: None,
        }
    }

    /// This frame with `matchmaker_matched` and the fields behind it unset.
    pub open spec fn upto_12(self) -> EnvelopeView {
        EnvelopeView {
            cid: self.cid,
            channel: self.channel,
            channel_join: self.channel_join,
            channel_leave: self.channel_leave,
            channel_message: self.channel_message,
            channel_message_ack: self.channel_message_ack,
            channel_message_remove: self.channel_message_remove,
            channel_message_send: self.channel_message_send,
            channel_message_update: self.channel_message_update,
            channel_presence_event: self.channel_presence_event,
            error: self.error,
            matchmaker_add: self.matchmaker_add,
            matchmaker_matched: None,
            matchmaker_remove: None,
            matchmaker_ticket: None,
            new_match: None,
            match_create: None,
            match_join: None,
            match_leave: None,
            match_presence_event: None,
            match_data: None,
            match_data_send: None,
            notifications: None,
            rpc: None,
            status: None,
            status_follow: None,
            status_presence_event: None,
            status_unfollow: None,
            status_update: None,
            stream_presence_event: None,
            stream_data: None,
            party: None,
            party_create: None,
            party_join: None,
            party_leave: None,
            party_promote: None,
            party_leader: None,
            party_accept: None,
            party_remove: None,
            party_close: None,
            party_join_request_list: None,
            party_join_request: None,
            party_matchmaker_add: None,
            party_matchmaker_remove: None,
            party_matchmaker_ticket: None,
            party_data: None,
            party_data_send: None,
            party_presence_event: None,
        }
    }

    /// This frame with `matchmaker_add` and the fields behind it unset.
    pub open spec fn upto_11(self) -> EnvelopeView {
        EnvelopeView {
            cid: self.cid,
            channel: self.channel,
            channel_join: self.channel_join,
            channel_leave: self.channel_leave,
            channel_message: self.channel_message,
            channel_message_ack: self.channel_message_ack,
            channel_message_remove: self.channel_message_remove,
            channel_message_send: self.channel_message_send,
            channel_message_update: self.channel_message_update,
            channel_presence_event: self.channel_presence_event,
            error: self.error,
            matchmaker_add: None,
            matchmaker_matched: None,
            matchmaker_remove: None,
            matchmaker_ticket: None,
            new_match: None,
            match_create: None,
            match_join: None,
            match_leave: None,
            match_presence_event: None,
            match_data: None,
            match_data_send: None,
            notifications: None,
            rpc: None,
            status: None,
            status_follow: None,
            status_presence_event: None,
            status_unfollow: None,
            status_update: None,
            stream_presence_event: None,
            stream_data: None,
            party: None,
            party_create: None,
            party_join: None,
            party_leave: None,
            party_promote: None,
            party_leader: None,
            party_accept: None,
            party_remove: None,
            party_close: None,
            party_join_request_list: None,
            party_join_request: None,
            party_matchmaker_add: None,
            party_matchmaker_remove: None,
            party_matchmaker_ticket: None,
            party_data: None,
            party_data_send: None,
            party_presence_event: None,
        }
    }

    /// This frame with `error` and the fields behind it unset.
    pub open spec fn upto_10(self) -> EnvelopeView {
        EnvelopeView {
            cid: self.cid,
            channel: self.channel,
            channel_join: self.channel_join,
            channel_leave: self.channel_leave,
            channel_message: self.channel_message,
            channel_message_ack: self.channel_message_ack,
            channel_message_remove: self.channel_message_remove,
            channel_message_send: self.channel_message_send,
            channel_message_update: self.channel_message_update,
            channel_presence_event: self.channel_presence_event,
            error: None,
            matchmaker_add: None,
            matchmaker_matched: None,
            matchmaker_remove: None,
            matchmaker_ticket: None,
            new_match: None,
            match_create: None,
            match_join: None,
            match_leave: None,
            match_presence_event: None,
            match_data: None,
            match_data_send: None,
            notifications: None,
            rpc: None,
            status: None,
            status_follow: None,
            status_presence_event: None,
            status_unfollow: None,
            status_update: None,
            stream_presence_event: None,
            stream_data: None,
            party: None,
            party_create: None,
            party_join: None,
            party_leave: None,
            party_promote: None,
            party_leader: None,
            party_accept: None,
            party_remove: None,
            party_close: None,
            party_join_request_list: None,
            party_join_request: None,
            party_matchmaker_add: None,
            party_matchmaker_remove: None,
            party_matchmaker_ticket: None,
            party_data: None,
            party_data_send: None,
            party_presence_event: None,
        }
    }

    /// This frame with `channel_presence_event` and the fields behind it unset.
    pub open spec fn upto_9(self) -> EnvelopeView {
        EnvelopeView {
            cid: self.cid,
            channel: self.channel,
            channel_join: self.channel_join,
            channel_leave: self.channel_leave,
            channel_message: self.channel_message,
            channel_message_ack: self.channel_message_ack,
            channel_message_remove: self.channel_message_remove,
            channel_message_send: self.channel_message_send,
            channel_message_update: self.channel_message_update,
            channel_presence_event: None,
            error: None,
            matchmaker_add: None,
            matchmaker_matched: None,
            matchmaker_remove: None,
            matchmaker_ticket: None,
            new_match: None,
            match_create: None,
            match_join: None,
            match_leave: None,
            match_presence_event: None,
            match_data: None,
            match_data_send: None,
            notifications: None,
            rpc: None,
            status: None,
            status_follow: None,
            status_presence_event: None,
            status_unfollow: None,
            status_update: None,
            stream_presence_event: None,
            stream_data: None,
            party: None,
            party_create: None,
            party_join: None,
            party_leave: None,
            party_promote: None,
            party_leader: None,
            party_accept: None,
            party_remove: None,
            party_close: None,
            party_join_request_list: None,
            party_join_request: None,
            party_matchmaker_add: None,
            party_matchmaker_remove: None,
            party_matchmaker_ticket: None,
            party_data: None,
            party_data_send: None,
            party_presence_event: None,
        }
    }

    /// This frame with `channel_message_update` and the fields behind it unset.
    pub open spec fn upto_8(self) -> EnvelopeView {
        EnvelopeView {
            cid: self.cid,
            channel: self.channel,
            channel_join: self.channel_join,
            channel_leave: self.channel_leave,
            channel_message: self.channel_message,
            channel_message_ack: self.channel_message_ack,
            channel_message_remove: self.channel_message_remove,
            channel_message_send: self.channel_message_send,
            channel_message_update: None,
            channel_presence_event: None,
            error: None,
            matchmaker_add: None,
            matchmaker_matched: None,
            matchmaker_remove: None,
            matchmaker_ticket: None,
            new_match: None,
            match_create: None,
            match_join: None,
            match_leave: None,
            match_presence_event: None,
            match_data: None,
            match_data_send: None,
            notifications: None,
            rpc: None,
            status: None,
            status_follow: None,
            status_presence_event: None,
            status_unfollow: None,
            status_update: None,
            stream_presence_event: None,
            stream_data: None,
            party: None,
            party_create: None,
            party_join: None,
            party_leave: None,
            party_promote: None,
            party_leader: None,
            party_accept: None,
            party_remove: None,
            party_close: None,
            party_join_request_list: None,
            party_join_request: None,
            party_matchmaker_add: None,
            party_matchmaker_remove: None,
            party_matchmaker_ticket: None,
            party_data: None,
            party_data_send: None,
            party_presence_event: None,
        }
    }

    /// This frame with `channel_message_send` and the fields behind it unset.
    pub open spec fn upto_7(self) -> EnvelopeView {
        EnvelopeView {
            cid: self.cid,
            channel: self.channel,
            channel_join: self.channel_join,
            channel_leave: self.channel_leave,
            channel_message: self.channel_message,
            channel_message_ack: self.channel_message_ack,
            channel_message_remove: self.channel_message_remove,
            channel_message_send: None,
            channel_message_update: None,
            channel_presence_event: None,
            error: None,
            matchmaker_add: None,
            matchmaker_matched: None,
            matchmaker_remove: None,
            matchmaker_ticket: None,
            new_match: None,
            match_create: None,
            match_join: None,
            match_leave: None,
            match_presence_event: None,
            match_data: None,
            match_data_send: None,
            notifications: None,
            rpc: None,
            status: None,
            status_follow: None,
            status_presence_event: None,
            status_unfollow: None,
            status_update: None,
            stream_presence_event: None,
            stream_data: None,
            party: None,
            party_create: None,
            party_join: None,
            party_leave: None,
            party_promote: None,
            party_leader: None,
            party_accept: None,
            party_remove: None,
            party_close: None,
            party_join_request_list: None,
            party_join_request: None,
            party_matchmaker_add: None,
            party_matchmaker_remove: None,
            party_matchmaker_ticket: None,
            party_data: None,
            party_data_send: None,
            party_presence_event: None,
        }
    }

    /// This frame with `channel_message_remove` and the fields behind it unset.
    pub open spec fn upto_6(self) -> EnvelopeView {
        EnvelopeView {
            cid: self.cid,
            channel: self.channel,
            channel_join: self.channel_join,
            channel_leave: self.channel_leave,
            channel_message: self.channel_message,
            channel_message_ack: self.channel_message_ack,
            channel_message_remove: None,
            channel_message_send: None,
            channel_message_update: None,
            channel_presence_event: None,
            error: None,
            matchmaker_add: None,
            matchmaker_matched: None,
            matchmaker_remove: None,
            matchmaker_ticket: None,
            new_match: None,
            match_create: None,
            match_join: None,
            match_leave: None,
            match_presence_event: None,
            match_data: None,
            match_data_send: None,
            notifications: None,
            rpc: None,
            status: None,
            status_follow: None,
            status_presence_event: None,
            status_unfollow: None,
            status_update: None,
            stream_presence_event: None,
            stream_data: None,
            party: None,
            party_create: None,
            party_join: None,
            party_leave: None,
            party_promote: None,
            party_leader: None,
            party_accept: None,
            party_remove: None,
            party_close: None,
            party_join_request_list: None,
            party_join_request: None,
            party_matchmaker_add: None,
            party_matchmaker_remove: None,
            party_matchmaker_ticket: None,
            party_data: None,
            party_data_send: None,
            party_presence_event: None,
        }
    }

    /// This frame with `channel_message_ack` and the fields behind it unset.
    pub open spec fn upto_5(self) -> EnvelopeView {
        EnvelopeView {
            cid: self.cid,
            channel: self.channel,
            channel_join: self.channel_join,
            channel_leave: self.channel_leave,
            channel_message: self.channel_message,
            channel_message_ack: None,
            channel_message_remove: None,
            channel_message_send: None,
            channel_message_update: None,
            channel_presence_event: None,
            error: None,
            matchmaker_add: None,
            matchmaker_matched: None,
            matchmaker_remove: None,
            matchmaker_ticket: None,
            new_match: None,
            match_create: None,
            match_join: None,
            match_leave: None,
            match_presence_event: None,
            match_data: None,
            match_data_send: None,
            notifications: None,
            rpc: None,
            status: None,
            status_follow: None,
            status_presence_event: None,
            status_unfollow: None,
            status_update: None,
            stream_presence_event: None,
            stream_data: None,
            party: None,
            party_create: None,
            party_join: None,
            party_leave: None,
            party_promote: None,
            party_leader: None,
            party_accept: None,
            party_remove: None,
            party_close: None,
            party_join_request_list: None,
            party_join_request: None,
            party_matchmaker_add: None,
            party_matchmaker_remove: None,
            party_matchmaker_ticket: None,
            party_data: None,
            party_data_send: None,
            party_presence_event: None,
        }
    }

    /// This frame with `channel_message` and the fields behind it unset.
    pub open spec fn upto_4(self) -> EnvelopeView {
        EnvelopeView {
            cid: self.cid,
            channel: self.channel,
            channel_join: self.channel_join,
            channel_leave: self.channel_leave,
            channel_message: None,
            channel_message_ack: None,
            channel_message_remove: None,
            channel_message_send: None,
            channel_message_update: None,
            channel_presence_event: None,
            error: None,
            matchmaker_add: None,
            matchmaker_matched: None,
            matchmaker_remove: None,
            matchmaker_ticket: None,
            new_match: None,
            match_create: None,
            match_join: None,
            match_leave: None,
            match_presence_event: None,
            match_data: None,
            match_data_send: None,
            notifications: None,
            rpc: None,
            status: None,
            status_follow: None,
            status_presence_event: None,
            status_unfollow: None,
            status_update: None,
            stream_presence_event: None,
            stream_data: None,
            party: None,
            party_create: None,
            party_join: None,
            party_leave: None,
            party_promote: None,
            party_leader: None,
            party_accept: None,
            party_remove: None,
            party_close: None,
            party_join_request_list: None,
            party_join_request: None,
            party_matchmaker_add: None,
            party_matchmaker_remove: None,
            party_matchmaker_ticket: None,
            party_data: None,
            party_data_send: None,
            party_presence_event: None,
        }
    }

    /// This frame with `channel_leave` and the fields behind it unset.
    pub open spec fn upto_3(self) -> EnvelopeView {
        EnvelopeView {
            cid: self.cid,
            channel: self.channel,
            channel_join: self.channel_join,
            channel_leave: None,
            channel_message: None,
            channel_message_ack: None,
            channel_message_remove: None,
            channel_message_send: None,
            channel_message_update: None,
            channel_presence_event: None,
            error: None,
            matchmaker_add: None,
            matchmaker_matched: None,
            matchmaker_remove: None,
            matchmaker_ticket: None,
            new_match: None,
            match_create: None,
            match_join: None,
            match_leave: None,
            match_presence_event: None,
            match_data: None,
            match_data_send: None,
            notifications: None,
            rpc: None,
            status: None,
            status_follow: None,
            status_presence_event: None,
            status_unfollow: None,
            status_update: None,
            stream_presence_event: None,
            stream_data: None,
            party: None,
            party_create: None,
            party_join: None,
            party_leave: None,
            party_promote: None,
            party_leader: None,
            party_accept: None,
            party_remove: None,
            party_close: None,
            party_join_request_list: None,
            party_join_request: None,
            party_matchmaker_add: None,
            party_matchmaker_remove: None,
            party_matchmaker_ticket: None,
            party_data: None,
            party_data_send: None,
            party_presence_event: None,
        }
    }

    /// This frame with `channel_join` and the fields behind it unset.
    pub open spec fn upto_2(self) -> EnvelopeView {
        EnvelopeView {
            cid: self.cid,
            channel: self.channel,
            channel_join: None,
            channel_leave: None,
            channel_message: None,
            channel_message_ack: None,
            channel_message_remove: None,
            channel_message_send: None,
            channel_message_update: None,
            channel_presence_event: None,
            error: None,
            matchmaker_add: None,
            matchmaker_matched: None,
            matchmaker_remove: None,
            matchmaker_ticket: None,
            new_match: None,
            match_create: None,
            match_join: None,
            match_leave: None,
            match_presence_event: None,
            match_data: None,
            match_data_send: None,
            notifications: None,
            rpc: None,
            status: None,
            status_follow: None,
            status_presence_event: None,
            status_unfollow: None,
            status_update: None,
            stream_presence_event: None,
            stream_data: None,
            party: None,
            party_create: None,
            party_join: None,
            party_leave: None,
            party_promote: None,
            party_leader: None,
            party_accept: None,
            party_remove: None,
            party_close: None,
            party_join_request_list: None,
            party_join_request: None,
            party_matchmaker_add: None,
            party_matchmaker_remove: None,
            party_matchmaker_ticket: None,
            party_data: None,
            party_data_send: None,
            party_presence_event: None,
        }
    }

    /// This frame with `channel` and the fields behind it unset.
    pub open spec fn upto_1(self) -> EnvelopeView {
        EnvelopeView {
            cid: self.cid,
            channel: None,
            channel_join: None,
            channel_leave: None,
            channel_message: None,
            channel_message_ack: None,
            channel_message_remove: None,
            channel_message_send: None,
            channel_message_update: None,
            channel_presence_event: None,
            error: None,
            matchmaker_add: None,
            matchmaker_matched: None,
            matchmaker_remove: None,
            matchmaker_ticket: None,
            new_match: None,
            match_create: None,
            match_join: None,
            match_leave: None,
            match_presence_event: None,
            match_data: None,
            match_data_send: None,
            notifications: None,
            rpc: None,
            status: None,
            status_follow: None,
            status_presence_event: None,
            status_unfollow: None,
            status_update: None,
            stream_presence_event: None,
            stream_data: None,
            party: None,
            party_create: None,
            party_join: None,
            party_leave: None,
            party_promote: None,
            party_leader: None,
            party_accept: None,
            party_remove: None,
            party_close: None,
            party_join_request_list: None,
            party_join_request: None,
            party_matchmaker_add: None,
            party_matchmaker_remove: None,
            party_matchmaker_ticket: None,
            party_data: None,
            party_data_send: None,
            party_presence_event: None,
        }
    }

    /// This frame with `cid` and the fields behind it unset.
    pub open spec fn upto_0(self) -> EnvelopeView {
        EnvelopeView {
            cid: None,
            channel: None,
            channel_join: None,
            channel_leave: None,
            channel_message: None,
            channel_message_ack: None,
            channel_message_remove: None,
            channel_message_send: None,
            channel_message_update: None,
            channel_presence_event: None,
            error: None,
            matchmaker_add: None,
            matchmaker_matched: None,
            matchmaker_remove: None,
            matchmaker_ticket: None,
            new_match: None,
            match_create: None,
            match_join: None,
            match_leave: None,
            match_presence_event: None,
            match_data: None,
            match_data_send: None,
            notifications: None,
            rpc: None,
            status: None,
            status_follow: None,
            status_presence_event: None,
            status_unfollow: None,
            status_update: None,
            stream_presence_event: None,
            stream_data: None,
            party: None,
            party_create: None,
            party_join: None,
            party_leave: None,
            party_promote: None,
            party_leader: None,
            party_accept: None,
            party_remove: None,
            party_close: None,
            party_join_request_list: None,
            party_join_request: None,
            party_matchmaker_add: None,
            party_matchmaker_remove: None,
            party_matchmaker_ticket: None,
            party_data: None,
            party_data_send: None,
            party_presence_event: None,
        }
    }

    /// What the fields before the first one are read as.
    pub open spec fn read_0(members: Seq<MemberValue>) -> Option<EnvelopeView> {
        Some(EnvelopeView::blank())
    }

    /// What the fields up to `cid` are read as.
    pub open spec fn read_1(members: Seq<MemberValue>) -> Option<EnvelopeView> {
        match EnvelopeView::read_0(members) {
            Some(before) => match opt_text(members, "cid"@) {
                Some(cid) => Some(EnvelopeView { cid, ..before }),
                None => None,
            },
            None => None,
        }
    }

    /// What the fields up to `channel` are read as.
    pub open spec fn read_2(members: Seq<MemberValue>) -> Option<EnvelopeView> {
        match EnvelopeView::read_1(members) {
            Some(before) => match opt_record(members, "channel"@, ChannelView::reader()) {
                Some(channel) => Some(EnvelopeView { channel, ..before }),
                None => None,
            },
            None => None,
        }
    }

    /// What the fields up to `channel_join` are read as.
    pub open spec fn read_3(members: Seq<MemberValue>) -> Option<EnvelopeView> {
        match EnvelopeView::read_2(members) {
            Some(before) => match opt_record(members, "channel_join"@, ChannelJoinView::reader()) {
                Some(channel_join) => Some(EnvelopeView { channel_join, ..before }),
                None => None,
            },
            None => None,
        }
    }

    /// What the fields up to `channel_leave` are read as.
    pub open spec fn read_4(members: Seq<MemberValue>) -> Option<EnvelopeView> {
        match EnvelopeView::read_3(members) {
            Some(before) => match opt_record(members, "channel_leave"@, ChannelLeaveView::reader()) {
                Some(channel_leave) => Some(EnvelopeView { channel_leave, ..before }),
                None => None,
            },
            None => None,
        }
    }

    /// What the fields up to `channel_message` are read as.
    pub open spec fn read_5(members: Seq<MemberValue>) -> Option<EnvelopeView> {
        match EnvelopeView::read_4(members) {
            Some(before) => match opt_record(members, "channel_message"@, ApiChannelMessageView::reader()) {
                Some(channel_message) => Some(EnvelopeView { channel_message, ..before }),
                None => None,
            },
            None => None,
        }
    }

    /// What the fields up to `channel_message_ack` are read as.
    pub open spec fn read_6(members: Seq<MemberValue>) -> Option<EnvelopeView> {
        match EnvelopeView::read_5(members) {
            Some(before) => match opt_record(members, "channel_message_ack"@, ChannelMessageAckView::reader()) {
                Some(channel_message_ack) => Some(EnvelopeView { channel_message_ack, ..before }),
                None => None,
            },
            None => None,
        }
    }

    /// What the fields up to `channel_message_remove` are read as.
    pub open spec fn read_7(members: Seq<MemberValue>) -> Option<EnvelopeView> {
        match EnvelopeView::read_6(members) {
            Some(before) => match opt_record(members, "channel_message_remove"@, ChannelMesageRemoveView::reader()) {
                Some(channel_message_remove) => Some(EnvelopeView { channel_message_remove, ..before }),
                None => None,
            },
            None => None,
        }
    }

    /// What the fields up to `channel_message_send` are read as.
    pub open spec fn read_8(members: Seq<MemberValue>) -> Option<EnvelopeView> {
        match EnvelopeView::read_7(members) {
            Some(before) => match opt_record(members, "channel_message_send"@, ChannelMessageSendView::reader()) {
                Some(channel_message_send) => Some(EnvelopeView { channel_message_send, ..before }),
                None => None,
            },
            None => None,
        }
    }

    /// What the fields up to `channel_message_update` are read as.
    pub open spec fn read_9(members: Seq<MemberValue>) -> Option<EnvelopeView> {
        match EnvelopeView::read_8(members) {
            Some(before) => match opt_record(members, "channel_message_update"@, ChannelMesageUpdateView::reader()) {
                Some(channel_message_update) => Some(EnvelopeView { channel_message_update, ..before }),
                None => None,
            },
            None => None,
        }
    }

    /// What the fields up to `channel_presence_event` are read as.
    pub open spec fn read_10(members: Seq<MemberValue>) -> Option<EnvelopeView> {
        match EnvelopeView::read_9(members) {
            Some(before) => match opt_record(members, "channel_presence_event"@, ChannelPresenceEventView::reader()) {
                Some(channel_presence_event) => Some(EnvelopeView { channel_presence_event, ..before }),
                None => None,
            },
            None => None,
        }
    }

    /// What the fields up to `error` are read as.
    pub open spec fn read_11(members: Seq<MemberValue>) -> Option<EnvelopeView> {
        match EnvelopeView::read_10(members) {
            Some(before) => match opt_record(members, "error"@, ErrorView::reader()) {
                Some(error) => Some(EnvelopeView { error, ..before }),
                None => None,
            },
            None => None,
        }
    }

    /// What the fields up to `matchmaker_add` are read as.
    pub open spec fn read_12(members: Seq<MemberValue>) -> Option<EnvelopeView> {
        match EnvelopeView::read_11(members) {
            Some(before) => match opt_record(members, "matchmaker_add"@, MatchmakerAddView::reader()) {
                Some(matchmaker_add) => Some(EnvelopeView { matchmaker_add, ..before }),
                None => None,
            },
            None => None,
        }
    }

    /// What the fields up to `matchmaker_matched` are read as.
    pub open spec fn read_13(members: Seq<MemberValue>) -> Option<EnvelopeView> {
        match EnvelopeView::read_12(members) {
            Some(before) => match opt_record(members, "matchmaker_matched"@, MatchmakerMatchedView::reader()) {
                Some(matchmaker_matched) => Some(EnvelopeView { matchmaker_matched, ..before }),
                None => None,
            },
            None => None,
        }
    }

    /// What the fields up to `matchmaker_remove` are read as.
    pub open spec fn read_14(members: Seq<MemberValue>) -> Option<EnvelopeView> {
        match EnvelopeView::read_13(members) {
            Some(before) => match opt_record(members, "matchmaker_remove"@, MatchmakerRemoveView::reader()) {
                Some(matchmaker_remove) => Some(EnvelopeView { matchmaker_remove, ..before }),
                None => None,
            },
            None => None,
        }
    }

    /// What the fields up to `matchmaker_ticket` are read as.
    pub open spec fn read_15(members: Seq<MemberValue>) -> Option<EnvelopeView> {
        match EnvelopeView::read_14(members) {
            Some(before) => match opt_record(members, "matchmaker_ticket"@, MatchmakerTicketView::reader()) {
                Some(matchmaker_ticket) => Some(EnvelopeView { matchmaker_ticket, ..before }),
                None => None,
            },
            None => None,
        }
    }

    /// What the fields up to `match` are read as.
    pub open spec fn read_16(members: Seq<MemberValue>) -> Option<EnvelopeView> {
        match EnvelopeView::read_15(members) {
            Some(before) => match opt_record(members, "match"@, MatchView::reader()) {
                Some(new_match) => Some(EnvelopeView { new_match, ..before }),
                None => None,
            },
            None => None,
        }
    }

    /// What the fields up to `match_create` are read as.
    pub open spec fn read_17(members: Seq<MemberValue>) -> Option<EnvelopeView> {
        match EnvelopeView::read_16(members) {
            Some(before) => match opt_record(members, "match_create"@, MatchCreateView::reader()) {
                Some(match_create) => Some(EnvelopeView { match_create, ..before }),
                None => None,
            },
            None => None,
        }
    }

    /// What the fields up to `match_join` are read as.
    pub open spec fn read_18(members: Seq<MemberValue>) -> Option<EnvelopeView> {
        match EnvelopeView::read_17(members) {
            Some(before) => match opt_record(members, "match_join"@, MatchJoinView::reader()) {
                Some(match_join) => Some(EnvelopeView { match_join, ..before }),
                None => None,
            },
            None => None,
        }
    }

    /// What the fields up to `match_leave` are read as.
    pub open spec fn read_19(members: Seq<MemberValue>) -> Option<EnvelopeView> {
        match EnvelopeView::read_18(members) {
            Some(before) => match opt_record(members, "match_leave"@, MatchLeaveView::reader()) {
                Some(match_leave) => Some(EnvelopeView { match_leave, ..before }),
                None => None,
            },
            None => None,
        }
    }

    /// What the fields up to `match_presence_event` are read as.
    pub open spec fn read_20(members: Seq<MemberValue>) -> Option<EnvelopeView> {
        match EnvelopeView::read_19(members) {
            Some(before) => match opt_record(members, "match_presence_event"@, MatchPresenceEventView::reader()) {
                Some(match_presence_event) => Some(EnvelopeView { match_presence_event, ..before }),
                None => None,
            },
            None => None,
        }
    }

    /// What the fields up to `match_data` are read as.
    pub open spec fn read_21(members: Seq<MemberValue>) -> Option<EnvelopeView> {
        match EnvelopeView::read_20(members) {
            Some(before) => match opt_record(members, "match_data"@, MatchDataView::reader()) {
                Some(match_data) => Some(EnvelopeView { match_data, ..before }),
                None => None,
            },
            None => None,
        }
    }

    /// What the fields up to `match_data_send` are read as.
    pub open spec fn read_22(members: Seq<MemberValue>) -> Option<EnvelopeView> {
        match EnvelopeView::read_21(members) {
            Some(before) => match opt_record(members, "match_data_send"@, MatchDataSendView::reader()) {
                Some(match_data_send) => Some(EnvelopeView { match_data_send, ..before }),
                None => None,
            },
            None => None,
        }
    }

    /// What the fields up to `notifications` are read as.
    pub open spec fn read_23(members: Seq<MemberValue>) -> Option<EnvelopeView> {
        match EnvelopeView::read_22(members) {
            Some(before) => match opt_record(members, "notifications"@, ApiNotificationListView::reader()) {
                Some(notifications) => Some(EnvelopeView { notifications, ..before }),
                None => None,
            },
            None => None,
        }
    }

    /// What the fields up to `rpc` are read as.
    pub open spec fn read_24(members: Seq<MemberValue>) -> Option<EnvelopeView> {
        match EnvelopeView::read_23(members) {
            Some(before) => match opt_record(members, "rpc"@, ApiRpcView::reader()) {
                Some(rpc) => Some(EnvelopeView { rpc, ..before }),
                None => None,
            },
            None => None,
        }
    }

    /// What the fields up to `status` are read as.
    pub open spec fn read_25(members: Seq<MemberValue>) -> Option<EnvelopeView> {
        match EnvelopeView::read_24(members) {
            Some(before) => match opt_record(members, "status"@, StatusView::reader()) {
                Some(status) => Some(EnvelopeView { status, ..before }),
                None => None,
            },
            None => None,
        }
    }

    /// What the fields up to `status_follow` are read as.
    pub open spec fn read_26(members: Seq<MemberValue>) -> Option<EnvelopeView> {
        match EnvelopeView::read_25(members) {
            Some(before) => match opt_record(members, "status_follow"@, StatusFollowView::reader()) {
                Some(status_follow) => Some(EnvelopeView { status_follow, ..before }),
                None => None,
            },
            None => None,
        }
    }

    /// What the fields up to `status_presence_event` are read as.
    pub open spec fn read_27(members: Seq<MemberValue>) -> Option<EnvelopeView> {
        match EnvelopeView::read_26(members) {
            Some(before) => match opt_record(members, "status_presence_event"@, StatusPresenceEventView::reader()) {
                Some(status_presence_event) => Some(EnvelopeView { status_presence_event, ..before }),
                None => None,
            },
            None => None,
        }
    }

    /// What the fields up to `status_unfollow` are read as.
    pub open spec fn read_28(members: Seq<MemberValue>) -> Option<EnvelopeView> {
        match EnvelopeView::read_27(members) {
            Some(before) => match opt_record(members, "status_unfollow"@, StatusUnfollowView::reader()) {
                Some(status_unfollow) => Some(EnvelopeView { status_unfollow, ..before }),
                None => None,
            },
            None => None,
        }
    }

    /// What the fields up to `status_update` are read as.
    pub open spec fn read_29(members: Seq<MemberValue>) -> Option<EnvelopeView> {
        match EnvelopeView::read_28(members) {
            Some(before) => match opt_record(members, "status_update"@, StatusUpdateView::reader()) {
                Some(status_update) => Some(EnvelopeView { status_update, ..before }),
                None => None,
            },
            None => None,
        }
    }

    /// What the fields up to `stream_presence_event` are read as.
    pub open spec fn read_30(members: Seq<MemberValue>) -> Option<EnvelopeView> {
        match EnvelopeView::read_29(members) {
            Some(before) => match opt_record(members, "stream_presence_event"@, StreamPresenceEventView::reader()) {
                Some(stream_presence_event) => Some(EnvelopeView { stream_presence_event, ..before }),
                None => None,
            },
            None => None,
        }
    }

    /// What the fields up to `stream_data` are read as.
    pub open spec fn read_31(members: Seq<MemberValue>) -> Option<EnvelopeView> {
        match EnvelopeView::read_30(members) {
            Some(before) => match opt_record(members, "stream_data"@, StreamDataView::reader()) {
                Some(stream_data) => Some(EnvelopeView { stream_data, ..before }),
                None => None,
            },
            None => None,
        }
    }

    /// What the fields up to `party` are read as.
    pub open spec fn read_32(members: Seq<MemberValue>) -> Option<EnvelopeView> {
        match EnvelopeView::read_31(members) {
            Some(before) => match opt_record(members, "party"@, PartyView::reader()) {
                Some(party) => Some(EnvelopeView { party, ..before }),
                None => None,
            },
            None => None,
        }
    }

    /// What the fields up to `party_create` are read as.
    pub open spec fn read_33(members: Seq<MemberValue>) -> Option<EnvelopeView> {
        match EnvelopeView::read_32(members) {
            Some(before) => match opt_record(members, "party_create"@, PartyCreateView::reader()) {
                Some(party_create) => Some(EnvelopeView { party_create, ..before }),
                None => None,
            },
            None => None,
        }
    }

    /// What the fields up to `party_join` are read as.
    pub open spec fn read_34(members: Seq<MemberValue>) -> Option<EnvelopeView> {
        match EnvelopeView::read_33(members) {
            Some(before) => match opt_record(members, "party_join"@, PartyJoinView::reader()) {
                Some(party_join) => Some(EnvelopeView { party_join, ..before }),
                None => None,
            },
            None => None,
        }
    }

    /// What the fields up to `party_leave` are read as.
    pub open spec fn read_35(members: Seq<MemberValue>) -> Option<EnvelopeView> {
        match EnvelopeView::read_34(members) {
            Some(before) => match opt_record(members, "party_leave"@, PartyLeaveView::reader()) {
                Some(party_leave) => Some(EnvelopeView { party_leave, ..before }),
                None => None,
            },
            None => None,
        }
    }

    /// What the fields up to `party_promote` are read as.
    pub open spec fn read_36(members: Seq<MemberValue>) -> Option<EnvelopeView> {
        match EnvelopeView::read_35(members) {
            Some(before) => match opt_record(members, "party_promote"@, PartyPromoteView::reader()) {
                Some(party_promote) => Some(EnvelopeView { party_promote, ..before }),
                None => None,
            },
            None => None,
        }
    }

    /// What the fields up to `party_leader` are read as.
    pub open spec fn read_37(members: Seq<MemberValue>) -> Option<EnvelopeView> {
        match EnvelopeView::read_36(members) {
            Some(before) => match opt_record(members, "party_leader"@, PartyLeaderView::reader()) {
                Some(party_leader) => Some(EnvelopeView { party_leader, ..before }),
                None => None,
            },
            None => None,
        }
    }

    /// What the fields up to `party_accept` are read as.
    pub open spec fn read_38(members: Seq<MemberValue>) -> Option<EnvelopeView> {
        match EnvelopeView::read_37(members) {
            Some(before) => match opt_record(members, "party_accept"@, PartyAcceptView::reader()) {
                Some(party_accept) => Some(EnvelopeView { party_accept, ..before }),
                None => None,
            },
            None => None,
        }
    }

    /// What the fields up to `party_remove` are read as.
    pub open spec fn read_39(members: Seq<MemberValue>) -> Option<EnvelopeView> {
        match EnvelopeView::read_38(members) {
            Some(before) => match opt_record(members, "party_remove"@, PartyRemoveView::reader()) {
                Some(party_remove) => Some(EnvelopeView { party_remove, ..before }),
                None => None,
            },
            None => None,
        }
    }

    /// What the fields up to `party_close` are read as.
    pub open spec fn read_40(members: Seq<MemberValue>) -> Option<EnvelopeView> {
        match EnvelopeView::read_39(members) {
            Some(before) => match opt_record(members, "party_close"@, PartyCloseView::reader()) {
                Some(party_close) => Some(EnvelopeView { party_close, ..before }),
                None => None,
            },
            None => None,
        }
    }

    /// What the fields up to `party_join_request_list` are read as.
    pub open spec fn read_41(members: Seq<MemberValue>) -> Option<EnvelopeView> {
        match EnvelopeView::read_40(members) {
            Some(before) => match opt_record(members, "party_join_request_list"@, PartyJoinRequestListView::reader()) {
                Some(party_join_request_list) => Some(EnvelopeView { party_join_request_list, ..before }),
                None => None,
            },
            None => None,
        }
    }

    /// What the fields up to `party_join_request` are read as.
    pub open spec fn read_42(members: Seq<MemberValue>) -> Option<EnvelopeView> {
        match EnvelopeView::read_41(members) {
            Some(before) => match opt_record(members, "party_join_request"@, PartyJoinRequestView::reader()) {
                Some(party_join_request) => Some(EnvelopeView { party_join_request, ..before }),
                None => None,
            },
            None => None,
        }
    }

    /// What the fields up to `party_matchmaker_add` are read as.
    pub open spec fn read_43(members: Seq<MemberValue>) -> Option<EnvelopeView> {
        match EnvelopeView::read_42(members) {
            Some(before) => match opt_record(members, "party_matchmaker_add"@, PartyMatchmakerAddView::reader()) {
                Some(party_matchmaker_add) => Some(EnvelopeView { party_matchmaker_add, ..before }),
                None => None,
            },
            None => None,
        }
    }

    /// What the fields up to `party_matchmaker_remove` are read as.
    pub open spec fn read_44(members: Seq<MemberValue>) -> Option<EnvelopeView> {
        match EnvelopeView::read_43(members) {
            Some(before) => match opt_record(members, "party_matchmaker_remove"@, PartyMatchmakerRemoveView::reader()) {
                Some(party_matchmaker_remove) => Some(EnvelopeView { party_matchmaker_remove, ..before }),
                None => None,
            },
            None => None,
        }
    }

    /// What the fields up to `party_matchmaker_ticket` are read as.
    pub open spec fn read_45(members: Seq<MemberValue>) -> Option<EnvelopeView> {
        match EnvelopeView::read_44(members) {
            Some(before) => match opt_record(members, "party_matchmaker_ticket"@, PartyMatchmakerTicketView::reader()) {
                Some(party_matchmaker_ticket) => Some(EnvelopeView { party_matchmaker_ticket, ..before }),
                None => None,
            },
            None => None,
        }
    }

    /// What the fields up to `party_data` are read as.
    pub open spec fn read_46(members: Seq<MemberValue>) -> Option<EnvelopeView> {
        match EnvelopeView::read_45(members) {
            Some(before) => match opt_record(members, "party_data"@, PartyDataView::reader()) {
                Some(party_data) => Some(EnvelopeView { party_data, ..before }),
                None => None,
            },
            None => None,
        }
    }

    /// What the fields up to `party_data_send` are read as.
    pub open spec fn read_47(members: Seq<MemberValue>) -> Option<EnvelopeView> {
        match EnvelopeView::read_46(members) {
            Some(before) => match opt_record(members, "party_data_send"@, PartyDataSendView::reader()) {
                Some(party_data_send) => Some(EnvelopeView { party_data_send, ..before }),
                None => None,
            },
            None => None,
        }
    }

    /// What the fields up to `party_presence_event` are read as.
    pub open spec fn read_48(members: Seq<MemberValue>) -> Option<EnvelopeView> {
        match EnvelopeView::read_47(members) {
            Some(before) => match opt_record(members, "party_presence_event"@, PartyPresenceEventView::reader()) {
                Some(party_presence_event) => Some(EnvelopeView { party_presence_event, ..before }),
                None => None,
            },
            None => None,
        }
    }

    /// The frame that a JSON value is read as, if it holds one.
    pub open spec fn read(json: JsonValue) -> Option<EnvelopeView> {
        match members_of(json) {
            Some(members) => EnvelopeView::read_48(members),
            None => None,
        }
    }

    /// The place of a field name among the field names.
    pub open spec fn field_index(name: Seq<char>) -> int {
        if name == "cid"@ {
            0
        } else if name == "channel"@ {
            1
        } else if name == "channel_join"@ {
            2
        } else if name == "channel_leave"@ {
            3
        } else if name == "channel_message"@ {
            4
        } else if name == "channel_message_ack"@ {
            5
        } else if name == "channel_message_remove"@ {
            6
        } else if name == "channel_message_send"@ {
            7
        } else if name == "channel_message_update"@ {
            8
        } else if name == "channel_presence_event"@ {
            9
        } else if name == "error"@ {
            10
        } else if name == "matchmaker_add"@ {
            11
        } else if name == "matchmaker_matched"@ {
            12
        } else if name == "matchmaker_remove"@ {
            13
        } else if name == "matchmaker_ticket"@ {
            14
        } else if name == "match"@ {
            15
        } else if name == "match_create"@ {
            16
        } else if name == "match_join"@ {
            17
        } else if name == "match_leave"@ {
            18
        } else if name == "match_presence_event"@ {
            19
        } else if name == "match_data"@ {
            20
        } else if name == "match_data_send"@ {
            21
        } else if name == "notifications"@ {
            22
        } else if name == "rpc"@ {
            23
        } else if name == "status"@ {
            24
        } else if name == "status_follow"@ {
            25
        } else if name == "status_presence_event"@ {
            26
        } else if name == "status_unfollow"@ {
            27
        } else if name == "status_update"@ {
            28
        } else if name == "stream_presence_event"@ {
            29
        } else if name == "stream_data"@ {
            30
        } else if name == "party"@ {
            31
        } else if name == "party_create"@ {
            32
        } else if name == "party_join"@ {
            33
        } else if name == "party_leave"@ {
            34
        } else if name == "party_promote"@ {
            35
        } else if name == "party_leader"@ {
            36
        } else if name == "party_accept"@ {
            37
        } else if name == "party_remove"@ {
            38
        } else if name == "party_close"@ {
            39
        } else if name == "party_join_request_list"@ {
            40
        } else if name == "party_join_request"@ {
            41
        } else if name == "party_matchmaker_add"@ {
            42
        } else if name == "party_matchmaker_remove"@ {
            43
        } else if name == "party_matchmaker_ticket"@ {
            44
        } else if name == "party_data"@ {
            45
        } else if name == "party_data_send"@ {
            46
        } else if name == "party_presence_event"@ {
            47
        } else {
            48
        }
    }

    /// The field names differ from each other.
    pub proof fn lemma_names()
        ensures
            Self::field_index("cid"@) == 0,
            Self::field_index("channel"@) == 1,
            Self::field_index("channel_join"@) == 2,
            Self::field_index("channel_leave"@) == 3,
            Self::field_index("channel_message"@) == 4,
            Self::field_index("channel_message_ack"@) == 5,
            Self::field_index("channel_message_remove"@) == 6,
            Self::field_index("channel_message_send"@) == 7,
            Self::field_index("channel_message_update"@) == 8,
            Self::field_index("channel_presence_event"@) == 9,
            Self::field_index("error"@) == 10,
            Self::field_index("matchmaker_add"@) == 11,
            Self::field_index("matchmaker_matched"@) == 12,
            Self::field_index("matchmaker_remove"@) == 13,
            Self::field_index("matchmaker_ticket"@) == 14,
            Self::field_index("match"@) == 15,
            Self::field_index("match_create"@) == 16,
            Self::field_index("match_join"@) == 17,
            Self::field_index("match_leave"@) == 18,
            Self::field_index("match_presence_event"@) == 19,
            Self::field_index("match_data"@) == 20,
            Self::field_index("match_data_send"@) == 21,
            Self::field_index("notifications"@) == 22,
            Self::field_index("rpc"@) == 23,
            Self::field_index("status"@) == 24,
            Self::field_index("status_follow"@) == 25,
            Self::field_index("status_presence_event"@) == 26,
            Self::field_index("status_unfollow"@) == 27,
            Self::field_index("status_update"@) == 28,
            Self::field_index("stream_presence_event"@) == 29,
            Self::field_index("stream_data"@) == 30,
            Self::field_index("party"@) == 31,
            Self::field_index("party_create"@) == 32,
            Self::field_index("party_join"@) == 33,
            Self::field_index("party_leave"@) == 34,
            Self::field_index("party_promote"@) == 35,
            Self::field_index("party_leader"@) == 36,
            Self::field_index("party_accept"@) == 37,
            Self::field_index("party_remove"@) == 38,
            Self::field_index("party_close"@) == 39,
            Self::field_index("party_join_request_list"@) == 40,
            Self::field_index("party_join_request"@) == 41,
            Self::field_index("party_matchmaker_add"@) == 42,
            Self::field_index("party_matchmaker_remove"@) == 43,
            Self::field_index("party_matchmaker_ticket"@) == 44,
            Self::field_index("party_data"@) == 45,
            Self::field_index("party_data_send"@) == 46,
            Self::field_index("party_presence_event"@) == 47,
    {
        reveal_strlit("cid");
        reveal_strlit("channel");
        reveal_strlit("channel_join");
        reveal_strlit("channel_leave");
        reveal_strlit("channel_message");
        reveal_strlit("channel_message_ack");
        reveal_strlit("channel_message_remove");
        reveal_strlit("channel_message_send");
        reveal_strlit("channel_message_update");
        reveal_strlit("channel_presence_event");
        reveal_strlit("error");
        reveal_strlit("matchmaker_add");
        reveal_strlit("matchmaker_matched");
        reveal_strlit("matchmaker_remove");
        reveal_strlit("matchmaker_ticket");
        reveal_strlit("match");
        reveal_strlit("match_create");
        reveal_strlit("match_join");
        reveal_strlit("match_leave");
        reveal_strlit("match_presence_event");
        reveal_strlit("match_data");
        reveal_strlit("match_data_send");
        reveal_strlit("notifications");
        reveal_strlit("rpc");
        reveal_strlit("status");
        reveal_strlit("status_follow");
        reveal_strlit("status_presence_event");
        reveal_strlit("status_unfollow");
        reveal_strlit("status_update");
        reveal_strlit("stream_presence_event");
        reveal_strlit("stream_data");
        reveal_strlit("party");
        reveal_strlit("party_create");
        reveal_strlit("party_join");
        reveal_strlit("party_leave");
        reveal_strlit("party_promote");
        reveal_strlit("party_leader");
        reveal_strlit("party_accept");
        reveal_strlit("party_remove");
        reveal_strlit("party_close");
        reveal_strlit("party_join_request_list");
        reveal_strlit("party_join_request");
        reveal_strlit("party_matchmaker_add");
        reveal_strlit("party_matchmaker_remove");
        reveal_strlit("party_matchmaker_ticket");
        reveal_strlit("party_data");
        reveal_strlit("party_data_send");
        reveal_strlit("party_presence_event");
        assert("cid"@.len() == 3);
        assert("channel"@.len() == 7);
        assert("channel_join"@.len() == 12);
        assert("channel_leave"@.len() == 13);
        assert("channel_message"@.len() == 15);
        assert("channel_message_ack"@.len() == 19);
        assert("channel_message_remove"@.len() == 22);
        assert("channel_message_send"@.len() == 20);
        assert("channel_message_update"@.len() == 22);
        assert("channel_presence_event"@.len() == 22);
        assert("error"@.len() == 5);
        assert("matchmaker_add"@.len() == 14);
        assert("matchmaker_matched"@.len() == 18);
        assert("matchmaker_remove"@.len() == 17);
        assert("matchmaker_ticket"@.len() == 17);
        assert("match"@.len() == 5);
        assert("match_create"@.len() == 12);
        assert("match_join"@.len() == 10);
        assert("match_leave"@.len() == 11);
        assert("match_presence_event"@.len() == 20);
        assert("match_data"@.len() == 10);
        assert("match_data_send"@.len() == 15);
        assert("notifications"@.len() == 13);
        assert("rpc"@.len() == 3);
        assert("status"@.len() == 6);
        assert("status_follow"@.len() == 13);
        assert("status_presence_event"@.len() == 21);
        assert("status_unfollow"@.len() == 15);
        assert("status_update"@.len() == 13);
        assert("stream_presence_event"@.len() == 21);
        assert("stream_data"@.len() == 11);
        assert("party"@.len() == 5);
        assert("party_create"@.len() == 12);
        assert("party_join"@.len() == 10);
        assert("party_leave"@.len() == 11);
        assert("party_promote"@.len() == 13);
        assert("party_leader"@.len() == 12);
        assert("party_accept"@.len() == 12);
        assert("party_remove"@.len() == 12);
        assert("party_close"@.len() == 11);
        assert("party_join_request_list"@.len() == 23);
        assert("party_join_request"@.len() == 18);
        assert("party_matchmaker_add"@.len() == 20);
        assert("party_matchmaker_remove"@.len() == 23);
        assert("party_matchmaker_ticket"@.len() == 23);
        assert("party_data"@.len() == 10);
        assert("party_data_send"@.len() == 15);
        assert("party_presence_event"@.len() == 20);
        assert("cid"@[0] != "rpc"@[0]);
        assert("channel_join"@[0] != "match_create"@[0]);
        assert("channel_join"@[0] != "party_create"@[0]);
        assert("channel_join"@[0] != "party_leader"@[0]);
        assert("channel_join"@[0] != "party_accept"@[0]);
        assert("channel_join"@[0] != "party_remove"@[0]);
        assert("channel_leave"@[0] != "notifications"@[0]);
        assert("channel_leave"@[0] != "status_follow"@[0]);
        assert("channel_leave"@[0] != "status_update"@[0]);
        assert("channel_leave"@[0] != "party_promote"@[0]);
        assert("channel_message"@[0] != "match_data_send"@[0]);
        assert("channel_message"@[0] != "status_unfollow"@[0]);
        assert("channel_message"@[0] != "party_data_send"@[0]);
        assert("channel_message_remove"@[16] != "channel_message_update"@[16]);
        assert("channel_message_remove"@[8] != "channel_presence_event"@[8]);
        assert("channel_message_send"@[0] != "match_presence_event"@[0]);
        assert("channel_message_send"@[0] != "party_matchmaker_add"@[0]);
        assert("channel_message_send"@[0] != "party_presence_event"@[0]);
        assert("channel_message_update"@[8] != "channel_presence_event"@[8]);
        assert("error"@[0] != "match"@[0]);
        assert("error"@[0] != "party"@[0]);
        assert("matchmaker_matched"@[0] != "party_join_request"@[0]);
        assert("matchmaker_remove"@[11] != "matchmaker_ticket"@[11]);
        assert("match"@[0] != "party"@[0]);
        assert("match_create"@[0] != "party_create"@[0]);
        assert("match_create"@[0] != "party_leader"@[0]);
        assert("match_create"@[0] != "party_accept"@[0]);
        assert("match_create"@[0] != "party_remove"@[0]);
        assert("match_join"@[6] != "match_data"@[6]);
        assert("match_join"@[0] != "party_join"@[0]);
        assert("match_join"@[0] != "party_data"@[0]);
        assert("match_leave"@[0] != "stream_data"@[0]);
        assert("match_leave"@[0] != "party_leave"@[0]);
        assert("match_leave"@[0] != "party_close"@[0]);
        assert("match_presence_event"@[0] != "party_matchmaker_add"@[0]);
        assert("match_presence_event"@[0] != "party_presence_event"@[0]);
        assert("match_data"@[0] != "party_join"@[0]);
        assert("match_data"@[0] != "party_data"@[0]);
        assert("match_data_send"@[0] != "status_unfollow"@[0]);
        assert("match_data_send"@[0] != "party_data_send"@[0]);
        assert("notifications"@[0] != "status_follow"@[0]);
        assert("notifications"@[0] != "status_update"@[0]);
        assert("notifications"@[0] != "party_promote"@[0]);
        assert("status_follow"@[7] != "status_update"@[7]);
        assert("status_follow"@[0] != "party_promote"@[0]);
        assert("status_presence_event"@[2] != "stream_presence_event"@[2]);
        assert("status_unfollow"@[0] != "party_data_send"@[0]);
        assert("status_update"@[0] != "party_promote"@[0]);
        assert("stream_data"@[0] != "party_leave"@[0]);
        assert("stream_data"@[0] != "party_close"@[0]);
        assert("party_create"@[6] != "party_leader"@[6]);
        assert("party_create"@[6] != "party_accept"@[6]);
        assert("party_create"@[6] != "party_remove"@[6]);
        assert("party_join"@[6] != "party_data"@[6]);
        assert("party_leave"@[6] != "party_close"@[6]);
        assert("party_leader"@[6] != "party_accept"@[6]);
        assert("party_leader"@[6] != "party_remove"@[6]);
        assert("party_accept"@[6] != "party_remove"@[6]);
        assert("party_join_request_list"@[6] != "party_matchmaker_remove"@[6]);
        assert("party_join_request_list"@[6] != "party_matchmaker_ticket"@[6]);
        assert("party_matchmaker_add"@[6] != "party_presence_event"@[6]);
        assert("party_matchmaker_remove"@[17] != "party_matchmaker_ticket"@[17]);
    }

    /// Whether every field of a frame is found alike in `a` and in `b`.
    pub open spec fn same_fields(a: Seq<MemberValue>, b: Seq<MemberValue>) -> bool {
        forall|name: Seq<char>|
            Self::field_index(name) < 48 ==> #[trigger] lookup(a, name) == lookup(b, name)
    }

    /// Members in which every field is found alike are read alike up to
    /// `cid`.
    proof fn lemma_read_same_1(a: Seq<MemberValue>, b: Seq<MemberValue>)
        requires
            Self::same_fields(a, b),
        ensures
            Self::read_1(a) == Self::read_1(b),
    {
        Self::lemma_names();
        assert(lookup(a, "cid"@) == lookup(b, "cid"@));
    }

    /// Members in which every field is found alike are read alike up to
    /// `channel`.
    proof fn lemma_read_same_2(a: Seq<MemberValue>, b: Seq<MemberValue>)
        requires
            Self::same_fields(a, b),
        ensures
            Self::read_2(a) == Self::read_2(b),
    {
        Self::lemma_names();
        Self::lemma_read_same_1(a, b);
        assert(lookup(a, "channel"@) == lookup(b, "channel"@));
    }

    /// Members in which every field is found alike are read alike up to
    /// `channel_join`.
    proof fn lemma_read_same_3(a: Seq<MemberValue>, b: Seq<MemberValue>)
        requires
            Self::same_fields(a, b),
        ensures
            Self::read_3(a) == Self::read_3(b),
    {
        Self::lemma_names();
        Self::lemma_read_same_2(a, b);
        assert(lookup(a, "channel_join"@) == lookup(b, "channel_join"@));
    }

    /// Members in which every field is found alike are read alike up to
    /// `channel_leave`.
    proof fn lemma_read_same_4(a: Seq<MemberValue>, b: Seq<MemberValue>)
        requires
            Self::same_fields(a, b),
        ensures
            Self::read_4(a) == Self::read_4(b),
    {
        Self::lemma_names();
        Self::lemma_read_same_3(a, b);
        assert(lookup(a, "channel_leave"@) == lookup(b, "channel_leave"@));
    }

    /// Members in which every field is found alike are read alike up to
    /// `channel_message`.
    proof fn lemma_read_same_5(a: Seq<MemberValue>, b: Seq<MemberValue>)
        requires
            Self::same_fields(a, b),
        ensures
            Self::read_5(a) == Self::read_5(b),
    {
        Self::lemma_names();
        Self::lemma_read_same_4(a, b);
        assert(lookup(a, "channel_message"@) == lookup(b, "channel_message"@));
    }

    /// Members in which every field is found alike are read alike up to
    /// `channel_message_ack`.
    proof fn lemma_read_same_6(a: Seq<MemberValue>, b: Seq<MemberValue>)
        requires
            Self::same_fields(a, b),
        ensures
            Self::read_6(a) == Self::read_6(b),
    {
        Self::lemma_names();
        Self::lemma_read_same_5(a, b);
        assert(lookup(a, "channel_message_ack"@) == lookup(b, "channel_message_ack"@));
    }

    /// Members in which every field is found alike are read alike up to
    /// `channel_message_remove`.
    proof fn lemma_read_same_7(a: Seq<MemberValue>, b: Seq<MemberValue>)
        requires
            Self::same_fields(a, b),
        ensures
            Self::read_7(a) == Self::read_7(b),
    {
        Self::lemma_names();
        Self::lemma_read_same_6(a, b);
        assert(lookup(a, "channel_message_remove"@) == lookup(b, "channel_message_remove"@));
    }

    /// Members in which every field is found alike are read alike up to
    /// `channel_message_send`.
    proof fn lemma_read_same_8(a: Seq<MemberValue>, b: Seq<MemberValue>)
        requires
            Self::same_fields(a, b),
        ensures
            Self::read_8(a) == Self::read_8(b),
    {
        Self::lemma_names();
        Self::lemma_read_same_7(a, b);
        assert(lookup(a, "channel_message_send"@) == lookup(b, "channel_message_send"@));
    }

    /// Members in which every field is found alike are read alike up to
    /// `channel_message_update`.
    proof fn lemma_read_same_9(a: Seq<MemberValue>, b: Seq<MemberValue>)
        requires
            Self::same_fields(a, b),
        ensures
            Self::read_9(a) == Self::read_9(b),
    {
        Self::lemma_names();
        Self::lemma_read_same_8(a, b);
        assert(lookup(a, "channel_message_update"@) == lookup(b, "channel_message_update"@));
    }

    /// Members in which every field is found alike are read alike up to
    /// `channel_presence_event`.
    proof fn lemma_read_same_10(a: Seq<MemberValue>, b: Seq<MemberValue>)
        requires
            Self::same_fields(a, b),
        ensures
            Self::read_10(a) == Self::read_10(b),
    {
        Self::lemma_names();
        Self::lemma_read_same_9(a, b);
        assert(lookup(a, "channel_presence_event"@) == lookup(b, "channel_presence_event"@));
    }

    /// Members in which every field is found alike are read alike up to
    /// `error`.
    proof fn lemma_read_same_11(a: Seq<MemberValue>, b: Seq<MemberValue>)
        requires
            Self::same_fields(a, b),
        ensures
            Self::read_11(a) == Self::read_11(b),
    {
        Self::lemma_names();
        Self::lemma_read_same_10(a, b);
        assert(lookup(a, "error"@) == lookup(b, "error"@));
    }

    /// Members in which every field is found alike are read alike up to
    /// `matchmaker_add`.
    proof fn lemma_read_same_12(a: Seq<MemberValue>, b: Seq<MemberValue>)
        requires
            Self::same_fields(a, b),
        ensures
            Self::read_12(a) == Self::read_12(b),
    {
        Self::lemma_names();
        Self::lemma_read_same_11(a, b);
        assert(lookup(a, "matchmaker_add"@) == lookup(b, "matchmaker_add"@));
    }

    /// Members in which every field is found alike are read alike up to
    /// `matchmaker_matched`.
    proof fn lemma_read_same_13(a: Seq<MemberValue>, b: Seq<MemberValue>)
        requires
            Self::same_fields(a, b),
        ensures
            Self::read_13(a) == Self::read_13(b),
    {
        Self::lemma_names();
        Self::lemma_read_same_12(a, b);
        assert(lookup(a, "matchmaker_matched"@) == lookup(b, "matchmaker_matched"@));
    }

    /// Members in which every field is found alike are read alike up to
    /// `matchmaker_remove`.
    proof fn lemma_read_same_14(a: Seq<MemberValue>, b: Seq<MemberValue>)
        requires
            Self::same_fields(a, b),
        ensures
            Self::read_14(a) == Self::read_14(b),
    {
        Self::lemma_names();
        Self::lemma_read_same_13(a, b);
        assert(lookup(a, "matchmaker_remove"@) == lookup(b, "matchmaker_remove"@));
    }

    /// Members in which every field is found alike are read alike up to
    /// `matchmaker_ticket`.
    proof fn lemma_read_same_15(a: Seq<MemberValue>, b: Seq<MemberValue>)
        requires
            Self::same_fields(a, b),
        ensures
            Self::read_15(a) == Self::read_15(b),
    {
        Self::lemma_names();
        Self::lemma_read_same_14(a, b);
        assert(lookup(a, "matchmaker_ticket"@) == lookup(b, "matchmaker_ticket"@));
    }

    /// Members in which every field is found alike are read alike up to
    /// `match`.
    proof fn lemma_read_same_16(a: Seq<MemberValue>, b: Seq<MemberValue>)
        requires
            Self::same_fields(a, b),
        ensures
            Self::read_16(a) == Self::read_16(b),
    {
        Self::lemma_names();
        Self::lemma_read_same_15(a, b);
        assert(lookup(a, "match"@) == lookup(b, "match"@));
    }

    /// Members in which every field is found alike are read alike up to
    /// `match_create`.
    proof fn lemma_read_same_17(a: Seq<MemberValue>, b: Seq<MemberValue>)
        requires
            Self::same_fields(a, b),
        ensures
            Self::read_17(a) == Self::read_17(b),
    {
        Self::lemma_names();
        Self::lemma_read_same_16(a, b);
        assert(lookup(a, "match_create"@) == lookup(b, "match_create"@));
    }

    /// Members in which every field is found alike are read alike up to
    /// `match_join`.
    proof fn lemma_read_same_18(a: Seq<MemberValue>, b: Seq<MemberValue>)
        requires
            Self::same_fields(a, b),
        ensures
            Self::read_18(a) == Self::read_18(b),
    {
        Self::lemma_names();
        Self::lemma_read_same_17(a, b);
        assert(lookup(a, "match_join"@) == lookup(b, "match_join"@));
    }

    /// Members in which every field is found alike are read alike up to
    /// `match_leave`.
    proof fn lemma_read_same_19(a: Seq<MemberValue>, b: Seq<MemberValue>)
        requires
            Self::same_fields(a, b),
        ensures
            Self::read_19(a) == Self::read_19(b),
    {
        Self::lemma_names();
        Self::lemma_read_same_18(a, b);
        assert(lookup(a, "match_leave"@) == lookup(b, "match_leave"@));
    }

    /// Members in which every field is found alike are read alike up to
    /// `match_presence_event`.
    proof fn lemma_read_same_20(a: Seq<MemberValue>, b: Seq<MemberValue>)
        requires
            Self::same_fields(a, b),
        ensures
            Self::read_20(a) == Self::read_20(b),
    {
        Self::lemma_names();
        Self::lemma_read_same_19(a, b);
        assert(lookup(a, "match_presence_event"@) == lookup(b, "match_presence_event"@));
    }

    /// Members in which every field is found alike are read alike up to
    /// `match_data`.
    proof fn lemma_read_same_21(a: Seq<MemberValue>, b: Seq<MemberValue>)
        requires
            Self::same_fields(a, b),
        ensures
            Self::read_21(a) == Self::read_21(b),
    {
        Self::lemma_names();
        Self::lemma_read_same_20(a, b);
        assert(lookup(a, "match_data"@) == lookup(b, "match_data"@));
    }

    /// Members in which every field is found alike are read alike up to
    /// `match_data_send`.
    proof fn lemma_read_same_22(a: Seq<MemberValue>, b: Seq<MemberValue>)
        requires
            Self::same_fields(a, b),
        ensures
            Self::read_22(a) == Self::read_22(b),
    {
        Self::lemma_names();
        Self::lemma_read_same_21(a, b);
        assert(lookup(a, "match_data_send"@) == lookup(b, "match_data_send"@));
    }

    /// Members in which every field is found alike are read alike up to
    /// `notifications`.
    proof fn lemma_read_same_23(a: Seq<MemberValue>, b: Seq<MemberValue>)
        requires
            Self::same_fields(a, b),
        ensures
            Self::read_23(a) == Self::read_23(b),
    {
        Self::lemma_names();
        Self::lemma_read_same_22(a, b);
        assert(lookup(a, "notifications"@) == lookup(b, "notifications"@));
    }

    /// Members in which every field is found alike are read alike up to
    /// `rpc`.
    proof fn lemma_read_same_24(a: Seq<MemberValue>, b: Seq<MemberValue>)
        requires
            Self::same_fields(a, b),
        ensures
            Self::read_24(a) == Self::read_24(b),
    {
        Self::lemma_names();
        Self::lemma_read_same_23(a, b);
        assert(lookup(a, "rpc"@) == lookup(b, "rpc"@));
    }

    /// Members in which every field is found alike are read alike up to
    /// `status`.
    proof fn lemma_read_same_25(a: Seq<MemberValue>, b: Seq<MemberValue>)
        requires
            Self::same_fields(a, b),
        ensures
            Self::read_25(a) == Self::read_25(b),
    {
        Self::lemma_names();
        Self::lemma_read_same_24(a, b);
        assert(lookup(a, "status"@) == lookup(b, "status"@));
    }

    /// Members in which every field is found alike are read alike up to
    /// `status_follow`.
    proof fn lemma_read_same_26(a: Seq<MemberValue>, b: Seq<MemberValue>)
        requires
            Self::same_fields(a, b),
        ensures
            Self::read_26(a) == Self::read_26(b),
    {
        Self::lemma_names();
        Self::lemma_read_same_25(a, b);
        assert(lookup(a, "status_follow"@) == lookup(b, "status_follow"@));
    }

    /// Members in which every field is found alike are read alike up to
    /// `status_presence_event`.
    proof fn lemma_read_same_27(a: Seq<MemberValue>, b: Seq<MemberValue>)
        requires
            Self::same_fields(a, b),
        ensures
            Self::read_27(a) == Self::read_27(b),
    {
        Self::lemma_names();
        Self::lemma_read_same_26(a, b);
        assert(lookup(a, "status_presence_event"@) == lookup(b, "status_presence_event"@));
    }

    /// Members in which every field is found alike are read alike up to
    /// `status_unfollow`.
    proof fn lemma_read_same_28(a: Seq<MemberValue>, b: Seq<MemberValue>)
        requires
            Self::same_fields(a, b),
        ensures
            Self::read_28(a) == Self::read_28(b),
    {
        Self::lemma_names();
        Self::lemma_read_same_27(a, b);
        assert(lookup(a, "status_unfollow"@) == lookup(b, "status_unfollow"@));
    }

    /// Members in which every field is found alike are read alike up to
    /// `status_update`.
    proof fn lemma_read_same_29(a: Seq<MemberValue>, b: Seq<MemberValue>)
        requires
            Self::same_fields(a, b),
        ensures
            Self::read_29(a) == Self::read_29(b),
    {
        Self::lemma_names();
        Self::lemma_read_same_28(a, b);
        assert(lookup(a, "status_update"@) == lookup(b, "status_update"@));
    }

    /// Members in which every field is found alike are read alike up to
    /// `stream_presence_event`.
    proof fn lemma_read_same_30(a: Seq<MemberValue>, b: Seq<MemberValue>)
        requires
            Self::same_fields(a, b),
        ensures
            Self::read_30(a) == Self::read_30(b),
    {
        Self::lemma_names();
        Self::lemma_read_same_29(a, b);
        assert(lookup(a, "stream_presence_event"@) == lookup(b, "stream_presence_event"@));
    }

    /// Members in which every field is found alike are read alike up to
    /// `stream_data`.
    proof fn lemma_read_same_31(a: Seq<MemberValue>, b: Seq<MemberValue>)
        requires
            Self::same_fields(a, b),
        ensures
            Self::read_31(a) == Self::read_31(b),
    {
        Self::lemma_names();
        Self::lemma_read_same_30(a, b);
        assert(lookup(a, "stream_data"@) == lookup(b, "stream_data"@));
    }

    /// Members in which every field is found alike are read alike up to
    /// `party`.
    proof fn lemma_read_same_32(a: Seq<MemberValue>, b: Seq<MemberValue>)
        requires
            Self::same_fields(a, b),
        ensures
            Self::read_32(a) == Self::read_32(b),
    {
        Self::lemma_names();
        Self::lemma_read_same_31(a, b);
        assert(lookup(a, "party"@) == lookup(b, "party"@));
    }

    /// Members in which every field is found alike are read alike up to
    /// `party_create`.
    proof fn lemma_read_same_33(a: Seq<MemberValue>, b: Seq<MemberValue>)
        requires
            Self::same_fields(a, b),
        ensures
            Self::read_33(a) == Self::read_33(b),
    {
        Self::lemma_names();
        Self::lemma_read_same_32(a, b);
        assert(lookup(a, "party_create"@) == lookup(b, "party_create"@));
    }

    /// Members in which every field is found alike are read alike up to
    /// `party_join`.
    proof fn lemma_read_same_34(a: Seq<MemberValue>, b: Seq<MemberValue>)
        requires
            Self::same_fields(a, b),
        ensures
            Self::read_34(a) == Self::read_34(b),
    {
        Self::lemma_names();
        Self::lemma_read_same_33(a, b);
        assert(lookup(a, "party_join"@) == lookup(b, "party_join"@));
    }

    /// Members in which every field is found alike are read alike up to
    /// `party_leave`.
    proof fn lemma_read_same_35(a: Seq<MemberValue>, b: Seq<MemberValue>)
        requires
            Self::same_fields(a, b),
        ensures
            Self::read_35(a) == Self::read_35(b),
    {
        Self::lemma_names();
        Self::lemma_read_same_34(a, b);
        assert(lookup(a, "party_leave"@) == lookup(b, "party_leave"@));
    }

    /// Members in which every field is found alike are read alike up to
    /// `party_promote`.
    proof fn lemma_read_same_36(a: Seq<MemberValue>, b: Seq<MemberValue>)
        requires
            Self::same_fields(a, b),
        ensures
            Self::read_36(a) == Self::read_36(b),
    {
        Self::lemma_names();
        Self::lemma_read_same_35(a, b);
        assert(lookup(a, "party_promote"@) == lookup(b, "party_promote"@));
    }

    /// Members in which every field is found alike are read alike up to
    /// `party_leader`.
    proof fn lemma_read_same_37(a: Seq<MemberValue>, b: Seq<MemberValue>)
        requires
            Self::same_fields(a, b),
        ensures
            Self::read_37(a) == Self::read_37(b),
    {
        Self::lemma_names();
        Self::lemma_read_same_36(a, b);
        assert(lookup(a, "party_leader"@) == lookup(b, "party_leader"@));
    }

    /// Members in which every field is found alike are read alike up to
    /// `party_accept`.
    proof fn lemma_read_same_38(a: Seq<MemberValue>, b: Seq<MemberValue>)
        requires
            Self::same_fields(a, b),
        ensures
            Self::read_38(a) == Self::read_38(b),
    {
        Self::lemma_names();
        Self::lemma_read_same_37(a, b);
        assert(lookup(a, "party_accept"@) == lookup(b, "party_accept"@));
    }

    /// Members in which every field is found alike are read alike up to
    /// `party_remove`.
    proof fn lemma_read_same_39(a: Seq<MemberValue>, b: Seq<MemberValue>)
        requires
            Self::same_fields(a, b),
        ensures
            Self::read_39(a) == Self::read_39(b),
    {
        Self::lemma_names();
        Self::lemma_read_same_38(a, b);
        assert(lookup(a, "party_remove"@) == lookup(b, "party_remove"@));
    }

    /// Members in which every field is found alike are read alike up to
    /// `party_close`.
    proof fn lemma_read_same_40(a: Seq<MemberValue>, b: Seq<MemberValue>)
        requires
            Self::same_fields(a, b),
        ensures
            Self::read_40(a) == Self::read_40(b),
    {
        Self::lemma_names();
        Self::lemma_read_same_39(a, b);
        assert(lookup(a, "party_close"@) == lookup(b, "party_close"@));
    }

    /// Members in which every field is found alike are read alike up to
    /// `party_join_request_list`.
    proof fn lemma_read_same_41(a: Seq<MemberValue>, b: Seq<MemberValue>)
        requires
            Self::same_fields(a, b),
        ensures
            Self::read_41(a) == Self::read_41(b),
    {
        Self::lemma_names();
        Self::lemma_read_same_40(a, b);
        assert(lookup(a, "party_join_request_list"@) == lookup(b, "party_join_request_list"@));
    }

    /// Members in which every field is found alike are read alike up to
    /// `party_join_request`.
    proof fn lemma_read_same_42(a: Seq<MemberValue>, b: Seq<MemberValue>)
        requires
            Self::same_fields(a, b),
        ensures
            Self::read_42(a) == Self::read_42(b),
    {
        Self::lemma_names();
        Self::lemma_read_same_41(a, b);
        assert(lookup(a, "party_join_request"@) == lookup(b, "party_join_request"@));
    }

    /// Members in which every field is found alike are read alike up to
    /// `party_matchmaker_add`.
    proof fn lemma_read_same_43(a: Seq<MemberValue>, b: Seq<MemberValue>)
        requires
            Self::same_fields(a, b),
        ensures
            Self::read_43(a) == Self::read_43(b),
    {
        Self::lemma_names();
        Self::lemma_read_same_42(a, b);
        assert(lookup(a, "party_matchmaker_add"@) == lookup(b, "party_matchmaker_add"@));
    }

    /// Members in which every field is found alike are read alike up to
    /// `party_matchmaker_remove`.
    proof fn lemma_read_same_44(a: Seq<MemberValue>, b: Seq<MemberValue>)
        requires
            Self::same_fields(a, b),
        ensures
            Self::read_44(a) == Self::read_44(b),
    {
        Self::lemma_names();
        Self::lemma_read_same_43(a, b);
        assert(lookup(a, "party_matchmaker_remove"@) == lookup(b, "party_matchmaker_remove"@));
    }

    /// Members in which every field is found alike are read alike up to
    /// `party_matchmaker_ticket`.
    proof fn lemma_read_same_45(a: Seq<MemberValue>, b: Seq<MemberValue>)
        requires
            Self::same_fields(a, b),
        ensures
            Self::read_45(a) == Self::read_45(b),
    {
        Self::lemma_names();
        Self::lemma_read_same_44(a, b);
        assert(lookup(a, "party_matchmaker_ticket"@) == lookup(b, "party_matchmaker_ticket"@));
    }

    /// Members in which every field is found alike are read alike up to
    /// `party_data`.
    proof fn lemma_read_same_46(a: Seq<MemberValue>, b: Seq<MemberValue>)
        requires
            Self::same_fields(a, b),
        ensures
            Self::read_46(a) == Self::read_46(b),
    {
        Self::lemma_names();
        Self::lemma_read_same_45(a, b);
        assert(lookup(a, "party_data"@) == lookup(b, "party_data"@));
    }

    /// Members in which every field is found alike are read alike up to
    /// `party_data_send`.
    proof fn lemma_read_same_47(a: Seq<MemberValue>, b: Seq<MemberValue>)
        requires
            Self::same_fields(a, b),
        ensures
            Self::read_47(a) == Self::read_47(b),
    {
        Self::lemma_names();
        Self::lemma_read_same_46(a, b);
        assert(lookup(a, "party_data_send"@) == lookup(b, "party_data_send"@));
    }

    /// Members in which every field is found alike are read alike up to
    /// `party_presence_event`.
    proof fn lemma_read_same_48(a: Seq<MemberValue>, b: Seq<MemberValue>)
        requires
            Self::same_fields(a, b),
        ensures
            Self::read_48(a) == Self::read_48(b),
    {
        Self::lemma_names();
        Self::lemma_read_same_47(a, b);
        assert(lookup(a, "party_presence_event"@) == lookup(b, "party_presence_event"@));
    }

    /// A member under a name that is no field of a frame makes no
    /// difference, wherever it stands: the frame is read as without it.
    pub proof fn lemma_unknown_member(members: Seq<MemberValue>, at: int, extra: MemberValue)
        requires
            0 <= at <= members.len(),
            Self::field_index(extra.name) == 48,
        ensures
            Self::read(JsonValue::Object(members.insert(at, extra))) == Self::read(
                JsonValue::Object(members),
            ),
    {
        assert forall|name: Seq<char>| Self::field_index(name) < 48 implies #[trigger] lookup(
            members.insert(at, extra),
            name,
        ) == lookup(members, name) by {
            lemma_lookup_insert(members, at, extra, name);
        }
        Self::lemma_read_same_48(members.insert(at, extra), members);
    }

    /// Once a field cannot be read, the frame cannot.
    pub proof fn lemma_read_stops(members: Seq<MemberValue>)
        ensures
            Self::read_1(members) is None ==> Self::read_2(members) is None,
            Self::read_2(members) is None ==> Self::read_3(members) is None,
            Self::read_3(members) is None ==> Self::read_4(members) is None,
            Self::read_4(members) is None ==> Self::read_5(members) is None,
            Self::read_5(members) is None ==> Self::read_6(members) is None,
            Self::read_6(members) is None ==> Self::read_7(members) is None,
            Self::read_7(members) is None ==> Self::read_8(members) is None,
            Self::read_8(members) is None ==> Self::read_9(members) is None,
            Self::read_9(members) is None ==> Self::read_10(members) is None,
            Self::read_10(members) is None ==> Self::read_11(members) is None,
            Self::read_11(members) is None ==> Self::read_12(members) is None,
            Self::read_12(members) is None ==> Self::read_13(members) is None,
            Self::read_13(members) is None ==> Self::read_14(members) is None,
            Self::read_14(members) is None ==> Self::read_15(members) is None,
            Self::read_15(members) is None ==> Self::read_16(members) is None,
            Self::read_16(members) is None ==> Self::read_17(members) is None,
            Self::read_17(members) is None ==> Self::read_18(members) is None,
            Self::read_18(members) is None ==> Self::read_19(members) is None,
            Self::read_19(members) is None ==> Self::read_20(members) is None,
            Self::read_20(members) is None ==> Self::read_21(members) is None,
            Self::read_21(members) is None ==> Self::read_22(members) is None,
            Self::read_22(members) is None ==> Self::read_23(members) is None,
            Self::read_23(members) is None ==> Self::read_24(members) is None,
            Self::read_24(members) is None ==> Self::read_25(members) is None,
            Self::read_25(members) is None ==> Self::read_26(members) is None,
            Self::read_26(members) is None ==> Self::read_27(members) is None,
            Self::read_27(members) is None ==> Self::read_28(members) is None,
            Self::read_28(members) is None ==> Self::read_29(members) is None,
            Self::read_29(members) is None ==> Self::read_30(members) is None,
            Self::read_30(members) is None ==> Self::read_31(members) is None,
            Self::read_31(members) is None ==> Self::read_32(members) is None,
            Self::read_32(members) is None ==> Self::read_33(members) is None,
            Self::read_33(members) is None ==> Self::read_34(members) is None,
            Self::read_34(members) is None ==> Self::read_35(members) is None,
            Self::read_35(members) is None ==> Self::read_36(members) is None,
            Self::read_36(members) is None ==> Self::read_37(members) is None,
            Self::read_37(members) is None ==> Self::read_38(members) is None,
            Self::read_38(members) is None ==> Self::read_39(members) is None,
            Self::read_39(members) is None ==> Self::read_40(members) is None,
            Self::read_40(members) is None ==> Self::read_41(members) is None,
            Self::read_41(members) is None ==> Self::read_42(members) is None,
            Self::read_42(members) is None ==> Self::read_43(members) is None,
            Self::read_43(members) is None ==> Self::read_44(members) is None,
            Self::read_44(members) is None ==> Self::read_45(members) is None,
            Self::read_45(members) is None ==> Self::read_46(members) is None,
            Self::read_46(members) is None ==> Self::read_47(members) is None,
            Self::read_47(members) is None ==> Self::read_48(members) is None,
    {
    }

    /// What is found under the name at place `index` of the field names.
    pub open spec fn expected(self, index: int) -> Option<JsonValue> {
        if index == 0 {
            if self.cid is Some {
                Some(JsonValue::Text(self.cid->0))
            } else {
                None
            }
        } else if index == 1 {
            if self.channel is Some {
                Some(self.channel->0.json())
            } else {
                None
            }
        } else if index == 2 {
            if self.channel_join is Some {
                Some(self.channel_join->0.json())
            } else {
                None
            }
        } else if index == 3 {
            if self.channel_leave is Some {
                Some(self.channel_leave->0.json())
            } else {
                None
            }
        } else if index == 4 {
            if self.channel_message is Some {
                Some(self.channel_message->0.json())
            } else {
                None
            }
        } else if index == 5 {
            if self.channel_message_ack is Some {
                Some(self.channel_message_ack->0.json())
            } else {
                None
            }
        } else if index == 6 {
            if self.channel_message_remove is Some {
                Some(self.channel_message_remove->0.json())
            } else {
                None
            }
        } else if index == 7 {
            if self.channel_message_send is Some {
                Some(self.channel_message_send->0.json())
            } else {
                None
            }
        } else if index == 8 {
            if self.channel_message_update is Some {
                Some(self.channel_message_update->0.json())
            } else {
                None
            }
        } else if index == 9 {
            if self.channel_presence_event is Some {
                Some(self.channel_presence_event->0.json())
            } else {
                None
            }
        } else if index == 10 {
            if self.error is Some {
                Some(self.error->0.json())
            } else {
                None
            }
        } else if index == 11 {
            if self.matchmaker_add is Some {
                Some(self.matchmaker_add->0.json())
            } else {
                None
            }
        } else if index == 12 {
            if self.matchmaker_matched is Some {
                Some(self.matchmaker_matched->0.json())
            } else {
                None
            }
        } else if index == 13 {
            if self.matchmaker_remove is Some {
                Some(self.matchmaker_remove->0.json())
            } else {
                None
            }
        } else if index == 14 {
            if self.matchmaker_ticket is Some {
                Some(self.matchmaker_ticket->0.json())
            } else {
                None
            }
        } else if index == 15 {
            if self.new_match is Some {
                Some(self.new_match->0.json())
            } else {
                None
            }
        } else if index == 16 {
            if self.match_create is Some {
                Some(self.match_create->0.json())
            } else {
                None
            }
        } else if index == 17 {
            if self.match_join is Some {
                Some(self.match_join->0.json())
            } else {
                None
            }
        } else if index == 18 {
            if self.match_leave is Some {
                Some(self.match_leave->0.json())
            } else {
                None
            }
        } else if index == 19 {
            if self.match_presence_event is Some {
                Some(self.match_presence_event->0.json())
            } else {
                None
            }
        } else if index == 20 {
            if self.match_data is Some {
                Some(self.match_data->0.json())
            } else {
                None
            }
        } else if index == 21 {
            if self.match_data_send is Some {
                Some(self.match_data_send->0.json())
            } else {
                None
            }
        } else if index == 22 {
            if self.notifications is Some {
                Some(self.notifications->0.json())
            } else {
                None
            }
        } else if index == 23 {
            if self.rpc is Some {
                Some(self.rpc->0.json())
            } else {
                None
            }
        } else if index == 24 {
            if self.status is Some {
                Some(self.status->0.json())
            } else {
                None
            }
        } else if index == 25 {
            if self.status_follow is Some {
                Some(self.status_follow->0.json())
            } else {
                None
            }
        } else if index == 26 {
            if self.status_presence_event is Some {
                Some(self.status_presence_event->0.json())
            } else {
                None
            }
        } else if index == 27 {
            if self.status_unfollow is Some {
                Some(self.status_unfollow->0.json())
            } else {
                None
            }
        } else if index == 28 {
            if self.status_update is Some {
                Some(self.status_update->0.json())
            } else {
                None
            }
        } else if index == 29 {
            if self.stream_presence_event is Some {
                Some(self.stream_presence_event->0.json())
            } else {
                None
            }
        } else if index == 30 {
            if self.stream_data is Some {
                Some(self.stream_data->0.json())
            } else {
                None
            }
        } else if index == 31 {
            if self.party is Some {
                Some(self.party->0.json())
            } else {
                None
            }
        } else if index == 32 {
            if self.party_create is Some {
                Some(self.party_create->0.json())
            } else {
                None
            }
        } else if index == 33 {
            if self.party_join is Some {
                Some(self.party_join->0.json())
            } else {
                None
            }
        } else if index == 34 {
            if self.party_leave is Some {
                Some(self.party_leave->0.json())
            } else {
                None
            }
        } else if index == 35 {
            if self.party_promote is Some {
                Some(self.party_promote->0.json())
            } else {
                None
            }
        } else if index == 36 {
            if self.party_leader is Some {
                Some(self.party_leader->0.json())
            } else {
                None
            }
        } else if index == 37 {
            if self.party_accept is Some {
                Some(self.party_accept->0.json())
            } else {
                None
            }
        } else if index == 38 {
            if self.party_remove is Some {
                Some(self.party_remove->0.json())
            } else {
                None
            }
        } else if index == 39 {
            if self.party_close is Some {
                Some(self.party_close->0.json())
            } else {
                None
            }
        } else if index == 40 {
            if self.party_join_request_list is Some {
                Some(self.party_join_request_list->0.json())
            } else {
                None
            }
        } else if index == 41 {
            if self.party_join_request is Some {
                Some(self.party_join_request->0.json())
            } else {
                None
            }
        } else if index == 42 {
            if self.party_matchmaker_add is Some {
                Some(self.party_matchmaker_add->0.json())
            } else {
                None
            }
        } else if index == 43 {
            if self.party_matchmaker_remove is Some {
                Some(self.party_matchmaker_remove->0.json())
            } else {
                None
            }
        } else if index == 44 {
            if self.party_matchmaker_ticket is Some {
                Some(self.party_matchmaker_ticket->0.json())
            } else {
                None
            }
        } else if index == 45 {
            if self.party_data is Some {
                Some(self.party_data->0.json())
            } else {
                None
            }
        } else if index == 46 {
            if self.party_data_send is Some {
                Some(self.party_data_send->0.json())
            } else {
                None
            }
        } else if index == 47 {
            if self.party_presence_event is Some {
                Some(self.party_presence_event->0.json())
            } else {
                None
            }
        } else {
            None
        }
    }

    /// What is found under `name` among the members of the first `fields`
    /// fields.
    pub open spec fn expected_upto(self, name: Seq<char>, fields: int) -> Option<JsonValue> {
        if Self::field_index(name) < fields {
            self.expected(Self::field_index(name))
        } else {
            None
        }
    }

    /// What is found among the members up to `cid`.
    proof fn lemma_expected_1(self)
        ensures
            forall|name: Seq<char>|
                #[trigger] lookup(self.members_1(), name) == self.expected_upto(name, 1),
    {
        Self::lemma_names();
        assert forall|name: Seq<char>| #[trigger]
            lookup(self.members_1(), name) == self.expected_upto(name, 1) by {
            lemma_lookup_add(self.members_0(), self.part_1(), name);
            if self.cid is Some {
                lemma_lookup_one(member("cid"@, JsonValue::Text(self.cid->0)), name);
            } else {
                lemma_lookup_none(name);
            }
            lemma_lookup_none(name);
            assert(Self::field_index(name) == 0 <==> name == "cid"@);
        }
    }

    /// What is found among the members up to `channel`.
    proof fn lemma_expected_2(self)
        ensures
            forall|name: Seq<char>|
                #[trigger] lookup(self.members_2(), name) == self.expected_upto(name, 2),
    {
        Self::lemma_names();
        self.lemma_expected_1();
        assert forall|name: Seq<char>| #[trigger]
            lookup(self.members_2(), name) == self.expected_upto(name, 2) by {
            lemma_lookup_add(self.members_1(), self.part_2(), name);
            if self.channel is Some {
                lemma_lookup_one(member("channel"@, self.channel->0.json()), name);
            } else {
                lemma_lookup_none(name);
            }
            assert(Self::field_index(name) == 1 <==> name == "channel"@);
        }
    }

    /// What is found among the members up to `channel_join`.
    proof fn lemma_expected_3(self)
        ensures
            forall|name: Seq<char>|
                #[trigger] lookup(self.members_3(), name) == self.expected_upto(name, 3),
    {
        Self::lemma_names();
        self.lemma_expected_2();
        assert forall|name: Seq<char>| #[trigger]
            lookup(self.members_3(), name) == self.expected_upto(name, 3) by {
            lemma_lookup_add(self.members_2(), self.part_3(), name);
            if self.channel_join is Some {
                lemma_lookup_one(member("channel_join"@, self.channel_join->0.json()), name);
            } else {
                lemma_lookup_none(name);
            }
            assert(Self::field_index(name) == 2 <==> name == "channel_join"@);
        }
    }

    /// What is found among the members up to `channel_leave`.
    proof fn lemma_expected_4(self)
        ensures
            forall|name: Seq<char>|
                #[trigger] lookup(self.members_4(), name) == self.expected_upto(name, 4),
    {
        Self::lemma_names();
        self.lemma_expected_3();
        assert forall|name: Seq<char>| #[trigger]
            lookup(self.members_4(), name) == self.expected_upto(name, 4) by {
            lemma_lookup_add(self.members_3(), self.part_4(), name);
            if self.channel_leave is Some {
                lemma_lookup_one(member("channel_leave"@, self.channel_leave->0.json()), name);
            } else {
                lemma_lookup_none(name);
            }
            assert(Self::field_index(name) == 3 <==> name == "channel_leave"@);
        }
    }

    /// What is found among the members up to `channel_message`.
    proof fn lemma_expected_5(self)
        ensures
            forall|name: Seq<char>|
                #[trigger] lookup(self.members_5(), name) == self.expected_upto(name, 5),
    {
        Self::lemma_names();
        self.lemma_expected_4();
        assert forall|name: Seq<char>| #[trigger]
            lookup(self.members_5(), name) == self.expected_upto(name, 5) by {
            lemma_lookup_add(self.members_4(), self.part_5(), name);
            if self.channel_message is Some {
                lemma_lookup_one(member("channel_message"@, self.channel_message->0.json()), name);
            } else {
                lemma_lookup_none(name);
            }
            assert(Self::field_index(name) == 4 <==> name == "channel_message"@);
        }
    }

    /// What is found among the members up to `channel_message_ack`.
    proof fn lemma_expected_6(self)
        ensures
            forall|name: Seq<char>|
                #[trigger] lookup(self.members_6(), name) == self.expected_upto(name, 6),
    {
        Self::lemma_names();
        self.lemma_expected_5();
        assert forall|name: Seq<char>| #[trigger]
            lookup(self.members_6(), name) == self.expected_upto(name, 6) by {
            lemma_lookup_add(self.members_5(), self.part_6(), name);
            if self.channel_message_ack is Some {
                lemma_lookup_one(member("channel_message_ack"@, self.channel_message_ack->0.json()), name);
            } else {
                lemma_lookup_none(name);
            }
            assert(Self::field_index(name) == 5 <==> name == "channel_message_ack"@);
        }
    }

    /// What is found among the members up to `channel_message_remove`.
    proof fn lemma_expected_7(self)
        ensures
            forall|name: Seq<char>|
                #[trigger] lookup(self.members_7(), name) == self.expected_upto(name, 7),
    {
        Self::lemma_names();
        self.lemma_expected_6();
        assert forall|name: Seq<char>| #[trigger]
            lookup(self.members_7(), name) == self.expected_upto(name, 7) by {
            lemma_lookup_add(self.members_6(), self.part_7(), name);
            if self.channel_message_remove is Some {
                lemma_lookup_one(member("channel_message_remove"@, self.channel_message_remove->0.json()), name);
            } else {
                lemma_lookup_none(name);
            }
            assert(Self::field_index(name) == 6 <==> name == "channel_message_remove"@);
        }
    }

    /// What is found among the members up to `channel_message_send`.
    proof fn lemma_expected_8(self)
        ensures
            forall|name: Seq<char>|
                #[trigger] lookup(self.members_8(), name) == self.expected_upto(name, 8),
    {
        Self::lemma_names();
        self.lemma_expected_7();
        assert forall|name: Seq<char>| #[trigger]
            lookup(self.members_8(), name) == self.expected_upto(name, 8) by {
            lemma_lookup_add(self.members_7(), self.part_8(), name);
            if self.channel_message_send is Some {
                lemma_lookup_one(member("channel_message_send"@, self.channel_message_send->0.json()), name);
            } else {
                lemma_lookup_none(name);
            }
            assert(Self::field_index(name) == 7 <==> name == "channel_message_send"@);
        }
    }

    /// What is found among the members up to `channel_message_update`.
    proof fn lemma_expected_9(self)
        ensures
            forall|name: Seq<char>|
                #[trigger] lookup(self.members_9(), name) == self.expected_upto(name, 9),
    {
        Self::lemma_names();
        self.lemma_expected_8();
        assert forall|name: Seq<char>| #[trigger]
            lookup(self.members_9(), name) == self.expected_upto(name, 9) by {
            lemma_lookup_add(self.members_8(), self.part_9(), name);
            if self.channel_message_update is Some {
                lemma_lookup_one(member("channel_message_update"@, self.channel_message_update->0.json()), name);
            } else {
                lemma_lookup_none(name);
            }
            assert(Self::field_index(name) == 8 <==> name == "channel_message_update"@);
        }
    }

    /// What is found among the members up to `channel_presence_event`.
    proof fn lemma_expected_10(self)
        ensures
            forall|name: Seq<char>|
                #[trigger] lookup(self.members_10(), name) == self.expected_upto(name, 10),
    {
        Self::lemma_names();
        self.lemma_expected_9();
        assert forall|name: Seq<char>| #[trigger]
            lookup(self.members_10(), name) == self.expected_upto(name, 10) by {
            lemma_lookup_add(self.members_9(), self.part_10(), name);
            if self.channel_presence_event is Some {
                lemma_lookup_one(member("channel_presence_event"@, self.channel_presence_event->0.json()), name);
            } else {
                lemma_lookup_none(name);
            }
            assert(Self::field_index(name) == 9 <==> name == "channel_presence_event"@);
        }
    }

    /// What is found among the members up to `error`.
    proof fn lemma_expected_11(self)
        ensures
            forall|name: Seq<char>|
                #[trigger] lookup(self.members_11(), name) == self.expected_upto(name, 11),
    {
        Self::lemma_names();
        self.lemma_expected_10();
        assert forall|name: Seq<char>| #[trigger]
            lookup(self.members_11(), name) == self.expected_upto(name, 11) by {
            lemma_lookup_add(self.members_10(), self.part_11(), name);
            if self.error is Some {
                lemma_lookup_one(member("error"@, self.error->0.json()), name);
            } else {
                lemma_lookup_none(name);
            }
            assert(Self::field_index(name) == 10 <==> name == "error"@);
        }
    }

    /// What is found among the members up to `matchmaker_add`.
    proof fn lemma_expected_12(self)
        ensures
            forall|name: Seq<char>|
                #[trigger] lookup(self.members_12(), name) == self.expected_upto(name, 12),
    {
        Self::lemma_names();
        self.lemma_expected_11();
        assert forall|name: Seq<char>| #[trigger]
            lookup(self.members_12(), name) == self.expected_upto(name, 12) by {
            lemma_lookup_add(self.members_11(), self.part_12(), name);
            if self.matchmaker_add is Some {
                lemma_lookup_one(member("matchmaker_add"@, self.matchmaker_add->0.json()), name);
            } else {
                lemma_lookup_none(name);
            }
            assert(Self::field_index(name) == 11 <==> name == "matchmaker_add"@);
        }
    }

    /// What is found among the members up to `matchmaker_matched`.
    proof fn lemma_expected_13(self)
        ensures
            forall|name: Seq<char>|
                #[trigger] lookup(self.members_13(), name) == self.expected_upto(name, 13),
    {
        Self::lemma_names();
        self.lemma_expected_12();
        assert forall|name: Seq<char>| #[trigger]
            lookup(self.members_13(), name) == self.expected_upto(name, 13) by {
            lemma_lookup_add(self.members_12(), self.part_13(), name);
            if self.matchmaker_matched is Some {
                lemma_lookup_one(member("matchmaker_matched"@, self.matchmaker_matched->0.json()), name);
            } else {
                lemma_lookup_none(name);
            }
            assert(Self::field_index(name) == 12 <==> name == "matchmaker_matched"@);
        }
    }

    /// What is found among the members up to `matchmaker_remove`.
    proof fn lemma_expected_14(self)
        ensures
            forall|name: Seq<char>|
                #[trigger] lookup(self.members_14(), name) == self.expected_upto(name, 14),
    {
        Self::lemma_names();
        self.lemma_expected_13();
        assert forall|name: Seq<char>| #[trigger]
            lookup(self.members_14(), name) == self.expected_upto(name, 14) by {
            lemma_lookup_add(self.members_13(), self.part_14(), name);
            if self.matchmaker_remove is Some {
                lemma_lookup_one(member("matchmaker_remove"@, self.matchmaker_remove->0.json()), name);
            } else {
                lemma_lookup_none(name);
            }
            assert(Self::field_index(name) == 13 <==> name == "matchmaker_remove"@);
        }
    }

    /// What is found among the members up to `matchmaker_ticket`.
    proof fn lemma_expected_15(self)
        ensures
            forall|name: Seq<char>|
                #[trigger] lookup(self.members_15(), name) == self.expected_upto(name, 15),
    {
        Self::lemma_names();
        self.lemma_expected_14();
        assert forall|name: Seq<char>| #[trigger]
            lookup(self.members_15(), name) == self.expected_upto(name, 15) by {
            lemma_lookup_add(self.members_14(), self.part_15(), name);
            if self.matchmaker_ticket is Some {
                lemma_lookup_one(member("matchmaker_ticket"@, self.matchmaker_ticket->0.json()), name);
            } else {
                lemma_lookup_none(name);
            }
            assert(Self::field_index(name) == 14 <==> name == "matchmaker_ticket"@);
        }
    }

    /// What is found among the members up to `match`.
    proof fn lemma_expected_16(self)
        ensures
            forall|name: Seq<char>|
                #[trigger] lookup(self.members_16(), name) == self.expected_upto(name, 16),
    {
        Self::lemma_names();
        self.lemma_expected_15();
        assert forall|name: Seq<char>| #[trigger]
            lookup(self.members_16(), name) == self.expected_upto(name, 16) by {
            lemma_lookup_add(self.members_15(), self.part_16(), name);
            if self.new_match is Some {
                lemma_lookup_one(member("match"@, self.new_match->0.json()), name);
            } else {
                lemma_lookup_none(name);
            }
            assert(Self::field_index(name) == 15 <==> name == "match"@);
        }
    }

    /// What is found among the members up to `match_create`.
    proof fn lemma_expected_17(self)
        ensures
            forall|name: Seq<char>|
                #[trigger] lookup(self.members_17(), name) == self.expected_upto(name, 17),
    {
        Self::lemma_names();
        self.lemma_expected_16();
        assert forall|name: Seq<char>| #[trigger]
            lookup(self.members_17(), name) == self.expected_upto(name, 17) by {
            lemma_lookup_add(self.members_16(), self.part_17(), name);
            if self.match_create is Some {
                lemma_lookup_one(member("match_create"@, self.match_create->0.json()), name);
            } else {
                lemma_lookup_none(name);
            }
            assert(Self::field_index(name) == 16 <==> name == "match_create"@);
        }
    }

    /// What is found among the members up to `match_join`.
    proof fn lemma_expected_18(self)
        ensures
            forall|name: Seq<char>|
                #[trigger] lookup(self.members_18(), name) == self.expected_upto(name, 18),
    {
        Self::lemma_names();
        self.lemma_expected_17();
        assert forall|name: Seq<char>| #[trigger]
            lookup(self.members_18(), name) == self.expected_upto(name, 18) by {
            lemma_lookup_add(self.members_17(), self.part_18(), name);
            if self.match_join is Some {
                lemma_lookup_one(member("match_join"@, self.match_join->0.json()), name);
            } else {
                lemma_lookup_none(name);
            }
            assert(Self::field_index(name) == 17 <==> name == "match_join"@);
        }
    }

    /// What is found among the members up to `match_leave`.
    proof fn lemma_expected_19(self)
        ensures
            forall|name: Seq<char>|
                #[trigger] lookup(self.members_19(), name) == self.expected_upto(name, 19),
    {
        Self::lemma_names();
        self.lemma_expected_18();
        assert forall|name: Seq<char>| #[trigger]
            lookup(self.members_19(), name) == self.expected_upto(name, 19) by {
            lemma_lookup_add(self.members_18(), self.part_19(), name);
            if self.match_leave is Some {
                lemma_lookup_one(member("match_leave"@, self.match_leave->0.json()), name);
            } else {
                lemma_lookup_none(name);
            }
            assert(Self::field_index(name) == 18 <==> name == "match_leave"@);
        }
    }

    /// What is found among the members up to `match_presence_event`.
    proof fn lemma_expected_20(self)
        ensures
            forall|name: Seq<char>|
                #[trigger] lookup(self.members_20(), name) == self.expected_upto(name, 20),
    {
        Self::lemma_names();
        self.lemma_expected_19();
        assert forall|name: Seq<char>| #[trigger]
            lookup(self.members_20(), name) == self.expected_upto(name, 20) by {
            lemma_lookup_add(self.members_19(), self.part_20(), name);
            if self.match_presence_event is Some {
                lemma_lookup_one(member("match_presence_event"@, self.match_presence_event->0.json()), name);
            } else {
                lemma_lookup_none(name);
            }
            assert(Self::field_index(name) == 19 <==> name == "match_presence_event"@);
        }
    }

    /// What is found among the members up to `match_data`.
    proof fn lemma_expected_21(self)
        ensures
            forall|name: Seq<char>|
                #[trigger] lookup(self.members_21(), name) == self.expected_upto(name, 21),
    {
        Self::lemma_names();
        self.lemma_expected_20();
        assert forall|name: Seq<char>| #[trigger]
            lookup(self.members_21(), name) == self.expected_upto(name, 21) by {
            lemma_lookup_add(self.members_20(), self.part_21(), name);
            if self.match_data is Some {
                lemma_lookup_one(member("match_data"@, self.match_data->0.json()), name);
            } else {
                lemma_lookup_none(name);
            }
            assert(Self::field_index(name) == 20 <==> name == "match_data"@);
        }
    }

    /// What is found among the members up to `match_data_send`.
    proof fn lemma_expected_22(self)
        ensures
            forall|name: Seq<char>|
                #[trigger] lookup(self.members_22(), name) == self.expected_upto(name, 22),
    {
        Self::lemma_names();
        self.lemma_expected_21();
        assert forall|name: Seq<char>| #[trigger]
            lookup(self.members_22(), name) == self.expected_upto(name, 22) by {
            lemma_lookup_add(self.members_21(), self.part_22(), name);
            if self.match_data_send is Some {
                lemma_lookup_one(member("match_data_send"@, self.match_data_send->0.json()), name);
            } else {
                lemma_lookup_none(name);
            }
            assert(Self::field_index(name) == 21 <==> name == "match_data_send"@);
        }
    }

    /// What is found among the members up to `notifications`.
    proof fn lemma_expected_23(self)
        ensures
            forall|name: Seq<char>|
                #[trigger] lookup(self.members_23(), name) == self.expected_upto(name, 23),
    {
        Self::lemma_names();
        self.lemma_expected_22();
        assert forall|name: Seq<char>| #[trigger]
            lookup(self.members_23(), name) == self.expected_upto(name, 23) by {
            lemma_lookup_add(self.members_22(), self.part_23(), name);
            if self.notifications is Some {
                lemma_lookup_one(member("notifications"@, self.notifications->0.json()), name);
            } else {
                lemma_lookup_none(name);
            }
            assert(Self::field_index(name) == 22 <==> name == "notifications"@);
        }
    }

    /// What is found among the members up to `rpc`.
    proof fn lemma_expected_24(self)
        ensures
            forall|name: Seq<char>|
                #[trigger] lookup(self.members_24(), name) == self.expected_upto(name, 24),
    {
        Self::lemma_names();
        self.lemma_expected_23();
        assert forall|name: Seq<char>| #[trigger]
            lookup(self.members_24(), name) == self.expected_upto(name, 24) by {
            lemma_lookup_add(self.members_23(), self.part_24(), name);
            if self.rpc is Some {
                lemma_lookup_one(member("rpc"@, self.rpc->0.json()), name);
            } else {
                lemma_lookup_none(name);
            }
            assert(Self::field_index(name) == 23 <==> name == "rpc"@);
        }
    }

    /// What is found among the members up to `status`.
    proof fn lemma_expected_25(self)
        ensures
            forall|name: Seq<char>|
                #[trigger] lookup(self.members_25(), name) == self.expected_upto(name, 25),
    {
        Self::lemma_names();
        self.lemma_expected_24();
        assert forall|name: Seq<char>| #[trigger]
            lookup(self.members_25(), name) == self.expected_upto(name, 25) by {
            lemma_lookup_add(self.members_24(), self.part_25(), name);
            if self.status is Some {
                lemma_lookup_one(member("status"@, self.status->0.json()), name);
            } else {
                lemma_lookup_none(name);
            }
            assert(Self::field_index(name) == 24 <==> name == "status"@);
        }
    }

    /// What is found among the members up to `status_follow`.
    proof fn lemma_expected_26(self)
        ensures
            forall|name: Seq<char>|
                #[trigger] lookup(self.members_26(), name) == self.expected_upto(name, 26),
    {
        Self::lemma_names();
        self.lemma_expected_25();
        assert forall|name: Seq<char>| #[trigger]
            lookup(self.members_26(), name) == self.expected_upto(name, 26) by {
            lemma_lookup_add(self.members_25(), self.part_26(), name);
            if self.status_follow is Some {
                lemma_lookup_one(member("status_follow"@, self.status_follow->0.json()), name);
            } else {
                lemma_lookup_none(name);
            }
            assert(Self::field_index(name) == 25 <==> name == "status_follow"@);
        }
    }

    /// What is found among the members up to `status_presence_event`.
    proof fn lemma_expected_27(self)
        ensures
            forall|name: Seq<char>|
                #[trigger] lookup(self.members_27(), name) == self.expected_upto(name, 27),
    {
        Self::lemma_names();
        self.lemma_expected_26();
        assert forall|name: Seq<char>| #[trigger]
            lookup(self.members_27(), name) == self.expected_upto(name, 27) by {
            lemma_lookup_add(self.members_26(), self.part_27(), name);
            if self.status_presence_event is Some {
                lemma_lookup_one(member("status_presence_event"@, self.status_presence_event->0.json()), name);
            } else {
                lemma_lookup_none(name);
            }
            assert(Self::field_index(name) == 26 <==> name == "status_presence_event"@);
        }
    }

    /// What is found among the members up to `status_unfollow`.
    proof fn lemma_expected_28(self)
        ensures
            forall|name: Seq<char>|
                #[trigger] lookup(self.members_28(), name) == self.expected_upto(name, 28),
    {
        Self::lemma_names();
        self.lemma_expected_27();
        assert forall|name: Seq<char>| #[trigger]
            lookup(self.members_28(), name) == self.expected_upto(name, 28) by {
            lemma_lookup_add(self.members_27(), self.part_28(), name);
            if self.status_unfollow is Some {
                lemma_lookup_one(member("status_unfollow"@, self.status_unfollow->0.json()), name);
            } else {
                lemma_lookup_none(name);
            }
            assert(Self::field_index(name) == 27 <==> name == "status_unfollow"@);
        }
    }

    /// What is found among the members up to `status_update`.
    proof fn lemma_expected_29(self)
        ensures
            forall|name: Seq<char>|
                #[trigger] lookup(self.members_29(), name) == self.expected_upto(name, 29),
    {
        Self::lemma_names();
        self.lemma_expected_28();
        assert forall|name: Seq<char>| #[trigger]
            lookup(self.members_29(), name) == self.expected_upto(name, 29) by {
            lemma_lookup_add(self.members_28(), self.part_29(), name);
            if self.status_update is Some {
                lemma_lookup_one(member("status_update"@, self.status_update->0.json()), name);
            } else {
                lemma_lookup_none(name);
            }
            assert(Self::field_index(name) == 28 <==> name == "status_update"@);
        }
    }

    /// What is found among the members up to `stream_presence_event`.
    proof fn lemma_expected_30(self)
        ensures
            forall|name: Seq<char>|
                #[trigger] lookup(self.members_30(), name) == self.expected_upto(name, 30),
    {
        Self::lemma_names();
        self.lemma_expected_29();
        assert forall|name: Seq<char>| #[trigger]
            lookup(self.members_30(), name) == self.expected_upto(name, 30) by {
            lemma_lookup_add(self.members_29(), self.part_30(), name);
            if self.stream_presence_event is Some {
                lemma_lookup_one(member("stream_presence_event"@, self.stream_presence_event->0.json()), name);
            } else {
                lemma_lookup_none(name);
            }
            assert(Self::field_index(name) == 29 <==> name == "stream_presence_event"@);
        }
    }

    /// What is found among the members up to `stream_data`.
    proof fn lemma_expected_31(self)
        ensures
            forall|name: Seq<char>|
                #[trigger] lookup(self.members_31(), name) == self.expected_upto(name, 31),
    {
        Self::lemma_names();
        self.lemma_expected_30();
        assert forall|name: Seq<char>| #[trigger]
            lookup(self.members_31(), name) == self.expected_upto(name, 31) by {
            lemma_lookup_add(self.members_30(), self.part_31(), name);
            if self.stream_data is Some {
                lemma_lookup_one(member("stream_data"@, self.stream_data->0.json()), name);
            } else {
                lemma_lookup_none(name);
            }
            assert(Self::field_index(name) == 30 <==> name == "stream_data"@);
        }
    }

    /// What is found among the members up to `party`.
    proof fn lemma_expected_32(self)
        ensures
            forall|name: Seq<char>|
                #[trigger] lookup(self.members_32(), name) == self.expected_upto(name, 32),
    {
        Self::lemma_names();
        self.lemma_expected_31();
        assert forall|name: Seq<char>| #[trigger]
            lookup(self.members_32(), name) == self.expected_upto(name, 32) by {
            lemma_lookup_add(self.members_31(), self.part_32(), name);
            if self.party is Some {
                lemma_lookup_one(member("party"@, self.party->0.json()), name);
            } else {
                lemma_lookup_none(name);
            }
            assert(Self::field_index(name) == 31 <==> name == "party"@);
        }
    }

    /// What is found among the members up to `party_create`.
    proof fn lemma_expected_33(self)
        ensures
            forall|name: Seq<char>|
                #[trigger] lookup(self.members_33(), name) == self.expected_upto(name, 33),
    {
        Self::lemma_names();
        self.lemma_expected_32();
        assert forall|name: Seq<char>| #[trigger]
            lookup(self.members_33(), name) == self.expected_upto(name, 33) by {
            lemma_lookup_add(self.members_32(), self.part_33(), name);
            if self.party_create is Some {
                lemma_lookup_one(member("party_create"@, self.party_create->0.json()), name);
            } else {
                lemma_lookup_none(name);
            }
            assert(Self::field_index(name) == 32 <==> name == "party_create"@);
        }
    }

    /// What is found among the members up to `party_join`.
    proof fn lemma_expected_34(self)
        ensures
            forall|name: Seq<char>|
                #[trigger] lookup(self.members_34(), name) == self.expected_upto(name, 34),
    {
        Self::lemma_names();
        self.lemma_expected_33();
        assert forall|name: Seq<char>| #[trigger]
            lookup(self.members_34(), name) == self.expected_upto(name, 34) by {
            lemma_lookup_add(self.members_33(), self.part_34(), name);
            if self.party_join is Some {
                lemma_lookup_one(member("party_join"@, self.party_join->0.json()), name);
            } else {
                lemma_lookup_none(name);
            }
            assert(Self::field_index(name) == 33 <==> name == "party_join"@);
        }
    }

    /// What is found among the members up to `party_leave`.
    proof fn lemma_expected_35(self)
        ensures
            forall|name: Seq<char>|
                #[trigger] lookup(self.members_35(), name) == self.expected_upto(name, 35),
    {
        Self::lemma_names();
        self.lemma_expected_34();
        assert forall|name: Seq<char>| #[trigger]
            lookup(self.members_35(), name) == self.expected_upto(name, 35) by {
            lemma_lookup_add(self.members_34(), self.part_35(), name);
            if self.party_leave is Some {
                lemma_lookup_one(member("party_leave"@, self.party_leave->0.json()), name);
            } else {
                lemma_lookup_none(name);
            }
            assert(Self::field_index(name) == 34 <==> name == "party_leave"@);
        }
    }

    /// What is found among the members up to `party_promote`.
    proof fn lemma_expected_36(self)
        ensures
            forall|name: Seq<char>|
                #[trigger] lookup(self.members_36(), name) == self.expected_upto(name, 36),
    {
        Self::lemma_names();
        self.lemma_expected_35();
        assert forall|name: Seq<char>| #[trigger]
            lookup(self.members_36(), name) == self.expected_upto(name, 36) by {
            lemma_lookup_add(self.members_35(), self.part_36(), name);
            if self.party_promote is Some {
                lemma_lookup_one(member("party_promote"@, self.party_promote->0.json()), name);
            } else {
                lemma_lookup_none(name);
            }
            assert(Self::field_index(name) == 35 <==> name == "party_promote"@);
        }
    }

    /// What is found among the members up to `party_leader`.
    proof fn lemma_expected_37(self)
        ensures
            forall|name: Seq<char>|
                #[trigger] lookup(self.members_37(), name) == self.expected_upto(name, 37),
    {
        Self::lemma_names();
        self.lemma_expected_36();
        assert forall|name: Seq<char>| #[trigger]
            lookup(self.members_37(), name) == self.expected_upto(name, 37) by {
            lemma_lookup_add(self.members_36(), self.part_37(), name);
            if self.party_leader is Some {
                lemma_lookup_one(member("party_leader"@, self.party_leader->0.json()), name);
            } else {
                lemma_lookup_none(name);
            }
            assert(Self::field_index(name) == 36 <==> name == "party_leader"@);
        }
    }

    /// What is found among the members up to `party_accept`.
    proof fn lemma_expected_38(self)
        ensures
            forall|name: Seq<char>|
                #[trigger] lookup(self.members_38(), name) == self.expected_upto(name, 38),
    {
        Self::lemma_names();
        self.lemma_expected_37();
        assert forall|name: Seq<char>| #[trigger]
            lookup(self.members_38(), name) == self.expected_upto(name, 38) by {
            lemma_lookup_add(self.members_37(), self.part_38(), name);
            if self.party_accept is Some {
                lemma_lookup_one(member("party_accept"@, self.party_accept->0.json()), name);
            } else {
                lemma_lookup_none(name);
            }
            assert(Self::field_index(name) == 37 <==> name == "party_accept"@);
        }
    }

    /// What is found among the members up to `party_remove`.
    proof fn lemma_expected_39(self)
        ensures
            forall|name: Seq<char>|
                #[trigger] lookup(self.members_39(), name) == self.expected_upto(name, 39),
    {
        Self::lemma_names();
        self.lemma_expected_38();
        assert forall|name: Seq<char>| #[trigger]
            lookup(self.members_39(), name) == self.expected_upto(name, 39) by {
            lemma_lookup_add(self.members_38(), self.part_39(), name);
            if self.party_remove is Some {
                lemma_lookup_one(member("party_remove"@, self.party_remove->0.json()), name);
            } else {
                lemma_lookup_none(name);
            }
            assert(Self::field_index(name) == 38 <==> name == "party_remove"@);
        }
    }

    /// What is found among the members up to `party_close`.
    proof fn lemma_expected_40(self)
        ensures
            forall|name: Seq<char>|
                #[trigger] lookup(self.members_40(), name) == self.expected_upto(name, 40),
    {
        Self::lemma_names();
        self.lemma_expected_39();
        assert forall|name: Seq<char>| #[trigger]
            lookup(self.members_40(), name) == self.expected_upto(name, 40) by {
            lemma_lookup_add(self.members_39(), self.part_40(), name);
            if self.party_close is Some {
                lemma_lookup_one(member("party_close"@, self.party_close->0.json()), name);
            } else {
                lemma_lookup_none(name);
            }
            assert(Self::field_index(name) == 39 <==> name == "party_close"@);
        }
    }

    /// What is found among the members up to `party_join_request_list`.
    proof fn lemma_expected_41(self)
        ensures
            forall|name: Seq<char>|
                #[trigger] lookup(self.members_41(), name) == self.expected_upto(name, 41),
    {
        Self::lemma_names();
        self.lemma_expected_40();
        assert forall|name: Seq<char>| #[trigger]
            lookup(self.members_41(), name) == self.expected_upto(name, 41) by {
            lemma_lookup_add(self.members_40(), self.part_41(), name);
            if self.party_join_request_list is Some {
                lemma_lookup_one(member("party_join_request_list"@, self.party_join_request_list->0.json()), name);
            } else {
                lemma_lookup_none(name);
            }
            assert(Self::field_index(name) == 40 <==> name == "party_join_request_list"@);
        }
    }

    /// What is found among the members up to `party_join_request`.
    proof fn lemma_expected_42(self)
        ensures
            forall|name: Seq<char>|
                #[trigger] lookup(self.members_42(), name) == self.expected_upto(name, 42),
    {
        Self::lemma_names();
        self.lemma_expected_41();
        assert forall|name: Seq<char>| #[trigger]
            lookup(self.members_42(), name) == self.expected_upto(name, 42) by {
            lemma_lookup_add(self.members_41(), self.part_42(), name);
            if self.party_join_request is Some {
                lemma_lookup_one(member("party_join_request"@, self.party_join_request->0.json()), name);
            } else {
                lemma_lookup_none(name);
            }
            assert(Self::field_index(name) == 41 <==> name == "party_join_request"@);
        }
    }

    /// What is found among the members up to `party_matchmaker_add`.
    proof fn lemma_expected_43(self)
        ensures
            forall|name: Seq<char>|
                #[trigger] lookup(self.members_43(), name) == self.expected_upto(name, 43),
    {
        Self::lemma_names();
        self.lemma_expected_42();
        assert forall|name: Seq<char>| #[trigger]
            lookup(self.members_43(), name) == self.expected_upto(name, 43) by {
            lemma_lookup_add(self.members_42(), self.part_43(), name);
            if self.party_matchmaker_add is Some {
                lemma_lookup_one(member("party_matchmaker_add"@, self.party_matchmaker_add->0.json()), name);
            } else {
                lemma_lookup_none(name);
            }
            assert(Self::field_index(name) == 42 <==> name == "party_matchmaker_add"@);
        }
    }

    /// What is found among the members up to `party_matchmaker_remove`.
    proof fn lemma_expected_44(self)
        ensures
            forall|name: Seq<char>|
                #[trigger] lookup(self.members_44(), name) == self.expected_upto(name, 44),
    {
        Self::lemma_names();
        self.lemma_expected_43();
        assert forall|name: Seq<char>| #[trigger]
            lookup(self.members_44(), name) == self.expected_upto(name, 44) by {
            lemma_lookup_add(self.members_43(), self.part_44(), name);
            if self.party_matchmaker_remove is Some {
                lemma_lookup_one(member("party_matchmaker_remove"@, self.party_matchmaker_remove->0.json()), name);
            } else {
                lemma_lookup_none(name);
            }
            assert(Self::field_index(name) == 43 <==> name == "party_matchmaker_remove"@);
        }
    }

    /// What is found among the members up to `party_matchmaker_ticket`.
    proof fn lemma_expected_45(self)
        ensures
            forall|name: Seq<char>|
                #[trigger] lookup(self.members_45(), name) == self.expected_upto(name, 45),
    {
        Self::lemma_names();
        self.lemma_expected_44();
        assert forall|name: Seq<char>| #[trigger]
            lookup(self.members_45(), name) == self.expected_upto(name, 45) by {
            lemma_lookup_add(self.members_44(), self.part_45(), name);
            if self.party_matchmaker_ticket is Some {
                lemma_lookup_one(member("party_matchmaker_ticket"@, self.party_matchmaker_ticket->0.json()), name);
            } else {
                lemma_lookup_none(name);
            }
            assert(Self::field_index(name) == 44 <==> name == "party_matchmaker_ticket"@);
        }
    }

    /// What is found among the members up to `party_data`.
    proof fn lemma_expected_46(self)
        ensures
            forall|name: Seq<char>|
                #[trigger] lookup(self.members_46(), name) == self.expected_upto(name, 46),
    {
        Self::lemma_names();
        self.lemma_expected_45();
        assert forall|name: Seq<char>| #[trigger]
            lookup(self.members_46(), name) == self.expected_upto(name, 46) by {
            lemma_lookup_add(self.members_45(), self.part_46(), name);
            if self.party_data is Some {
                lemma_lookup_one(member("party_data"@, self.party_data->0.json()), name);
            } else {
                lemma_lookup_none(name);
            }
            assert(Self::field_index(name) == 45 <==> name == "party_data"@);
        }
    }

    /// What is found among the members up to `party_data_send`.
    proof fn lemma_expected_47(self)
        ensures
            forall|name: Seq<char>|
                #[trigger] lookup(self.members_47(), name) == self.expected_upto(name, 47),
    {
        Self::lemma_names();
        self.lemma_expected_46();
        assert forall|name: Seq<char>| #[trigger]
            lookup(self.members_47(), name) == self.expected_upto(name, 47) by {
            lemma_lookup_add(self.members_46(), self.part_47(), name);
            if self.party_data_send is Some {
                lemma_lookup_one(member("party_data_send"@, self.party_data_send->0.json()), name);
            } else {
                lemma_lookup_none(name);
            }
            assert(Self::field_index(name) == 46 <==> name == "party_data_send"@);
        }
    }

    /// What is found among the members up to `party_presence_event`.
    proof fn lemma_expected_48(self)
        ensures
            forall|name: Seq<char>|
                #[trigger] lookup(self.members_48(), name) == self.expected_upto(name, 48),
    {
        Self::lemma_names();
        self.lemma_expected_47();
        assert forall|name: Seq<char>| #[trigger]
            lookup(self.members_48(), name) == self.expected_upto(name, 48) by {
            lemma_lookup_add(self.members_47(), self.part_48(), name);
            if self.party_presence_event is Some {
                lemma_lookup_one(member("party_presence_event"@, self.party_presence_event->0.json()), name);
            } else {
                lemma_lookup_none(name);
            }
            assert(Self::field_index(name) == 47 <==> name == "party_presence_event"@);
        }
    }

    /// Where `cid` is looked up.
    proof fn lemma_lookup_1(self)
        ensures
            lookup(self.members_48(), "cid"@) == if self.cid is Some {
                Some(JsonValue::Text(self.cid->0))
            } else {
                None
            },
    {
        Self::lemma_names();
        self.lemma_expected_48();
    }

    /// Where `channel` is looked up.
    proof fn lemma_lookup_2(self)
        ensures
            lookup(self.members_48(), "channel"@) == if self.channel is Some {
                Some(self.channel->0.json())
            } else {
                None
            },
    {
        Self::lemma_names();
        self.lemma_expected_48();
    }

    /// Where `channel_join` is looked up.
    proof fn lemma_lookup_3(self)
        ensures
            lookup(self.members_48(), "channel_join"@) == if self.channel_join is Some {
                Some(self.channel_join->0.json())
            } else {
                None
            },
    {
        Self::lemma_names();
        self.lemma_expected_48();
    }

    /// Where `channel_leave` is looked up.
    proof fn lemma_lookup_4(self)
        ensures
            lookup(self.members_48(), "channel_leave"@) == if self.channel_leave is Some {
                Some(self.channel_leave->0.json())
            } else {
                None
            },
    {
        Self::lemma_names();
        self.lemma_expected_48();
    }

    /// Where `channel_message` is looked up.
    proof fn lemma_lookup_5(self)
        ensures
            lookup(self.members_48(), "channel_message"@) == if self.channel_message is Some {
                Some(self.channel_message->0.json())
            } else {
                None
            },
    {
        Self::lemma_names();
        self.lemma_expected_48();
    }

    /// Where `channel_message_ack` is looked up.
    proof fn lemma_lookup_6(self)
        ensures
            lookup(self.members_48(), "channel_message_ack"@) == if self.channel_message_ack is Some {
                Some(self.channel_message_ack->0.json())
            } else {
                None
            },
    {
        Self::lemma_names();
        self.lemma_expected_48();
    }

    /// Where `channel_message_remove` is looked up.
    proof fn lemma_lookup_7(self)
        ensures
            lookup(self.members_48(), "channel_message_remove"@) == if self.channel_message_remove is Some {
                Some(self.channel_message_remove->0.json())
            } else {
                None
            },
    {
        Self::lemma_names();
        self.lemma_expected_48();
    }

    /// Where `channel_message_send` is looked up.
    proof fn lemma_lookup_8(self)
        ensures
            lookup(self.members_48(), "channel_message_send"@) == if self.channel_message_send is Some {
                Some(self.channel_message_send->0.json())
            } else {
                None
            },
    {
        Self::lemma_names();
        self.lemma_expected_48();
    }

    /// Where `channel_message_update` is looked up.
    proof fn lemma_lookup_9(self)
        ensures
            lookup(self.members_48(), "channel_message_update"@) == if self.channel_message_update is Some {
                Some(self.channel_message_update->0.json())
            } else {
                None
            },
    {
        Self::lemma_names();
        self.lemma_expected_48();
    }

    /// Where `channel_presence_event` is looked up.
    proof fn lemma_lookup_10(self)
        ensures
            lookup(self.members_48(), "channel_presence_event"@) == if self.channel_presence_event is Some {
                Some(self.channel_presence_event->0.json())
            } else {
                None
            },
    {
        Self::lemma_names();
        self.lemma_expected_48();
    }

    /// Where `error` is looked up.
    proof fn lemma_lookup_11(self)
        ensures
            lookup(self.members_48(), "error"@) == if self.error is Some {
                Some(self.error->0.json())
            } else {
                None
            },
    {
        Self::lemma_names();
        self.lemma_expected_48();
    }

    /// Where `matchmaker_add` is looked up.
    proof fn lemma_lookup_12(self)
        ensures
            lookup(self.members_48(), "matchmaker_add"@) == if self.matchmaker_add is Some {
                Some(self.matchmaker_add->0.json())
            } else {
                None
            },
    {
        Self::lemma_names();
        self.lemma_expected_48();
    }

    /// Where `matchmaker_matched` is looked up.
    proof fn lemma_lookup_13(self)
        ensures
            lookup(self.members_48(), "matchmaker_matched"@) == if self.matchmaker_matched is Some {
                Some(self.matchmaker_matched->0.json())
            } else {
                None
            },
    {
        Self::lemma_names();
        self.lemma_expected_48();
    }

    /// Where `matchmaker_remove` is looked up.
    proof fn lemma_lookup_14(self)
        ensures
            lookup(self.members_48(), "matchmaker_remove"@) == if self.matchmaker_remove is Some {
                Some(self.matchmaker_remove->0.json())
            } else {
                None
            },
    {
        Self::lemma_names();
        self.lemma_expected_48();
    }

    /// Where `matchmaker_ticket` is looked up.
    proof fn lemma_lookup_15(self)
        ensures
            lookup(self.members_48(), "matchmaker_ticket"@) == if self.matchmaker_ticket is Some {
                Some(self.matchmaker_ticket->0.json())
            } else {
                None
            },
    {
        Self::lemma_names();
        self.lemma_expected_48();
    }

    /// Where `match` is looked up.
    proof fn lemma_lookup_16(self)
        ensures
            lookup(self.members_48(), "match"@) == if self.new_match is Some {
                Some(self.new_match->0.json())
            } else {
                None
            },
    {
        Self::lemma_names();
        self.lemma_expected_48();
    }

    /// Where `match_create` is looked up.
    proof fn lemma_lookup_17(self)
        ensures
            lookup(self.members_48(), "match_create"@) == if self.match_create is Some {
                Some(self.match_create->0.json())
            } else {
                None
            },
    {
        Self::lemma_names();
        self.lemma_expected_48();
    }

    /// Where `match_join` is looked up.
    proof fn lemma_lookup_18(self)
        ensures
            lookup(self.members_48(), "match_join"@) == if self.match_join is Some {
                Some(self.match_join->0.json())
            } else {
                None
            },
    {
        Self::lemma_names();
        self.lemma_expected_48();
    }

    /// Where `match_leave` is looked up.
    proof fn lemma_lookup_19(self)
        ensures
            lookup(self.members_48(), "match_leave"@) == if self.match_leave is Some {
                Some(self.match_leave->0.json())
            } else {
                None
            },
    {
        Self::lemma_names();
        self.lemma_expected_48();
    }

    /// Where `match_presence_event` is looked up.
    proof fn lemma_lookup_20(self)
        ensures
            lookup(self.members_48(), "match_presence_event"@) == if self.match_presence_event is Some {
                Some(self.match_presence_event->0.json())
            } else {
                None
            },
    {
        Self::lemma_names();
        self.lemma_expected_48();
    }

    /// Where `match_data` is looked up.
    proof fn lemma_lookup_21(self)
        ensures
            lookup(self.members_48(), "match_data"@) == if self.match_data is Some {
                Some(self.match_data->0.json())
            } else {
                None
            },
    {
        Self::lemma_names();
        self.lemma_expected_48();
    }

    /// Where `match_data_send` is looked up.
    proof fn lemma_lookup_22(self)
        ensures
            lookup(self.members_48(), "match_data_send"@) == if self.match_data_send is Some {
                Some(self.match_data_send->0.json())
            } else {
                None
            },
    {
        Self::lemma_names();
        self.lemma_expected_48();
    }

    /// Where `notifications` is looked up.
    proof fn lemma_lookup_23(self)
        ensures
            lookup(self.members_48(), "notifications"@) == if self.notifications is Some {
                Some(self.notifications->0.json())
            } else {
                None
            },
    {
        Self::lemma_names();
        self.lemma_expected_48();
    }

    /// Where `rpc` is looked up.
    proof fn lemma_lookup_24(self)
        ensures
            lookup(self.members_48(), "rpc"@) == if self.rpc is Some {
                Some(self.rpc->0.json())
            } else {
                None
            },
    {
        Self::lemma_names();
        self.lemma_expected_48();
    }

    /// Where `status` is looked up.
    proof fn lemma_lookup_25(self)
        ensures
            lookup(self.members_48(), "status"@) == if self.status is Some {
                Some(self.status->0.json())
            } else {
                None
            },
    {
        Self::lemma_names();
        self.lemma_expected_48();
    }

    /// Where `status_follow` is looked up.
    proof fn lemma_lookup_26(self)
        ensures
            lookup(self.members_48(), "status_follow"@) == if self.status_follow is Some {
                Some(self.status_follow->0.json())
            } else {
                None
            },
    {
        Self::lemma_names();
        self.lemma_expected_48();
    }

    /// Where `status_presence_event` is looked up.
    proof fn lemma_lookup_27(self)
        ensures
            lookup(self.members_48(), "status_presence_event"@) == if self.status_presence_event is Some {
                Some(self.status_presence_event->0.json())
            } else {
                None
            },
    {
        Self::lemma_names();
        self.lemma_expected_48();
    }

    /// Where `status_unfollow` is looked up.
    proof fn lemma_lookup_28(self)
        ensures
            lookup(self.members_48(), "status_unfollow"@) == if self.status_unfollow is Some {
                Some(self.status_unfollow->0.json())
            } else {
                None
            },
    {
        Self::lemma_names();
        self.lemma_expected_48();
    }

    /// Where `status_update` is looked up.
    proof fn lemma_lookup_29(self)
        ensures
            lookup(self.members_48(), "status_update"@) == if self.status_update is Some {
                Some(self.status_update->0.json())
            } else {
                None
            },
    {
        Self::lemma_names();
        self.lemma_expected_48();
    }

    /// Where `stream_presence_event` is looked up.
    proof fn lemma_lookup_30(self)
        ensures
            lookup(self.members_48(), "stream_presence_event"@) == if self.stream_presence_event is Some {
                Some(self.stream_presence_event->0.json())
            } else {
                None
            },
    {
        Self::lemma_names();
        self.lemma_expected_48();
    }

    /// Where `stream_data` is looked up.
    proof fn lemma_lookup_31(self)
        ensures
            lookup(self.members_48(), "stream_data"@) == if self.stream_data is Some {
                Some(self.stream_data->0.json())
            } else {
                None
            },
    {
        Self::lemma_names();
        self.lemma_expected_48();
    }

    /// Where `party` is looked up.
    proof fn lemma_lookup_32(self)
        ensures
            lookup(self.members_48(), "party"@) == if self.party is Some {
                Some(self.party->0.json())
            } else {
                None
            },
    {
        Self::lemma_names();
        self.lemma_expected_48();
    }

    /// Where `party_create` is looked up.
    proof fn lemma_lookup_33(self)
        ensures
            lookup(self.members_48(), "party_create"@) == if self.party_create is Some {
                Some(self.party_create->0.json())
            } else {
                None
            },
    {
        Self::lemma_names();
        self.lemma_expected_48();
    }

    /// Where `party_join` is looked up.
    proof fn lemma_lookup_34(self)
        ensures
            lookup(self.members_48(), "party_join"@) == if self.party_join is Some {
                Some(self.party_join->0.json())
            } else {
                None
            },
    {
        Self::lemma_names();
        self.lemma_expected_48();
    }

    /// Where `party_leave` is looked up.
    proof fn lemma_lookup_35(self)
        ensures
            lookup(self.members_48(), "party_leave"@) == if self.party_leave is Some {
                Some(self.party_leave->0.json())
            } else {
                None
            },
    {
        Self::lemma_names();
        self.lemma_expected_48();
    }

    /// Where `party_promote` is looked up.
    proof fn lemma_lookup_36(self)
        ensures
            lookup(self.members_48(), "party_promote"@) == if self.party_promote is Some {
                Some(self.party_promote->0.json())
            } else {
                None
            },
    {
        Self::lemma_names();
        self.lemma_expected_48();
    }

    /// Where `party_leader` is looked up.
    proof fn lemma_lookup_37(self)
        ensures
            lookup(self.members_48(), "party_leader"@) == if self.party_leader is Some {
                Some(self.party_leader->0.json())
            } else {
                None
            },
    {
        Self::lemma_names();
        self.lemma_expected_48();
    }

    /// Where `party_accept` is looked up.
    proof fn lemma_lookup_38(self)
        ensures
            lookup(self.members_48(), "party_accept"@) == if self.party_accept is Some {
                Some(self.party_accept->0.json())
            } else {
                None
            },
    {
        Self::lemma_names();
        self.lemma_expected_48();
    }

    /// Where `party_remove` is looked up.
    proof fn lemma_lookup_39(self)
        ensures
            lookup(self.members_48(), "party_remove"@) == if self.party_remove is Some {
                Some(self.party_remove->0.json())
            } else {
                None
            },
    {
        Self::lemma_names();
        self.lemma_expected_48();
    }

    /// Where `party_close` is looked up.
    proof fn lemma_lookup_40(self)
        ensures
            lookup(self.members_48(), "party_close"@) == if self.party_close is Some {
                Some(self.party_close->0.json())
            } else {
                None
            },
    {
        Self::lemma_names();
        self.lemma_expected_48();
    }

    /// Where `party_join_request_list` is looked up.
    proof fn lemma_lookup_41(self)
        ensures
            lookup(self.members_48(), "party_join_request_list"@) == if self.party_join_request_list is Some {
                Some(self.party_join_request_list->0.json())
            } else {
                None
            },
    {
        Self::lemma_names();
        self.lemma_expected_48();
    }

    /// Where `party_join_request` is looked up.
    proof fn lemma_lookup_42(self)
        ensures
            lookup(self.members_48(), "party_join_request"@) == if self.party_join_request is Some {
                Some(self.party_join_request->0.json())
            } else {
                None
            },
    {
        Self::lemma_names();
        self.lemma_expected_48();
    }

    /// Where `party_matchmaker_add` is looked up.
    proof fn lemma_lookup_43(self)
        ensures
            lookup(self.members_48(), "party_matchmaker_add"@) == if self.party_matchmaker_add is Some {
                Some(self.party_matchmaker_add->0.json())
            } else {
                None
            },
    {
        Self::lemma_names();
        self.lemma_expected_48();
    }

    /// Where `party_matchmaker_remove` is looked up.
    proof fn lemma_lookup_44(self)
        ensures
            lookup(self.members_48(), "party_matchmaker_remove"@) == if self.party_matchmaker_remove is Some {
                Some(self.party_matchmaker_remove->0.json())
            } else {
                None
            },
    {
        Self::lemma_names();
        self.lemma_expected_48();
    }

    /// Where `party_matchmaker_ticket` is looked up.
    proof fn lemma_lookup_45(self)
        ensures
            lookup(self.members_48(), "party_matchmaker_ticket"@) == if self.party_matchmaker_ticket is Some {
                Some(self.party_matchmaker_ticket->0.json())
            } else {
                None
            },
    {
        Self::lemma_names();
        self.lemma_expected_48();
    }

    /// Where `party_data` is looked up.
    proof fn lemma_lookup_46(self)
        ensures
            lookup(self.members_48(), "party_data"@) == if self.party_data is Some {
                Some(self.party_data->0.json())
            } else {
                None
            },
    {
        Self::lemma_names();
        self.lemma_expected_48();
    }

    /// Where `party_data_send` is looked up.
    proof fn lemma_lookup_47(self)
        ensures
            lookup(self.members_48(), "party_data_send"@) == if self.party_data_send is Some {
                Some(self.party_data_send->0.json())
            } else {
                None
            },
    {
        Self::lemma_names();
        self.lemma_expected_48();
    }

    /// Where `party_presence_event` is looked up.
    proof fn lemma_lookup_48(self)
        ensures
            lookup(self.members_48(), "party_presence_event"@) == if self.party_presence_event is Some {
                Some(self.party_presence_event->0.json())
            } else {
                None
            },
    {
        Self::lemma_names();
        self.lemma_expected_48();
    }

    /// Reading the fields up to `cid` from what this frame is written as.
    proof fn lemma_read_1(self)
        requires
            self.wf(),
        ensures
            Self::read_1(self.members_48()) == Some(self.upto_1()),
            all_printable(self.members_1(), 4),
    {
        broadcast use group_printable;

        self.lemma_lookup_1();
    }

    /// Reading the fields up to `channel` from what this frame is written as.
    proof fn lemma_read_2(self)
        requires
            self.wf(),
        ensures
            Self::read_2(self.members_48()) == Some(self.upto_2()),
            all_printable(self.members_2(), 4),
    {
        broadcast use group_printable;

        self.lemma_read_1();
        self.lemma_lookup_2();
        if self.channel is Some {
            self.channel->0.lemma_read_json();
            lemma_printable_deeper(self.channel->0.json(), 3, 4);
        }
    }

    /// Reading the fields up to `channel_join` from what this frame is written as.
    proof fn lemma_read_3(self)
        requires
            self.wf(),
        ensures
            Self::read_3(self.members_48()) == Some(self.upto_3()),
            all_printable(self.members_3(), 4),
    {
        broadcast use group_printable;

        self.lemma_read_2();
        self.lemma_lookup_3();
        if self.channel_join is Some {
            self.channel_join->0.lemma_read_json();
            lemma_printable_deeper(self.channel_join->0.json(), 1, 4);
        }
    }

    /// Reading the fields up to `channel_leave` from what this frame is written as.
    proof fn lemma_read_4(self)
        requires
            self.wf(),
        ensures
            Self::read_4(self.members_48()) == Some(self.upto_4()),
            all_printable(self.members_4(), 4),
    {
        broadcast use group_printable;

        self.lemma_read_3();
        self.lemma_lookup_4();
        if self.channel_leave is Some {
            self.channel_leave->0.lemma_read_json();
            lemma_printable_deeper(self.channel_leave->0.json(), 1, 4);
        }
    }

    /// Reading the fields up to `channel_message` from what this frame is written as.
    proof fn lemma_read_5(self)
        requires
            self.wf(),
        ensures
            Self::read_5(self.members_48()) == Some(self.upto_5()),
            all_printable(self.members_5(), 4),
    {
        broadcast use group_printable;

        self.lemma_read_4();
        self.lemma_lookup_5();
        if self.channel_message is Some {
            self.channel_message->0.lemma_read_json();
            lemma_printable_deeper(self.channel_message->0.json(), 1, 4);
        }
    }

    /// Reading the fields up to `channel_message_ack` from what this frame is written as.
    proof fn lemma_read_6(self)
        requires
            self.wf(),
        ensures
            Self::read_6(self.members_48()) == Some(self.upto_6()),
            all_printable(self.members_6(), 4),
    {
        broadcast use group_printable;

        self.lemma_read_5();
        self.lemma_lookup_6();
        if self.channel_message_ack is Some {
            self.channel_message_ack->0.lemma_read_json();
            lemma_printable_deeper(self.channel_message_ack->0.json(), 1, 4);
        }
    }

    /// Reading the fields up to `channel_message_remove` from what this frame is written as.
    proof fn lemma_read_7(self)
        requires
            self.wf(),
        ensures
            Self::read_7(self.members_48()) == Some(self.upto_7()),
            all_printable(self.members_7(), 4),
    {
        broadcast use group_printable;

        self.lemma_read_6();
        self.lemma_lookup_7();
        if self.channel_message_remove is Some {
            self.channel_message_remove->0.lemma_read_json();
            lemma_printable_deeper(self.channel_message_remove->0.json(), 1, 4);
        }
    }

    /// Reading the fields up to `channel_message_send` from what this frame is written as.
    proof fn lemma_read_8(self)
        requires
            self.wf(),
        ensures
            Self::read_8(self.members_48()) == Some(self.upto_8()),
            all_printable(self.members_8(), 4),
    {
        broadcast use group_printable;

        self.lemma_read_7();
        self.lemma_lookup_8();
        if self.channel_message_send is Some {
            self.channel_message_send->0.lemma_read_json();
            lemma_printable_deeper(self.channel_message_send->0.json(), 1, 4);
        }
    }

    /// Reading the fields up to `channel_message_update` from what this frame is written as.
    proof fn lemma_read_9(self)
        requires
            self.wf(),
        ensures
            Self::read_9(self.members_48()) == Some(self.upto_9()),
            all_printable(self.members_9(), 4),
    {
        broadcast use group_printable;

        self.lemma_read_8();
        self.lemma_lookup_9();
        if self.channel_message_update is Some {
            self.channel_message_update->0.lemma_read_json();
            lemma_printable_deeper(self.channel_message_update->0.json(), 1, 4);
        }
    }

    /// Reading the fields up to `channel_presence_event` from what this frame is written as.
    proof fn lemma_read_10(self)
        requires
            self.wf(),
        ensures
            Self::read_10(self.members_48()) == Some(self.upto_10()),
            all_printable(self.members_10(), 4),
    {
        broadcast use group_printable;

        self.lemma_read_9();
        self.lemma_lookup_10();
        if self.channel_presence_event is Some {
            self.channel_presence_event->0.lemma_read_json();
            lemma_printable_deeper(self.channel_presence_event->0.json(), 3, 4);
        }
    }

    /// Reading the fields up to `error` from what this frame is written as.
    proof fn lemma_read_11(self)
        requires
            self.wf(),
        ensures
            Self::read_11(self.members_48()) == Some(self.upto_11()),
            all_printable(self.members_11(), 4),
    {
        broadcast use group_printable;

        self.lemma_read_10();
        self.lemma_lookup_11();
        if self.error is Some {
            self.error->0.lemma_read_json();
            lemma_printable_deeper(self.error->0.json(), 2, 4);
        }
    }

    /// Reading the fields up to `matchmaker_add` from what this frame is written as.
    proof fn lemma_read_12(self)
        requires
            self.wf(),
        ensures
            Self::read_12(self.members_48()) == Some(self.upto_12()),
            all_printable(self.members_12(), 4),
    {
        broadcast use group_printable;

        self.lemma_read_11();
        self.lemma_lookup_12();
        if self.matchmaker_add is Some {
            self.matchmaker_add->0.lemma_read_json();
            lemma_printable_deeper(self.matchmaker_add->0.json(), 2, 4);
        }
    }

    /// Reading the fields up to `matchmaker_matched` from what this frame is written as.
    proof fn lemma_read_13(self)
        requires
            self.wf(),
        ensures
            Self::read_13(self.members_48()) == Some(self.upto_13()),
            all_printable(self.members_13(), 4),
    {
        broadcast use group_printable;

        self.lemma_read_12();
        self.lemma_lookup_13();
        if self.matchmaker_matched is Some {
            self.matchmaker_matched->0.lemma_read_json();
            lemma_printable_deeper(self.matchmaker_matched->0.json(), 4, 4);
        }
    }

    /// Reading the fields up to `matchmaker_remove` from what this frame is written as.
    proof fn lemma_read_14(self)
        requires
            self.wf(),
        ensures
            Self::read_14(self.members_48()) == Some(self.upto_14()),
            all_printable(self.members_14(), 4),
    {
        broadcast use group_printable;

        self.lemma_read_13();
        self.lemma_lookup_14();
        if self.matchmaker_remove is Some {
            self.matchmaker_remove->0.lemma_read_json();
            lemma_printable_deeper(self.matchmaker_remove->0.json(), 1, 4);
        }
    }

    /// Reading the fields up to `matchmaker_ticket` from what this frame is written as.
    proof fn lemma_read_15(self)
        requires
            self.wf(),
        ensures
            Self::read_15(self.members_48()) == Some(self.upto_15()),
            all_printable(self.members_15(), 4),
    {
        broadcast use group_printable;

        self.lemma_read_14();
        self.lemma_lookup_15();
        if self.matchmaker_ticket is Some {
            self.matchmaker_ticket->0.lemma_read_json();
            lemma_printable_deeper(self.matchmaker_ticket->0.json(), 1, 4);
        }
    }

    /// Reading the fields up to `match` from what this frame is written as.
    proof fn lemma_read_16(self)
        requires
            self.wf(),
        ensures
            Self::read_16(self.members_48()) == Some(self.upto_16()),
            all_printable(self.members_16(), 4),
    {
        broadcast use group_printable;

        self.lemma_read_15();
        self.lemma_lookup_16();
        if self.new_match is Some {
            self.new_match->0.lemma_read_json();
            lemma_printable_deeper(self.new_match->0.json(), 3, 4);
        }
    }

    /// Reading the fields up to `match_create` from what this frame is written as.
    proof fn lemma_read_17(self)
        requires
            self.wf(),
        ensures
            Self::read_17(self.members_48()) == Some(self.upto_17()),
            all_printable(self.members_17(), 4),
    {
        broadcast use group_printable;

        self.lemma_read_16();
        self.lemma_lookup_17();
        if self.match_create is Some {
            self.match_create->0.lemma_read_json();
            lemma_printable_deeper(self.match_create->0.json(), 1, 4);
        }
    }

    /// Reading the fields up to `match_join` from what this frame is written as.
    proof fn lemma_read_18(self)
        requires
            self.wf(),
        ensures
            Self::read_18(self.members_48()) == Some(self.upto_18()),
            all_printable(self.members_18(), 4),
    {
        broadcast use group_printable;

        self.lemma_read_17();
        self.lemma_lookup_18();
        if self.match_join is Some {
            self.match_join->0.lemma_read_json();
            lemma_printable_deeper(self.match_join->0.json(), 2, 4);
        }
    }

    /// Reading the fields up to `match_leave` from what this frame is written as.
    proof fn lemma_read_19(self)
        requires
            self.wf(),
        ensures
            Self::read_19(self.members_48()) == Some(self.upto_19()),
            all_printable(self.members_19(), 4),
    {
        broadcast use group_printable;

        self.lemma_read_18();
        self.lemma_lookup_19();
        if self.match_leave is Some {
            self.match_leave->0.lemma_read_json();
            lemma_printable_deeper(self.match_leave->0.json(), 1, 4);
        }
    }

    /// Reading the fields up to `match_presence_event` from what this frame is written as.
    proof fn lemma_read_20(self)
        requires
            self.wf(),
        ensures
            Self::read_20(self.members_48()) == Some(self.upto_20()),
            all_printable(self.members_20(), 4),
    {
        broadcast use group_printable;

        self.lemma_read_19();
        self.lemma_lookup_20();
        if self.match_presence_event is Some {
            self.match_presence_event->0.lemma_read_json();
            lemma_printable_deeper(self.match_presence_event->0.json(), 3, 4);
        }
    }

    /// Reading the fields up to `match_data` from what this frame is written as.
    proof fn lemma_read_21(self)
        requires
            self.wf(),
        ensures
            Self::read_21(self.members_48()) == Some(self.upto_21()),
            all_printable(self.members_21(), 4),
    {
        broadcast use group_printable;

        self.lemma_read_20();
        self.lemma_lookup_21();
        if self.match_data is Some {
            self.match_data->0.lemma_read_json();
            lemma_printable_deeper(self.match_data->0.json(), 2, 4);
        }
    }

    /// Reading the fields up to `match_data_send` from what this frame is written as.
    proof fn lemma_read_22(self)
        requires
            self.wf(),
        ensures
            Self::read_22(self.members_48()) == Some(self.upto_22()),
            all_printable(self.members_22(), 4),
    {
        broadcast use group_printable;

        self.lemma_read_21();
        self.lemma_lookup_22();
        if self.match_data_send is Some {
            self.match_data_send->0.lemma_read_json();
            lemma_printable_deeper(self.match_data_send->0.json(), 3, 4);
        }
    }

    /// Reading the fields up to `notifications` from what this frame is written as.
    proof fn lemma_read_23(self)
        requires
            self.wf(),
        ensures
            Self::read_23(self.members_48()) == Some(self.upto_23()),
            all_printable(self.members_23(), 4),
    {
        broadcast use group_printable;

        self.lemma_read_22();
        self.lemma_lookup_23();
        if self.notifications is Some {
            self.notifications->0.lemma_read_json();
            lemma_printable_deeper(self.notifications->0.json(), 3, 4);
        }
    }

    /// Reading the fields up to `rpc` from what this frame is written as.
    proof fn lemma_read_24(self)
        requires
            self.wf(),
        ensures
            Self::read_24(self.members_48()) == Some(self.upto_24()),
            all_printable(self.members_24(), 4),
    {
        broadcast use group_printable;

        self.lemma_read_23();
        self.lemma_lookup_24();
        if self.rpc is Some {
            self.rpc->0.lemma_read_json();
            lemma_printable_deeper(self.rpc->0.json(), 1, 4);
        }
    }

    /// Reading the fields up to `status` from what this frame is written as.
    proof fn lemma_read_25(self)
        requires
            self.wf(),
        ensures
            Self::read_25(self.members_48()) == Some(self.upto_25()),
            all_printable(self.members_25(), 4),
    {
        broadcast use group_printable;

        self.lemma_read_24();
        self.lemma_lookup_25();
        if self.status is Some {
            self.status->0.lemma_read_json();
            lemma_printable_deeper(self.status->0.json(), 3, 4);
        }
    }

    /// Reading the fields up to `status_follow` from what this frame is written as.
    proof fn lemma_read_26(self)
        requires
            self.wf(),
        ensures
            Self::read_26(self.members_48()) == Some(self.upto_26()),
            all_printable(self.members_26(), 4),
    {
        broadcast use group_printable;

        self.lemma_read_25();
        self.lemma_lookup_26();
        if self.status_follow is Some {
            self.status_follow->0.lemma_read_json();
            lemma_printable_deeper(self.status_follow->0.json(), 2, 4);
        }
    }

    /// Reading the fields up to `status_presence_event` from what this frame is written as.
    proof fn lemma_read_27(self)
        requires
            self.wf(),
        ensures
            Self::read_27(self.members_48()) == Some(self.upto_27()),
            all_printable(self.members_27(), 4),
    {
        broadcast use group_printable;

        self.lemma_read_26();
        self.lemma_lookup_27();
        if self.status_presence_event is Some {
            self.status_presence_event->0.lemma_read_json();
            lemma_printable_deeper(self.status_presence_event->0.json(), 3, 4);
        }
    }

    /// Reading the fields up to `status_unfollow` from what this frame is written as.
    proof fn lemma_read_28(self)
        requires
            self.wf(),
        ensures
            Self::read_28(self.members_48()) == Some(self.upto_28()),
            all_printable(self.members_28(), 4),
    {
        broadcast use group_printable;

        self.lemma_read_27();
        self.lemma_lookup_28();
        if self.status_unfollow is Some {
            self.status_unfollow->0.lemma_read_json();
            lemma_printable_deeper(self.status_unfollow->0.json(), 2, 4);
        }
    }

    /// Reading the fields up to `status_update` from what this frame is written as.
    proof fn lemma_read_29(self)
        requires
            self.wf(),
        ensures
            Self::read_29(self.members_48()) == Some(self.upto_29()),
            all_printable(self.members_29(), 4),
    {
        broadcast use group_printable;

        self.lemma_read_28();
        self.lemma_lookup_29();
        if self.status_update is Some {
            self.status_update->0.lemma_read_json();
            lemma_printable_deeper(self.status_update->0.json(), 1, 4);
        }
    }

    /// Reading the fields up to `stream_presence_event` from what this frame is written as.
    proof fn lemma_read_30(self)
        requires
            self.wf(),
        ensures
            Self::read_30(self.members_48()) == Some(self.upto_30()),
            all_printable(self.members_30(), 4),
    {
        broadcast use group_printable;

        self.lemma_read_29();
        self.lemma_lookup_30();
        if self.stream_presence_event is Some {
            self.stream_presence_event->0.lemma_read_json();
            lemma_printable_deeper(self.stream_presence_event->0.json(), 3, 4);
        }
    }

    /// Reading the fields up to `stream_data` from what this frame is written as.
    proof fn lemma_read_31(self)
        requires
            self.wf(),
        ensures
            Self::read_31(self.members_48()) == Some(self.upto_31()),
            all_printable(self.members_31(), 4),
    {
        broadcast use group_printable;

        self.lemma_read_30();
        self.lemma_lookup_31();
        if self.stream_data is Some {
            self.stream_data->0.lemma_read_json();
            lemma_printable_deeper(self.stream_data->0.json(), 2, 4);
        }
    }

    /// Reading the fields up to `party` from what this frame is written as.
    proof fn lemma_read_32(self)
        requires
            self.wf(),
        ensures
            Self::read_32(self.members_48()) == Some(self.upto_32()),
            all_printable(self.members_32(), 4),
    {
        broadcast use group_printable;

        self.lemma_read_31();
        self.lemma_lookup_32();
        if self.party is Some {
            self.party->0.lemma_read_json();
            lemma_printable_deeper(self.party->0.json(), 3, 4);
        }
    }

    /// Reading the fields up to `party_create` from what this frame is written as.
    proof fn lemma_read_33(self)
        requires
            self.wf(),
        ensures
            Self::read_33(self.members_48()) == Some(self.upto_33()),
            all_printable(self.members_33(), 4),
    {
        broadcast use group_printable;

        self.lemma_read_32();
        self.lemma_lookup_33();
        if self.party_create is Some {
            self.party_create->0.lemma_read_json();
            lemma_printable_deeper(self.party_create->0.json(), 1, 4);
        }
    }

    /// Reading the fields up to `party_join` from what this frame is written as.
    proof fn lemma_read_34(self)
        requires
            self.wf(),
        ensures
            Self::read_34(self.members_48()) == Some(self.upto_34()),
            all_printable(self.members_34(), 4),
    {
        broadcast use group_printable;

        self.lemma_read_33();
        self.lemma_lookup_34();
        if self.party_join is Some {
            self.party_join->0.lemma_read_json();
            lemma_printable_deeper(self.party_join->0.json(), 1, 4);
        }
    }

    /// Reading the fields up to `party_leave` from what this frame is written as.
    proof fn lemma_read_35(self)
        requires
            self.wf(),
        ensures
            Self::read_35(self.members_48()) == Some(self.upto_35()),
            all_printable(self.members_35(), 4),
    {
        broadcast use group_printable;

        self.lemma_read_34();
        self.lemma_lookup_35();
        if self.party_leave is Some {
            self.party_leave->0.lemma_read_json();
            lemma_printable_deeper(self.party_leave->0.json(), 1, 4);
        }
    }

    /// Reading the fields up to `party_promote` from what this frame is written as.
    proof fn lemma_read_36(self)
        requires
            self.wf(),
        ensures
            Self::read_36(self.members_48()) == Some(self.upto_36()),
            all_printable(self.members_36(), 4),
    {
        broadcast use group_printable;

        self.lemma_read_35();
        self.lemma_lookup_36();
        if self.party_promote is Some {
            self.party_promote->0.lemma_read_json();
            lemma_printable_deeper(self.party_promote->0.json(), 2, 4);
        }
    }

    /// Reading the fields up to `party_leader` from what this frame is written as.
    proof fn lemma_read_37(self)
        requires
            self.wf(),
        ensures
            Self::read_37(self.members_48()) == Some(self.upto_37()),
            all_printable(self.members_37(), 4),
    {
        broadcast use group_printable;

        self.lemma_read_36();
        self.lemma_lookup_37();
        if self.party_leader is Some {
            self.party_leader->0.lemma_read_json();
            lemma_printable_deeper(self.party_leader->0.json(), 2, 4);
        }
    }

    /// Reading the fields up to `party_accept` from what this frame is written as.
    proof fn lemma_read_38(self)
        requires
            self.wf(),
        ensures
            Self::read_38(self.members_48()) == Some(self.upto_38()),
            all_printable(self.members_38(), 4),
    {
        broadcast use group_printable;

        self.lemma_read_37();
        self.lemma_lookup_38();
        if self.party_accept is Some {
            self.party_accept->0.lemma_read_json();
            lemma_printable_deeper(self.party_accept->0.json(), 2, 4);
        }
    }

    /// Reading the fields up to `party_remove` from what this frame is written as.
    proof fn lemma_read_39(self)
        requires
            self.wf(),
        ensures
            Self::read_39(self.members_48()) == Some(self.upto_39()),
            all_printable(self.members_39(), 4),
    {
        broadcast use group_printable;

        self.lemma_read_38();
        self.lemma_lookup_39();
        if self.party_remove is Some {
            self.party_remove->0.lemma_read_json();
            lemma_printable_deeper(self.party_remove->0.json(), 2, 4);
        }
    }

    /// Reading the fields up to `party_close` from what this frame is written as.
    proof fn lemma_read_40(self)
        requires
            self.wf(),
        ensures
            Self::read_40(self.members_48()) == Some(self.upto_40()),
            all_printable(self.members_40(), 4),
    {
        broadcast use group_printable;

        self.lemma_read_39();
        self.lemma_lookup_40();
        if self.party_close is Some {
            self.party_close->0.lemma_read_json();
            lemma_printable_deeper(self.party_close->0.json(), 1, 4);
        }
    }

    /// Reading the fields up to `party_join_request_list` from what this frame is written as.
    proof fn lemma_read_41(self)
        requires
            self.wf(),
        ensures
            Self::read_41(self.members_48()) == Some(self.upto_41()),
            all_printable(self.members_41(), 4),
    {
        broadcast use group_printable;

        self.lemma_read_40();
        self.lemma_lookup_41();
        if self.party_join_request_list is Some {
            self.party_join_request_list->0.lemma_read_json();
            lemma_printable_deeper(self.party_join_request_list->0.json(), 1, 4);
        }
    }

    /// Reading the fields up to `party_join_request` from what this frame is written as.
    proof fn lemma_read_42(self)
        requires
            self.wf(),
        ensures
            Self::read_42(self.members_48()) == Some(self.upto_42()),
            all_printable(self.members_42(), 4),
    {
        broadcast use group_printable;

        self.lemma_read_41();
        self.lemma_lookup_42();
        if self.party_join_request is Some {
            self.party_join_request->0.lemma_read_json();
            lemma_printable_deeper(self.party_join_request->0.json(), 3, 4);
        }
    }

    /// Reading the fields up to `party_matchmaker_add` from what this frame is written as.
    proof fn lemma_read_43(self)
        requires
            self.wf(),
        ensures
            Self::read_43(self.members_48()) == Some(self.upto_43()),
            all_printable(self.members_43(), 4),
    {
        broadcast use group_printable;

        self.lemma_read_42();
        self.lemma_lookup_43();
        if self.party_matchmaker_add is Some {
            self.party_matchmaker_add->0.lemma_read_json();
            lemma_printable_deeper(self.party_matchmaker_add->0.json(), 2, 4);
        }
    }

    /// Reading the fields up to `party_matchmaker_remove` from what this frame is written as.
    proof fn lemma_read_44(self)
        requires
            self.wf(),
        ensures
            Self::read_44(self.members_48()) == Some(self.upto_44()),
            all_printable(self.members_44(), 4),
    {
        broadcast use group_printable;

        self.lemma_read_43();
        self.lemma_lookup_44();
        if self.party_matchmaker_remove is Some {
            self.party_matchmaker_remove->0.lemma_read_json();
            lemma_printable_deeper(self.party_matchmaker_remove->0.json(), 1, 4);
        }
    }

    /// Reading the fields up to `party_matchmaker_ticket` from what this frame is written as.
    proof fn lemma_read_45(self)
        requires
            self.wf(),
        ensures
            Self::read_45(self.members_48()) == Some(self.upto_45()),
            all_printable(self.members_45(), 4),
    {
        broadcast use group_printable;

        self.lemma_read_44();
        self.lemma_lookup_45();
        if self.party_matchmaker_ticket is Some {
            self.party_matchmaker_ticket->0.lemma_read_json();
            lemma_printable_deeper(self.party_matchmaker_ticket->0.json(), 1, 4);
        }
    }

    /// Reading the fields up to `party_data` from what this frame is written as.
    proof fn lemma_read_46(self)
        requires
            self.wf(),
        ensures
            Self::read_46(self.members_48()) == Some(self.upto_46()),
            all_printable(self.members_46(), 4),
    {
        broadcast use group_printable;

        self.lemma_read_45();
        self.lemma_lookup_46();
        if self.party_data is Some {
            self.party_data->0.lemma_read_json();
            lemma_printable_deeper(self.party_data->0.json(), 2, 4);
        }
    }

    /// Reading the fields up to `party_data_send` from what this frame is written as.
    proof fn lemma_read_47(self)
        requires
            self.wf(),
        ensures
            Self::read_47(self.members_48()) == Some(self.upto_47()),
            all_printable(self.members_47(), 4),
    {
        broadcast use group_printable;

        self.lemma_read_46();
        self.lemma_lookup_47();
        if self.party_data_send is Some {
            self.party_data_send->0.lemma_read_json();
            lemma_printable_deeper(self.party_data_send->0.json(), 2, 4);
        }
    }

    /// Reading the fields up to `party_presence_event` from what this frame is written as.
    proof fn lemma_read_48(self)
        requires
            self.wf(),
        ensures
            Self::read_48(self.members_48()) == Some(self.upto_48()),
            all_printable(self.members_48(), 4),
    {
        broadcast use group_printable;

        self.lemma_read_47();
        self.lemma_lookup_48();
        if self.party_presence_event is Some {
            self.party_presence_event->0.lemma_read_json();
            lemma_printable_deeper(self.party_presence_event->0.json(), 3, 4);
        }
    }

    /// Reading what this frame is written as gives it back, and what it
    /// is written as can be written as text.
    pub proof fn lemma_read_json(self)
        requires
            self.wf(),
        ensures
            EnvelopeView::read(self.json()) == Some(self),
            printable(self.json(), 5),
    {
        self.lemma_read_48();
        lemma_object_printable(self.members_48(), 5);
    }
}

impl WebSocketMessageEnvelope {
    fn put_1(&self, members: &mut Vec<Member>)
        requires
            member_values(old(members)@) == self.deep_view().members_0(),
        ensures
            member_values(final(members)@) == self.deep_view().members_1(),
    {
        if let Some(value) = &self.cid {
            put_text(members, "cid", value.as_str());
        }
        assert(member_values(members@) =~= self.deep_view().members_1());
    }

    fn get_1(&mut self, members: &Vec<Member>) -> (read: bool)
        requires
            EnvelopeView::read_0(member_values(members@)) == Some(old(self).deep_view()),
        ensures
            read ==> EnvelopeView::read_1(member_values(members@)) == Some(final(self).deep_view()),
            !read ==> EnvelopeView::read_1(member_values(members@)) is None,
    {
        match opt_text_field(members, "cid") {
            Some(value) => {
                self.cid = value;
                true
            },
            None => false,
        }
    }

    fn put_2(&self, members: &mut Vec<Member>)
        requires
            member_values(old(members)@) == self.deep_view().members_1(),
        ensures
            member_values(final(members)@) == self.deep_view().members_2(),
    {
        if let Some(value) = &self.channel {
            put(members, "channel", value.to_json());
        }
        assert(member_values(members@) =~= self.deep_view().members_2());
    }

    fn get_2(&mut self, members: &Vec<Member>) -> (read: bool)
        requires
            EnvelopeView::read_1(member_values(members@)) == Some(old(self).deep_view()),
        ensures
            read ==> EnvelopeView::read_2(member_values(members@)) == Some(final(self).deep_view()),
            !read ==> EnvelopeView::read_2(member_values(members@)) is None,
    {
        match find(members, "channel") {
            None => {
                self.channel = None;
                true
            },
            Some(Json::Null) => {
                self.channel = None;
                true
            },
            Some(json) => match Channel::from_json(json) {
                Some(value) => {
                    self.channel = Some(value);
                    true
                },
                None => false,
            },
        }
    }

    fn put_3(&self, members: &mut Vec<Member>)
        requires
            member_values(old(members)@) == self.deep_view().members_2(),
        ensures
            member_values(final(members)@) == self.deep_view().members_3(),
    {
        if let Some(value) = &self.channel_join {
            put(members, "channel_join", value.to_json());
        }
        assert(member_values(members@) =~= self.deep_view().members_3());
    }

    fn get_3(&mut self, members: &Vec<Member>) -> (read: bool)
        requires
            EnvelopeView::read_2(member_values(members@)) == Some(old(self).deep_view()),
        ensures
            read ==> EnvelopeView::read_3(member_values(members@)) == Some(final(self).deep_view()),
            !read ==> EnvelopeView::read_3(member_values(members@)) is None,
    {
        match find(members, "channel_join") {
            None => {
                self.channel_join = None;
                true
            },
            Some(Json::Null) => {
                self.channel_join = None;
                true
            },
            Some(json) => match ChannelJoin::from_json(json) {
                Some(value) => {
                    self.channel_join = Some(value);
                    true
                },
                None => false,
            },
        }
    }

    fn put_4(&self, members: &mut Vec<Member>)
        requires
            member_values(old(members)@) == self.deep_view().members_3(),
        ensures
            member_values(final(members)@) == self.deep_view().members_4(),
    {
        if let Some(value) = &self.channel_leave {
            put(members, "channel_leave", value.to_json());
        }
        assert(member_values(members@) =~= self.deep_view().members_4());
    }

    fn get_4(&mut self, members: &Vec<Member>) -> (read: bool)
        requires
            EnvelopeView::read_3(member_values(members@)) == Some(old(self).deep_view()),
        ensures
            read ==> EnvelopeView::read_4(member_values(members@)) == Some(final(self).deep_view()),
            !read ==> EnvelopeView::read_4(member_values(members@)) is None,
    {
        match find(members, "channel_leave") {
            None => {
                self.channel_leave = None;
                true
            },
            Some(Json::Null) => {
                self.channel_leave = None;
                true
            },
            Some(json) => match ChannelLeave::from_json(json) {
                Some(value) => {
                    self.channel_leave = Some(value);
                    true
                },
                None => false,
            },
        }
    }

    fn put_5(&self, members: &mut Vec<Member>)
        requires
            member_values(old(members)@) == self.deep_view().members_4(),
        ensures
            member_values(final(members)@) == self.deep_view().members_5(),
    {
        if let Some(value) = &self.channel_message {
            put(members, "channel_message", value.to_json());
        }
        assert(member_values(members@) =~= self.deep_view().members_5());
    }

    fn get_5(&mut self, members: &Vec<Member>) -> (read: bool)
        requires
            EnvelopeView::read_4(member_values(members@)) == Some(old(self).deep_view()),
        ensures
            read ==> EnvelopeView::read_5(member_values(members@)) == Some(final(self).deep_view()),
            !read ==> EnvelopeView::read_5(member_values(members@)) is None,
    {
        match find(members, "channel_message") {
            None => {
                self.channel_message = None;
                true
            },
            Some(Json::Null) => {
                self.channel_message = None;
                true
            },
            Some(json) => match ApiChannelMessage::from_json(json) {
                Some(value) => {
                    self.channel_message = Some(value);
                    true
                },
                None => false,
            },
        }
    }

    fn put_6(&self, members: &mut Vec<Member>)
        requires
            member_values(old(members)@) == self.deep_view().members_5(),
        ensures
            member_values(final(members)@) == self.deep_view().members_6(),
    {
        if let Some(value) = &self.channel_message_ack {
            put(members, "channel_message_ack", value.to_json());
        }
        assert(member_values(members@) =~= self.deep_view().members_6());
    }

    fn get_6(&mut self, members: &Vec<Member>) -> (read: bool)
        requires
            EnvelopeView::read_5(member_values(members@)) == Some(old(self).deep_view()),
        ensures
            read ==> EnvelopeView::read_6(member_values(members@)) == Some(final(self).deep_view()),
            !read ==> EnvelopeView::read_6(member_values(members@)) is None,
    {
        match find(members, "channel_message_ack") {
            None => {
                self.channel_message_ack = None;
                true
            },
            Some(Json::Null) => {
                self.channel_message_ack = None;
                true
            },
            Some(json) => match ChannelMessageAck::from_json(json) {
                Some(value) => {
                    self.channel_message_ack = Some(value);
                    true
                },
                None => false,
            },
        }
    }

    fn put_7(&self, members: &mut Vec<Member>)
        requires
            member_values(old(members)@) == self.deep_view().members_6(),
        ensures
            member_values(final(members)@) == self.deep_view().members_7(),
    {
        if let Some(value) = &self.channel_message_remove {
            put(members, "channel_message_remove", value.to_json());
        }
        assert(member_values(members@) =~= self.deep_view().members_7());
    }

    fn get_7(&mut self, members: &Vec<Member>) -> (read: bool)
        requires
            EnvelopeView::read_6(member_values(members@)) == Some(old(self).deep_view()),
        ensures
            read ==> EnvelopeView::read_7(member_values(members@)) == Some(final(self).deep_view()),
            !read ==> EnvelopeView::read_7(member_values(members@)) is None,
    {
        match find(members, "channel_message_remove") {
            None => {
                self.channel_message_remove = None;
                true
            },
            Some(Json::Null) => {
                self.channel_message_remove = None;
                true
            },
            Some(json) => match ChannelMesageRemove::from_json(json) {
                Some(value) => {
                    self.channel_message_remove = Some(value);
                    true
                },
                None => false,
            },
        }
    }

    fn put_8(&self, members: &mut Vec<Member>)
        requires
            member_values(old(members)@) == self.deep_view().members_7(),
        ensures
            member_values(final(members)@) == self.deep_view().members_8(),
    {
        if let Some(value) = &self.channel_message_send {
            put(members, "channel_message_send", value.to_json());
        }
        assert(member_values(members@) =~= self.deep_view().members_8());
    }

    fn get_8(&mut self, members: &Vec<Member>) -> (read: bool)
        requires
            EnvelopeView::read_7(member_values(members@)) == Some(old(self).deep_view()),
        ensures
            read ==> EnvelopeView::read_8(member_values(members@)) == Some(final(self).deep_view()),
            !read ==> EnvelopeView::read_8(member_values(members@)) is None,
    {
        match find(members, "channel_message_send") {
            None => {
                self.channel_message_send = None;
                true
            },
            Some(Json::Null) => {
                self.channel_message_send = None;
                true
            },
            Some(json) => match ChannelMessageSend::from_json(json) {
                Some(value) => {
                    self.channel_message_send = Some(value);
                    true
                },
                None => false,
            },
        }
    }

    fn put_9(&self, members: &mut Vec<Member>)
        requires
            member_values(old(members)@) == self.deep_view().members_8(),
        ensures
            member_values(final(members)@) == self.deep_view().members_9(),
    {
        if let Some(value) = &self.channel_message_update {
            put(members, "channel_message_update", value.to_json());
        }
        assert(member_values(members@) =~= self.deep_view().members_9());
    }

    fn get_9(&mut self, members: &Vec<Member>) -> (read: bool)
        requires
            EnvelopeView::read_8(member_values(members@)) == Some(old(self).deep_view()),
        ensures
            read ==> EnvelopeView::read_9(member_values(members@)) == Some(final(self).deep_view()),
            !read ==> EnvelopeView::read_9(member_values(members@)) is None,
    {
        match find(members, "channel_message_update") {
            None => {
                self.channel_message_update = None;
                true
            },
            Some(Json::Null) => {
                self.channel_message_update = None;
                true
            },
            Some(json) => match ChannelMesageUpdate::from_json(json) {
                Some(value) => {
                    self.channel_message_update = Some(value);
                    true
                },
                None => false,
            },
        }
    }

    fn put_10(&self, members: &mut Vec<Member>)
        requires
            member_values(old(members)@) == self.deep_view().members_9(),
        ensures
            member_values(final(members)@) == self.deep_view().members_10(),
    {
        if let Some(value) = &self.channel_presence_event {
            put(members, "channel_presence_event", value.to_json());
        }
        assert(member_values(members@) =~= self.deep_view().members_10());
    }

    fn get_10(&mut self, members: &Vec<Member>) -> (read: bool)
        requires
            EnvelopeView::read_9(member_values(members@)) == Some(old(self).deep_view()),
        ensures
            read ==> EnvelopeView::read_10(member_values(members@)) == Some(final(self).deep_view()),
            !read ==> EnvelopeView::read_10(member_values(members@)) is None,
    {
        match find(members, "channel_presence_event") {
            None => {
                self.channel_presence_event = None;
                true
            },
            Some(Json::Null) => {
                self.channel_presence_event = None;
                true
            },
            Some(json) => match ChannelPresenceEvent::from_json(json) {
                Some(value) => {
                    self.channel_presence_event = Some(value);
                    true
                },
                None => false,
            },
        }
    }

    fn put_11(&self, members: &mut Vec<Member>)
        requires
            member_values(old(members)@) == self.deep_view().members_10(),
        ensures
            member_values(final(members)@) == self.deep_view().members_11(),
    {
        if let Some(value) = &self.error {
            put(members, "error", value.to_json());
        }
        assert(member_values(members@) =~= self.deep_view().members_11());
    }

    fn get_11(&mut self, members: &Vec<Member>) -> (read: bool)
        requires
            EnvelopeView::read_10(member_values(members@)) == Some(old(self).deep_view()),
        ensures
            read ==> EnvelopeView::read_11(member_values(members@)) == Some(final(self).deep_view()),
            !read ==> EnvelopeView::read_11(member_values(members@)) is None,
    {
        match find(members, "error") {
            None => {
                self.error = None;
                true
            },
            Some(Json::Null) => {
                self.error = None;
                true
            },
            Some(json) => match Error::from_json(json) {
                Some(value) => {
                    self.error = Some(value);
                    true
                },
                None => false,
            },
        }
    }

    fn put_12(&self, members: &mut Vec<Member>)
        requires
            member_values(old(members)@) == self.deep_view().members_11(),
        ensures
            member_values(final(members)@) == self.deep_view().members_12(),
    {
        if let Some(value) = &self.matchmaker_add {
            put(members, "matchmaker_add", value.to_json());
        }
        assert(member_values(members@) =~= self.deep_view().members_12());
    }

    fn get_12(&mut self, members: &Vec<Member>) -> (read: bool)
        requires
            EnvelopeView::read_11(member_values(members@)) == Some(old(self).deep_view()),
        ensures
            read ==> EnvelopeView::read_12(member_values(members@)) == Some(final(self).deep_view()),
            !read ==> EnvelopeView::read_12(member_values(members@)) is None,
    {
        match find(members, "matchmaker_add") {
            None => {
                self.matchmaker_add = None;
                true
            },
            Some(Json::Null) => {
                self.matchmaker_add = None;
                true
            },
            Some(json) => match MatchmakerAdd::from_json(json) {
                Some(value) => {
                    self.matchmaker_add = Some(value);
                    true
                },
                None => false,
            },
        }
    }

    fn put_13(&self, members: &mut Vec<Member>)
        requires
            member_values(old(members)@) == self.deep_view().members_12(),
        ensures
            member_values(final(members)@) == self.deep_view().members_13(),
    {
        if let Some(value) = &self.matchmaker_matched {
            put(members, "matchmaker_matched", value.to_json());
        }
        assert(member_values(members@) =~= self.deep_view().members_13());
    }

    fn get_13(&mut self, members: &Vec<Member>) -> (read: bool)
        requires
            EnvelopeView::read_12(member_values(members@)) == Some(old(self).deep_view()),
        ensures
            read ==> EnvelopeView::read_13(member_values(members@)) == Some(final(self).deep_view()),
            !read ==> EnvelopeView::read_13(member_values(members@)) is None,
    {
        match find(members, "matchmaker_matched") {
            None => {
                self.matchmaker_matched = None;
                true
            },
            Some(Json::Null) => {
                self.matchmaker_matched = None;
                true
            },
            Some(json) => match MatchmakerMatched::from_json(json) {
                Some(value) => {
                    self.matchmaker_matched = Some(value);
                    true
                },
                None => false,
            },
        }
    }

    fn put_14(&self, members: &mut Vec<Member>)
        requires
            member_values(old(members)@) == self.deep_view().members_13(),
        ensures
            member_values(final(members)@) == self.deep_view().members_14(),
    {
        if let Some(value) = &self.matchmaker_remove {
            put(members, "matchmaker_remove", value.to_json());
        }
        assert(member_values(members@) =~= self.deep_view().members_14());
    }

    fn get_14(&mut self, members: &Vec<Member>) -> (read: bool)
        requires
            EnvelopeView::read_13(member_values(members@)) == Some(old(self).deep_view()),
        ensures
            read ==> EnvelopeView::read_14(member_values(members@)) == Some(final(self).deep_view()),
            !read ==> EnvelopeView::read_14(member_values(members@)) is None,
    {
        match find(members, "matchmaker_remove") {
            None => {
                self.matchmaker_remove = None;
                true
            },
            Some(Json::Null) => {
                self.matchmaker_remove = None;
                true
            },
            Some(json) => match MatchmakerRemove::from_json(json) {
                Some(value) => {
                    self.matchmaker_remove = Some(value);
                    true
                },
                None => false,
            },
        }
    }

    fn put_15(&self, members: &mut Vec<Member>)
        requires
            member_values(old(members)@) == self.deep_view().members_14(),
        ensures
            member_values(final(members)@) == self.deep_view().members_15(),
    {
        if let Some(value) = &self.matchmaker_ticket {
            put(members, "matchmaker_ticket", value.to_json());
        }
        assert(member_values(members@) =~= self.deep_view().members_15());
    }

    fn get_15(&mut self, members: &Vec<Member>) -> (read: bool)
        requires
            EnvelopeView::read_14(member_values(members@)) == Some(old(self).deep_view()),
        ensures
            read ==> EnvelopeView::read_15(member_values(members@)) == Some(final(self).deep_view()),
            !read ==> EnvelopeView::read_15(member_values(members@)) is None,
    {
        match find(members, "matchmaker_ticket") {
            None => {
                self.matchmaker_ticket = None;
                true
            },
            Some(Json::Null) => {
                self.matchmaker_ticket = None;
                true
            },
            Some(json) => match MatchmakerTicket::from_json(json) {
                Some(value) => {
                    self.matchmaker_ticket = Some(value);
                    true
                },
                None => false,
            },
        }
    }

    fn put_16(&self, members: &mut Vec<Member>)
        requires
            member_values(old(members)@) == self.deep_view().members_15(),
        ensures
            member_values(final(members)@) == self.deep_view().members_16(),
    {
        if let Some(value) = &self.new_match {
            put(members, "match", value.to_json());
        }
        assert(member_values(members@) =~= self.deep_view().members_16());
    }

    fn get_16(&mut self, members: &Vec<Member>) -> (read: bool)
        requires
            EnvelopeView::read_15(member_values(members@)) == Some(old(self).deep_view()),
        ensures
            read ==> EnvelopeView::read_16(member_values(members@)) == Some(final(self).deep_view()),
            !read ==> EnvelopeView::read_16(member_values(members@)) is None,
    {
        match find(members, "match") {
            None => {
                self.new_match = None;
                true
            },
            Some(Json::Null) => {
                self.new_match = None;
                true
            },
            Some(json) => match Match::from_json(json) {
                Some(value) => {
                    self.new_match = Some(value);
                    true
                },
                None => false,
            },
        }
    }

    fn put_17(&self, members: &mut Vec<Member>)
        requires
            member_values(old(members)@) == self.deep_view().members_16(),
        ensures
            member_values(final(members)@) == self.deep_view().members_17(),
    {
        if let Some(value) = &self.match_create {
            put(members, "match_create", value.to_json());
        }
        assert(member_values(members@) =~= self.deep_view().members_17());
    }

    fn get_17(&mut self, members: &Vec<Member>) -> (read: bool)
        requires
            EnvelopeView::read_16(member_values(members@)) == Some(old(self).deep_view()),
        ensures
            read ==> EnvelopeView::read_17(member_values(members@)) == Some(final(self).deep_view()),
            !read ==> EnvelopeView::read_17(member_values(members@)) is None,
    {
        match find(members, "match_create") {
            None => {
                self.match_create = None;
                true
            },
            Some(Json::Null) => {
                self.match_create = None;
                true
            },
            Some(json) => match MatchCreate::from_json(json) {
                Some(value) => {
                    self.match_create = Some(value);
                    true
                },
                None => false,
            },
        }
    }

    fn put_18(&self, members: &mut Vec<Member>)
        requires
            member_values(old(members)@) == self.deep_view().members_17(),
        ensures
            member_values(final(members)@) == self.deep_view().members_18(),
    {
        if let Some(value) = &self.match_join {
            put(members, "match_join", value.to_json());
        }
        assert(member_values(members@) =~= self.deep_view().members_18());
    }

    fn get_18(&mut self, members: &Vec<Member>) -> (read: bool)
        requires
            EnvelopeView::read_17(member_values(members@)) == Some(old(self).deep_view()),
        ensures
            read ==> EnvelopeView::read_18(member_values(members@)) == Some(final(self).deep_view()),
            !read ==> EnvelopeView::read_18(member_values(members@)) is None,
    {
        match find(members, "match_join") {
            None => {
                self.match_join = None;
                true
            },
            Some(Json::Null) => {
                self.match_join = None;
                true
            },
            Some(json) => match MatchJoin::from_json(json) {
                Some(value) => {
                    self.match_join = Some(value);
                    true
                },
                None => false,
            },
        }
    }

    fn put_19(&self, members: &mut Vec<Member>)
        requires
            member_values(old(members)@) == self.deep_view().members_18(),
        ensures
            member_values(final(members)@) == self.deep_view().members_19(),
    {
        if let Some(value) = &self.match_leave {
            put(members, "match_leave", value.to_json());
        }
        assert(member_values(members@) =~= self.deep_view().members_19());
    }

    fn get_19(&mut self, members: &Vec<Member>) -> (read: bool)
        requires
            EnvelopeView::read_18(member_values(members@)) == Some(old(self).deep_view()),
        ensures
            read ==> EnvelopeView::read_19(member_values(members@)) == Some(final(self).deep_view()),
            !read ==> EnvelopeView::read_19(member_values(members@)) is None,
    {
        match find(members, "match_leave") {
            None => {
                self.match_leave = None;
                true
            },
            Some(Json::Null) => {
                self.match_leave = None;
                true
            },
            Some(json) => match MatchLeave::from_json(json) {
                Some(value) => {
                    self.match_leave = Some(value);
                    true
                },
                None => false,
            },
        }
    }

    fn put_20(&self, members: &mut Vec<Member>)
        requires
            member_values(old(members)@) == self.deep_view().members_19(),
        ensures
            member_values(final(members)@) == self.deep_view().members_20(),
    {
        if let Some(value) = &self.match_presence_event {
            put(members, "match_presence_event", value.to_json());
        }
        assert(member_values(members@) =~= self.deep_view().members_20());
    }

    fn get_20(&mut self, members: &Vec<Member>) -> (read: bool)
        requires
            EnvelopeView::read_19(member_values(members@)) == Some(old(self).deep_view()),
        ensures
            read ==> EnvelopeView::read_20(member_values(members@)) == Some(final(self).deep_view()),
            !read ==> EnvelopeView::read_20(member_values(members@)) is None,
    {
        match find(members, "match_presence_event") {
            None => {
                self.match_presence_event = None;
                true
            },
            Some(Json::Null) => {
                self.match_presence_event = None;
                true
            },
            Some(json) => match MatchPresenceEvent::from_json(json) {
                Some(value) => {
                    self.match_presence_event = Some(value);
                    true
                },
                None => false,
            },
        }
    }

    fn put_21(&self, members: &mut Vec<Member>)
        requires
            member_values(old(members)@) == self.deep_view().members_20(),
        ensures
            member_values(final(members)@) == self.deep_view().members_21(),
    {
        if let Some(value) = &self.match_data {
            put(members, "match_data", value.to_json());
        }
        assert(member_values(members@) =~= self.deep_view().members_21());
    }

    fn get_21(&mut self, members: &Vec<Member>) -> (read: bool)
        requires
            EnvelopeView::read_20(member_values(members@)) == Some(old(self).deep_view()),
        ensures
            read ==> EnvelopeView::read_21(member_values(members@)) == Some(final(self).deep_view()),
            !read ==> EnvelopeView::read_21(member_values(members@)) is None,
    {
        match find(members, "match_data") {
            None => {
                self.match_data = None;
                true
            },
            Some(Json::Null) => {
                self.match_data = None;
                true
            },
            Some(json) => match MatchData::from_json(json) {
                Some(value) => {
                    self.match_data = Some(value);
                    true
                },
                None => false,
            },
        }
    }

    fn put_22(&self, members: &mut Vec<Member>)
        requires
            member_values(old(members)@) == self.deep_view().members_21(),
        ensures
            member_values(final(members)@) == self.deep_view().members_22(),
    {
        if let Some(value) = &self.match_data_send {
            put(members, "match_data_send", value.to_json());
        }
        assert(member_values(members@) =~= self.deep_view().members_22());
    }

    fn get_22(&mut self, members: &Vec<Member>) -> (read: bool)
        requires
            EnvelopeView::read_21(member_values(members@)) == Some(old(self).deep_view()),
        ensures
            read ==> EnvelopeView::read_22(member_values(members@)) == Some(final(self).deep_view()),
            !read ==> EnvelopeView::read_22(member_values(members@)) is None,
    {
        match find(members, "match_data_send") {
            None => {
                self.match_data_send = None;
                true
            },
            Some(Json::Null) => {
                self.match_data_send = None;
                true
            },
            Some(json) => match MatchDataSend::from_json(json) {
                Some(value) => {
                    self.match_data_send = Some(value);
                    true
                },
                None => false,
            },
        }
    }

    fn put_23(&self, members: &mut Vec<Member>)
        requires
            member_values(old(members)@) == self.deep_view().members_22(),
        ensures
            member_values(final(members)@) == self.deep_view().members_23(),
    {
        if let Some(value) = &self.notifications {
            put(members, "notifications", value.to_json());
        }
        assert(member_values(members@) =~= self.deep_view().members_23());
    }

    fn get_23(&mut self, members: &Vec<Member>) -> (read: bool)
        requires
            EnvelopeView::read_22(member_values(members@)) == Some(old(self).deep_view()),
        ensures
            read ==> EnvelopeView::read_23(member_values(members@)) == Some(final(self).deep_view()),
            !read ==> EnvelopeView::read_23(member_values(members@)) is None,
    {
        match find(members, "notifications") {
            None => {
                self.notifications = None;
                true
            },
            Some(Json::Null) => {
                self.notifications = None;
                true
            },
            Some(json) => match ApiNotificationList::from_json(json) {
                Some(value) => {
                    self.notifications = Some(value);
                    true
                },
                None => false,
            },
        }
    }

    fn put_24(&self, members: &mut Vec<Member>)
        requires
            member_values(old(members)@) == self.deep_view().members_23(),
        ensures
            member_values(final(members)@) == self.deep_view().members_24(),
    {
        if let Some(value) = &self.rpc {
            put(members, "rpc", value.to_json());
        }
        assert(member_values(members@) =~= self.deep_view().members_24());
    }

    fn get_24(&mut self, members: &Vec<Member>) -> (read: bool)
        requires
            EnvelopeView::read_23(member_values(members@)) == Some(old(self).deep_view()),
        ensures
            read ==> EnvelopeView::read_24(member_values(members@)) == Some(final(self).deep_view()),
            !read ==> EnvelopeView::read_24(member_values(members@)) is None,
    {
        match find(members, "rpc") {
            None => {
                self.rpc = None;
                true
            },
            Some(Json::Null) => {
                self.rpc = None;
                true
            },
            Some(json) => match ApiRpc::from_json(json) {
                Some(value) => {
                    self.rpc = Some(value);
                    true
                },
                None => false,
            },
        }
    }

    fn put_25(&self, members: &mut Vec<Member>)
        requires
            member_values(old(members)@) == self.deep_view().members_24(),
        ensures
            member_values(final(members)@) == self.deep_view().members_25(),
    {
        if let Some(value) = &self.status {
            put(members, "status", value.to_json());
        }
        assert(member_values(members@) =~= self.deep_view().members_25());
    }

    fn get_25(&mut self, members: &Vec<Member>) -> (read: bool)
        requires
            EnvelopeView::read_24(member_values(members@)) == Some(old(self).deep_view()),
        ensures
            read ==> EnvelopeView::read_25(member_values(members@)) == Some(final(self).deep_view()),
            !read ==> EnvelopeView::read_25(member_values(members@)) is None,
    {
        match find(members, "status") {
            None => {
                self.status = None;
                true
            },
            Some(Json::Null) => {
                self.status = None;
                true
            },
            Some(json) => match Status::from_json(json) {
                Some(value) => {
                    self.status = Some(value);
                    true
                },
                None => false,
            },
        }
    }

    fn put_26(&self, members: &mut Vec<Member>)
        requires
            member_values(old(members)@) == self.deep_view().members_25(),
        ensures
            member_values(final(members)@) == self.deep_view().members_26(),
    {
        if let Some(value) = &self.status_follow {
            put(members, "status_follow", value.to_json());
        }
        assert(member_values(members@) =~= self.deep_view().members_26());
    }

    fn get_26(&mut self, members: &Vec<Member>) -> (read: bool)
        requires
            EnvelopeView::read_25(member_values(members@)) == Some(old(self).deep_view()),
        ensures
            read ==> EnvelopeView::read_26(member_values(members@)) == Some(final(self).deep_view()),
            !read ==> EnvelopeView::read_26(member_values(members@)) is None,
    {
        match find(members, "status_follow") {
            None => {
                self.status_follow = None;
                true
            },
            Some(Json::Null) => {
                self.status_follow = None;
                true
            },
            Some(json) => match StatusFollow::from_json(json) {
                Some(value) => {
                    self.status_follow = Some(value);
                    true
                },
                None => false,
            },
        }
    }

    fn put_27(&self, members: &mut Vec<Member>)
        requires
            member_values(old(members)@) == self.deep_view().members_26(),
        ensures
            member_values(final(members)@) == self.deep_view().members_27(),
    {
        if let Some(value) = &self.status_presence_event {
            put(members, "status_presence_event", value.to_json());
        }
        assert(member_values(members@) =~= self.deep_view().members_27());
    }

    fn get_27(&mut self, members: &Vec<Member>) -> (read: bool)
        requires
            EnvelopeView::read_26(member_values(members@)) == Some(old(self).deep_view()),
        ensures
            read ==> EnvelopeView::read_27(member_values(members@)) == Some(final(self).deep_view()),
            !read ==> EnvelopeView::read_27(member_values(members@)) is None,
    {
        match find(members, "status_presence_event") {
            None => {
                self.status_presence_event = None;
                true
            },
            Some(Json::Null) => {
                self.status_presence_event = None;
                true
            },
            Some(json) => match StatusPresenceEvent::from_json(json) {
                Some(value) => {
                    self.status_presence_event = Some(value);
                    true
                },
                None => false,
            },
        }
    }

    fn put_28(&self, members: &mut Vec<Member>)
        requires
            member_values(old(members)@) == self.deep_view().members_27(),
        ensures
            member_values(final(members)@) == self.deep_view().members_28(),
    {
        if let Some(value) = &self.status_unfollow {
            put(members, "status_unfollow", value.to_json());
        }
        assert(member_values(members@) =~= self.deep_view().members_28());
    }

    fn get_28(&mut self, members: &Vec<Member>) -> (read: bool)
        requires
            EnvelopeView::read_27(member_values(members@)) == Some(old(self).deep_view()),
        ensures
            read ==> EnvelopeView::read_28(member_values(members@)) == Some(final(self).deep_view()),
            !read ==> EnvelopeView::read_28(member_values(members@)) is None,
    {
        match find(members, "status_unfollow") {
            None => {
                self.status_unfollow = None;
                true
            },
            Some(Json::Null) => {
                self.status_unfollow = None;
                true
            },
            Some(json) => match StatusUnfollow::from_json(json) {
                Some(value) => {
                    self.status_unfollow = Some(value);
                    true
                },
                None => false,
            },
        }
    }

    fn put_29(&self, members: &mut Vec<Member>)
        requires
            member_values(old(members)@) == self.deep_view().members_28(),
        ensures
            member_values(final(members)@) == self.deep_view().members_29(),
    {
        if let Some(value) = &self.status_update {
            put(members, "status_update", value.to_json());
        }
        assert(member_values(members@) =~= self.deep_view().members_29());
    }

    fn get_29(&mut self, members: &Vec<Member>) -> (read: bool)
        requires
            EnvelopeView::read_28(member_values(members@)) == Some(old(self).deep_view()),
        ensures
            read ==> EnvelopeView::read_29(member_values(members@)) == Some(final(self).deep_view()),
            !read ==> EnvelopeView::read_29(member_values(members@)) is None,
    {
        match find(members, "status_update") {
            None => {
                self.status_update = None;
                true
            },
            Some(Json::Null) => {
                self.status_update = None;
                true
            },
            Some(json) => match StatusUpdate::from_json(json) {
                Some(value) => {
                    self.status_update = Some(value);
                    true
                },
                None => false,
            },
        }
    }

    fn put_30(&self, members: &mut Vec<Member>)
        requires
            member_values(old(members)@) == self.deep_view().members_29(),
        ensures
            member_values(final(members)@) == self.deep_view().members_30(),
    {
        if let Some(value) = &self.stream_presence_event {
            put(members, "stream_presence_event", value.to_json());
        }
        assert(member_values(members@) =~= self.deep_view().members_30());
    }

    fn get_30(&mut self, members: &Vec<Member>) -> (read: bool)
        requires
            EnvelopeView::read_29(member_values(members@)) == Some(old(self).deep_view()),
        ensures
            read ==> EnvelopeView::read_30(member_values(members@)) == Some(final(self).deep_view()),
            !read ==> EnvelopeView::read_30(member_values(members@)) is None,
    {
        match find(members, "stream_presence_event") {
            None => {
                self.stream_presence_event = None;
                true
            },
            Some(Json::Null) => {
                self.stream_presence_event = None;
                true
            },
            Some(json) => match StreamPresenceEvent::from_json(json) {
                Some(value) => {
                    self.stream_presence_event = Some(value);
                    true
                },
                None => false,
            },
        }
    }

    fn put_31(&self, members: &mut Vec<Member>)
        requires
            member_values(old(members)@) == self.deep_view().members_30(),
        ensures
            member_values(final(members)@) == self.deep_view().members_31(),
    {
        if let Some(value) = &self.stream_data {
            put(members, "stream_data", value.to_json());
        }
        assert(member_values(members@) =~= self.deep_view().members_31());
    }

    fn get_31(&mut self, members: &Vec<Member>) -> (read: bool)
        requires
            EnvelopeView::read_30(member_values(members@)) == Some(old(self).deep_view()),
        ensures
            read ==> EnvelopeView::read_31(member_values(members@)) == Some(final(self).deep_view()),
            !read ==> EnvelopeView::read_31(member_values(members@)) is None,
    {
        match find(members, "stream_data") {
            None => {
                self.stream_data = None;
                true
            },
            Some(Json::Null) => {
                self.stream_data = None;
                true
            },
            Some(json) => match StreamData::from_json(json) {
                Some(value) => {
                    self.stream_data = Some(value);
                    true
                },
                None => false,
            },
        }
    }

    fn put_32(&self, members: &mut Vec<Member>)
        requires
            member_values(old(members)@) == self.deep_view().members_31(),
        ensures
            member_values(final(members)@) == self.deep_view().members_32(),
    {
        if let Some(value) = &self.party {
            put(members, "party", value.to_json());
        }
        assert(member_values(members@) =~= self.deep_view().members_32());
    }

    fn get_32(&mut self, members: &Vec<Member>) -> (read: bool)
        requires
            EnvelopeView::read_31(member_values(members@)) == Some(old(self).deep_view()),
        ensures
            read ==> EnvelopeView::read_32(member_values(members@)) == Some(final(self).deep_view()),
            !read ==> EnvelopeView::read_32(member_values(members@)) is None,
    {
        match find(members, "party") {
            None => {
                self.party = None;
                true
            },
            Some(Json::Null) => {
                self.party = None;
                true
            },
            Some(json) => match Party::from_json(json) {
                Some(value) => {
                    self.party = Some(value);
                    true
                },
                None => false,
            },
        }
    }

    fn put_33(&self, members: &mut Vec<Member>)
        requires
            member_values(old(members)@) == self.deep_view().members_32(),
        ensures
            member_values(final(members)@) == self.deep_view().members_33(),
    {
        if let Some(value) = &self.party_create {
            put(members, "party_create", value.to_json());
        }
        assert(member_values(members@) =~= self.deep_view().members_33());
    }

    fn get_33(&mut self, members: &Vec<Member>) -> (read: bool)
        requires
            EnvelopeView::read_32(member_values(members@)) == Some(old(self).deep_view()),
        ensures
            read ==> EnvelopeView::read_33(member_values(members@)) == Some(final(self).deep_view()),
            !read ==> EnvelopeView::read_33(member_values(members@)) is None,
    {
        match find(members, "party_create") {
            None => {
                self.party_create = None;
                true
            },
            Some(Json::Null) => {
                self.party_create = None;
                true
            },
            Some(json) => match PartyCreate::from_json(json) {
                Some(value) => {
                    self.party_create = Some(value);
                    true
                },
                None => false,
            },
        }
    }

    fn put_34(&self, members: &mut Vec<Member>)
        requires
            member_values(old(members)@) == self.deep_view().members_33(),
        ensures
            member_values(final(members)@) == self.deep_view().members_34(),
    {
        if let Some(value) = &self.party_join {
            put(members, "party_join", value.to_json());
        }
        assert(member_values(members@) =~= self.deep_view().members_34());
    }

    fn get_34(&mut self, members: &Vec<Member>) -> (read: bool)
        requires
            EnvelopeView::read_33(member_values(members@)) == Some(old(self).deep_view()),
        ensures
            read ==> EnvelopeView::read_34(member_values(members@)) == Some(final(self).deep_view()),
            !read ==> EnvelopeView::read_34(member_values(members@)) is None,
    {
        match find(members, "party_join") {
            None => {
                self.party_join = None;
                true
            },
            Some(Json::Null) => {
                self.party_join = None;
                true
            },
            Some(json) => match PartyJoin::from_json(json) {
                Some(value) => {
                    self.party_join = Some(value);
                    true
                },
                None => false,
            },
        }
    }

    fn put_35(&self, members: &mut Vec<Member>)
        requires
            member_values(old(members)@) == self.deep_view().members_34(),
        ensures
            member_values(final(members)@) == self.deep_view().members_35(),
    {
        if let Some(value) = &self.party_leave {
            put(members, "party_leave", value.to_json());
        }
        assert(member_values(members@) =~= self.deep_view().members_35());
    }

    fn get_35(&mut self, members: &Vec<Member>) -> (read: bool)
        requires
            EnvelopeView::read_34(member_values(members@)) == Some(old(self).deep_view()),
        ensures
            read ==> EnvelopeView::read_35(member_values(members@)) == Some(final(self).deep_view()),
            !read ==> EnvelopeView::read_35(member_values(members@)) is None,
    {
        match find(members, "party_leave") {
            None => {
                self.party_leave = None;
                true
            },
            Some(Json::Null) => {
                self.party_leave = None;
                true
            },
            Some(json) => match PartyLeave::from_json(json) {
                Some(value) => {
                    self.party_leave = Some(value);
                    true
                },
                None => false,
            },
        }
    }

    fn put_36(&self, members: &mut Vec<Member>)
        requires
            member_values(old(members)@) == self.deep_view().members_35(),
        ensures
            member_values(final(members)@) == self.deep_view().members_36(),
    {
        if let Some(value) = &self.party_promote {
            put(members, "party_promote", value.to_json());
        }
        assert(member_values(members@) =~= self.deep_view().members_36());
    }

    fn get_36(&mut self, members: &Vec<Member>) -> (read: bool)
        requires
            EnvelopeView::read_35(member_values(members@)) == Some(old(self).deep_view()),
        ensures
            read ==> EnvelopeView::read_36(member_values(members@)) == Some(final(self).deep_view()),
            !read ==> EnvelopeView::read_36(member_values(members@)) is None,
    {
        match find(members, "party_promote") {
            None => {
                self.party_promote = None;
                true
            },
            Some(Json::Null) => {
                self.party_promote = None;
                true
            },
            Some(json) => match PartyPromote::from_json(json) {
                Some(value) => {
                    self.party_promote = Some(value);
                    true
                },
                None => false,
            },
        }
    }

    fn put_37(&self, members: &mut Vec<Member>)
        requires
            member_values(old(members)@) == self.deep_view().members_36(),
        ensures
            member_values(final(members)@) == self.deep_view().members_37(),
    {
        if let Some(value) = &self.party_leader {
            put(members, "party_leader", value.to_json());
        }
        assert(member_values(members@) =~= self.deep_view().members_37());
    }

    fn get_37(&mut self, members: &Vec<Member>) -> (read: bool)
        requires
            EnvelopeView::read_36(member_values(members@)) == Some(old(self).deep_view()),
        ensures
            read ==> EnvelopeView::read_37(member_values(members@)) == Some(final(self).deep_view()),
            !read ==> EnvelopeView::read_37(member_values(members@)) is None,
    {
        match find(members, "party_leader") {
            None => {
                self.party_leader = None;
                true
            },
            Some(Json::Null) => {
                self.party_leader = None;
                true
            },
            Some(json) => match PartyLeader::from_json(json) {
                Some(value) => {
                    self.party_leader = Some(value);
                    true
                },
                None => false,
            },
        }
    }

    fn put_38(&self, members: &mut Vec<Member>)
        requires
            member_values(old(members)@) == self.deep_view().members_37(),
        ensures
            member_values(final(members)@) == self.deep_view().members_38(),
    {
        if let Some(value) = &self.party_accept {
            put(members, "party_accept", value.to_json());
        }
        assert(member_values(members@) =~= self.deep_view().members_38());
    }

    fn get_38(&mut self, members: &Vec<Member>) -> (read: bool)
        requires
            EnvelopeView::read_37(member_values(members@)) == Some(old(self).deep_view()),
        ensures
            read ==> EnvelopeView::read_38(member_values(members@)) == Some(final(self).deep_view()),
            !read ==> EnvelopeView::read_38(member_values(members@)) is None,
    {
        match find(members, "party_accept") {
            None => {
                self.party_accept = None;
                true
            },
            Some(Json::Null) => {
                self.party_accept = None;
                true
            },
            Some(json) => match PartyAccept::from_json(json) {
                Some(value) => {
                    self.party_accept = Some(value);
                    true
                },
                None => false,
            },
        }
    }

    fn put_39(&self, members: &mut Vec<Member>)
        requires
            member_values(old(members)@) == self.deep_view().members_38(),
        ensures
            member_values(final(members)@) == self.deep_view().members_39(),
    {
        if let Some(value) = &self.party_remove {
            put(members, "party_remove", value.to_json());
        }
        assert(member_values(members@) =~= self.deep_view().members_39());
    }

    fn get_39(&mut self, members: &Vec<Member>) -> (read: bool)
        requires
            EnvelopeView::read_38(member_values(members@)) == Some(old(self).deep_view()),
        ensures
            read ==> EnvelopeView::read_39(member_values(members@)) == Some(final(self).deep_view()),
            !read ==> EnvelopeView::read_39(member_values(members@)) is None,
    {
        match find(members, "party_remove") {
            None => {
                self.party_remove = None;
                true
            },
            Some(Json::Null) => {
                self.party_remove = None;
                true
            },
            Some(json) => match PartyRemove::from_json(json) {
                Some(value) => {
                    self.party_remove = Some(value);
                    true
                },
                None => false,
            },
        }
    }

    fn put_40(&self, members: &mut Vec<Member>)
        requires
            member_values(old(members)@) == self.deep_view().members_39(),
        ensures
            member_values(final(members)@) == self.deep_view().members_40(),
    {
        if let Some(value) = &self.party_close {
            put(members, "party_close", value.to_json());
        }
        assert(member_values(members@) =~= self.deep_view().members_40());
    }

    fn get_40(&mut self, members: &Vec<Member>) -> (read: bool)
        requires
            EnvelopeView::read_39(member_values(members@)) == Some(old(self).deep_view()),
        ensures
            read ==> EnvelopeView::read_40(member_values(members@)) == Some(final(self).deep_view()),
            !read ==> EnvelopeView::read_40(member_values(members@)) is None,
    {
        match find(members, "party_close") {
            None => {
                self.party_close = None;
                true
            },
            Some(Json::Null) => {
                self.party_close = None;
                true
            },
            Some(json) => match PartyClose::from_json(json) {
                Some(value) => {
                    self.party_close = Some(value);
                    true
                },
                None => false,
            },
        }
    }

    fn put_41(&self, members: &mut Vec<Member>)
        requires
            member_values(old(members)@) == self.deep_view().members_40(),
        ensures
            member_values(final(members)@) == self.deep_view().members_41(),
    {
        if let Some(value) = &self.party_join_request_list {
            put(members, "party_join_request_list", value.to_json());
        }
        assert(member_values(members@) =~= self.deep_view().members_41());
    }

    fn get_41(&mut self, members: &Vec<Member>) -> (read: bool)
        requires
            EnvelopeView::read_40(member_values(members@)) == Some(old(self).deep_view()),
        ensures
            read ==> EnvelopeView::read_41(member_values(members@)) == Some(final(self).deep_view()),
            !read ==> EnvelopeView::read_41(member_values(members@)) is None,
    {
        match find(members, "party_join_request_list") {
            None => {
                self.party_join_request_list = None;
                true
            },
            Some(Json::Null) => {
                self.party_join_request_list = None;
                true
            },
            Some(json) => match PartyJoinRequestList::from_json(json) {
                Some(value) => {
                    self.party_join_request_list = Some(value);
                    true
                },
                None => false,
            },
        }
    }

    fn put_42(&self, members: &mut Vec<Member>)
        requires
            member_values(old(members)@) == self.deep_view().members_41(),
        ensures
            member_values(final(members)@) == self.deep_view().members_42(),
    {
        if let Some(value) = &self.party_join_request {
            put(members, "party_join_request", value.to_json());
        }
        assert(member_values(members@) =~= self.deep_view().members_42());
    }

    fn get_42(&mut self, members: &Vec<Member>) -> (read: bool)
        requires
            EnvelopeView::read_41(member_values(members@)) == Some(old(self).deep_view()),
        ensures
            read ==> EnvelopeView::read_42(member_values(members@)) == Some(final(self).deep_view()),
            !read ==> EnvelopeView::read_42(member_values(members@)) is None,
    {
        match find(members, "party_join_request") {
            None => {
                self.party_join_request = None;
                true
            },
            Some(Json::Null) => {
                self.party_join_request = None;
                true
            },
            Some(json) => match PartyJoinRequest::from_json(json) {
                Some(value) => {
                    self.party_join_request = Some(value);
                    true
                },
                None => false,
            },
        }
    }

    fn put_43(&self, members: &mut Vec<Member>)
        requires
            member_values(old(members)@) == self.deep_view().members_42(),
        ensures
            member_values(final(members)@) == self.deep_view().members_43(),
    {
        if let Some(value) = &self.party_matchmaker_add {
            put(members, "party_matchmaker_add", value.to_json());
        }
        assert(member_values(members@) =~= self.deep_view().members_43());
    }

    fn get_43(&mut self, members: &Vec<Member>) -> (read: bool)
        requires
            EnvelopeView::read_42(member_values(members@)) == Some(old(self).deep_view()),
        ensures
            read ==> EnvelopeView::read_43(member_values(members@)) == Some(final(self).deep_view()),
            !read ==> EnvelopeView::read_43(member_values(members@)) is None,
    {
        match find(members, "party_matchmaker_add") {
            None => {
                self.party_matchmaker_add = None;
                true
            },
            Some(Json::Null) => {
                self.party_matchmaker_add = None;
                true
            },
            Some(json) => match PartyMatchmakerAdd::from_json(json) {
                Some(value) => {
                    self.party_matchmaker_add = Some(value);
                    true
                },
                None => false,
            },
        }
    }

    fn put_44(&self, members: &mut Vec<Member>)
        requires
            member_values(old(members)@) == self.deep_view().members_43(),
        ensures
            member_values(final(members)@) == self.deep_view().members_44(),
    {
        if let Some(value) = &self.party_matchmaker_remove {
            put(members, "party_matchmaker_remove", value.to_json());
        }
        assert(member_values(members@) =~= self.deep_view().members_44());
    }

    fn get_44(&mut self, members: &Vec<Member>) -> (read: bool)
        requires
            EnvelopeView::read_43(member_values(members@)) == Some(old(self).deep_view()),
        ensures
            read ==> EnvelopeView::read_44(member_values(members@)) == Some(final(self).deep_view()),
            !read ==> EnvelopeView::read_44(member_values(members@)) is None,
    {
        match find(members, "party_matchmaker_remove") {
            None => {
                self.party_matchmaker_remove = None;
                true
            },
            Some(Json::Null) => {
                self.party_matchmaker_remove = None;
                true
            },
            Some(json) => match PartyMatchmakerRemove::from_json(json) {
                Some(value) => {
                    self.party_matchmaker_remove = Some(value);
                    true
                },
                None => false,
            },
        }
    }

    fn put_45(&self, members: &mut Vec<Member>)
        requires
            member_values(old(members)@) == self.deep_view().members_44(),
        ensures
            member_values(final(members)@) == self.deep_view().members_45(),
    {
        if let Some(value) = &self.party_matchmaker_ticket {
            put(members, "party_matchmaker_ticket", value.to_json());
        }
        assert(member_values(members@) =~= self.deep_view().members_45());
    }

    fn get_45(&mut self, members: &Vec<Member>) -> (read: bool)
        requires
            EnvelopeView::read_44(member_values(members@)) == Some(old(self).deep_view()),
        ensures
            read ==> EnvelopeView::read_45(member_values(members@)) == Some(final(self).deep_view()),
            !read ==> EnvelopeView::read_45(member_values(members@)) is None,
    {
        match find(members, "party_matchmaker_ticket") {
            None => {
                self.party_matchmaker_ticket = None;
                true
            },
            Some(Json::Null) => {
                self.party_matchmaker_ticket = None;
                true
            },
            Some(json) => match PartyMatchmakerTicket::from_json(json) {
                Some(value) => {
                    self.party_matchmaker_ticket = Some(value);
                    true
                },
                None => false,
            },
        }
    }

    fn put_46(&self, members: &mut Vec<Member>)
        requires
            member_values(old(members)@) == self.deep_view().members_45(),
        ensures
            member_values(final(members)@) == self.deep_view().members_46(),
    {
        if let Some(value) = &self.party_data {
            put(members, "party_data", value.to_json());
        }
        assert(member_values(members@) =~= self.deep_view().members_46());
    }

    fn get_46(&mut self, members: &Vec<Member>) -> (read: bool)
        requires
            EnvelopeView::read_45(member_values(members@)) == Some(old(self).deep_view()),
        ensures
            read ==> EnvelopeView::read_46(member_values(members@)) == Some(final(self).deep_view()),
            !read ==> EnvelopeView::read_46(member_values(members@)) is None,
    {
        match find(members, "party_data") {
            None => {
                self.party_data = None;
                true
            },
            Some(Json::Null) => {
                self.party_data = None;
                true
            },
            Some(json) => match PartyData::from_json(json) {
                Some(value) => {
                    self.party_data = Some(value);
                    true
                },
                None => false,
            },
        }
    }

    fn put_47(&self, members: &mut Vec<Member>)
        requires
            member_values(old(members)@) == self.deep_view().members_46(),
        ensures
            member_values(final(members)@) == self.deep_view().members_47(),
    {
        if let Some(value) = &self.party_data_send {
            put(members, "party_data_send", value.to_json());
        }
        assert(member_values(members@) =~= self.deep_view().members_47());
    }

    fn get_47(&mut self, members: &Vec<Member>) -> (read: bool)
        requires
            EnvelopeView::read_46(member_values(members@)) == Some(old(self).deep_view()),
        ensures
            read ==> EnvelopeView::read_47(member_values(members@)) == Some(final(self).deep_view()),
            !read ==> EnvelopeView::read_47(member_values(members@)) is None,
    {
        match find(members, "party_data_send") {
            None => {
                self.party_data_send = None;
                true
            },
            Some(Json::Null) => {
                self.party_data_send = None;
                true
            },
            Some(json) => match PartyDataSend::from_json(json) {
                Some(value) => {
                    self.party_data_send = Some(value);
                    true
                },
                None => false,
            },
        }
    }

    fn put_48(&self, members: &mut Vec<Member>)
        requires
            member_values(old(members)@) == self.deep_view().members_47(),
        ensures
            member_values(final(members)@) == self.deep_view().members_48(),
    {
        if let Some(value) = &self.party_presence_event {
            put(members, "party_presence_event", value.to_json());
        }
        assert(member_values(members@) =~= self.deep_view().members_48());
    }

    fn get_48(&mut self, members: &Vec<Member>) -> (read: bool)
        requires
            EnvelopeView::read_47(member_values(members@)) == Some(old(self).deep_view()),
        ensures
            read ==> EnvelopeView::read_48(member_values(members@)) == Some(final(self).deep_view()),
            !read ==> EnvelopeView::read_48(member_values(members@)) is None,
    {
        match find(members, "party_presence_event") {
            None => {
                self.party_presence_event = None;
                true
            },
            Some(Json::Null) => {
                self.party_presence_event = None;
                true
            },
            Some(json) => match PartyPresenceEvent::from_json(json) {
                Some(value) => {
                    self.party_presence_event = Some(value);
                    true
                },
                None => false,
            },
        }
    }

    /// Writes this frame as a JSON value.
    pub fn to_json(&self) -> (json: Json)
        ensures
            json@ == self.deep_view().json(),
    {
        let mut members: Vec<Member> = Vec::new();
        assert(member_values(members@) =~= self.deep_view().members_0());
        self.put_1(&mut members);
        self.put_2(&mut members);
        self.put_3(&mut members);
        self.put_4(&mut members);
        self.put_5(&mut members);
        self.put_6(&mut members);
        self.put_7(&mut members);
        self.put_8(&mut members);
        self.put_9(&mut members);
        self.put_10(&mut members);
        self.put_11(&mut members);
        self.put_12(&mut members);
        self.put_13(&mut members);
        self.put_14(&mut members);
        self.put_15(&mut members);
        self.put_16(&mut members);
        self.put_17(&mut members);
        self.put_18(&mut members);
        self.put_19(&mut members);
        self.put_20(&mut members);
        self.put_21(&mut members);
        self.put_22(&mut members);
        self.put_23(&mut members);
        self.put_24(&mut members);
        self.put_25(&mut members);
        self.put_26(&mut members);
        self.put_27(&mut members);
        self.put_28(&mut members);
        self.put_29(&mut members);
        self.put_30(&mut members);
        self.put_31(&mut members);
        self.put_32(&mut members);
        self.put_33(&mut members);
        self.put_34(&mut members);
        self.put_35(&mut members);
        self.put_36(&mut members);
        self.put_37(&mut members);
        self.put_38(&mut members);
        self.put_39(&mut members);
        self.put_40(&mut members);
        self.put_41(&mut members);
        self.put_42(&mut members);
        self.put_43(&mut members);
        self.put_44(&mut members);
        self.put_45(&mut members);
        self.put_46(&mut members);
        self.put_47(&mut members);
        self.put_48(&mut members);
        object(members)
    }

    /// Reads a frame from a JSON value.
    ///
    /// The JSON value must be an object.  The correlation id, if there, must
    /// be a text, and each payload that is there must be the object of its
    /// record.  Members under other names are passed over.
    pub fn from_json(json: &Json) -> (read: Option<WebSocketMessageEnvelope>)
        ensures
            match read {
                Some(value) => EnvelopeView::read(json@) == Some(value.deep_view()),
                None => EnvelopeView::read(json@) is None,
            },
    {
        let members = match object_members(json) {
            Some(members) => members,
            None => {
                return None;
            },
        };
        proof {
            EnvelopeView::lemma_read_stops(member_values(members@));
        }
        let mut envelope = WebSocketMessageEnvelope::blank();
        proof {
            envelope.lemma_blank();
        }
        let read = envelope.get_1(members)
            && envelope.get_2(members)
            && envelope.get_3(members)
            && envelope.get_4(members)
            && envelope.get_5(members)
            && envelope.get_6(members)
            && envelope.get_7(members)
            && envelope.get_8(members)
            && envelope.get_9(members)
            && envelope.get_10(members)
            && envelope.get_11(members)
            && envelope.get_12(members)
            && envelope.get_13(members)
            && envelope.get_14(members)
            && envelope.get_15(members)
            && envelope.get_16(members)
            && envelope.get_17(members)
            && envelope.get_18(members)
            && envelope.get_19(members)
            && envelope.get_20(members)
            && envelope.get_21(members)
            && envelope.get_22(members)
            && envelope.get_23(members)
            && envelope.get_24(members)
            && envelope.get_25(members)
            && envelope.get_26(members)
            && envelope.get_27(members)
            && envelope.get_28(members)
            && envelope.get_29(members)
            && envelope.get_30(members)
            && envelope.get_31(members)
            && envelope.get_32(members)
            && envelope.get_33(members)
            && envelope.get_34(members)
            && envelope.get_35(members)
            && envelope.get_36(members)
            && envelope.get_37(members)
            && envelope.get_38(members)
            && envelope.get_39(members)
            && envelope.get_40(members)
            && envelope.get_41(members)
            && envelope.get_42(members)
            && envelope.get_43(members)
            && envelope.get_44(members)
            && envelope.get_45(members)
            && envelope.get_46(members)
            && envelope.get_47(members)
            && envelope.get_48(members);
        if read {
            Some(envelope)
        } else {
            None
        }
    }

    /// A frame with nothing set has nothing set in its mathematical form.
    pub proof fn lemma_blank(&self)
        requires
            self.is_blank(),
        ensures
            self.deep_view() == EnvelopeView::blank(),
    {
        reveal(tally);
    }
}

/// Why a text could not be read as a frame.
#[derive(Debug, Clone, Copy, PartialEq, Eq)]
pub enum DecodeError {
    /// The text is not JSON, or not the JSON of a frame: it is no object,
    /// or a field that must be there is missing or holds the wrong kind of
    /// value.
    Malformed,
}

/// The text that a frame is written as.
pub open spec fn encode_spec(envelope: EnvelopeView) -> Seq<char> {
    print(envelope.json())
}

/// The frame that a text is read as, if it is the text of one.
pub open spec fn decode_spec(text: Seq<char>) -> Option<EnvelopeView> {
    match parse_spec(text) {
        Some(json) => EnvelopeView::read(json),
        None => None,
    }
}

/// Reading undoes writing: the text that a frame is written as is read as
/// that frame.
pub proof fn lemma_decode_encode(envelope: EnvelopeView)
    requires
        envelope.wf(),
    ensures
        decode_spec(encode_spec(envelope)) == Some(envelope),
{
    envelope.lemma_read_json();
    lemma_printable_deeper(envelope.json(), 5, MAX_DEPTH as nat);
    lemma_parse_print(envelope.json());
}

impl WebSocketMessageEnvelope {
    /// Writes this frame as text.
    pub fn encode(&self) -> (text: String)
        ensures
            text@ == encode_spec(self.deep_view()),
    {
        self.to_json().to_text()
    }

    /// Reads a frame from text.
    ///
    /// The text must be one JSON object.  Members under names that are no
    /// field of a frame are passed over; a payload that is not there, or is
    /// `null`, is not set.
    pub fn decode(text: &str) -> (frame: Result<WebSocketMessageEnvelope, DecodeError>)
        ensures
            match frame {
                Ok(envelope) => decode_spec(text@) == Some(envelope.deep_view()),
                Err(_) => decode_spec(text@) is None,
            },
    {
        match parse(text) {
            Some(json) => match WebSocketMessageEnvelope::from_json(&json) {
                Some(envelope) => Ok(envelope),
                None => Err(DecodeError::Malformed),
            },
            None => Err(DecodeError::Malformed),
        }
    }
}

} // verus!
