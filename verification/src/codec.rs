//! How each record of the channel is written as JSON and read from it.
//!
//! A record is written as an object with one member for each field, in
//! the order of the fields; an optional field that is absent has no
//! member.  For every record there is its mathematical form, the JSON
//! value of that form, the reading of a JSON value as that form, and the
//! proof that reading undoes writing.

use crate::api::{ApiChannelMessage, ApiNotification, ApiNotificationList, ApiRpc};
use crate::json::{printable, Json, JsonValue, Member, MemberValue};
use crate::properties::{
    lemma_numbers, lemma_properties, numbers_from_json, numbers_json, numbers_to_json,
    numbers_valid, properties_from_json, properties_json, properties_to_json, req_numbers,
    req_properties, NumericPropertyView, PropertyView,
};
use crate::wire::{
    array_json, bool_field, byte_reader, byte_writer, bytes_from_json, bytes_to_json, find,
    group_lookup, group_printable, i32_field, i64_field, integer_json, lemma_bytes,
    lemma_each_printable, lemma_integer, lemma_object_printable, lemma_printable_deeper,
    lemma_read_each, lemma_read_each_none, lemma_texts, member, member_values, members_of,
    object, object_members, opt_record, opt_text, opt_text_field, put, put_bool, put_integer,
    put_text, read_array, read_each, req_array, req_bool, req_i32, req_i64, req_record,
    req_text, text_field, text_reader, text_writer, texts_from_json, texts_to_json, write_each,
};
use vstd::prelude::*;
use crate::socket::{
    Channel, ChannelJoin, ChannelLeave, ChannelMesageRemove, ChannelMesageUpdate, ChannelMessageAck, ChannelMessageSend, ChannelPresenceEvent, Error, Match, MatchCreate, MatchData, MatchDataSend, MatchJoin, MatchLeave, MatchPresenceEvent, MatchmakerAdd, MatchmakerMatched, MatchmakerRemove, MatchmakerTicket, MatchmakerUser, Notifications, Party, PartyAccept, PartyClose, PartyCreate, PartyData, PartyDataSend, PartyJoin, PartyJoinRequest, PartyJoinRequestList, PartyLeader, PartyLeave, PartyMatchmakerAdd, PartyMatchmakerRemove, PartyMatchmakerTicket, PartyPresenceEvent, PartyPromote, PartyRemove, Ping, Pong, Status, StatusFollow, StatusPresenceEvent, StatusUnfollow, StatusUpdate, Stream, StreamData, StreamPresenceEvent, UserPresence, Timestamp,
};

verus! {

impl DeepView for Timestamp {
    type V = Seq<char>;

    open spec fn deep_view(&self) -> Seq<char> {
        self.0@
    }
}

/// [`ApiChannelMessage`], as mathematics.
pub struct ApiChannelMessageView {
    pub channel_id: Seq<char>,
    pub code: i32,
    pub content: Seq<char>,
    pub create_time: Seq<char>,
    pub group_id: Seq<char>,
    pub message_id: Seq<char>,
    pub persistent: bool,
    pub room_name: Seq<char>,
    pub sender_id: Seq<char>,
    pub update_time: Seq<char>,
    pub user_id_one: Seq<char>,
    pub user_id_two: Seq<char>,
    pub username: Seq<char>,
}

impl DeepView for ApiChannelMessage {
    type V = ApiChannelMessageView;

    open spec fn deep_view(&self) -> ApiChannelMessageView {
        ApiChannelMessageView {
            channel_id: self.channel_id.deep_view(),
            code: self.code,
            content: self.content.deep_view(),
            create_time: self.create_time.deep_view(),
            group_id: self.group_id.deep_view(),
            message_id: self.message_id.deep_view(),
            persistent: self.persistent,
            room_name: self.room_name.deep_view(),
            sender_id: self.sender_id.deep_view(),
            update_time: self.update_time.deep_view(),
            user_id_one: self.user_id_one.deep_view(),
            user_id_two: self.user_id_two.deep_view(),
            username: self.username.deep_view(),
        }
    }
}

impl ApiChannelMessageView {
    /// Whether every numeric property in this value holds the text of a
    /// JSON number.
    pub open spec fn wf(self) -> bool {
        true
    }

    /// The members before the first field.
    pub open spec fn members_0(self) -> Seq<MemberValue> {
        Seq::empty()
    }

    /// The members up to `channel_id`.
    pub open spec fn members_1(self) -> Seq<MemberValue> {
        self.members_0() + seq![member("channel_id"@, JsonValue::Text(self.channel_id))]
    }

    /// The members up to `code`.
    pub open spec fn members_2(self) -> Seq<MemberValue> {
        self.members_1() + seq![member("code"@, integer_json(self.code as int))]
    }

    /// The members up to `content`.
    pub open spec fn members_3(self) -> Seq<MemberValue> {
        self.members_2() + seq![member("content"@, JsonValue::Text(self.content))]
    }

    /// The members up to `create_time`.
    pub open spec fn members_4(self) -> Seq<MemberValue> {
        self.members_3() + seq![member("create_time"@, JsonValue::Text(self.create_time))]
    }

    /// The members up to `group_id`.
    pub open spec fn members_5(self) -> Seq<MemberValue> {
        self.members_4() + seq![member("group_id"@, JsonValue::Text(self.group_id))]
    }

    /// The members up to `message_id`.
    pub open spec fn members_6(self) -> Seq<MemberValue> {
        self.members_5() + seq![member("message_id"@, JsonValue::Text(self.message_id))]
    }

    /// The members up to `persistent`.
    pub open spec fn members_7(self) -> Seq<MemberValue> {
        self.members_6() + seq![member("persistent"@, JsonValue::Bool(self.persistent))]
    }

    /// The members up to `room_name`.
    pub open spec fn members_8(self) -> Seq<MemberValue> {
        self.members_7() + seq![member("room_name"@, JsonValue::Text(self.room_name))]
    }

    /// The members up to `sender_id`.
    pub open spec fn members_9(self) -> Seq<MemberValue> {
        self.members_8() + seq![member("sender_id"@, JsonValue::Text(self.sender_id))]
    }

    /// The members up to `update_time`.
    pub open spec fn members_10(self) -> Seq<MemberValue> {
        self.members_9() + seq![member("update_time"@, JsonValue::Text(self.update_time))]
    }

    /// The members up to `user_id_one`.
    pub open spec fn members_11(self) -> Seq<MemberValue> {
        self.members_10() + seq![member("user_id_one"@, JsonValue::Text(self.user_id_one))]
    }

    /// The members up to `user_id_two`.
    pub open spec fn members_12(self) -> Seq<MemberValue> {
        self.members_11() + seq![member("user_id_two"@, JsonValue::Text(self.user_id_two))]
    }

    /// The members up to `username`.
    pub open spec fn members_13(self) -> Seq<MemberValue> {
        self.members_12() + seq![member("username"@, JsonValue::Text(self.username))]
    }

    /// The JSON value that this value is written as.
    #[verifier::opaque]
    pub open spec fn json(self) -> JsonValue {
        JsonValue::Object(self.members_13())
    }

    /// The value that a JSON value is read as, if it holds one.
    #[verifier::opaque]
    pub open spec fn read(json: JsonValue) -> Option<ApiChannelMessageView> {
        match members_of(json) {
            Some(members) => {
                let channel_id = req_text(members, "channel_id"@);
                let code = req_i32(members, "code"@);
                let content = req_text(members, "content"@);
                let create_time = req_text(members, "create_time"@);
                let group_id = req_text(members, "group_id"@);
                let message_id = req_text(members, "message_id"@);
                let persistent = req_bool(members, "persistent"@);
                let room_name = req_text(members, "room_name"@);
                let sender_id = req_text(members, "sender_id"@);
                let update_time = req_text(members, "update_time"@);
                let user_id_one = req_text(members, "user_id_one"@);
                let user_id_two = req_text(members, "user_id_two"@);
                let username = req_text(members, "username"@);
                if channel_id is Some && code is Some && content is Some && create_time is Some && group_id is Some && message_id is Some && persistent is Some && room_name is Some && sender_id is Some && update_time is Some && user_id_one is Some && user_id_two is Some && username is Some {
                    Some(ApiChannelMessageView {
                        channel_id: channel_id->0,
                        code: code->0,
                        content: content->0,
                        create_time: create_time->0,
                        group_id: group_id->0,
                        message_id: message_id->0,
                        persistent: persistent->0,
                        room_name: room_name->0,
                        sender_id: sender_id->0,
                        update_time: update_time->0,
                        user_id_one: user_id_one->0,
                        user_id_two: user_id_two->0,
                        username: username->0,
                    })
                } else {
                    None
                }
            },
            None => None,
        }
    }

    /// [`ApiChannelMessageView::json`], as a function.
    pub open spec fn writer() -> spec_fn(ApiChannelMessageView) -> JsonValue {
        |value: ApiChannelMessageView| value.json()
    }

    /// [`ApiChannelMessageView::read`], as a function.
    pub open spec fn reader() -> spec_fn(JsonValue) -> Option<ApiChannelMessageView> {
        |json: JsonValue| ApiChannelMessageView::read(json)
    }

    /// The place of a field name among the field names.
    pub open spec fn field_index(name: Seq<char>) -> int {
        if name == "channel_id"@ {
            0
        } else if name == "code"@ {
            1
        } else if name == "content"@ {
            2
        } else if name == "create_time"@ {
            3
        } else if name == "group_id"@ {
            4
        } else if name == "message_id"@ {
            5
        } else if name == "persistent"@ {
            6
        } else if name == "room_name"@ {
            7
        } else if name == "sender_id"@ {
            8
        } else if name == "update_time"@ {
            9
        } else if name == "user_id_one"@ {
            10
        } else if name == "user_id_two"@ {
            11
        } else if name == "username"@ {
            12
        } else {
            13
        }
    }

    /// The field names differ from each other.
    pub proof fn lemma_names()
        ensures
            Self::field_index("channel_id"@) == 0,
            Self::field_index("code"@) == 1,
            Self::field_index("content"@) == 2,
            Self::field_index("create_time"@) == 3,
            Self::field_index("group_id"@) == 4,
            Self::field_index("message_id"@) == 5,
            Self::field_index("persistent"@) == 6,
            Self::field_index("room_name"@) == 7,
            Self::field_index("sender_id"@) == 8,
            Self::field_index("update_time"@) == 9,
            Self::field_index("user_id_one"@) == 10,
            Self::field_index("user_id_two"@) == 11,
            Self::field_index("username"@) == 12,
    {
        reveal_strlit("channel_id");
        reveal_strlit("code");
        reveal_strlit("content");
        reveal_strlit("create_time");
        reveal_strlit("group_id");
        reveal_strlit("message_id");
        reveal_strlit("persistent");
        reveal_strlit("room_name");
        reveal_strlit("sender_id");
        reveal_strlit("update_time");
        reveal_strlit("user_id_one");
        reveal_strlit("user_id_two");
        reveal_strlit("username");
        assert("channel_id"@.len() == 10);
        assert("code"@.len() == 4);
        assert("content"@.len() == 7);
        assert("create_time"@.len() == 11);
        assert("group_id"@.len() == 8);
        assert("message_id"@.len() == 10);
        assert("persistent"@.len() == 10);
        assert("room_name"@.len() == 9);
        assert("sender_id"@.len() == 9);
        assert("update_time"@.len() == 11);
        assert("user_id_one"@.len() == 11);
        assert("user_id_two"@.len() == 11);
        assert("username"@.len() == 8);
        assert("channel_id"@[0] != "message_id"@[0]);
        assert("channel_id"@[0] != "persistent"@[0]);
        assert("create_time"@[0] != "update_time"@[0]);
        assert("create_time"@[0] != "user_id_one"@[0]);
        assert("create_time"@[0] != "user_id_two"@[0]);
        assert("group_id"@[0] != "username"@[0]);
        assert("message_id"@[0] != "persistent"@[0]);
        assert("room_name"@[0] != "sender_id"@[0]);
        assert("update_time"@[1] != "user_id_one"@[1]);
        assert("update_time"@[1] != "user_id_two"@[1]);
        assert("user_id_one"@[8] != "user_id_two"@[8]);
    }

    /// Reading what this value is written as gives it back, and what it
    /// is written as can be written as text.
    pub proof fn lemma_read_json(self)
        requires
            self.wf(),
        ensures
            ApiChannelMessageView::read(self.json()) == Some(self),
            printable(self.json(), 1),
            self.json() is Object,
    {
        broadcast use {group_lookup, group_printable};

        reveal(ApiChannelMessageView::json);
        reveal(ApiChannelMessageView::read);
        Self::lemma_names();
        lemma_integer(self.code as i64);
        lemma_object_printable(self.members_13(), 1);
    }
}

impl ApiChannelMessage {
    /// Writes this value as a JSON value.
    pub fn to_json(&self) -> (json: Json)
        ensures
            json@ == self.deep_view().json(),
    {
        reveal(ApiChannelMessageView::json);
        let mut members: Vec<Member> = Vec::new();
        assert(member_values(members@) =~= self.deep_view().members_0());
        put_text(&mut members, "channel_id", self.channel_id.as_str());
        assert(member_values(members@) =~= self.deep_view().members_1());
        put_integer(&mut members, "code", self.code as i64);
        assert(member_values(members@) =~= self.deep_view().members_2());
        put_text(&mut members, "content", self.content.as_str());
        assert(member_values(members@) =~= self.deep_view().members_3());
        put_text(&mut members, "create_time", self.create_time.as_str());
        assert(member_values(members@) =~= self.deep_view().members_4());
        put_text(&mut members, "group_id", self.group_id.as_str());
        assert(member_values(members@) =~= self.deep_view().members_5());
        put_text(&mut members, "message_id", self.message_id.as_str());
        assert(member_values(members@) =~= self.deep_view().members_6());
        put_bool(&mut members, "persistent", self.persistent);
        assert(member_values(members@) =~= self.deep_view().members_7());
        put_text(&mut members, "room_name", self.room_name.as_str());
        assert(member_values(members@) =~= self.deep_view().members_8());
        put_text(&mut members, "sender_id", self.sender_id.as_str());
        assert(member_values(members@) =~= self.deep_view().members_9());
        put_text(&mut members, "update_time", self.update_time.as_str());
        assert(member_values(members@) =~= self.deep_view().members_10());
        put_text(&mut members, "user_id_one", self.user_id_one.as_str());
        assert(member_values(members@) =~= self.deep_view().members_11());
        put_text(&mut members, "user_id_two", self.user_id_two.as_str());
        assert(member_values(members@) =~= self.deep_view().members_12());
        put_text(&mut members, "username", self.username.as_str());
        assert(member_values(members@) =~= self.deep_view().members_13());
        object(members)
    }

    /// Reads a value from a JSON value.
    ///
    /// The JSON value must be an object that holds every field that is not
    /// optional, each with a value of its kind.  Members under other names
    /// are passed over.
    pub fn from_json(json: &Json) -> (read: Option<ApiChannelMessage>)
        ensures
            match read {
                Some(value) => ApiChannelMessageView::read(json@) == Some(value.deep_view()),
                None => ApiChannelMessageView::read(json@) is None,
            },
    {
        reveal(ApiChannelMessageView::read);
        let members = match object_members(json) {
            Some(members) => members,
            None => {
                return None;
            },
        };
        let channel_id = match text_field(members, "channel_id") {
            Some(value) => value,
            None => {
                return None;
            },
        };
        let code = match i32_field(members, "code") {
            Some(value) => value,
            None => {
                return None;
            },
        };
        let content = match text_field(members, "content") {
            Some(value) => value,
            None => {
                return None;
            },
        };
        let create_time = match text_field(members, "create_time") {
            Some(value) => value,
            None => {
                return None;
            },
        };
        let group_id = match text_field(members, "group_id") {
            Some(value) => value,
            None => {
                return None;
            },
        };
        let message_id = match text_field(members, "message_id") {
            Some(value) => value,
            None => {
                return None;
            },
        };
        let persistent = match bool_field(members, "persistent") {
            Some(value) => value,
            None => {
                return None;
            },
        };
        let room_name = match text_field(members, "room_name") {
            Some(value) => value,
            None => {
                return None;
            },
        };
        let sender_id = match text_field(members, "sender_id") {
            Some(value) => value,
            None => {
                return None;
            },
        };
        let update_time = match text_field(members, "update_time") {
            Some(value) => value,
            None => {
                return None;
            },
        };
        let user_id_one = match text_field(members, "user_id_one") {
            Some(value) => value,
            None => {
                return None;
            },
        };
        let user_id_two = match text_field(members, "user_id_two") {
            Some(value) => value,
            None => {
                return None;
            },
        };
        let username = match text_field(members, "username") {
            Some(value) => value,
            None => {
                return None;
            },
        };
        Some(ApiChannelMessage { channel_id, code, content, create_time, group_id, message_id, persistent, room_name, sender_id, update_time, user_id_one, user_id_two, username })
    }
}

/// [`ApiNotification`], as mathematics.
pub struct ApiNotificationView {
    pub code: i32,
    pub content: Seq<char>,
    pub create_time: Seq<char>,
    pub id: Seq<char>,
    pub persistent: bool,
    pub sender_id: Seq<char>,
    pub subject: Seq<char>,
}

impl DeepView for ApiNotification {
    type V = ApiNotificationView;

    open spec fn deep_view(&self) -> ApiNotificationView {
        ApiNotificationView {
            code: self.code,
            content: self.content.deep_view(),
            create_time: self.create_time.deep_view(),
            id: self.id.deep_view(),
            persistent: self.persistent,
            sender_id: self.sender_id.deep_view(),
            subject: self.subject.deep_view(),
        }
    }
}

impl ApiNotificationView {
    /// Whether every numeric property in this value holds the text of a
    /// JSON number.
    pub open spec fn wf(self) -> bool {
        true
    }

    /// The members before the first field.
    pub open spec fn members_0(self) -> Seq<MemberValue> {
        Seq::empty()
    }

    /// The members up to `code`.
    pub open spec fn members_1(self) -> Seq<MemberValue> {
        self.members_0() + seq![member("code"@, integer_json(self.code as int))]
    }

    /// The members up to `content`.
    pub open spec fn members_2(self) -> Seq<MemberValue> {
        self.members_1() + seq![member("content"@, JsonValue::Text(self.content))]
    }

    /// The members up to `create_time`.
    pub open spec fn members_3(self) -> Seq<MemberValue> {
        self.members_2() + seq![member("create_time"@, JsonValue::Text(self.create_time))]
    }

    /// The members up to `id`.
    pub open spec fn members_4(self) -> Seq<MemberValue> {
        self.members_3() + seq![member("id"@, JsonValue::Text(self.id))]
    }

    /// The members up to `persistent`.
    pub open spec fn members_5(self) -> Seq<MemberValue> {
        self.members_4() + seq![member("persistent"@, JsonValue::Bool(self.persistent))]
    }

    /// The members up to `sender_id`.
    pub open spec fn members_6(self) -> Seq<MemberValue> {
        self.members_5() + seq![member("sender_id"@, JsonValue::Text(self.sender_id))]
    }

    /// The members up to `subject`.
    pub open spec fn members_7(self) -> Seq<MemberValue> {
        self.members_6() + seq![member("subject"@, JsonValue::Text(self.subject))]
    }

    /// The JSON value that this value is written as.
    #[verifier::opaque]
    pub open spec fn json(self) -> JsonValue {
        JsonValue::Object(self.members_7())
    }

    /// The value that a JSON value is read as, if it holds one.
    #[verifier::opaque]
    pub open spec fn read(json: JsonValue) -> Option<ApiNotificationView> {
        match members_of(json) {
            Some(members) => {
                let code = req_i32(members, "code"@);
                let content = req_text(members, "content"@);
                let create_time = req_text(members, "create_time"@);
                let id = req_text(members, "id"@);
                let persistent = req_bool(members, "persistent"@);
                let sender_id = req_text(members, "sender_id"@);
                let subject = req_text(members, "subject"@);
                if code is Some && content is Some && create_time is Some && id is Some && persistent is Some && sender_id is Some && subject is Some {
                    Some(ApiNotificationView {
                        code: code->0,
                        content: content->0,
                        create_time: create_time->0,
                        id: id->0,
                        persistent: persistent->0,
                        sender_id: sender_id->0,
                        subject: subject->0,
                    })
                } else {
                    None
                }
            },
            None => None,
        }
    }

    /// [`ApiNotificationView::json`], as a function.
    pub open spec fn writer() -> spec_fn(ApiNotificationView) -> JsonValue {
        |value: ApiNotificationView| value.json()
    }

    /// [`ApiNotificationView::read`], as a function.
    pub open spec fn reader() -> spec_fn(JsonValue) -> Option<ApiNotificationView> {
        |json: JsonValue| ApiNotificationView::read(json)
    }

    /// The place of a field name among the field names.
    pub open spec fn field_index(name: Seq<char>) -> int {
        if name == "code"@ {
            0
        } else if name == "content"@ {
            1
        } else if name == "create_time"@ {
            2
        } else if name == "id"@ {
            3
        } else if name == "persistent"@ {
            4
        } else if name == "sender_id"@ {
            5
        } else if name == "subject"@ {
            6
        } else {
            7
        }
    }

    /// The field names differ from each other.
    pub proof fn lemma_names()
        ensures
            Self::field_index("code"@) == 0,
            Self::field_index("content"@) == 1,
            Self::field_index("create_time"@) == 2,
            Self::field_index("id"@) == 3,
            Self::field_index("persistent"@) == 4,
            Self::field_index("sender_id"@) == 5,
            Self::field_index("subject"@) == 6,
    {
        reveal_strlit("code");
        reveal_strlit("content");
        reveal_strlit("create_time");
        reveal_strlit("id");
        reveal_strlit("persistent");
        reveal_strlit("sender_id");
        reveal_strlit("subject");
        assert("code"@.len() == 4);
        assert("content"@.len() == 7);
        assert("create_time"@.len() == 11);
        assert("id"@.len() == 2);
        assert("persistent"@.len() == 10);
        assert("sender_id"@.len() == 9);
        assert("subject"@.len() == 7);
        assert("content"@[0] != "subject"@[0]);
    }

    /// Reading what this value is written as gives it back, and what it
    /// is written as can be written as text.
    pub proof fn lemma_read_json(self)
        requires
            self.wf(),
        ensures
            ApiNotificationView::read(self.json()) == Some(self),
            printable(self.json(), 1),
            self.json() is Object,
    {
        broadcast use {group_lookup, group_printable};

        reveal(ApiNotificationView::json);
        reveal(ApiNotificationView::read);
        Self::lemma_names();
        lemma_integer(self.code as i64);
        lemma_object_printable(self.members_7(), 1);
    }

    /// Reading what a sequence of values is written as gives it back.
    pub proof fn lemma_read_each(items: Seq<ApiNotificationView>)
        requires
            forall|i: int| 0 <= i < items.len() ==> (#[trigger] items[i]).wf(),
        ensures
            read_array(array_json(items, Self::writer()), Self::reader()) == Some(items),
            printable(array_json(items, Self::writer()), 2),
    {
        assert forall|i: int| 0 <= i < items.len() implies (Self::reader())(
            (Self::writer())(#[trigger] items[i]),
        ) == Some(items[i]) && printable((Self::writer())(items[i]), 1) by {
            items[i].lemma_read_json();
        }
        lemma_read_each(items, Self::reader(), Self::writer());
        lemma_each_printable(items, Self::writer(), 2);
    }
}

impl ApiNotification {
    /// Writes this value as a JSON value.
    pub fn to_json(&self) -> (json: Json)
        ensures
            json@ == self.deep_view().json(),
    {
        reveal(ApiNotificationView::json);
        let mut members: Vec<Member> = Vec::new();
        assert(member_values(members@) =~= self.deep_view().members_0());
        put_integer(&mut members, "code", self.code as i64);
        assert(member_values(members@) =~= self.deep_view().members_1());
        put_text(&mut members, "content", self.content.as_str());
        assert(member_values(members@) =~= self.deep_view().members_2());
        put_text(&mut members, "create_time", self.create_time.as_str());
        assert(member_values(members@) =~= self.deep_view().members_3());
        put_text(&mut members, "id", self.id.as_str());
        assert(member_values(members@) =~= self.deep_view().members_4());
        put_bool(&mut members, "persistent", self.persistent);
        assert(member_values(members@) =~= self.deep_view().members_5());
        put_text(&mut members, "sender_id", self.sender_id.as_str());
        assert(member_values(members@) =~= self.deep_view().members_6());
        put_text(&mut members, "subject", self.subject.as_str());
        assert(member_values(members@) =~= self.deep_view().members_7());
        object(members)
    }

    /// Reads a value from a JSON value.
    ///
    /// The JSON value must be an object that holds every field that is not
    /// optional, each with a value of its kind.  Members under other names
    /// are passed over.
    pub fn from_json(json: &Json) -> (read: Option<ApiNotification>)
        ensures
            match read {
                Some(value) => ApiNotificationView::read(json@) == Some(value.deep_view()),
                None => ApiNotificationView::read(json@) is None,
            },
    {
        reveal(ApiNotificationView::read);
        let members = match object_members(json) {
            Some(members) => members,
            None => {
                return None;
            },
        };
        let code = match i32_field(members, "code") {
            Some(value) => value,
            None => {
                return None;
            },
        };
        let content = match text_field(members, "content") {
            Some(value) => value,
            None => {
                return None;
            },
        };
        let create_time = match text_field(members, "create_time") {
            Some(value) => value,
            None => {
                return None;
            },
        };
        let id = match text_field(members, "id") {
            Some(value) => value,
            None => {
                return None;
            },
        };
        let persistent = match bool_field(members, "persistent") {
            Some(value) => value,
            None => {
                return None;
            },
        };
        let sender_id = match text_field(members, "sender_id") {
            Some(value) => value,
            None => {
                return None;
            },
        };
        let subject = match text_field(members, "subject") {
            Some(value) => value,
            None => {
                return None;
            },
        };
        Some(ApiNotification { code, content, create_time, id, persistent, sender_id, subject })
    }

    /// Writes values as an array.
    pub fn vec_to_json(items: &Vec<ApiNotification>) -> (json: Json)
        ensures
            json@ == array_json(items.deep_view(), ApiNotificationView::writer()),
    {
        let mut written: Vec<Json> = Vec::new();
        let mut i: usize = 0;
        while i < items.len()
            invariant
                i <= items.len(),
                written.len() == i,
                forall|k: int|
                    0 <= k < i ==> (#[trigger] written[k])@ == items[k].deep_view().json(),
            decreases items.len() - i,
        {
            written.push(items[i].to_json());
            i = i + 1;
        }
        let json = Json::Array(written);
        assert(json@->Array_0 =~= write_each(items.deep_view(), ApiNotificationView::writer()));
        json
    }

    /// Reads values from an array.
    pub fn vec_from_json(json: &Json) -> (read: Option<Vec<ApiNotification>>)
        ensures
            match read {
                Some(items) => read_array(json@, ApiNotificationView::reader()) == Some(items.deep_view()),
                None => read_array(json@, ApiNotificationView::reader()) is None,
            },
    {
        let written = match json {
            Json::Array(written) => written,
            _ => {
                return None;
            },
        };
        let ghost all = json@->Array_0;
        assert(all.len() == written.len());
        let mut items: Vec<ApiNotification> = Vec::new();
        let mut i: usize = 0;
        while i < written.len()
            invariant
                i <= written.len(),
                json@ == JsonValue::Array(all),
                all.len() == written.len(),
                forall|k: int| 0 <= k < written.len() ==> all[k] == (#[trigger] written[k])@,
                read_each(all.take(i as int), ApiNotificationView::reader()) == Some(items.deep_view()),
            decreases written.len() - i,
        {
            assert(all.take(i + 1).drop_last() =~= all.take(i as int));
            match ApiNotification::from_json(&written[i]) {
                Some(item) => {
                    let ghost before = items.deep_view();
                    items.push(item);
                    assert(items.deep_view() =~= before.push(item.deep_view()));
                },
                None => {
                    proof {
                        lemma_read_each_none(all, i as int, ApiNotificationView::reader());
                    }
                    return None;
                },
            }
            i = i + 1;
        }
        assert(all.take(i as int) =~= all);
        Some(items)
    }
}

/// [`ApiNotificationList`], as mathematics.
pub struct ApiNotificationListView {
    pub cacheable_cursor: Seq<char>,
    pub notifications: Seq<ApiNotificationView>,
}

impl DeepView for ApiNotificationList {
    type V = ApiNotificationListView;

    open spec fn deep_view(&self) -> ApiNotificationListView {
        ApiNotificationListView {
            cacheable_cursor: self.cacheable_cursor.deep_view(),
            notifications: self.notifications.deep_view(),
        }
    }
}

impl ApiNotificationListView {
    /// Whether every numeric property in this value holds the text of a
    /// JSON number.
    pub open spec fn wf(self) -> bool {
        true
    }

    /// The members before the first field.
    pub open spec fn members_0(self) -> Seq<MemberValue> {
        Seq::empty()
    }

    /// The members up to `cacheable_cursor`.
    pub open spec fn members_1(self) -> Seq<MemberValue> {
        self.members_0() + seq![member("cacheable_cursor"@, JsonValue::Text(self.cacheable_cursor))]
    }

    /// The members up to `notifications`.
    pub open spec fn members_2(self) -> Seq<MemberValue> {
        self.members_1() + seq![member("notifications"@, array_json(self.notifications, ApiNotificationView::writer()))]
    }

    /// The JSON value that this value is written as.
    #[verifier::opaque]
    pub open spec fn json(self) -> JsonValue {
        JsonValue::Object(self.members_2())
    }

    /// The value that a JSON value is read as, if it holds one.
    #[verifier::opaque]
    pub open spec fn read(json: JsonValue) -> Option<ApiNotificationListView> {
        match members_of(json) {
            Some(members) => {
                let cacheable_cursor = req_text(members, "cacheable_cursor"@);
                let notifications = req_array(members, "notifications"@, ApiNotificationView::reader());
                if cacheable_cursor is Some && notifications is Some {
                    Some(ApiNotificationListView {
                        cacheable_cursor: cacheable_cursor->0,
                        notifications: notifications->0,
                    })
                } else {
                    None
                }
            },
            None => None,
        }
    }

    /// [`ApiNotificationListView::json`], as a function.
    pub open spec fn writer() -> spec_fn(ApiNotificationListView) -> JsonValue {
        |value: ApiNotificationListView| value.json()
    }

    /// [`ApiNotificationListView::read`], as a function.
    pub open spec fn reader() -> spec_fn(JsonValue) -> Option<ApiNotificationListView> {
        |json: JsonValue| ApiNotificationListView::read(json)
    }

    /// The place of a field name among the field names.
    pub open spec fn field_index(name: Seq<char>) -> int {
        if name == "cacheable_cursor"@ {
            0
        } else if name == "notifications"@ {
            1
        } else {
            2
        }
    }

    /// The field names differ from each other.
    pub proof fn lemma_names()
        ensures
            Self::field_index("cacheable_cursor"@) == 0,
            Self::field_index("notifications"@) == 1,
    {
        reveal_strlit("cacheable_cursor");
        reveal_strlit("notifications");
        assert("cacheable_cursor"@.len() == 16);
        assert("notifications"@.len() == 13);
    }

    /// Reading what this value is written as gives it back, and what it
    /// is written as can be written as text.
    pub proof fn lemma_read_json(self)
        requires
            self.wf(),
        ensures
            ApiNotificationListView::read(self.json()) == Some(self),
            printable(self.json(), 3),
            self.json() is Object,
    {
        broadcast use {group_lookup, group_printable};

        reveal(ApiNotificationListView::json);
        reveal(ApiNotificationListView::read);
        Self::lemma_names();
        ApiNotificationView::lemma_read_each(self.notifications);
        lemma_printable_deeper(array_json(self.notifications, ApiNotificationView::writer()), 2, 2);
        lemma_object_printable(self.members_2(), 3);
    }
}

impl ApiNotificationList {
    /// Writes this value as a JSON value.
    pub fn to_json(&self) -> (json: Json)
        ensures
            json@ == self.deep_view().json(),
    {
        reveal(ApiNotificationListView::json);
        let mut members: Vec<Member> = Vec::new();
        assert(member_values(members@) =~= self.deep_view().members_0());
        put_text(&mut members, "cacheable_cursor", self.cacheable_cursor.as_str());
        assert(member_values(members@) =~= self.deep_view().members_1());
        put(&mut members, "notifications", ApiNotification::vec_to_json(&self.notifications));
        assert(member_values(members@) =~= self.deep_view().members_2());
        object(members)
    }

    /// Reads a value from a JSON value.
    ///
    /// The JSON value must be an object that holds every field that is not
    /// optional, each with a value of its kind.  Members under other names
    /// are passed over.
    pub fn from_json(json: &Json) -> (read: Option<ApiNotificationList>)
        ensures
            match read {
                Some(value) => ApiNotificationListView::read(json@) == Some(value.deep_view()),
                None => ApiNotificationListView::read(json@) is None,
            },
    {
        reveal(ApiNotificationListView::read);
        let members = match object_members(json) {
            Some(members) => members,
            None => {
                return None;
            },
        };
        let cacheable_cursor = match text_field(members, "cacheable_cursor") {
            Some(value) => value,
            None => {
                return None;
            },
        };
        let notifications = match find(members, "notifications") {
            Some(json) => match ApiNotification::vec_from_json(json) {
                Some(value) => value,
                None => {
                    return None;
                },
            },
            None => {
                return None;
            },
        };
        Some(ApiNotificationList { cacheable_cursor, notifications })
    }
}

/// [`ApiRpc`], as mathematics.
pub struct ApiRpcView {
    pub http_key: Seq<char>,
    pub id: Seq<char>,
    pub payload: Seq<char>,
}

impl DeepView for ApiRpc {
    type V = ApiRpcView;

    open spec fn deep_view(&self) -> ApiRpcView {
        ApiRpcView {
            http_key: self.http_key.deep_view(),
            id: self.id.deep_view(),
            payload: self.payload.deep_view(),
        }
    }
}

impl ApiRpcView {
    /// Whether every numeric property in this value holds the text of a
    /// JSON number.
    pub open spec fn wf(self) -> bool {
        true
    }

    /// The members before the first field.
    pub open spec fn members_0(self) -> Seq<MemberValue> {
        Seq::empty()
    }

    /// The members up to `http_key`.
    pub open spec fn members_1(self) -> Seq<MemberValue> {
        self.members_0() + seq![member("http_key"@, JsonValue::Text(self.http_key))]
    }

    /// The members up to `id`.
    pub open spec fn members_2(self) -> Seq<MemberValue> {
        self.members_1() + seq![member("id"@, JsonValue::Text(self.id))]
    }

    /// The members up to `payload`.
    pub open spec fn members_3(self) -> Seq<MemberValue> {
        self.members_2() + seq![member("payload"@, JsonValue::Text(self.payload))]
    }

    /// The JSON value that this value is written as.
    #[verifier::opaque]
    pub open spec fn json(self) -> JsonValue {
        JsonValue::Object(self.members_3())
    }

    /// The value that a JSON value is read as, if it holds one.
    #[verifier::opaque]
    pub open spec fn read(json: JsonValue) -> Option<ApiRpcView> {
        match members_of(json) {
            Some(members) => {
                let http_key = req_text(members, "http_key"@);
                let id = req_text(members, "id"@);
                let payload = req_text(members, "payload"@);
                if http_key is Some && id is Some && payload is Some {
                    Some(ApiRpcView {
                        http_key: http_key->0,
                        id: id->0,
                        payload: payload->0,
                    })
                } else {
                    None
                }
            },
            None => None,
        }
    }

    /// [`ApiRpcView::json`], as a function.
    pub open spec fn writer() -> spec_fn(ApiRpcView) -> JsonValue {
        |value: ApiRpcView| value.json()
    }

    /// [`ApiRpcView::read`], as a function.
    pub open spec fn reader() -> spec_fn(JsonValue) -> Option<ApiRpcView> {
        |json: JsonValue| ApiRpcView::read(json)
    }

    /// The place of a field name among the field names.
    pub open spec fn field_index(name: Seq<char>) -> int {
        if name == "http_key"@ {
            0
        } else if name == "id"@ {
            1
        } else if name == "payload"@ {
            2
        } else {
            3
        }
    }

    /// The field names differ from each other.
    pub proof fn lemma_names()
        ensures
            Self::field_index("http_key"@) == 0,
            Self::field_index("id"@) == 1,
            Self::field_index("payload"@) == 2,
    {
        reveal_strlit("http_key");
        reveal_strlit("id");
        reveal_strlit("payload");
        assert("http_key"@.len() == 8);
        assert("id"@.len() == 2);
        assert("payload"@.len() == 7);
    }

    /// Reading what this value is written as gives it back, and what it
    /// is written as can be written as text.
    pub proof fn lemma_read_json(self)
        requires
            self.wf(),
        ensures
            ApiRpcView::read(self.json()) == Some(self),
            printable(self.json(), 1),
            self.json() is Object,
    {
        broadcast use {group_lookup, group_printable};

        reveal(ApiRpcView::json);
        reveal(ApiRpcView::read);
        Self::lemma_names();
        lemma_object_printable(self.members_3(), 1);
    }
}

impl ApiRpc {
    /// Writes this value as a JSON value.
    pub fn to_json(&self) -> (json: Json)
        ensures
            json@ == self.deep_view().json(),
    {
        reveal(ApiRpcView::json);
        let mut members: Vec<Member> = Vec::new();
        assert(member_values(members@) =~= self.deep_view().members_0());
        put_text(&mut members, "http_key", self.http_key.as_str());
        assert(member_values(members@) =~= self.deep_view().members_1());
        put_text(&mut members, "id", self.id.as_str());
        assert(member_values(members@) =~= self.deep_view().members_2());
        put_text(&mut members, "payload", self.payload.as_str());
        assert(member_values(members@) =~= self.deep_view().members_3());
        object(members)
    }

    /// Reads a value from a JSON value.
    ///
    /// The JSON value must be an object that holds every field that is not
    /// optional, each with a value of its kind.  Members under other names
    /// are passed over.
    pub fn from_json(json: &Json) -> (read: Option<ApiRpc>)
        ensures
            match read {
                Some(value) => ApiRpcView::read(json@) == Some(value.deep_view()),
                None => ApiRpcView::read(json@) is None,
            },
    {
        reveal(ApiRpcView::read);
        let members = match object_members(json) {
            Some(members) => members,
            None => {
                return None;
            },
        };
        let http_key = match text_field(members, "http_key") {
            Some(value) => value,
            None => {
                return None;
            },
        };
        let id = match text_field(members, "id") {
            Some(value) => value,
            None => {
                return None;
            },
        };
        let payload = match text_field(members, "payload") {
            Some(value) => value,
            None => {
                return None;
            },
        };
        Some(ApiRpc { http_key, id, payload })
    }
}

/// [`UserPresence`], as mathematics.
pub struct UserPresenceView {
    pub persistence: bool,
    pub session_id: Seq<char>,
    pub status: Seq<char>,
    pub username: Seq<char>,
    pub user_id: Seq<char>,
}

impl DeepView for UserPresence {
    type V = UserPresenceView;

    open spec fn deep_view(&self) -> UserPresenceView {
        UserPresenceView {
            persistence: self.persistence,
            session_id: self.session_id.deep_view(),
            status: self.status.deep_view(),
            username: self.username.deep_view(),
            user_id: self.user_id.deep_view(),
        }
    }
}

impl UserPresenceView {
    /// Whether every numeric property in this value holds the text of a
    /// JSON number.
    pub open spec fn wf(self) -> bool {
        true
    }

    /// The members before the first field.
    pub open spec fn members_0(self) -> Seq<MemberValue> {
        Seq::empty()
    }

    /// The members up to `persistence`.
    pub open spec fn members_1(self) -> Seq<MemberValue> {
        self.members_0() + seq![member("persistence"@, JsonValue::Bool(self.persistence))]
    }

    /// The members up to `session_id`.
    pub open spec fn members_2(self) -> Seq<MemberValue> {
        self.members_1() + seq![member("session_id"@, JsonValue::Text(self.session_id))]
    }

    /// The members up to `status`.
    pub open spec fn members_3(self) -> Seq<MemberValue> {
        self.members_2() + seq![member("status"@, JsonValue::Text(self.status))]
    }

    /// The members up to `username`.
    pub open spec fn members_4(self) -> Seq<MemberValue> {
        self.members_3() + seq![member("username"@, JsonValue::Text(self.username))]
    }

    /// The members up to `user_id`.
    pub open spec fn members_5(self) -> Seq<MemberValue> {
        self.members_4() + seq![member("user_id"@, JsonValue::Text(self.user_id))]
    }

    /// The JSON value that this value is written as.
    #[verifier::opaque]
    pub open spec fn json(self) -> JsonValue {
        JsonValue::Object(self.members_5())
    }

    /// The value that a JSON value is read as, if it holds one.
    #[verifier::opaque]
    pub open spec fn read(json: JsonValue) -> Option<UserPresenceView> {
        match members_of(json) {
            Some(members) => {
                let persistence = req_bool(members, "persistence"@);
                let session_id = req_text(members, "session_id"@);
                let status = req_text(members, "status"@);
                let username = req_text(members, "username"@);
                let user_id = req_text(members, "user_id"@);
                if persistence is Some && session_id is Some && status is Some && username is Some && user_id is Some {
                    Some(UserPresenceView {
                        persistence: persistence->0,
                        session_id: session_id->0,
                        status: status->0,
                        username: username->0,
                        user_id: user_id->0,
                    })
                } else {
                    None
                }
            },
            None => None,
        }
    }

    /// [`UserPresenceView::json`], as a function.
    pub open spec fn writer() -> spec_fn(UserPresenceView) -> JsonValue {
        |value: UserPresenceView| value.json()
    }

    /// [`UserPresenceView::read`], as a function.
    pub open spec fn reader() -> spec_fn(JsonValue) -> Option<UserPresenceView> {
        |json: JsonValue| UserPresenceView::read(json)
    }

    /// The place of a field name among the field names.
    pub open spec fn field_index(name: Seq<char>) -> int {
        if name == "persistence"@ {
            0
        } else if name == "session_id"@ {
            1
        } else if name == "status"@ {
            2
        } else if name == "username"@ {
            3
        } else if name == "user_id"@ {
            4
        } else {
            5
        }
    }

    /// The field names differ from each other.
    pub proof fn lemma_names()
        ensures
            Self::field_index("persistence"@) == 0,
            Self::field_index("session_id"@) == 1,
            Self::field_index("status"@) == 2,
            Self::field_index("username"@) == 3,
            Self::field_index("user_id"@) == 4,
    {
        reveal_strlit("persistence");
        reveal_strlit("session_id");
        reveal_strlit("status");
        reveal_strlit("username");
        reveal_strlit("user_id");
        assert("persistence"@.len() == 11);
        assert("session_id"@.len() == 10);
        assert("status"@.len() == 6);
        assert("username"@.len() == 8);
        assert("user_id"@.len() == 7);
    }

    /// Reading what this value is written as gives it back, and what it
    /// is written as can be written as text.
    pub proof fn lemma_read_json(self)
        requires
            self.wf(),
        ensures
            UserPresenceView::read(self.json()) == Some(self),
            printable(self.json(), 1),
            self.json() is Object,
    {
        broadcast use {group_lookup, group_printable};

        reveal(UserPresenceView::json);
        reveal(UserPresenceView::read);
        Self::lemma_names();
        lemma_object_printable(self.members_5(), 1);
    }

    /// Reading what a sequence of values is written as gives it back.
    pub proof fn lemma_read_each(items: Seq<UserPresenceView>)
        requires
            forall|i: int| 0 <= i < items.len() ==> (#[trigger] items[i]).wf(),
        ensures
            read_array(array_json(items, Self::writer()), Self::reader()) == Some(items),
            printable(array_json(items, Self::writer()), 2),
    {
        assert forall|i: int| 0 <= i < items.len() implies (Self::reader())(
            (Self::writer())(#[trigger] items[i]),
        ) == Some(items[i]) && printable((Self::writer())(items[i]), 1) by {
            items[i].lemma_read_json();
        }
        lemma_read_each(items, Self::reader(), Self::writer());
        lemma_each_printable(items, Self::writer(), 2);
    }
}

impl UserPresence {
    /// Writes this value as a JSON value.
    pub fn to_json(&self) -> (json: Json)
        ensures
            json@ == self.deep_view().json(),
    {
        reveal(UserPresenceView::json);
        let mut members: Vec<Member> = Vec::new();
        assert(member_values(members@) =~= self.deep_view().members_0());
        put_bool(&mut members, "persistence", self.persistence);
        assert(member_values(members@) =~= self.deep_view().members_1());
        put_text(&mut members, "session_id", self.session_id.as_str());
        assert(member_values(members@) =~= self.deep_view().members_2());
        put_text(&mut members, "status", self.status.as_str());
        assert(member_values(members@) =~= self.deep_view().members_3());
        put_text(&mut members, "username", self.username.as_str());
        assert(member_values(members@) =~= self.deep_view().members_4());
        put_text(&mut members, "user_id", self.user_id.as_str());
        assert(member_values(members@) =~= self.deep_view().members_5());
        object(members)
    }

    /// Reads a value from a JSON value.
    ///
    /// The JSON value must be an object that holds every field that is not
    /// optional, each with a value of its kind.  Members under other names
    /// are passed over.
    pub fn from_json(json: &Json) -> (read: Option<UserPresence>)
        ensures
            match read {
                Some(value) => UserPresenceView::read(json@) == Some(value.deep_view()),
                None => UserPresenceView::read(json@) is None,
            },
    {
        reveal(UserPresenceView::read);
        let members = match object_members(json) {
            Some(members) => members,
            None => {
                return None;
            },
        };
        let persistence = match bool_field(members, "persistence") {
            Some(value) => value,
            None => {
                return None;
            },
        };
        let session_id = match text_field(members, "session_id") {
            Some(value) => value,
            None => {
                return None;
            },
        };
        let status = match text_field(members, "status") {
            Some(value) => value,
            None => {
                return None;
            },
        };
        let username = match text_field(members, "username") {
            Some(value) => value,
            None => {
                return None;
            },
        };
        let user_id = match text_field(members, "user_id") {
            Some(value) => value,
            None => {
                return None;
            },
        };
        Some(UserPresence { persistence, session_id, status, username, user_id })
    }

    /// Writes values as an array.
    pub fn vec_to_json(items: &Vec<UserPresence>) -> (json: Json)
        ensures
            json@ == array_json(items.deep_view(), UserPresenceView::writer()),
    {
        let mut written: Vec<Json> = Vec::new();
        let mut i: usize = 0;
        while i < items.len()
            invariant
                i <= items.len(),
                written.len() == i,
                forall|k: int|
                    0 <= k < i ==> (#[trigger] written[k])@ == items[k].deep_view().json(),
            decreases items.len() - i,
        {
            written.push(items[i].to_json());
            i = i + 1;
        }
        let json = Json::Array(written);
        assert(json@->Array_0 =~= write_each(items.deep_view(), UserPresenceView::writer()));
        json
    }

    /// Reads values from an array.
    pub fn vec_from_json(json: &Json) -> (read: Option<Vec<UserPresence>>)
        ensures
            match read {
                Some(items) => read_array(json@, UserPresenceView::reader()) == Some(items.deep_view()),
                None => read_array(json@, UserPresenceView::reader()) is None,
            },
    {
        let written = match json {
            Json::Array(written) => written,
            _ => {
                return None;
            },
        };
        let ghost all = json@->Array_0;
        assert(all.len() == written.len());
        let mut items: Vec<UserPresence> = Vec::new();
        let mut i: usize = 0;
        while i < written.len()
            invariant
                i <= written.len(),
                json@ == JsonValue::Array(all),
                all.len() == written.len(),
                forall|k: int| 0 <= k < written.len() ==> all[k] == (#[trigger] written[k])@,
                read_each(all.take(i as int), UserPresenceView::reader()) == Some(items.deep_view()),
            decreases written.len() - i,
        {
            assert(all.take(i + 1).drop_last() =~= all.take(i as int));
            match UserPresence::from_json(&written[i]) {
                Some(item) => {
                    let ghost before = items.deep_view();
                    items.push(item);
                    assert(items.deep_view() =~= before.push(item.deep_view()));
                },
                None => {
                    proof {
                        lemma_read_each_none(all, i as int, UserPresenceView::reader());
                    }
                    return None;
                },
            }
            i = i + 1;
        }
        assert(all.take(i as int) =~= all);
        Some(items)
    }
}

/// [`Channel`], as mathematics.
pub struct ChannelView {
    pub id: Seq<char>,
    pub presences: Seq<UserPresenceView>,
    pub _self: UserPresenceView,
    pub room_name: Option<Seq<char>>,
    pub group_id: Option<Seq<char>>,
    pub user_id_one: Option<Seq<char>>,
    pub user_id_two: Option<Seq<char>>,
}

impl DeepView for Channel {
    type V = ChannelView;

    open spec fn deep_view(&self) -> ChannelView {
        ChannelView {
            id: self.id.deep_view(),
            presences: self.presences.deep_view(),
            _self: self._self.deep_view(),
            room_name: self.room_name.deep_view(),
            group_id: self.group_id.deep_view(),
            user_id_one: self.user_id_one.deep_view(),
            user_id_two: self.user_id_two.deep_view(),
        }
    }
}

impl ChannelView {
    /// Whether every numeric property in this value holds the text of a
    /// JSON number.
    pub open spec fn wf(self) -> bool {
        true
    }

    /// The members before the first field.
    pub open spec fn members_0(self) -> Seq<MemberValue> {
        Seq::empty()
    }

    /// The members up to `id`.
    pub open spec fn members_1(self) -> Seq<MemberValue> {
        self.members_0() + seq![member("id"@, JsonValue::Text(self.id))]
    }

    /// The members up to `presences`.
    pub open spec fn members_2(self) -> Seq<MemberValue> {
        self.members_1() + seq![member("presences"@, array_json(self.presences, UserPresenceView::writer()))]
    }

    /// The members up to `self`.
    pub open spec fn members_3(self) -> Seq<MemberValue> {
        self.members_2() + seq![member("self"@, self._self.json())]
    }

    /// The members up to `room_name`.
    pub open spec fn members_4(self) -> Seq<MemberValue> {
        self.members_3() + if self.room_name is Some {
            seq![member("room_name"@, JsonValue::Text(self.room_name->0))]
        } else {
            Seq::empty()
        }
    }

    /// The members up to `group_id`.
    pub open spec fn members_5(self) -> Seq<MemberValue> {
        self.members_4() + if self.group_id is Some {
            seq![member("group_id"@, JsonValue::Text(self.group_id->0))]
        } else {
            Seq::empty()
        }
    }

    /// The members up to `user_id_one`.
    pub open spec fn members_6(self) -> Seq<MemberValue> {
        self.members_5() + if self.user_id_one is Some {
            seq![member("user_id_one"@, JsonValue::Text(self.user_id_one->0))]
        } else {
            Seq::empty()
        }
    }

    /// The members up to `user_id_two`.
    pub open spec fn members_7(self) -> Seq<MemberValue> {
        self.members_6() + if self.user_id_two is Some {
            seq![member("user_id_two"@, JsonValue::Text(self.user_id_two->0))]
        } else {
            Seq::empty()
        }
    }

    /// The JSON value that this value is written as.
    #[verifier::opaque]
    pub open spec fn json(self) -> JsonValue {
        JsonValue::Object(self.members_7())
    }

    /// The value that a JSON value is read as, if it holds one.
    #[verifier::opaque]
    pub open spec fn read(json: JsonValue) -> Option<ChannelView> {
        match members_of(json) {
            Some(members) => {
                let id = req_text(members, "id"@);
                let presences = req_array(members, "presences"@, UserPresenceView::reader());
                let _self = req_record(members, "self"@, UserPresenceView::reader());
                let room_name = opt_text(members, "room_name"@);
                let group_id = opt_text(members, "group_id"@);
                let user_id_one = opt_text(members, "user_id_one"@);
                let user_id_two = opt_text(members, "user_id_two"@);
                if id is Some && presences is Some && _self is Some && room_name is Some && group_id is Some && user_id_one is Some && user_id_two is Some {
                    Some(ChannelView {
                        id: id->0,
                        presences: presences->0,
                        _self: _self->0,
                        room_name: room_name->0,
                        group_id: group_id->0,
                        user_id_one: user_id_one->0,
                        user_id_two: user_id_two->0,
                    })
                } else {
                    None
                }
            },
            None => None,
        }
    }

    /// [`ChannelView::json`], as a function.
    pub open spec fn writer() -> spec_fn(ChannelView) -> JsonValue {
        |value: ChannelView| value.json()
    }

    /// [`ChannelView::read`], as a function.
    pub open spec fn reader() -> spec_fn(JsonValue) -> Option<ChannelView> {
        |json: JsonValue| ChannelView::read(json)
    }

    /// The place of a field name among the field names.
    pub open spec fn field_index(name: Seq<char>) -> int {
        if name == "id"@ {
            0
        } else if name == "presences"@ {
            1
        } else if name == "self"@ {
            2
        } else if name == "room_name"@ {
            3
        } else if name == "group_id"@ {
            4
        } else if name == "user_id_one"@ {
            5
        } else if name == "user_id_two"@ {
            6
        } else {
            7
        }
    }

    /// The field names differ from each other.
    pub proof fn lemma_names()
        ensures
            Self::field_index("id"@) == 0,
            Self::field_index("presences"@) == 1,
            Self::field_index("self"@) == 2,
            Self::field_index("room_name"@) == 3,
            Self::field_index("group_id"@) == 4,
            Self::field_index("user_id_one"@) == 5,
            Self::field_index("user_id_two"@) == 6,
    {
        reveal_strlit("id");
        reveal_strlit("presences");
        reveal_strlit("self");
        reveal_strlit("room_name");
        reveal_strlit("group_id");
        reveal_strlit("user_id_one");
        reveal_strlit("user_id_two");
        assert("id"@.len() == 2);
        assert("presences"@.len() == 9);
        assert("self"@.len() == 4);
        assert("room_name"@.len() == 9);
        assert("group_id"@.len() == 8);
        assert("user_id_one"@.len() == 11);
        assert("user_id_two"@.len() == 11);
        assert("presences"@[0] != "room_name"@[0]);
        assert("user_id_one"@[8] != "user_id_two"@[8]);
    }

    /// Reading what this value is written as gives it back, and what it
    /// is written as can be written as text.
    pub proof fn lemma_read_json(self)
        requires
            self.wf(),
        ensures
            ChannelView::read(self.json()) == Some(self),
            printable(self.json(), 3),
            self.json() is Object,
    {
        broadcast use {group_lookup, group_printable};

        reveal(ChannelView::json);
        reveal(ChannelView::read);
        Self::lemma_names();
        UserPresenceView::lemma_read_each(self.presences);
        lemma_printable_deeper(array_json(self.presences, UserPresenceView::writer()), 2, 2);
        self._self.lemma_read_json();
        lemma_printable_deeper(self._self.json(), 1, 2);
        lemma_object_printable(self.members_7(), 3);
    }
}

impl Channel {
    /// Writes this value as a JSON value.
    pub fn to_json(&self) -> (json: Json)
        ensures
            json@ == self.deep_view().json(),
    {
        reveal(ChannelView::json);
        let mut members: Vec<Member> = Vec::new();
        assert(member_values(members@) =~= self.deep_view().members_0());
        put_text(&mut members, "id", self.id.as_str());
        assert(member_values(members@) =~= self.deep_view().members_1());
        put(&mut members, "presences", UserPresence::vec_to_json(&self.presences));
        assert(member_values(members@) =~= self.deep_view().members_2());
        put(&mut members, "self", self._self.to_json());
        assert(member_values(members@) =~= self.deep_view().members_3());
        if let Some(value) = &self.room_name {
            put_text(&mut members, "room_name", value.as_str());
        }
        assert(member_values(members@) =~= self.deep_view().members_4());
        if let Some(value) = &self.group_id {
            put_text(&mut members, "group_id", value.as_str());
        }
        assert(member_values(members@) =~= self.deep_view().members_5());
        if let Some(value) = &self.user_id_one {
            put_text(&mut members, "user_id_one", value.as_str());
        }
        assert(member_values(members@) =~= self.deep_view().members_6());
        if let Some(value) = &self.user_id_two {
            put_text(&mut members, "user_id_two", value.as_str());
        }
        assert(member_values(members@) =~= self.deep_view().members_7());
        object(members)
    }

    /// Reads a value from a JSON value.
    ///
    /// The JSON value must be an object that holds every field that is not
    /// optional, each with a value of its kind.  Members under other names
    /// are passed over.
    pub fn from_json(json: &Json) -> (read: Option<Channel>)
        ensures
            match read {
                Some(value) => ChannelView::read(json@) == Some(value.deep_view()),
                None => ChannelView::read(json@) is None,
            },
    {
        reveal(ChannelView::read);
        let members = match object_members(json) {
            Some(members) => members,
            None => {
                return None;
            },
        };
        let id = match text_field(members, "id") {
            Some(value) => value,
            None => {
                return None;
            },
        };
        let presences = match find(members, "presences") {
            Some(json) => match UserPresence::vec_from_json(json) {
                Some(value) => value,
                None => {
                    return None;
                },
            },
            None => {
                return None;
            },
        };
        let _self = match find(members, "self") {
            Some(json) => match UserPresence::from_json(json) {
                Some(value) => value,
                None => {
                    return None;
                },
            },
            None => {
                return None;
            },
        };
        let room_name = match opt_text_field(members, "room_name") {
            Some(value) => value,
            None => {
                return None;
            },
        };
        let group_id = match opt_text_field(members, "group_id") {
            Some(value) => value,
            None => {
                return None;
            },
        };
        let user_id_one = match opt_text_field(members, "user_id_one") {
            Some(value) => value,
            None => {
                return None;
            },
        };
        let user_id_two = match opt_text_field(members, "user_id_two") {
            Some(value) => value,
            None => {
                return None;
            },
        };
        Some(Channel { id, presences, _self, room_name, group_id, user_id_one, user_id_two })
    }
}

/// [`ChannelJoin`], as mathematics.
pub struct ChannelJoinView {
    pub hidden: bool,
    pub persistence: bool,
    pub target: Seq<char>,
    pub channel_type: i32,
}

impl DeepView for ChannelJoin {
    type V = ChannelJoinView;

    open spec fn deep_view(&self) -> ChannelJoinView {
        ChannelJoinView {
            hidden: self.hidden,
            persistence: self.persistence,
            target: self.target.deep_view(),
            channel_type: self.channel_type,
        }
    }
}

impl ChannelJoinView {
    /// Whether every numeric property in this value holds the text of a
    /// JSON number.
    pub open spec fn wf(self) -> bool {
        true
    }

    /// The members before the first field.
    pub open spec fn members_0(self) -> Seq<MemberValue> {
        Seq::empty()
    }

    /// The members up to `hidden`.
    pub open spec fn members_1(self) -> Seq<MemberValue> {
        self.members_0() + seq![member("hidden"@, JsonValue::Bool(self.hidden))]
    }

    /// The members up to `persistence`.
    pub open spec fn members_2(self) -> Seq<MemberValue> {
        self.members_1() + seq![member("persistence"@, JsonValue::Bool(self.persistence))]
    }

    /// The members up to `target`.
    pub open spec fn members_3(self) -> Seq<MemberValue> {
        self.members_2() + seq![member("target"@, JsonValue::Text(self.target))]
    }

    /// The members up to `type`.
    pub open spec fn members_4(self) -> Seq<MemberValue> {
        self.members_3() + seq![member("type"@, integer_json(self.channel_type as int))]
    }

    /// The JSON value that this value is written as.
    #[verifier::opaque]
    pub open spec fn json(self) -> JsonValue {
        JsonValue::Object(self.members_4())
    }

    /// The value that a JSON value is read as, if it holds one.
    #[verifier::opaque]
    pub open spec fn read(json: JsonValue) -> Option<ChannelJoinView> {
        match members_of(json) {
            Some(members) => {
                let hidden = req_bool(members, "hidden"@);
                let persistence = req_bool(members, "persistence"@);
                let target = req_text(members, "target"@);
                let channel_type = req_i32(members, "type"@);
                if hidden is Some && persistence is Some && target is Some && channel_type is Some {
                    Some(ChannelJoinView {
                        hidden: hidden->0,
                        persistence: persistence->0,
                        target: target->0,
                        channel_type: channel_type->0,
                    })
                } else {
                    None
                }
            },
            None => None,
        }
    }

    /// [`ChannelJoinView::json`], as a function.
    pub open spec fn writer() -> spec_fn(ChannelJoinView) -> JsonValue {
        |value: ChannelJoinView| value.json()
    }

    /// [`ChannelJoinView::read`], as a function.
    pub open spec fn reader() -> spec_fn(JsonValue) -> Option<ChannelJoinView> {
        |json: JsonValue| ChannelJoinView::read(json)
    }

    /// The place of a field name among the field names.
    pub open spec fn field_index(name: Seq<char>) -> int {
        if name == "hidden"@ {
            0
        } else if name == "persistence"@ {
            1
        } else if name == "target"@ {
            2
        } else if name == "type"@ {
            3
        } else {
            4
        }
    }

    /// The field names differ from each other.
    pub proof fn lemma_names()
        ensures
            Self::field_index("hidden"@) == 0,
            Self::field_index("persistence"@) == 1,
            Self::field_index("target"@) == 2,
            Self::field_index("type"@) == 3,
    {
        reveal_strlit("hidden");
        reveal_strlit("persistence");
        reveal_strlit("target");
        reveal_strlit("type");
        assert("hidden"@.len() == 6);
        assert("persistence"@.len() == 11);
        assert("target"@.len() == 6);
        assert("type"@.len() == 4);
        assert("hidden"@[0] != "target"@[0]);
    }

    /// Reading what this value is written as gives it back, and what it
    /// is written as can be written as text.
    pub proof fn lemma_read_json(self)
        requires
            self.wf(),
        ensures
            ChannelJoinView::read(self.json()) == Some(self),
            printable(self.json(), 1),
            self.json() is Object,
    {
        broadcast use {group_lookup, group_printable};

        reveal(ChannelJoinView::json);
        reveal(ChannelJoinView::read);
        Self::lemma_names();
        lemma_integer(self.channel_type as i64);
        lemma_object_printable(self.members_4(), 1);
    }
}

impl ChannelJoin {
    /// Writes this value as a JSON value.
    pub fn to_json(&self) -> (json: Json)
        ensures
            json@ == self.deep_view().json(),
    {
        reveal(ChannelJoinView::json);
        let mut members: Vec<Member> = Vec::new();
        assert(member_values(members@) =~= self.deep_view().members_0());
        put_bool(&mut members, "hidden", self.hidden);
        assert(member_values(members@) =~= self.deep_view().members_1());
        put_bool(&mut members, "persistence", self.persistence);
        assert(member_values(members@) =~= self.deep_view().members_2());
        put_text(&mut members, "target", self.target.as_str());
        assert(member_values(members@) =~= self.deep_view().members_3());
        put_integer(&mut members, "type", self.channel_type as i64);
        assert(member_values(members@) =~= self.deep_view().members_4());
        object(members)
    }

    /// Reads a value from a JSON value.
    ///
    /// The JSON value must be an object that holds every field that is not
    /// optional, each with a value of its kind.  Members under other names
    /// are passed over.
    pub fn from_json(json: &Json) -> (read: Option<ChannelJoin>)
        ensures
            match read {
                Some(value) => ChannelJoinView::read(json@) == Some(value.deep_view()),
                None => ChannelJoinView::read(json@) is None,
            },
    {
        reveal(ChannelJoinView::read);
        let members = match object_members(json) {
            Some(members) => members,
            None => {
                return None;
            },
        };
        let hidden = match bool_field(members, "hidden") {
            Some(value) => value,
            None => {
                return None;
            },
        };
        let persistence = match bool_field(members, "persistence") {
            Some(value) => value,
            None => {
                return None;
            },
        };
        let target = match text_field(members, "target") {
            Some(value) => value,
            None => {
                return None;
            },
        };
        let channel_type = match i32_field(members, "type") {
            Some(value) => value,
            None => {
                return None;
            },
        };
        Some(ChannelJoin { hidden, persistence, target, channel_type })
    }
}

/// [`ChannelLeave`], as mathematics.
pub struct ChannelLeaveView {
    pub channel_id: Seq<char>,
}

impl DeepView for ChannelLeave {
    type V = ChannelLeaveView;

    open spec fn deep_view(&self) -> ChannelLeaveView {
        ChannelLeaveView {
            channel_id: self.channel_id.deep_view(),
        }
    }
}

impl ChannelLeaveView {
    /// Whether every numeric property in this value holds the text of a
    /// JSON number.
    pub open spec fn wf(self) -> bool {
        true
    }

    /// The members before the first field.
    pub open spec fn members_0(self) -> Seq<MemberValue> {
        Seq::empty()
    }

    /// The members up to `channel_id`.
    pub open spec fn members_1(self) -> Seq<MemberValue> {
        self.members_0() + seq![member("channel_id"@, JsonValue::Text(self.channel_id))]
    }

    /// The JSON value that this value is written as.
    #[verifier::opaque]
    pub open spec fn json(self) -> JsonValue {
        JsonValue::Object(self.members_1())
    }

    /// The value that a JSON value is read as, if it holds one.
    #[verifier::opaque]
    pub open spec fn read(json: JsonValue) -> Option<ChannelLeaveView> {
        match members_of(json) {
            Some(members) => {
                let channel_id = req_text(members, "channel_id"@);
                if channel_id is Some {
                    Some(ChannelLeaveView {
                        channel_id: channel_id->0,
                    })
                } else {
                    None
                }
            },
            None => None,
        }
    }

    /// [`ChannelLeaveView::json`], as a function.
    pub open spec fn writer() -> spec_fn(ChannelLeaveView) -> JsonValue {
        |value: ChannelLeaveView| value.json()
    }

    /// [`ChannelLeaveView::read`], as a function.
    pub open spec fn reader() -> spec_fn(JsonValue) -> Option<ChannelLeaveView> {
        |json: JsonValue| ChannelLeaveView::read(json)
    }

    /// Reading what this value is written as gives it back, and what it
    /// is written as can be written as text.
    pub proof fn lemma_read_json(self)
        requires
            self.wf(),
        ensures
            ChannelLeaveView::read(self.json()) == Some(self),
            printable(self.json(), 1),
            self.json() is Object,
    {
        broadcast use {group_lookup, group_printable};

        reveal(ChannelLeaveView::json);
        reveal(ChannelLeaveView::read);
        lemma_object_printable(self.members_1(), 1);
    }
}

impl ChannelLeave {
    /// Writes this value as a JSON value.
    pub fn to_json(&self) -> (json: Json)
        ensures
            json@ == self.deep_view().json(),
    {
        reveal(ChannelLeaveView::json);
        let mut members: Vec<Member> = Vec::new();
        assert(member_values(members@) =~= self.deep_view().members_0());
        put_text(&mut members, "channel_id", self.channel_id.as_str());
        assert(member_values(members@) =~= self.deep_view().members_1());
        object(members)
    }

    /// Reads a value from a JSON value.
    ///
    /// The JSON value must be an object that holds every field that is not
    /// optional, each with a value of its kind.  Members under other names
    /// are passed over.
    pub fn from_json(json: &Json) -> (read: Option<ChannelLeave>)
        ensures
            match read {
                Some(value) => ChannelLeaveView::read(json@) == Some(value.deep_view()),
                None => ChannelLeaveView::read(json@) is None,
            },
    {
        reveal(ChannelLeaveView::read);
        let members = match object_members(json) {
            Some(members) => members,
            None => {
                return None;
            },
        };
        let channel_id = match text_field(members, "channel_id") {
            Some(value) => value,
            None => {
                return None;
            },
        };
        Some(ChannelLeave { channel_id })
    }
}

/// [`ChannelMessageAck`], as mathematics.
pub struct ChannelMessageAckView {
    pub channel_id: Seq<char>,
    pub message_id: Seq<char>,
    pub code: i32,
    pub username: Seq<char>,
    pub create_time: Seq<char>,
    pub update_time: Seq<char>,
    pub persistent: bool,
    pub room_name: Option<Seq<char>>,
    pub group_id: Option<Seq<char>>,
    pub user_id_one: Option<Seq<char>>,
    pub user_id_two: Option<Seq<char>>,
}

impl DeepView for ChannelMessageAck {
    type V = ChannelMessageAckView;

    open spec fn deep_view(&self) -> ChannelMessageAckView {
        ChannelMessageAckView {
            channel_id: self.channel_id.deep_view(),
            message_id: self.message_id.deep_view(),
            code: self.code,
            username: self.username.deep_view(),
            create_time: self.create_time.deep_view(),
            update_time: self.update_time.deep_view(),
            persistent: self.persistent,
            room_name: self.room_name.deep_view(),
            group_id: self.group_id.deep_view(),
            user_id_one: self.user_id_one.deep_view(),
            user_id_two: self.user_id_two.deep_view(),
        }
    }
}

impl ChannelMessageAckView {
    /// Whether every numeric property in this value holds the text of a
    /// JSON number.
    pub open spec fn wf(self) -> bool {
        true
    }

    /// The members before the first field.
    pub open spec fn members_0(self) -> Seq<MemberValue> {
        Seq::empty()
    }

    /// The members up to `channel_id`.
    pub open spec fn members_1(self) -> Seq<MemberValue> {
        self.members_0() + seq![member("channel_id"@, JsonValue::Text(self.channel_id))]
    }

    /// The members up to `message_id`.
    pub open spec fn members_2(self) -> Seq<MemberValue> {
        self.members_1() + seq![member("message_id"@, JsonValue::Text(self.message_id))]
    }

    /// The members up to `code`.
    pub open spec fn members_3(self) -> Seq<MemberValue> {
        self.members_2() + seq![member("code"@, integer_json(self.code as int))]
    }

    /// The members up to `username`.
    pub open spec fn members_4(self) -> Seq<MemberValue> {
        self.members_3() + seq![member("username"@, JsonValue::Text(self.username))]
    }

    /// The members up to `create_time`.
    pub open spec fn members_5(self) -> Seq<MemberValue> {
        self.members_4() + seq![member("create_time"@, JsonValue::Text(self.create_time))]
    }

    /// The members up to `update_time`.
    pub open spec fn members_6(self) -> Seq<MemberValue> {
        self.members_5() + seq![member("update_time"@, JsonValue::Text(self.update_time))]
    }

    /// The members up to `persistent`.
    pub open spec fn members_7(self) -> Seq<MemberValue> {
        self.members_6() + seq![member("persistent"@, JsonValue::Bool(self.persistent))]
    }

    /// The members up to `room_name`.
    pub open spec fn members_8(self) -> Seq<MemberValue> {
        self.members_7() + if self.room_name is Some {
            seq![member("room_name"@, JsonValue::Text(self.room_name->0))]
        } else {
            Seq::empty()
        }
    }

    /// The members up to `group_id`.
    pub open spec fn members_9(self) -> Seq<MemberValue> {
        self.members_8() + if self.group_id is Some {
            seq![member("group_id"@, JsonValue::Text(self.group_id->0))]
        } else {
            Seq::empty()
        }
    }

    /// The members up to `user_id_one`.
    pub open spec fn members_10(self) -> Seq<MemberValue> {
        self.members_9() + if self.user_id_one is Some {
            seq![member("user_id_one"@, JsonValue::Text(self.user_id_one->0))]
        } else {
            Seq::empty()
        }
    }

    /// The members up to `user_id_two`.
    pub open spec fn members_11(self) -> Seq<MemberValue> {
        self.members_10() + if self.user_id_two is Some {
            seq![member("user_id_two"@, JsonValue::Text(self.user_id_two->0))]
        } else {
            Seq::empty()
        }
    }

    /// The JSON value that this value is written as.
    #[verifier::opaque]
    pub open spec fn json(self) -> JsonValue {
        JsonValue::Object(self.members_11())
    }

    /// The value that a JSON value is read as, if it holds one.
    #[verifier::opaque]
    pub open spec fn read(json: JsonValue) -> Option<ChannelMessageAckView> {
        match members_of(json) {
            Some(members) => {
                let channel_id = req_text(members, "channel_id"@);
                let message_id = req_text(members, "message_id"@);
                let code = req_i32(members, "code"@);
                let username = req_text(members, "username"@);
                let create_time = req_text(members, "create_time"@);
                let update_time = req_text(members, "update_time"@);
                let persistent = req_bool(members, "persistent"@);
                let room_name = opt_text(members, "room_name"@);
                let group_id = opt_text(members, "group_id"@);
                let user_id_one = opt_text(members, "user_id_one"@);
                let user_id_two = opt_text(members, "user_id_two"@);
                if channel_id is Some && message_id is Some && code is Some && username is Some && create_time is Some && update_time is Some && persistent is Some && room_name is Some && group_id is Some && user_id_one is Some && user_id_two is Some {
                    Some(ChannelMessageAckView {
                        channel_id: channel_id->0,
                        message_id: message_id->0,
                        code: code->0,
                        username: username->0,
                        create_time: create_time->0,
                        update_time: update_time->0,
                        persistent: persistent->0,
                        room_name: room_name->0,
                        group_id: group_id->0,
                        user_id_one: user_id_one->0,
                        user_id_two: user_id_two->0,
                    })
                } else {
                    None
                }
            },
            None => None,
        }
    }

    /// [`ChannelMessageAckView::json`], as a function.
    pub open spec fn writer() -> spec_fn(ChannelMessageAckView) -> JsonValue {
        |value: ChannelMessageAckView| value.json()
    }

    /// [`ChannelMessageAckView::read`], as a function.
    pub open spec fn reader() -> spec_fn(JsonValue) -> Option<ChannelMessageAckView> {
        |json: JsonValue| ChannelMessageAckView::read(json)
    }

    /// The place of a field name among the field names.
    pub open spec fn field_index(name: Seq<char>) -> int {
        if name == "channel_id"@ {
            0
        } else if name == "message_id"@ {
            1
        } else if name == "code"@ {
            2
        } else if name == "username"@ {
            3
        } else if name == "create_time"@ {
            4
        } else if name == "update_time"@ {
            5
        } else if name == "persistent"@ {
            6
        } else if name == "room_name"@ {
            7
        } else if name == "group_id"@ {
            8
        } else if name == "user_id_one"@ {
            9
        } else if name == "user_id_two"@ {
            10
        } else {
            11
        }
    }

    /// The field names differ from each other.
    pub proof fn lemma_names()
        ensures
            Self::field_index("channel_id"@) == 0,
            Self::field_index("message_id"@) == 1,
            Self::field_index("code"@) == 2,
            Self::field_index("username"@) == 3,
            Self::field_index("create_time"@) == 4,
            Self::field_index("update_time"@) == 5,
            Self::field_index("persistent"@) == 6,
            Self::field_index("room_name"@) == 7,
            Self::field_index("group_id"@) == 8,
            Self::field_index("user_id_one"@) == 9,
            Self::field_index("user_id_two"@) == 10,
    {
        reveal_strlit("channel_id");
        reveal_strlit("message_id");
        reveal_strlit("code");
        reveal_strlit("username");
        reveal_strlit("create_time");
        reveal_strlit("update_time");
        reveal_strlit("persistent");
        reveal_strlit("room_name");
        reveal_strlit("group_id");
        reveal_strlit("user_id_one");
        reveal_strlit("user_id_two");
        assert("channel_id"@.len() == 10);
        assert("message_id"@.len() == 10);
        assert("code"@.len() == 4);
        assert("username"@.len() == 8);
        assert("create_time"@.len() == 11);
        assert("update_time"@.len() == 11);
        assert("persistent"@.len() == 10);
        assert("room_name"@.len() == 9);
        assert("group_id"@.len() == 8);
        assert("user_id_one"@.len() == 11);
        assert("user_id_two"@.len() == 11);
        assert("channel_id"@[0] != "message_id"@[0]);
        assert("channel_id"@[0] != "persistent"@[0]);
        assert("message_id"@[0] != "persistent"@[0]);
        assert("username"@[0] != "group_id"@[0]);
        assert("create_time"@[0] != "update_time"@[0]);
        assert("create_time"@[0] != "user_id_one"@[0]);
        assert("create_time"@[0] != "user_id_two"@[0]);
        assert("update_time"@[1] != "user_id_one"@[1]);
        assert("update_time"@[1] != "user_id_two"@[1]);
        assert("user_id_one"@[8] != "user_id_two"@[8]);
    }

    /// Reading what this value is written as gives it back, and what it
    /// is written as can be written as text.
    pub proof fn lemma_read_json(self)
        requires
            self.wf(),
        ensures
            ChannelMessageAckView::read(self.json()) == Some(self),
            printable(self.json(), 1),
            self.json() is Object,
    {
        broadcast use {group_lookup, group_printable};

        reveal(ChannelMessageAckView::json);
        reveal(ChannelMessageAckView::read);
        Self::lemma_names();
        lemma_integer(self.code as i64);
        lemma_object_printable(self.members_11(), 1);
    }
}

impl ChannelMessageAck {
    /// Writes this value as a JSON value.
    pub fn to_json(&self) -> (json: Json)
        ensures
            json@ == self.deep_view().json(),
    {
        reveal(ChannelMessageAckView::json);
        let mut members: Vec<Member> = Vec::new();
        assert(member_values(members@) =~= self.deep_view().members_0());
        put_text(&mut members, "channel_id", self.channel_id.as_str());
        assert(member_values(members@) =~= self.deep_view().members_1());
        put_text(&mut members, "message_id", self.message_id.as_str());
        assert(member_values(members@) =~= self.deep_view().members_2());
        put_integer(&mut members, "code", self.code as i64);
        assert(member_values(members@) =~= self.deep_view().members_3());
        put_text(&mut members, "username", self.username.as_str());
        assert(member_values(members@) =~= self.deep_view().members_4());
        put_text(&mut members, "create_time", self.create_time.0.as_str());
        assert(member_values(members@) =~= self.deep_view().members_5());
        put_text(&mut members, "update_time", self.update_time.0.as_str());
        assert(member_values(members@) =~= self.deep_view().members_6());
        put_bool(&mut members, "persistent", self.persistent);
        assert(member_values(members@) =~= self.deep_view().members_7());
        if let Some(value) = &self.room_name {
            put_text(&mut members, "room_name", value.as_str());
        }
        assert(member_values(members@) =~= self.deep_view().members_8());
        if let Some(value) = &self.group_id {
            put_text(&mut members, "group_id", value.as_str());
        }
        assert(member_values(members@) =~= self.deep_view().members_9());
        if let Some(value) = &self.user_id_one {
            put_text(&mut members, "user_id_one", value.as_str());
        }
        assert(member_values(members@) =~= self.deep_view().members_10());
        if let Some(value) = &self.user_id_two {
            put_text(&mut members, "user_id_two", value.as_str());
        }
        assert(member_values(members@) =~= self.deep_view().members_11());
        object(members)
    }

    /// Reads a value from a JSON value.
    ///
    /// The JSON value must be an object that holds every field that is not
    /// optional, each with a value of its kind.  Members under other names
    /// are passed over.
    pub fn from_json(json: &Json) -> (read: Option<ChannelMessageAck>)
        ensures
            match read {
                Some(value) => ChannelMessageAckView::read(json@) == Some(value.deep_view()),
                None => ChannelMessageAckView::read(json@) is None,
            },
    {
        reveal(ChannelMessageAckView::read);
        let members = match object_members(json) {
            Some(members) => members,
            None => {
                return None;
            },
        };
        let channel_id = match text_field(members, "channel_id") {
            Some(value) => value,
            None => {
                return None;
            },
        };
        let message_id = match text_field(members, "message_id") {
            Some(value) => value,
            None => {
                return None;
            },
        };
        let code = match i32_field(members, "code") {
            Some(value) => value,
            None => {
                return None;
            },
        };
        let username = match text_field(members, "username") {
            Some(value) => value,
            None => {
                return None;
            },
        };
        let create_time = match text_field(members, "create_time") {
            Some(value) => Timestamp(value),
            None => {
                return None;
            },
        };
        let update_time = match text_field(members, "update_time") {
            Some(value) => Timestamp(value),
            None => {
                return None;
            },
        };
        let persistent = match bool_field(members, "persistent") {
            Some(value) => value,
            None => {
                return None;
            },
        };
        let room_name = match opt_text_field(members, "room_name") {
            Some(value) => value,
            None => {
                return None;
            },
        };
        let group_id = match opt_text_field(members, "group_id") {
            Some(value) => value,
            None => {
                return None;
            },
        };
        let user_id_one = match opt_text_field(members, "user_id_one") {
            Some(value) => value,
            None => {
                return None;
            },
        };
        let user_id_two = match opt_text_field(members, "user_id_two") {
            Some(value) => value,
            None => {
                return None;
            },
        };
        Some(ChannelMessageAck { channel_id, message_id, code, username, create_time, update_time, persistent, room_name, group_id, user_id_one, user_id_two })
    }
}

/// [`ChannelMessageSend`], as mathematics.
pub struct ChannelMessageSendView {
    pub channel_id: Seq<char>,
    pub content: Seq<char>,
}

impl DeepView for ChannelMessageSend {
    type V = ChannelMessageSendView;

    open spec fn deep_view(&self) -> ChannelMessageSendView {
        ChannelMessageSendView {
            channel_id: self.channel_id.deep_view(),
            content: self.content.deep_view(),
        }
    }
}

impl ChannelMessageSendView {
    /// Whether every numeric property in this value holds the text of a
    /// JSON number.
    pub open spec fn wf(self) -> bool {
        true
    }

    /// The members before the first field.
    pub open spec fn members_0(self) -> Seq<MemberValue> {
        Seq::empty()
    }

    /// The members up to `channel_id`.
    pub open spec fn members_1(self) -> Seq<MemberValue> {
        self.members_0() + seq![member("channel_id"@, JsonValue::Text(self.channel_id))]
    }

    /// The members up to `content`.
    pub open spec fn members_2(self) -> Seq<MemberValue> {
        self.members_1() + seq![member("content"@, JsonValue::Text(self.content))]
    }

    /// The JSON value that this value is written as.
    #[verifier::opaque]
    pub open spec fn json(self) -> JsonValue {
        JsonValue::Object(self.members_2())
    }

    /// The value that a JSON value is read as, if it holds one.
    #[verifier::opaque]
    pub open spec fn read(json: JsonValue) -> Option<ChannelMessageSendView> {
        match members_of(json) {
            Some(members) => {
                let channel_id = req_text(members, "channel_id"@);
                let content = req_text(members, "content"@);
                if channel_id is Some && content is Some {
                    Some(ChannelMessageSendView {
                        channel_id: channel_id->0,
                        content: content->0,
                    })
                } else {
                    None
                }
            },
            None => None,
        }
    }

    /// [`ChannelMessageSendView::json`], as a function.
    pub open spec fn writer() -> spec_fn(ChannelMessageSendView) -> JsonValue {
        |value: ChannelMessageSendView| value.json()
    }

    /// [`ChannelMessageSendView::read`], as a function.
    pub open spec fn reader() -> spec_fn(JsonValue) -> Option<ChannelMessageSendView> {
        |json: JsonValue| ChannelMessageSendView::read(json)
    }

    /// The place of a field name among the field names.
    pub open spec fn field_index(name: Seq<char>) -> int {
        if name == "channel_id"@ {
            0
        } else if name == "content"@ {
            1
        } else {
            2
        }
    }

    /// The field names differ from each other.
    pub proof fn lemma_names()
        ensures
            Self::field_index("channel_id"@) == 0,
            Self::field_index("content"@) == 1,
    {
        reveal_strlit("channel_id");
        reveal_strlit("content");
        assert("channel_id"@.len() == 10);
        assert("content"@.len() == 7);
    }

    /// Reading what this value is written as gives it back, and what it
    /// is written as can be written as text.
    pub proof fn lemma_read_json(self)
        requires
            self.wf(),
        ensures
            ChannelMessageSendView::read(self.json()) == Some(self),
            printable(self.json(), 1),
            self.json() is Object,
    {
        broadcast use {group_lookup, group_printable};

        reveal(ChannelMessageSendView::json);
        reveal(ChannelMessageSendView::read);
        Self::lemma_names();
        lemma_object_printable(self.members_2(), 1);
    }
}

impl ChannelMessageSend {
    /// Writes this value as a JSON value.
    pub fn to_json(&self) -> (json: Json)
        ensures
            json@ == self.deep_view().json(),
    {
        reveal(ChannelMessageSendView::json);
        let mut members: Vec<Member> = Vec::new();
        assert(member_values(members@) =~= self.deep_view().members_0());
        put_text(&mut members, "channel_id", self.channel_id.as_str());
        assert(member_values(members@) =~= self.deep_view().members_1());
        put_text(&mut members, "content", self.content.as_str());
        assert(member_values(members@) =~= self.deep_view().members_2());
        object(members)
    }

    /// Reads a value from a JSON value.
    ///
    /// The JSON value must be an object that holds every field that is not
    /// optional, each with a value of its kind.  Members under other names
    /// are passed over.
    pub fn from_json(json: &Json) -> (read: Option<ChannelMessageSend>)
        ensures
            match read {
                Some(value) => ChannelMessageSendView::read(json@) == Some(value.deep_view()),
                None => ChannelMessageSendView::read(json@) is None,
            },
    {
        reveal(ChannelMessageSendView::read);
        let members = match object_members(json) {
            Some(members) => members,
            None => {
                return None;
            },
        };
        let channel_id = match text_field(members, "channel_id") {
            Some(value) => value,
            None => {
                return None;
            },
        };
        let content = match text_field(members, "content") {
            Some(value) => value,
            None => {
                return None;
            },
        };
        Some(ChannelMessageSend { channel_id, content })
    }
}

/// [`ChannelMesageUpdate`], as mathematics.
pub struct ChannelMesageUpdateView {
    pub channel_id: Seq<char>,
    pub message_id: Seq<char>,
    pub content: Seq<char>,
}

impl DeepView for ChannelMesageUpdate {
    type V = ChannelMesageUpdateView;

    open spec fn deep_view(&self) -> ChannelMesageUpdateView {
        ChannelMesageUpdateView {
            channel_id: self.channel_id.deep_view(),
            message_id: self.message_id.deep_view(),
            content: self.content.deep_view(),
        }
    }
}

impl ChannelMesageUpdateView {
    /// Whether every numeric property in this value holds the text of a
    /// JSON number.
    pub open spec fn wf(self) -> bool {
        true
    }

    /// The members before the first field.
    pub open spec fn members_0(self) -> Seq<MemberValue> {
        Seq::empty()
    }

    /// The members up to `channel_id`.
    pub open spec fn members_1(self) -> Seq<MemberValue> {
        self.members_0() + seq![member("channel_id"@, JsonValue::Text(self.channel_id))]
    }

    /// The members up to `message_id`.
    pub open spec fn members_2(self) -> Seq<MemberValue> {
        self.members_1() + seq![member("message_id"@, JsonValue::Text(self.message_id))]
    }

    /// The members up to `content`.
    pub open spec fn members_3(self) -> Seq<MemberValue> {
        self.members_2() + seq![member("content"@, JsonValue::Text(self.content))]
    }

    /// The JSON value that this value is written as.
    #[verifier::opaque]
    pub open spec fn json(self) -> JsonValue {
        JsonValue::Object(self.members_3())
    }

    /// The value that a JSON value is read as, if it holds one.
    #[verifier::opaque]
    pub open spec fn read(json: JsonValue) -> Option<ChannelMesageUpdateView> {
        match members_of(json) {
            Some(members) => {
                let channel_id = req_text(members, "channel_id"@);
                let message_id = req_text(members, "message_id"@);
                let content = req_text(members, "content"@);
                if channel_id is Some && message_id is Some && content is Some {
                    Some(ChannelMesageUpdateView {
                        channel_id: channel_id->0,
                        message_id: message_id->0,
                        content: content->0,
                    })
                } else {
                    None
                }
            },
            None => None,
        }
    }

    /// [`ChannelMesageUpdateView::json`], as a function.
    pub open spec fn writer() -> spec_fn(ChannelMesageUpdateView) -> JsonValue {
        |value: ChannelMesageUpdateView| value.json()
    }

    /// [`ChannelMesageUpdateView::read`], as a function.
    pub open spec fn reader() -> spec_fn(JsonValue) -> Option<ChannelMesageUpdateView> {
        |json: JsonValue| ChannelMesageUpdateView::read(json)
    }

    /// The place of a field name among the field names.
    pub open spec fn field_index(name: Seq<char>) -> int {
        if name == "channel_id"@ {
            0
        } else if name == "message_id"@ {
            1
        } else if name == "content"@ {
            2
        } else {
            3
        }
    }

    /// The field names differ from each other.
    pub proof fn lemma_names()
        ensures
            Self::field_index("channel_id"@) == 0,
            Self::field_index("message_id"@) == 1,
            Self::field_index("content"@) == 2,
    {
        reveal_strlit("channel_id");
        reveal_strlit("message_id");
        reveal_strlit("content");
        assert("channel_id"@.len() == 10);
        assert("message_id"@.len() == 10);
        assert("content"@.len() == 7);
        assert("channel_id"@[0] != "message_id"@[0]);
    }

    /// Reading what this value is written as gives it back, and what it
    /// is written as can be written as text.
    pub proof fn lemma_read_json(self)
        requires
            self.wf(),
        ensures
            ChannelMesageUpdateView::read(self.json()) == Some(self),
            printable(self.json(), 1),
            self.json() is Object,
    {
        broadcast use {group_lookup, group_printable};

        reveal(ChannelMesageUpdateView::json);
        reveal(ChannelMesageUpdateView::read);
        Self::lemma_names();
        lemma_object_printable(self.members_3(), 1);
    }
}

impl ChannelMesageUpdate {
    /// Writes this value as a JSON value.
    pub fn to_json(&self) -> (json: Json)
        ensures
            json@ == self.deep_view().json(),
    {
        reveal(ChannelMesageUpdateView::json);
        let mut members: Vec<Member> = Vec::new();
        assert(member_values(members@) =~= self.deep_view().members_0());
        put_text(&mut members, "channel_id", self.channel_id.as_str());
        assert(member_values(members@) =~= self.deep_view().members_1());
        put_text(&mut members, "message_id", self.message_id.as_str());
        assert(member_values(members@) =~= self.deep_view().members_2());
        put_text(&mut members, "content", self.content.as_str());
        assert(member_values(members@) =~= self.deep_view().members_3());
        object(members)
    }

    /// Reads a value from a JSON value.
    ///
    /// The JSON value must be an object that holds every field that is not
    /// optional, each with a value of its kind.  Members under other names
    /// are passed over.
    pub fn from_json(json: &Json) -> (read: Option<ChannelMesageUpdate>)
        ensures
            match read {
                Some(value) => ChannelMesageUpdateView::read(json@) == Some(value.deep_view()),
                None => ChannelMesageUpdateView::read(json@) is None,
            },
    {
        reveal(ChannelMesageUpdateView::read);
        let members = match object_members(json) {
            Some(members) => members,
            None => {
                return None;
            },
        };
        let channel_id = match text_field(members, "channel_id") {
            Some(value) => value,
            None => {
                return None;
            },
        };
        let message_id = match text_field(members, "message_id") {
            Some(value) => value,
            None => {
                return None;
            },
        };
        let content = match text_field(members, "content") {
            Some(value) => value,
            None => {
                return None;
            },
        };
        Some(ChannelMesageUpdate { channel_id, message_id, content })
    }
}

/// [`ChannelMesageRemove`], as mathematics.
pub struct ChannelMesageRemoveView {
    pub channel_id: Seq<char>,
    pub message_id: Seq<char>,
}

impl DeepView for ChannelMesageRemove {
    type V = ChannelMesageRemoveView;

    open spec fn deep_view(&self) -> ChannelMesageRemoveView {
        ChannelMesageRemoveView {
            channel_id: self.channel_id.deep_view(),
            message_id: self.message_id.deep_view(),
        }
    }
}

impl ChannelMesageRemoveView {
    /// Whether every numeric property in this value holds the text of a
    /// JSON number.
    pub open spec fn wf(self) -> bool {
        true
    }

    /// The members before the first field.
    pub open spec fn members_0(self) -> Seq<MemberValue> {
        Seq::empty()
    }

    /// The members up to `channel_id`.
    pub open spec fn members_1(self) -> Seq<MemberValue> {
        self.members_0() + seq![member("channel_id"@, JsonValue::Text(self.channel_id))]
    }

    /// The members up to `message_id`.
    pub open spec fn members_2(self) -> Seq<MemberValue> {
        self.members_1() + seq![member("message_id"@, JsonValue::Text(self.message_id))]
    }

    /// The JSON value that this value is written as.
    #[verifier::opaque]
    pub open spec fn json(self) -> JsonValue {
        JsonValue::Object(self.members_2())
    }

    /// The value that a JSON value is read as, if it holds one.
    #[verifier::opaque]
    pub open spec fn read(json: JsonValue) -> Option<ChannelMesageRemoveView> {
        match members_of(json) {
            Some(members) => {
                let channel_id = req_text(members, "channel_id"@);
                let message_id = req_text(members, "message_id"@);
                if channel_id is Some && message_id is Some {
                    Some(ChannelMesageRemoveView {
                        channel_id: channel_id->0,
                        message_id: message_id->0,
                    })
                } else {
                    None
                }
            },
            None => None,
        }
    }

    /// [`ChannelMesageRemoveView::json`], as a function.
    pub open spec fn writer() -> spec_fn(ChannelMesageRemoveView) -> JsonValue {
        |value: ChannelMesageRemoveView| value.json()
    }

    /// [`ChannelMesageRemoveView::read`], as a function.
    pub open spec fn reader() -> spec_fn(JsonValue) -> Option<ChannelMesageRemoveView> {
        |json: JsonValue| ChannelMesageRemoveView::read(json)
    }

    /// The place of a field name among the field names.
    pub open spec fn field_index(name: Seq<char>) -> int {
        if name == "channel_id"@ {
            0
        } else if name == "message_id"@ {
            1
        } else {
            2
        }
    }

    /// The field names differ from each other.
    pub proof fn lemma_names()
        ensures
            Self::field_index("channel_id"@) == 0,
            Self::field_index("message_id"@) == 1,
    {
        reveal_strlit("channel_id");
        reveal_strlit("message_id");
        assert("channel_id"@.len() == 10);
        assert("message_id"@.len() == 10);
        assert("channel_id"@[0] != "message_id"@[0]);
    }

    /// Reading what this value is written as gives it back, and what it
    /// is written as can be written as text.
    pub proof fn lemma_read_json(self)
        requires
            self.wf(),
        ensures
            ChannelMesageRemoveView::read(self.json()) == Some(self),
            printable(self.json(), 1),
            self.json() is Object,
    {
        broadcast use {group_lookup, group_printable};

        reveal(ChannelMesageRemoveView::json);
        reveal(ChannelMesageRemoveView::read);
        Self::lemma_names();
        lemma_object_printable(self.members_2(), 1);
    }
}

impl ChannelMesageRemove {
    /// Writes this value as a JSON value.
    pub fn to_json(&self) -> (json: Json)
        ensures
            json@ == self.deep_view().json(),
    {
        reveal(ChannelMesageRemoveView::json);
        let mut members: Vec<Member> = Vec::new();
        assert(member_values(members@) =~= self.deep_view().members_0());
        put_text(&mut members, "channel_id", self.channel_id.as_str());
        assert(member_values(members@) =~= self.deep_view().members_1());
        put_text(&mut members, "message_id", self.message_id.as_str());
        assert(member_values(members@) =~= self.deep_view().members_2());
        object(members)
    }

    /// Reads a value from a JSON value.
    ///
    /// The JSON value must be an object that holds every field that is not
    /// optional, each with a value of its kind.  Members under other names
    /// are passed over.
    pub fn from_json(json: &Json) -> (read: Option<ChannelMesageRemove>)
        ensures
            match read {
                Some(value) => ChannelMesageRemoveView::read(json@) == Some(value.deep_view()),
                None => ChannelMesageRemoveView::read(json@) is None,
            },
    {
        reveal(ChannelMesageRemoveView::read);
        let members = match object_members(json) {
            Some(members) => members,
            None => {
                return None;
            },
        };
        let channel_id = match text_field(members, "channel_id") {
            Some(value) => value,
            None => {
                return None;
            },
        };
        let message_id = match text_field(members, "message_id") {
            Some(value) => value,
            None => {
                return None;
            },
        };
        Some(ChannelMesageRemove { channel_id, message_id })
    }
}

/// [`ChannelPresenceEvent`], as mathematics.
pub struct ChannelPresenceEventView {
    pub channel_id: Seq<char>,
    pub joins: Seq<UserPresenceView>,
    pub leaves: Seq<UserPresenceView>,
    pub room_name: Option<Seq<char>>,
    pub group_id: Option<Seq<char>>,
    pub user_id_one: Option<Seq<char>>,
    pub user_id_two: Option<Seq<char>>,
}

impl DeepView for ChannelPresenceEvent {
    type V = ChannelPresenceEventView;

    open spec fn deep_view(&self) -> ChannelPresenceEventView {
        ChannelPresenceEventView {
            channel_id: self.channel_id.deep_view(),
            joins: self.joins.deep_view(),
            leaves: self.leaves.deep_view(),
            room_name: self.room_name.deep_view(),
            group_id: self.group_id.deep_view(),
            user_id_one: self.user_id_one.deep_view(),
            user_id_two: self.user_id_two.deep_view(),
        }
    }
}

impl ChannelPresenceEventView {
    /// Whether every numeric property in this value holds the text of a
    /// JSON number.
    pub open spec fn wf(self) -> bool {
        true
    }

    /// The members before the first field.
    pub open spec fn members_0(self) -> Seq<MemberValue> {
        Seq::empty()
    }

    /// The members up to `channel_id`.
    pub open spec fn members_1(self) -> Seq<MemberValue> {
        self.members_0() + seq![member("channel_id"@, JsonValue::Text(self.channel_id))]
    }

    /// The members up to `joins`.
    pub open spec fn members_2(self) -> Seq<MemberValue> {
        self.members_1() + seq![member("joins"@, array_json(self.joins, UserPresenceView::writer()))]
    }

    /// The members up to `leaves`.
    pub open spec fn members_3(self) -> Seq<MemberValue> {
        self.members_2() + seq![member("leaves"@, array_json(self.leaves, UserPresenceView::writer()))]
    }

    /// The members up to `room_name`.
    pub open spec fn members_4(self) -> Seq<MemberValue> {
        self.members_3() + if self.room_name is Some {
            seq![member("room_name"@, JsonValue::Text(self.room_name->0))]
        } else {
            Seq::empty()
        }
    }

    /// The members up to `group_id`.
    pub open spec fn members_5(self) -> Seq<MemberValue> {
        self.members_4() + if self.group_id is Some {
            seq![member("group_id"@, JsonValue::Text(self.group_id->0))]
        } else {
            Seq::empty()
        }
    }

    /// The members up to `user_id_one`.
    pub open spec fn members_6(self) -> Seq<MemberValue> {
        self.members_5() + if self.user_id_one is Some {
            seq![member("user_id_one"@, JsonValue::Text(self.user_id_one->0))]
        } else {
            Seq::empty()
        }
    }

    /// The members up to `user_id_two`.
    pub open spec fn members_7(self) -> Seq<MemberValue> {
        self.members_6() + if self.user_id_two is Some {
            seq![member("user_id_two"@, JsonValue::Text(self.user_id_two->0))]
        } else {
            Seq::empty()
        }
    }

    /// The JSON value that this value is written as.
    #[verifier::opaque]
    pub open spec fn json(self) -> JsonValue {
        JsonValue::Object(self.members_7())
    }

    /// The value that a JSON value is read as, if it holds one.
    #[verifier::opaque]
    pub open spec fn read(json: JsonValue) -> Option<ChannelPresenceEventView> {
        match members_of(json) {
            Some(members) => {
                let channel_id = req_text(members, "channel_id"@);
                let joins = req_array(members, "joins"@, UserPresenceView::reader());
                let leaves = req_array(members, "leaves"@, UserPresenceView::reader());
                let room_name = opt_text(members, "room_name"@);
                let group_id = opt_text(members, "group_id"@);
                let user_id_one = opt_text(members, "user_id_one"@);
                let user_id_two = opt_text(members, "user_id_two"@);
                if channel_id is Some && joins is Some && leaves is Some && room_name is Some && group_id is Some && user_id_one is Some && user_id_two is Some {
                    Some(ChannelPresenceEventView {
                        channel_id: channel_id->0,
                        joins: joins->0,
                        leaves: leaves->0,
                        room_name: room_name->0,
                        group_id: group_id->0,
                        user_id_one: user_id_one->0,
                        user_id_two: user_id_two->0,
                    })
                } else {
                    None
                }
            },
            None => None,
        }
    }

    /// [`ChannelPresenceEventView::json`], as a function.
    pub open spec fn writer() -> spec_fn(ChannelPresenceEventView) -> JsonValue {
        |value: ChannelPresenceEventView| value.json()
    }

    /// [`ChannelPresenceEventView::read`], as a function.
    pub open spec fn reader() -> spec_fn(JsonValue) -> Option<ChannelPresenceEventView> {
        |json: JsonValue| ChannelPresenceEventView::read(json)
    }

    /// The place of a field name among the field names.
    pub open spec fn field_index(name: Seq<char>) -> int {
        if name == "channel_id"@ {
            0
        } else if name == "joins"@ {
            1
        } else if name == "leaves"@ {
            2
        } else if name == "room_name"@ {
            3
        } else if name == "group_id"@ {
            4
        } else if name == "user_id_one"@ {
            5
        } else if name == "user_id_two"@ {
            6
        } else {
            7
        }
    }

    /// The field names differ from each other.
    pub proof fn lemma_names()
        ensures
            Self::field_index("channel_id"@) == 0,
            Self::field_index("joins"@) == 1,
            Self::field_index("leaves"@) == 2,
            Self::field_index("room_name"@) == 3,
            Self::field_index("group_id"@) == 4,
            Self::field_index("user_id_one"@) == 5,
            Self::field_index("user_id_two"@) == 6,
    {
        reveal_strlit("channel_id");
        reveal_strlit("joins");
        reveal_strlit("leaves");
        reveal_strlit("room_name");
        reveal_strlit("group_id");
        reveal_strlit("user_id_one");
        reveal_strlit("user_id_two");
        assert("channel_id"@.len() == 10);
        assert("joins"@.len() == 5);
        assert("leaves"@.len() == 6);
        assert("room_name"@.len() == 9);
        assert("group_id"@.len() == 8);
        assert("user_id_one"@.len() == 11);
        assert("user_id_two"@.len() == 11);
        assert("user_id_one"@[8] != "user_id_two"@[8]);
    }

    /// Reading what this value is written as gives it back, and what it
    /// is written as can be written as text.
    pub proof fn lemma_read_json(self)
        requires
            self.wf(),
        ensures
            ChannelPresenceEventView::read(self.json()) == Some(self),
            printable(self.json(), 3),
            self.json() is Object,
    {
        broadcast use {group_lookup, group_printable};

        reveal(ChannelPresenceEventView::json);
        reveal(ChannelPresenceEventView::read);
        Self::lemma_names();
        UserPresenceView::lemma_read_each(self.joins);
        lemma_printable_deeper(array_json(self.joins, UserPresenceView::writer()), 2, 2);
        UserPresenceView::lemma_read_each(self.leaves);
        lemma_printable_deeper(array_json(self.leaves, UserPresenceView::writer()), 2, 2);
        lemma_object_printable(self.members_7(), 3);
    }
}

impl ChannelPresenceEvent {
    /// Writes this value as a JSON value.
    pub fn to_json(&self) -> (json: Json)
        ensures
            json@ == self.deep_view().json(),
    {
        reveal(ChannelPresenceEventView::json);
        let mut members: Vec<Member> = Vec::new();
        assert(member_values(members@) =~= self.deep_view().members_0());
        put_text(&mut members, "channel_id", self.channel_id.as_str());
        assert(member_values(members@) =~= self.deep_view().members_1());
        put(&mut members, "joins", UserPresence::vec_to_json(&self.joins));
        assert(member_values(members@) =~= self.deep_view().members_2());
        put(&mut members, "leaves", UserPresence::vec_to_json(&self.leaves));
        assert(member_values(members@) =~= self.deep_view().members_3());
        if let Some(value) = &self.room_name {
            put_text(&mut members, "room_name", value.as_str());
        }
        assert(member_values(members@) =~= self.deep_view().members_4());
        if let Some(value) = &self.group_id {
            put_text(&mut members, "group_id", value.as_str());
        }
        assert(member_values(members@) =~= self.deep_view().members_5());
        if let Some(value) = &self.user_id_one {
            put_text(&mut members, "user_id_one", value.as_str());
        }
        assert(member_values(members@) =~= self.deep_view().members_6());
        if let Some(value) = &self.user_id_two {
            put_text(&mut members, "user_id_two", value.as_str());
        }
        assert(member_values(members@) =~= self.deep_view().members_7());
        object(members)
    }

    /// Reads a value from a JSON value.
    ///
    /// The JSON value must be an object that holds every field that is not
    /// optional, each with a value of its kind.  Members under other names
    /// are passed over.
    pub fn from_json(json: &Json) -> (read: Option<ChannelPresenceEvent>)
        ensures
            match read {
                Some(value) => ChannelPresenceEventView::read(json@) == Some(value.deep_view()),
                None => ChannelPresenceEventView::read(json@) is None,
            },
    {
        reveal(ChannelPresenceEventView::read);
        let members = match object_members(json) {
            Some(members) => members,
            None => {
                return None;
            },
        };
        let channel_id = match text_field(members, "channel_id") {
            Some(value) => value,
            None => {
                return None;
            },
        };
        let joins = match find(members, "joins") {
            Some(json) => match UserPresence::vec_from_json(json) {
                Some(value) => value,
                None => {
                    return None;
                },
            },
            None => {
                return None;
            },
        };
        let leaves = match find(members, "leaves") {
            Some(json) => match UserPresence::vec_from_json(json) {
                Some(value) => value,
                None => {
                    return None;
                },
            },
            None => {
                return None;
            },
        };
        let room_name = match opt_text_field(members, "room_name") {
            Some(value) => value,
            None => {
                return None;
            },
        };
        let group_id = match opt_text_field(members, "group_id") {
            Some(value) => value,
            None => {
                return None;
            },
        };
        let user_id_one = match opt_text_field(members, "user_id_one") {
            Some(value) => value,
            None => {
                return None;
            },
        };
        let user_id_two = match opt_text_field(members, "user_id_two") {
            Some(value) => value,
            None => {
                return None;
            },
        };
        Some(ChannelPresenceEvent { channel_id, joins, leaves, room_name, group_id, user_id_one, user_id_two })
    }
}

/// [`Error`], as mathematics.
pub struct ErrorView {
    pub code: i32,
    pub message: Seq<char>,
    pub context: Seq<PropertyView>,
}

impl DeepView for Error {
    type V = ErrorView;

    open spec fn deep_view(&self) -> ErrorView {
        ErrorView {
            code: self.code,
            message: self.message.deep_view(),
            context: self.context.deep_view(),
        }
    }
}

impl ErrorView {
    /// Whether every numeric property in this value holds the text of a
    /// JSON number.
    pub open spec fn wf(self) -> bool {
        true
    }

    /// The members before the first field.
    pub open spec fn members_0(self) -> Seq<MemberValue> {
        Seq::empty()
    }

    /// The members up to `code`.
    pub open spec fn members_1(self) -> Seq<MemberValue> {
        self.members_0() + seq![member("code"@, integer_json(self.code as int))]
    }

    /// The members up to `message`.
    pub open spec fn members_2(self) -> Seq<MemberValue> {
        self.members_1() + seq![member("message"@, JsonValue::Text(self.message))]
    }

    /// The members up to `context`.
    pub open spec fn members_3(self) -> Seq<MemberValue> {
        self.members_2() + seq![member("context"@, properties_json(self.context))]
    }

    /// The JSON value that this value is written as.
    #[verifier::opaque]
    pub open spec fn json(self) -> JsonValue {
        JsonValue::Object(self.members_3())
    }

    /// The value that a JSON value is read as, if it holds one.
    #[verifier::opaque]
    pub open spec fn read(json: JsonValue) -> Option<ErrorView> {
        match members_of(json) {
            Some(members) => {
                let code = req_i32(members, "code"@);
                let message = req_text(members, "message"@);
                let context = req_properties(members, "context"@);
                if code is Some && message is Some && context is Some {
                    Some(ErrorView {
                        code: code->0,
                        message: message->0,
                        context: context->0,
                    })
                } else {
                    None
                }
            },
            None => None,
        }
    }

    /// [`ErrorView::json`], as a function.
    pub open spec fn writer() -> spec_fn(ErrorView) -> JsonValue {
        |value: ErrorView| value.json()
    }

    /// [`ErrorView::read`], as a function.
    pub open spec fn reader() -> spec_fn(JsonValue) -> Option<ErrorView> {
        |json: JsonValue| ErrorView::read(json)
    }

    /// The place of a field name among the field names.
    pub open spec fn field_index(name: Seq<char>) -> int {
        if name == "code"@ {
            0
        } else if name == "message"@ {
            1
        } else if name == "context"@ {
            2
        } else {
            3
        }
    }

    /// The field names differ from each other.
    pub proof fn lemma_names()
        ensures
            Self::field_index("code"@) == 0,
            Self::field_index("message"@) == 1,
            Self::field_index("context"@) == 2,
    {
        reveal_strlit("code");
        reveal_strlit("message");
        reveal_strlit("context");
        assert("code"@.len() == 4);
        assert("message"@.len() == 7);
        assert("context"@.len() == 7);
        assert("message"@[0] != "context"@[0]);
    }

    /// Reading what this value is written as gives it back, and what it
    /// is written as can be written as text.
    pub proof fn lemma_read_json(self)
        requires
            self.wf(),
        ensures
            ErrorView::read(self.json()) == Some(self),
            printable(self.json(), 2),
            self.json() is Object,
    {
        broadcast use {group_lookup, group_printable};

        reveal(ErrorView::json);
        reveal(ErrorView::read);
        Self::lemma_names();
        lemma_integer(self.code as i64);
        lemma_properties(self.context);
        lemma_printable_deeper(properties_json(self.context), 1, 1);
        lemma_object_printable(self.members_3(), 2);
    }
}

impl Error {
    /// Writes this value as a JSON value.
    pub fn to_json(&self) -> (json: Json)
        ensures
            json@ == self.deep_view().json(),
    {
        reveal(ErrorView::json);
        let mut members: Vec<Member> = Vec::new();
        assert(member_values(members@) =~= self.deep_view().members_0());
        put_integer(&mut members, "code", self.code as i64);
        assert(member_values(members@) =~= self.deep_view().members_1());
        put_text(&mut members, "message", self.message.as_str());
        assert(member_values(members@) =~= self.deep_view().members_2());
        put(&mut members, "context", properties_to_json(&self.context));
        assert(member_values(members@) =~= self.deep_view().members_3());
        object(members)
    }

    /// Reads a value from a JSON value.
    ///
    /// The JSON value must be an object that holds every field that is not
    /// optional, each with a value of its kind.  Members under other names
    /// are passed over.
    pub fn from_json(json: &Json) -> (read: Option<Error>)
        ensures
            match read {
                Some(value) => ErrorView::read(json@) == Some(value.deep_view()),
                None => ErrorView::read(json@) is None,
            },
    {
        reveal(ErrorView::read);
        let members = match object_members(json) {
            Some(members) => members,
            None => {
                return None;
            },
        };
        let code = match i32_field(members, "code") {
            Some(value) => value,
            None => {
                return None;
            },
        };
        let message = match text_field(members, "message") {
            Some(value) => value,
            None => {
                return None;
            },
        };
        let context = match find(members, "context") {
            Some(json) => match properties_from_json(json) {
                Some(value) => value,
                None => {
                    return None;
                },
            },
            None => {
                return None;
            },
        };
        Some(Error { code, message, context })
    }
}

/// [`Match`], as mathematics.
pub struct MatchView {
    pub match_id: Seq<char>,
    pub authoritative: bool,
    pub label: Seq<char>,
    pub size: i32,
    pub presences: Seq<UserPresenceView>,
    pub _self: UserPresenceView,
}

impl DeepView for Match {
    type V = MatchView;

    open spec fn deep_view(&self) -> MatchView {
        MatchView {
            match_id: self.match_id.deep_view(),
            authoritative: self.authoritative,
            label: self.label.deep_view(),
            size: self.size,
            presences: self.presences.deep_view(),
            _self: self._self.deep_view(),
        }
    }
}

impl MatchView {
    /// Whether every numeric property in this value holds the text of a
    /// JSON number.
    pub open spec fn wf(self) -> bool {
        true
    }

    /// The members before the first field.
    pub open spec fn members_0(self) -> Seq<MemberValue> {
        Seq::empty()
    }

    /// The members up to `match_id`.
    pub open spec fn members_1(self) -> Seq<MemberValue> {
        self.members_0() + seq![member("match_id"@, JsonValue::Text(self.match_id))]
    }

    /// The members up to `authoritative`.
    pub open spec fn members_2(self) -> Seq<MemberValue> {
        self.members_1() + seq![member("authoritative"@, JsonValue::Bool(self.authoritative))]
    }

    /// The members up to `label`.
    pub open spec fn members_3(self) -> Seq<MemberValue> {
        self.members_2() + seq![member("label"@, JsonValue::Text(self.label))]
    }

    /// The members up to `size`.
    pub open spec fn members_4(self) -> Seq<MemberValue> {
        self.members_3() + seq![member("size"@, integer_json(self.size as int))]
    }

    /// The members up to `presences`.
    pub open spec fn members_5(self) -> Seq<MemberValue> {
        self.members_4() + seq![member("presences"@, array_json(self.presences, UserPresenceView::writer()))]
    }

    /// The members up to `self`.
    pub open spec fn members_6(self) -> Seq<MemberValue> {
        self.members_5() + seq![member("self"@, self._self.json())]
    }

    /// The JSON value that this value is written as.
    #[verifier::opaque]
    pub open spec fn json(self) -> JsonValue {
        JsonValue::Object(self.members_6())
    }

    /// The value that a JSON value is read as, if it holds one.
    #[verifier::opaque]
    pub open spec fn read(json: JsonValue) -> Option<MatchView> {
        match members_of(json) {
            Some(members) => {
                let match_id = req_text(members, "match_id"@);
                let authoritative = req_bool(members, "authoritative"@);
                let label = req_text(members, "label"@);
                let size = req_i32(members, "size"@);
                let presences = req_array(members, "presences"@, UserPresenceView::reader());
                let _self = req_record(members, "self"@, UserPresenceView::reader());
                if match_id is Some && authoritative is Some && label is Some && size is Some && presences is Some && _self is Some {
                    Some(MatchView {
                        match_id: match_id->0,
                        authoritative: authoritative->0,
                        label: label->0,
                        size: size->0,
                        presences: presences->0,
                        _self: _self->0,
                    })
                } else {
                    None
                }
            },
            None => None,
        }
    }

    /// [`MatchView::json`], as a function.
    pub open spec fn writer() -> spec_fn(MatchView) -> JsonValue {
        |value: MatchView| value.json()
    }

    /// [`MatchView::read`], as a function.
    pub open spec fn reader() -> spec_fn(JsonValue) -> Option<MatchView> {
        |json: JsonValue| MatchView::read(json)
    }

    /// The place of a field name among the field names.
    pub open spec fn field_index(name: Seq<char>) -> int {
        if name == "match_id"@ {
            0
        } else if name == "authoritative"@ {
            1
        } else if name == "label"@ {
            2
        } else if name == "size"@ {
            3
        } else if name == "presences"@ {
            4
        } else if name == "self"@ {
            5
        } else {
            6
        }
    }

    /// The field names differ from each other.
    pub proof fn lemma_names()
        ensures
            Self::field_index("match_id"@) == 0,
            Self::field_index("authoritative"@) == 1,
            Self::field_index("label"@) == 2,
            Self::field_index("size"@) == 3,
            Self::field_index("presences"@) == 4,
            Self::field_index("self"@) == 5,
    {
        reveal_strlit("match_id");
        reveal_strlit("authoritative");
        reveal_strlit("label");
        reveal_strlit("size");
        reveal_strlit("presences");
        reveal_strlit("self");
        assert("match_id"@.len() == 8);
        assert("authoritative"@.len() == 13);
        assert("label"@.len() == 5);
        assert("size"@.len() == 4);
        assert("presences"@.len() == 9);
        assert("self"@.len() == 4);
        assert("size"@[1] != "self"@[1]);
    }

    /// Reading what this value is written as gives it back, and what it
    /// is written as can be written as text.
    pub proof fn lemma_read_json(self)
        requires
            self.wf(),
        ensures
            MatchView::read(self.json()) == Some(self),
            printable(self.json(), 3),
            self.json() is Object,
    {
        broadcast use {group_lookup, group_printable};

        reveal(MatchView::json);
        reveal(MatchView::read);
        Self::lemma_names();
        lemma_integer(self.size as i64);
        UserPresenceView::lemma_read_each(self.presences);
        lemma_printable_deeper(array_json(self.presences, UserPresenceView::writer()), 2, 2);
        self._self.lemma_read_json();
        lemma_printable_deeper(self._self.json(), 1, 2);
        lemma_object_printable(self.members_6(), 3);
    }
}

impl Match {
    /// Writes this value as a JSON value.
    pub fn to_json(&self) -> (json: Json)
        ensures
            json@ == self.deep_view().json(),
    {
        reveal(MatchView::json);
        let mut members: Vec<Member> = Vec::new();
        assert(member_values(members@) =~= self.deep_view().members_0());
        put_text(&mut members, "match_id", self.match_id.as_str());
        assert(member_values(members@) =~= self.deep_view().members_1());
        put_bool(&mut members, "authoritative", self.authoritative);
        assert(member_values(members@) =~= self.deep_view().members_2());
        put_text(&mut members, "label", self.label.as_str());
        assert(member_values(members@) =~= self.deep_view().members_3());
        put_integer(&mut members, "size", self.size as i64);
        assert(member_values(members@) =~= self.deep_view().members_4());
        put(&mut members, "presences", UserPresence::vec_to_json(&self.presences));
        assert(member_values(members@) =~= self.deep_view().members_5());
        put(&mut members, "self", self._self.to_json());
        assert(member_values(members@) =~= self.deep_view().members_6());
        object(members)
    }

    /// Reads a value from a JSON value.
    ///
    /// The JSON value must be an object that holds every field that is not
    /// optional, each with a value of its kind.  Members under other names
    /// are passed over.
    pub fn from_json(json: &Json) -> (read: Option<Match>)
        ensures
            match read {
                Some(value) => MatchView::read(json@) == Some(value.deep_view()),
                None => MatchView::read(json@) is None,
            },
    {
        reveal(MatchView::read);
        let members = match object_members(json) {
            Some(members) => members,
            None => {
                return None;
            },
        };
        let match_id = match text_field(members, "match_id") {
            Some(value) => value,
            None => {
                return None;
            },
        };
        let authoritative = match bool_field(members, "authoritative") {
            Some(value) => value,
            None => {
                return None;
            },
        };
        let label = match text_field(members, "label") {
            Some(value) => value,
            None => {
                return None;
            },
        };
        let size = match i32_field(members, "size") {
            Some(value) => value,
            None => {
                return None;
            },
        };
        let presences = match find(members, "presences") {
            Some(json) => match UserPresence::vec_from_json(json) {
                Some(value) => value,
                None => {
                    return None;
                },
            },
            None => {
                return None;
            },
        };
        let _self = match find(members, "self") {
            Some(json) => match UserPresence::from_json(json) {
                Some(value) => value,
                None => {
                    return None;
                },
            },
            None => {
                return None;
            },
        };
        Some(Match { match_id, authoritative, label, size, presences, _self })
    }
}

/// [`MatchCreate`], as mathematics.
pub struct MatchCreateView {}

impl DeepView for MatchCreate {
    type V = MatchCreateView;

    open spec fn deep_view(&self) -> MatchCreateView {
        MatchCreateView {}
    }
}

impl MatchCreateView {
    /// Whether every numeric property in this value holds the text of a
    /// JSON number.
    pub open spec fn wf(self) -> bool {
        true
    }

    /// The members before the first field.
    pub open spec fn members_0(self) -> Seq<MemberValue> {
        Seq::empty()
    }

    /// The JSON value that this value is written as.
    #[verifier::opaque]
    pub open spec fn json(self) -> JsonValue {
        JsonValue::Object(self.members_0())
    }

    /// The value that a JSON value is read as, if it holds one.
    #[verifier::opaque]
    pub open spec fn read(json: JsonValue) -> Option<MatchCreateView> {
        match members_of(json) {
            Some(_) => Some(MatchCreateView {}),
            None => None,
        }
    }

    /// [`MatchCreateView::json`], as a function.
    pub open spec fn writer() -> spec_fn(MatchCreateView) -> JsonValue {
        |value: MatchCreateView| value.json()
    }

    /// [`MatchCreateView::read`], as a function.
    pub open spec fn reader() -> spec_fn(JsonValue) -> Option<MatchCreateView> {
        |json: JsonValue| MatchCreateView::read(json)
    }

    /// Reading what this value is written as gives it back, and what it
    /// is written as can be written as text.
    pub proof fn lemma_read_json(self)
        requires
            self.wf(),
        ensures
            MatchCreateView::read(self.json()) == Some(self),
            printable(self.json(), 1),
            self.json() is Object,
    {
        broadcast use {group_lookup, group_printable};

        reveal(MatchCreateView::json);
        reveal(MatchCreateView::read);
        lemma_object_printable(self.members_0(), 1);
    }
}

impl MatchCreate {
    /// Writes this value as a JSON value.
    pub fn to_json(&self) -> (json: Json)
        ensures
            json@ == self.deep_view().json(),
    {
        reveal(MatchCreateView::json);
        let mut members: Vec<Member> = Vec::new();
        assert(member_values(members@) =~= self.deep_view().members_0());
        object(members)
    }

    /// Reads a value from a JSON value.
    ///
    /// The JSON value must be an object that holds every field that is not
    /// optional, each with a value of its kind.  Members under other names
    /// are passed over.
    pub fn from_json(json: &Json) -> (read: Option<MatchCreate>)
        ensures
            match read {
                Some(value) => MatchCreateView::read(json@) == Some(value.deep_view()),
                None => MatchCreateView::read(json@) is None,
            },
    {
        reveal(MatchCreateView::read);
        let members = match object_members(json) {
            Some(members) => members,
            None => {
                return None;
            },
        };
        Some(MatchCreate {})
    }
}

/// [`MatchData`], as mathematics.
pub struct MatchDataView {
    pub match_id: Seq<char>,
    pub presence: UserPresenceView,
    pub op_code: i64,
    pub data: Seq<u8>,
    pub reliable: bool,
}

impl DeepView for MatchData {
    type V = MatchDataView;

    open spec fn deep_view(&self) -> MatchDataView {
        MatchDataView {
            match_id: self.match_id.deep_view(),
            presence: self.presence.deep_view(),
            op_code: self.op_code,
            data: self.data.deep_view(),
            reliable: self.reliable,
        }
    }
}

impl MatchDataView {
    /// Whether every numeric property in this value holds the text of a
    /// JSON number.
    pub open spec fn wf(self) -> bool {
        true
    }

    /// The members before the first field.
    pub open spec fn members_0(self) -> Seq<MemberValue> {
        Seq::empty()
    }

    /// The members up to `match_id`.
    pub open spec fn members_1(self) -> Seq<MemberValue> {
        self.members_0() + seq![member("match_id"@, JsonValue::Text(self.match_id))]
    }

    /// The members up to `presence`.
    pub open spec fn members_2(self) -> Seq<MemberValue> {
        self.members_1() + seq![member("presence"@, self.presence.json())]
    }

    /// The members up to `op_code`.
    pub open spec fn members_3(self) -> Seq<MemberValue> {
        self.members_2() + seq![member("op_code"@, integer_json(self.op_code as int))]
    }

    /// The members up to `data`.
    pub open spec fn members_4(self) -> Seq<MemberValue> {
        self.members_3() + seq![member("data"@, array_json(self.data, byte_writer()))]
    }

    /// The members up to `reliable`.
    pub open spec fn members_5(self) -> Seq<MemberValue> {
        self.members_4() + seq![member("reliable"@, JsonValue::Bool(self.reliable))]
    }

    /// The JSON value that this value is written as.
    #[verifier::opaque]
    pub open spec fn json(self) -> JsonValue {
        JsonValue::Object(self.members_5())
    }

    /// The value that a JSON value is read as, if it holds one.
    #[verifier::opaque]
    pub open spec fn read(json: JsonValue) -> Option<MatchDataView> {
        match members_of(json) {
            Some(members) => {
                let match_id = req_text(members, "match_id"@);
                let presence = req_record(members, "presence"@, UserPresenceView::reader());
                let op_code = req_i64(members, "op_code"@);
                let data = req_array(members, "data"@, byte_reader());
                let reliable = req_bool(members, "reliable"@);
                if match_id is Some && presence is Some && op_code is Some && data is Some && reliable is Some {
                    Some(MatchDataView {
                        match_id: match_id->0,
                        presence: presence->0,
                        op_code: op_code->0,
                        data: data->0,
                        reliable: reliable->0,
                    })
                } else {
                    None
                }
            },
            None => None,
        }
    }

    /// [`MatchDataView::json`], as a function.
    pub open spec fn writer() -> spec_fn(MatchDataView) -> JsonValue {
        |value: MatchDataView| value.json()
    }

    /// [`MatchDataView::read`], as a function.
    pub open spec fn reader() -> spec_fn(JsonValue) -> Option<MatchDataView> {
        |json: JsonValue| MatchDataView::read(json)
    }

    /// The place of a field name among the field names.
    pub open spec fn field_index(name: Seq<char>) -> int {
        if name == "match_id"@ {
            0
        } else if name == "presence"@ {
            1
        } else if name == "op_code"@ {
            2
        } else if name == "data"@ {
            3
        } else if name == "reliable"@ {
            4
        } else {
            5
        }
    }

    /// The field names differ from each other.
    pub proof fn lemma_names()
        ensures
            Self::field_index("match_id"@) == 0,
            Self::field_index("presence"@) == 1,
            Self::field_index("op_code"@) == 2,
            Self::field_index("data"@) == 3,
            Self::field_index("reliable"@) == 4,
    {
        reveal_strlit("match_id");
        reveal_strlit("presence");
        reveal_strlit("op_code");
        reveal_strlit("data");
        reveal_strlit("reliable");
        assert("match_id"@.len() == 8);
        assert("presence"@.len() == 8);
        assert("op_code"@.len() == 7);
        assert("data"@.len() == 4);
        assert("reliable"@.len() == 8);
        assert("match_id"@[0] != "presence"@[0]);
        assert("match_id"@[0] != "reliable"@[0]);
        assert("presence"@[0] != "reliable"@[0]);
    }

    /// Reading what this value is written as gives it back, and what it
    /// is written as can be written as text.
    pub proof fn lemma_read_json(self)
        requires
            self.wf(),
        ensures
            MatchDataView::read(self.json()) == Some(self),
            printable(self.json(), 2),
            self.json() is Object,
    {
        broadcast use {group_lookup, group_printable};

        reveal(MatchDataView::json);
        reveal(MatchDataView::read);
        Self::lemma_names();
        self.presence.lemma_read_json();
        lemma_printable_deeper(self.presence.json(), 1, 1);
        lemma_integer(self.op_code as i64);
        lemma_bytes(self.data);
        lemma_printable_deeper(array_json(self.data, byte_writer()), 1, 1);
        lemma_object_printable(self.members_5(), 2);
    }
}

impl MatchData {
    /// Writes this value as a JSON value.
    pub fn to_json(&self) -> (json: Json)
        ensures
            json@ == self.deep_view().json(),
    {
        reveal(MatchDataView::json);
        let mut members: Vec<Member> = Vec::new();
        assert(member_values(members@) =~= self.deep_view().members_0());
        put_text(&mut members, "match_id", self.match_id.as_str());
        assert(member_values(members@) =~= self.deep_view().members_1());
        put(&mut members, "presence", self.presence.to_json());
        assert(member_values(members@) =~= self.deep_view().members_2());
        put_integer(&mut members, "op_code", self.op_code as i64);
        assert(member_values(members@) =~= self.deep_view().members_3());
        put(&mut members, "data", bytes_to_json(&self.data));
        assert(member_values(members@) =~= self.deep_view().members_4());
        put_bool(&mut members, "reliable", self.reliable);
        assert(member_values(members@) =~= self.deep_view().members_5());
        object(members)
    }

    /// Reads a value from a JSON value.
    ///
    /// The JSON value must be an object that holds every field that is not
    /// optional, each with a value of its kind.  Members under other names
    /// are passed over.
    pub fn from_json(json: &Json) -> (read: Option<MatchData>)
        ensures
            match read {
                Some(value) => MatchDataView::read(json@) == Some(value.deep_view()),
                None => MatchDataView::read(json@) is None,
            },
    {
        reveal(MatchDataView::read);
        let members = match object_members(json) {
            Some(members) => members,
            None => {
                return None;
            },
        };
        let match_id = match text_field(members, "match_id") {
            Some(value) => value,
            None => {
                return None;
            },
        };
        let presence = match find(members, "presence") {
            Some(json) => match UserPresence::from_json(json) {
                Some(value) => value,
                None => {
                    return None;
                },
            },
            None => {
                return None;
            },
        };
        let op_code = match i64_field(members, "op_code") {
            Some(value) => value,
            None => {
                return None;
            },
        };
        let data = match find(members, "data") {
            Some(json) => match bytes_from_json(json) {
                Some(value) => value,
                None => {
                    return None;
                },
            },
            None => {
                return None;
            },
        };
        let reliable = match bool_field(members, "reliable") {
            Some(value) => value,
            None => {
                return None;
            },
        };
        Some(MatchData { match_id, presence, op_code, data, reliable })
    }
}

/// [`MatchDataSend`], as mathematics.
pub struct MatchDataSendView {
    pub match_id: Seq<char>,
    pub op_code: i64,
    pub data: Seq<u8>,
    pub presences: Seq<UserPresenceView>,
    pub reliable: bool,
}

impl DeepView for MatchDataSend {
    type V = MatchDataSendView;

    open spec fn deep_view(&self) -> MatchDataSendView {
        MatchDataSendView {
            match_id: self.match_id.deep_view(),
            op_code: self.op_code,
            data: self.data.deep_view(),
            presences: self.presences.deep_view(),
            reliable: self.reliable,
        }
    }
}

impl MatchDataSendView {
    /// Whether every numeric property in this value holds the text of a
    /// JSON number.
    pub open spec fn wf(self) -> bool {
        true
    }

    /// The members before the first field.
    pub open spec fn members_0(self) -> Seq<MemberValue> {
        Seq::empty()
    }

    /// The members up to `match_id`.
    pub open spec fn members_1(self) -> Seq<MemberValue> {
        self.members_0() + seq![member("match_id"@, JsonValue::Text(self.match_id))]
    }

    /// The members up to `op_code`.
    pub open spec fn members_2(self) -> Seq<MemberValue> {
        self.members_1() + seq![member("op_code"@, integer_json(self.op_code as int))]
    }

    /// The members up to `data`.
    pub open spec fn members_3(self) -> Seq<MemberValue> {
        self.members_2() + seq![member("data"@, array_json(self.data, byte_writer()))]
    }

    /// The members up to `presences`.
    pub open spec fn members_4(self) -> Seq<MemberValue> {
        self.members_3() + seq![member("presences"@, array_json(self.presences, UserPresenceView::writer()))]
    }

    /// The members up to `reliable`.
    pub open spec fn members_5(self) -> Seq<MemberValue> {
        self.members_4() + seq![member("reliable"@, JsonValue::Bool(self.reliable))]
    }

    /// The JSON value that this value is written as.
    #[verifier::opaque]
    pub open spec fn json(self) -> JsonValue {
        JsonValue::Object(self.members_5())
    }

    /// The value that a JSON value is read as, if it holds one.
    #[verifier::opaque]
    pub open spec fn read(json: JsonValue) -> Option<MatchDataSendView> {
        match members_of(json) {
            Some(members) => {
                let match_id = req_text(members, "match_id"@);
                let op_code = req_i64(members, "op_code"@);
                let data = req_array(members, "data"@, byte_reader());
                let presences = req_array(members, "presences"@, UserPresenceView::reader());
                let reliable = req_bool(members, "reliable"@);
                if match_id is Some && op_code is Some && data is Some && presences is Some && reliable is Some {
                    Some(MatchDataSendView {
                        match_id: match_id->0,
                        op_code: op_code->0,
                        data: data->0,
                        presences: presences->0,
                        reliable: reliable->0,
                    })
                } else {
                    None
                }
            },
            None => None,
        }
    }

    /// [`MatchDataSendView::json`], as a function.
    pub open spec fn writer() -> spec_fn(MatchDataSendView) -> JsonValue {
        |value: MatchDataSendView| value.json()
    }

    /// [`MatchDataSendView::read`], as a function.
    pub open spec fn reader() -> spec_fn(JsonValue) -> Option<MatchDataSendView> {
        |json: JsonValue| MatchDataSendView::read(json)
    }

    /// The place of a field name among the field names.
    pub open spec fn field_index(name: Seq<char>) -> int {
        if name == "match_id"@ {
            0
        } else if name == "op_code"@ {
            1
        } else if name == "data"@ {
            2
        } else if name == "presences"@ {
            3
        } else if name == "reliable"@ {
            4
        } else {
            5
        }
    }

    /// The field names differ from each other.
    pub proof fn lemma_names()
        ensures
            Self::field_index("match_id"@) == 0,
            Self::field_index("op_code"@) == 1,
            Self::field_index("data"@) == 2,
            Self::field_index("presences"@) == 3,
            Self::field_index("reliable"@) == 4,
    {
        reveal_strlit("match_id");
        reveal_strlit("op_code");
        reveal_strlit("data");
        reveal_strlit("presences");
        reveal_strlit("reliable");
        assert("match_id"@.len() == 8);
        assert("op_code"@.len() == 7);
        assert("data"@.len() == 4);
        assert("presences"@.len() == 9);
        assert("reliable"@.len() == 8);
        assert("match_id"@[0] != "reliable"@[0]);
    }

    /// Reading what this value is written as gives it back, and what it
    /// is written as can be written as text.
    pub proof fn lemma_read_json(self)
        requires
            self.wf(),
        ensures
            MatchDataSendView::read(self.json()) == Some(self),
            printable(self.json(), 3),
            self.json() is Object,
    {
        broadcast use {group_lookup, group_printable};

        reveal(MatchDataSendView::json);
        reveal(MatchDataSendView::read);
        Self::lemma_names();
        lemma_integer(self.op_code as i64);
        lemma_bytes(self.data);
        lemma_printable_deeper(array_json(self.data, byte_writer()), 1, 2);
        UserPresenceView::lemma_read_each(self.presences);
        lemma_printable_deeper(array_json(self.presences, UserPresenceView::writer()), 2, 2);
        lemma_object_printable(self.members_5(), 3);
    }
}

impl MatchDataSend {
    /// Writes this value as a JSON value.
    pub fn to_json(&self) -> (json: Json)
        ensures
            json@ == self.deep_view().json(),
    {
        reveal(MatchDataSendView::json);
        let mut members: Vec<Member> = Vec::new();
        assert(member_values(members@) =~= self.deep_view().members_0());
        put_text(&mut members, "match_id", self.match_id.as_str());
        assert(member_values(members@) =~= self.deep_view().members_1());
        put_integer(&mut members, "op_code", self.op_code as i64);
        assert(member_values(members@) =~= self.deep_view().members_2());
        put(&mut members, "data", bytes_to_json(&self.data));
        assert(member_values(members@) =~= self.deep_view().members_3());
        put(&mut members, "presences", UserPresence::vec_to_json(&self.presences));
        assert(member_values(members@) =~= self.deep_view().members_4());
        put_bool(&mut members, "reliable", self.reliable);
        assert(member_values(members@) =~= self.deep_view().members_5());
        object(members)
    }

    /// Reads a value from a JSON value.
    ///
    /// The JSON value must be an object that holds every field that is not
    /// optional, each with a value of its kind.  Members under other names
    /// are passed over.
    pub fn from_json(json: &Json) -> (read: Option<MatchDataSend>)
        ensures
            match read {
                Some(value) => MatchDataSendView::read(json@) == Some(value.deep_view()),
                None => MatchDataSendView::read(json@) is None,
            },
    {
        reveal(MatchDataSendView::read);
        let members = match object_members(json) {
            Some(members) => members,
            None => {
                return None;
            },
        };
        let match_id = match text_field(members, "match_id") {
            Some(value) => value,
            None => {
                return None;
            },
        };
        let op_code = match i64_field(members, "op_code") {
            Some(value) => value,
            None => {
                return None;
            },
        };
        let data = match find(members, "data") {
            Some(json) => match bytes_from_json(json) {
                Some(value) => value,
                None => {
                    return None;
                },
            },
            None => {
                return None;
            },
        };
        let presences = match find(members, "presences") {
            Some(json) => match UserPresence::vec_from_json(json) {
                Some(value) => value,
                None => {
                    return None;
                },
            },
            None => {
                return None;
            },
        };
        let reliable = match bool_field(members, "reliable") {
            Some(value) => value,
            None => {
                return None;
            },
        };
        Some(MatchDataSend { match_id, op_code, data, presences, reliable })
    }
}

/// [`MatchJoin`], as mathematics.
pub struct MatchJoinView {
    pub match_id: Option<Seq<char>>,
    pub token: Option<Seq<char>>,
    pub metadata: Seq<PropertyView>,
}

impl DeepView for MatchJoin {
    type V = MatchJoinView;

    open spec fn deep_view(&self) -> MatchJoinView {
        MatchJoinView {
            match_id: self.match_id.deep_view(),
            token: self.token.deep_view(),
            metadata: self.metadata.deep_view(),
        }
    }
}

impl MatchJoinView {
    /// Whether every numeric property in this value holds the text of a
    /// JSON number.
    pub open spec fn wf(self) -> bool {
        true
    }

    /// The members before the first field.
    pub open spec fn members_0(self) -> Seq<MemberValue> {
        Seq::empty()
    }

    /// The members up to `match_id`.
    pub open spec fn members_1(self) -> Seq<MemberValue> {
        self.members_0() + if self.match_id is Some {
            seq![member("match_id"@, JsonValue::Text(self.match_id->0))]
        } else {
            Seq::empty()
        }
    }

    /// The members up to `token`.
    pub open spec fn members_2(self) -> Seq<MemberValue> {
        self.members_1() + if self.token is Some {
            seq![member("token"@, JsonValue::Text(self.token->0))]
        } else {
            Seq::empty()
        }
    }

    /// The members up to `metadata`.
    pub open spec fn members_3(self) -> Seq<MemberValue> {
        self.members_2() + seq![member("metadata"@, properties_json(self.metadata))]
    }

    /// The JSON value that this value is written as.
    #[verifier::opaque]
    pub open spec fn json(self) -> JsonValue {
        JsonValue::Object(self.members_3())
    }

    /// The value that a JSON value is read as, if it holds one.
    #[verifier::opaque]
    pub open spec fn read(json: JsonValue) -> Option<MatchJoinView> {
        match members_of(json) {
            Some(members) => {
                let match_id = opt_text(members, "match_id"@);
                let token = opt_text(members, "token"@);
                let metadata = req_properties(members, "metadata"@);
                if match_id is Some && token is Some && metadata is Some {
                    Some(MatchJoinView {
                        match_id: match_id->0,
                        token: token->0,
                        metadata: metadata->0,
                    })
                } else {
                    None
                }
            },
            None => None,
        }
    }

    /// [`MatchJoinView::json`], as a function.
    pub open spec fn writer() -> spec_fn(MatchJoinView) -> JsonValue {
        |value: MatchJoinView| value.json()
    }

    /// [`MatchJoinView::read`], as a function.
    pub open spec fn reader() -> spec_fn(JsonValue) -> Option<MatchJoinView> {
        |json: JsonValue| MatchJoinView::read(json)
    }

    /// The place of a field name among the field names.
    pub open spec fn field_index(name: Seq<char>) -> int {
        if name == "match_id"@ {
            0
        } else if name == "token"@ {
            1
        } else if name == "metadata"@ {
            2
        } else {
            3
        }
    }

    /// The field names differ from each other.
    pub proof fn lemma_names()
        ensures
            Self::field_index("match_id"@) == 0,
            Self::field_index("token"@) == 1,
            Self::field_index("metadata"@) == 2,
    {
        reveal_strlit("match_id");
        reveal_strlit("token");
        reveal_strlit("metadata");
        assert("match_id"@.len() == 8);
        assert("token"@.len() == 5);
        assert("metadata"@.len() == 8);
        assert("match_id"@[1] != "metadata"@[1]);
    }

    /// Reading what this value is written as gives it back, and what it
    /// is written as can be written as text.
    pub proof fn lemma_read_json(self)
        requires
            self.wf(),
        ensures
            MatchJoinView::read(self.json()) == Some(self),
            printable(self.json(), 2),
            self.json() is Object,
    {
        broadcast use {group_lookup, group_printable};

        reveal(MatchJoinView::json);
        reveal(MatchJoinView::read);
        Self::lemma_names();
        lemma_properties(self.metadata);
        lemma_printable_deeper(properties_json(self.metadata), 1, 1);
        lemma_object_printable(self.members_3(), 2);
    }
}

impl MatchJoin {
    /// Writes this value as a JSON value.
    pub fn to_json(&self) -> (json: Json)
        ensures
            json@ == self.deep_view().json(),
    {
        reveal(MatchJoinView::json);
        let mut members: Vec<Member> = Vec::new();
        assert(member_values(members@) =~= self.deep_view().members_0());
        if let Some(value) = &self.match_id {
            put_text(&mut members, "match_id", value.as_str());
        }
        assert(member_values(members@) =~= self.deep_view().members_1());
        if let Some(value) = &self.token {
            put_text(&mut members, "token", value.as_str());
        }
        assert(member_values(members@) =~= self.deep_view().members_2());
        put(&mut members, "metadata", properties_to_json(&self.metadata));
        assert(member_values(members@) =~= self.deep_view().members_3());
        object(members)
    }

    /// Reads a value from a JSON value.
    ///
    /// The JSON value must be an object that holds every field that is not
    /// optional, each with a value of its kind.  Members under other names
    /// are passed over.
    pub fn from_json(json: &Json) -> (read: Option<MatchJoin>)
        ensures
            match read {
                Some(value) => MatchJoinView::read(json@) == Some(value.deep_view()),
                None => MatchJoinView::read(json@) is None,
            },
    {
        reveal(MatchJoinView::read);
        let members = match object_members(json) {
            Some(members) => members,
            None => {
                return None;
            },
        };
        let match_id = match opt_text_field(members, "match_id") {
            Some(value) => value,
            None => {
                return None;
            },
        };
        let token = match opt_text_field(members, "token") {
            Some(value) => value,
            None => {
                return None;
            },
        };
        let metadata = match find(members, "metadata") {
            Some(json) => match properties_from_json(json) {
                Some(value) => value,
                None => {
                    return None;
                },
            },
            None => {
                return None;
            },
        };
        Some(MatchJoin { match_id, token, metadata })
    }
}

/// [`MatchLeave`], as mathematics.
pub struct MatchLeaveView {
    pub match_id: Seq<char>,
}

impl DeepView for MatchLeave {
    type V = MatchLeaveView;

    open spec fn deep_view(&self) -> MatchLeaveView {
        MatchLeaveView {
            match_id: self.match_id.deep_view(),
        }
    }
}

impl MatchLeaveView {
    /// Whether every numeric property in this value holds the text of a
    /// JSON number.
    pub open spec fn wf(self) -> bool {
        true
    }

    /// The members before the first field.
    pub open spec fn members_0(self) -> Seq<MemberValue> {
        Seq::empty()
    }

    /// The members up to `match_id`.
    pub open spec fn members_1(self) -> Seq<MemberValue> {
        self.members_0() + seq![member("match_id"@, JsonValue::Text(self.match_id))]
    }

    /// The JSON value that this value is written as.
    #[verifier::opaque]
    pub open spec fn json(self) -> JsonValue {
        JsonValue::Object(self.members_1())
    }

    /// The value that a JSON value is read as, if it holds one.
    #[verifier::opaque]
    pub open spec fn read(json: JsonValue) -> Option<MatchLeaveView> {
        match members_of(json) {
            Some(members) => {
                let match_id = req_text(members, "match_id"@);
                if match_id is Some {
                    Some(MatchLeaveView {
                        match_id: match_id->0,
                    })
                } else {
                    None
                }
            },
            None => None,
        }
    }

    /// [`MatchLeaveView::json`], as a function.
    pub open spec fn writer() -> spec_fn(MatchLeaveView) -> JsonValue {
        |value: MatchLeaveView| value.json()
    }

    /// [`MatchLeaveView::read`], as a function.
    pub open spec fn reader() -> spec_fn(JsonValue) -> Option<MatchLeaveView> {
        |json: JsonValue| MatchLeaveView::read(json)
    }

    /// Reading what this value is written as gives it back, and what it
    /// is written as can be written as text.
    pub proof fn lemma_read_json(self)
        requires
            self.wf(),
        ensures
            MatchLeaveView::read(self.json()) == Some(self),
            printable(self.json(), 1),
            self.json() is Object,
    {
        broadcast use {group_lookup, group_printable};

        reveal(MatchLeaveView::json);
        reveal(MatchLeaveView::read);
        lemma_object_printable(self.members_1(), 1);
    }
}

impl MatchLeave {
    /// Writes this value as a JSON value.
    pub fn to_json(&self) -> (json: Json)
        ensures
            json@ == self.deep_view().json(),
    {
        reveal(MatchLeaveView::json);
        let mut members: Vec<Member> = Vec::new();
        assert(member_values(members@) =~= self.deep_view().members_0());
        put_text(&mut members, "match_id", self.match_id.as_str());
        assert(member_values(members@) =~= self.deep_view().members_1());
        object(members)
    }

    /// Reads a value from a JSON value.
    ///
    /// The JSON value must be an object that holds every field that is not
    /// optional, each with a value of its kind.  Members under other names
    /// are passed over.
    pub fn from_json(json: &Json) -> (read: Option<MatchLeave>)
        ensures
            match read {
                Some(value) => MatchLeaveView::read(json@) == Some(value.deep_view()),
                None => MatchLeaveView::read(json@) is None,
            },
    {
        reveal(MatchLeaveView::read);
        let members = match object_members(json) {
            Some(members) => members,
            None => {
                return None;
            },
        };
        let match_id = match text_field(members, "match_id") {
            Some(value) => value,
            None => {
                return None;
            },
        };
        Some(MatchLeave { match_id })
    }
}

/// [`MatchPresenceEvent`], as mathematics.
pub struct MatchPresenceEventView {
    pub match_id: Seq<char>,
    pub joins: Seq<UserPresenceView>,
    pub leaves: Seq<UserPresenceView>,
}

impl DeepView for MatchPresenceEvent {
    type V = MatchPresenceEventView;

    open spec fn deep_view(&self) -> MatchPresenceEventView {
        MatchPresenceEventView {
            match_id: self.match_id.deep_view(),
            joins: self.joins.deep_view(),
            leaves: self.leaves.deep_view(),
        }
    }
}

impl MatchPresenceEventView {
    /// Whether every numeric property in this value holds the text of a
    /// JSON number.
    pub open spec fn wf(self) -> bool {
        true
    }

    /// The members before the first field.
    pub open spec fn members_0(self) -> Seq<MemberValue> {
        Seq::empty()
    }

    /// The members up to `match_id`.
    pub open spec fn members_1(self) -> Seq<MemberValue> {
        self.members_0() + seq![member("match_id"@, JsonValue::Text(self.match_id))]
    }

    /// The members up to `joins`.
    pub open spec fn members_2(self) -> Seq<MemberValue> {
        self.members_1() + seq![member("joins"@, array_json(self.joins, UserPresenceView::writer()))]
    }

    /// The members up to `leaves`.
    pub open spec fn members_3(self) -> Seq<MemberValue> {
        self.members_2() + seq![member("leaves"@, array_json(self.leaves, UserPresenceView::writer()))]
    }

    /// The JSON value that this value is written as.
    #[verifier::opaque]
    pub open spec fn json(self) -> JsonValue {
        JsonValue::Object(self.members_3())
    }

    /// The value that a JSON value is read as, if it holds one.
    #[verifier::opaque]
    pub open spec fn read(json: JsonValue) -> Option<MatchPresenceEventView> {
        match members_of(json) {
            Some(members) => {
                let match_id = req_text(members, "match_id"@);
                let joins = req_array(members, "joins"@, UserPresenceView::reader());
                let leaves = req_array(members, "leaves"@, UserPresenceView::reader());
                if match_id is Some && joins is Some && leaves is Some {
                    Some(MatchPresenceEventView {
                        match_id: match_id->0,
                        joins: joins->0,
                        leaves: leaves->0,
                    })
                } else {
                    None
                }
            },
            None => None,
        }
    }

    /// [`MatchPresenceEventView::json`], as a function.
    pub open spec fn writer() -> spec_fn(MatchPresenceEventView) -> JsonValue {
        |value: MatchPresenceEventView| value.json()
    }

    /// [`MatchPresenceEventView::read`], as a function.
    pub open spec fn reader() -> spec_fn(JsonValue) -> Option<MatchPresenceEventView> {
        |json: JsonValue| MatchPresenceEventView::read(json)
    }

    /// The place of a field name among the field names.
    pub open spec fn field_index(name: Seq<char>) -> int {
        if name == "match_id"@ {
            0
        } else if name == "joins"@ {
            1
        } else if name == "leaves"@ {
            2
        } else {
            3
        }
    }

    /// The field names differ from each other.
    pub proof fn lemma_names()
        ensures
            Self::field_index("match_id"@) == 0,
            Self::field_index("joins"@) == 1,
            Self::field_index("leaves"@) == 2,
    {
        reveal_strlit("match_id");
        reveal_strlit("joins");
        reveal_strlit("leaves");
        assert("match_id"@.len() == 8);
        assert("joins"@.len() == 5);
        assert("leaves"@.len() == 6);
    }

    /// Reading what this value is written as gives it back, and what it
    /// is written as can be written as text.
    pub proof fn lemma_read_json(self)
        requires
            self.wf(),
        ensures
            MatchPresenceEventView::read(self.json()) == Some(self),
            printable(self.json(), 3),
            self.json() is Object,
    {
        broadcast use {group_lookup, group_printable};

        reveal(MatchPresenceEventView::json);
        reveal(MatchPresenceEventView::read);
        Self::lemma_names();
        UserPresenceView::lemma_read_each(self.joins);
        lemma_printable_deeper(array_json(self.joins, UserPresenceView::writer()), 2, 2);
        UserPresenceView::lemma_read_each(self.leaves);
        lemma_printable_deeper(array_json(self.leaves, UserPresenceView::writer()), 2, 2);
        lemma_object_printable(self.members_3(), 3);
    }
}

impl MatchPresenceEvent {
    /// Writes this value as a JSON value.
    pub fn to_json(&self) -> (json: Json)
        ensures
            json@ == self.deep_view().json(),
    {
        reveal(MatchPresenceEventView::json);
        let mut members: Vec<Member> = Vec::new();
        assert(member_values(members@) =~= self.deep_view().members_0());
        put_text(&mut members, "match_id", self.match_id.as_str());
        assert(member_values(members@) =~= self.deep_view().members_1());
        put(&mut members, "joins", UserPresence::vec_to_json(&self.joins));
        assert(member_values(members@) =~= self.deep_view().members_2());
        put(&mut members, "leaves", UserPresence::vec_to_json(&self.leaves));
        assert(member_values(members@) =~= self.deep_view().members_3());
        object(members)
    }

    /// Reads a value from a JSON value.
    ///
    /// The JSON value must be an object that holds every field that is not
    /// optional, each with a value of its kind.  Members under other names
    /// are passed over.
    pub fn from_json(json: &Json) -> (read: Option<MatchPresenceEvent>)
        ensures
            match read {
                Some(value) => MatchPresenceEventView::read(json@) == Some(value.deep_view()),
                None => MatchPresenceEventView::read(json@) is None,
            },
    {
        reveal(MatchPresenceEventView::read);
        let members = match object_members(json) {
            Some(members) => members,
            None => {
                return None;
            },
        };
        let match_id = match text_field(members, "match_id") {
            Some(value) => value,
            None => {
                return None;
            },
        };
        let joins = match find(members, "joins") {
            Some(json) => match UserPresence::vec_from_json(json) {
                Some(value) => value,
                None => {
                    return None;
                },
            },
            None => {
                return None;
            },
        };
        let leaves = match find(members, "leaves") {
            Some(json) => match UserPresence::vec_from_json(json) {
                Some(value) => value,
                None => {
                    return None;
                },
            },
            None => {
                return None;
            },
        };
        Some(MatchPresenceEvent { match_id, joins, leaves })
    }
}

/// [`MatchmakerAdd`], as mathematics.
pub struct MatchmakerAddView {
    pub min_count: i32,
    pub max_count: i32,
    pub query: Seq<char>,
    pub string_properties: Seq<PropertyView>,
    pub numeric_properties: Seq<NumericPropertyView>,
}

impl DeepView for MatchmakerAdd {
    type V = MatchmakerAddView;

    open spec fn deep_view(&self) -> MatchmakerAddView {
        MatchmakerAddView {
            min_count: self.min_count,
            max_count: self.max_count,
            query: self.query.deep_view(),
            string_properties: self.string_properties.deep_view(),
            numeric_properties: self.numeric_properties.deep_view(),
        }
    }
}

impl MatchmakerAddView {
    /// Whether every numeric property in this value holds the text of a
    /// JSON number.
    pub open spec fn wf(self) -> bool {
        &&& numbers_valid(self.numeric_properties)
    }

    /// The members before the first field.
    pub open spec fn members_0(self) -> Seq<MemberValue> {
        Seq::empty()
    }

    /// The members up to `min_count`.
    pub open spec fn members_1(self) -> Seq<MemberValue> {
        self.members_0() + seq![member("min_count"@, integer_json(self.min_count as int))]
    }

    /// The members up to `max_count`.
    pub open spec fn members_2(self) -> Seq<MemberValue> {
        self.members_1() + seq![member("max_count"@, integer_json(self.max_count as int))]
    }

    /// The members up to `query`.
    pub open spec fn members_3(self) -> Seq<MemberValue> {
        self.members_2() + seq![member("query"@, JsonValue::Text(self.query))]
    }

    /// The members up to `string_properties`.
    pub open spec fn members_4(self) -> Seq<MemberValue> {
        self.members_3() + seq![member("string_properties"@, properties_json(self.string_properties))]
    }

    /// The members up to `numeric_properties`.
    pub open spec fn members_5(self) -> Seq<MemberValue> {
        self.members_4() + seq![member("numeric_properties"@, numbers_json(self.numeric_properties))]
    }

    /// The JSON value that this value is written as.
    #[verifier::opaque]
    pub open spec fn json(self) -> JsonValue {
        JsonValue::Object(self.members_5())
    }

    /// The value that a JSON value is read as, if it holds one.
    #[verifier::opaque]
    pub open spec fn read(json: JsonValue) -> Option<MatchmakerAddView> {
        match members_of(json) {
            Some(members) => {
                let min_count = req_i32(members, "min_count"@);
                let max_count = req_i32(members, "max_count"@);
                let query = req_text(members, "query"@);
                let string_properties = req_properties(members, "string_properties"@);
                let numeric_properties = req_numbers(members, "numeric_properties"@);
                if min_count is Some && max_count is Some && query is Some && string_properties is Some && numeric_properties is Some {
                    Some(MatchmakerAddView {
                        min_count: min_count->0,
                        max_count: max_count->0,
                        query: query->0,
                        string_properties: string_properties->0,
                        numeric_properties: numeric_properties->0,
                    })
                } else {
                    None
                }
            },
            None => None,
        }
    }

    /// [`MatchmakerAddView::json`], as a function.
    pub open spec fn writer() -> spec_fn(MatchmakerAddView) -> JsonValue {
        |value: MatchmakerAddView| value.json()
    }

    /// [`MatchmakerAddView::read`], as a function.
    pub open spec fn reader() -> spec_fn(JsonValue) -> Option<MatchmakerAddView> {
        |json: JsonValue| MatchmakerAddView::read(json)
    }

    /// The place of a field name among the field names.
    pub open spec fn field_index(name: Seq<char>) -> int {
        if name == "min_count"@ {
            0
        } else if name == "max_count"@ {
            1
        } else if name == "query"@ {
            2
        } else if name == "string_properties"@ {
            3
        } else if name == "numeric_properties"@ {
            4
        } else {
            5
        }
    }

    /// The field names differ from each other.
    pub proof fn lemma_names()
        ensures
            Self::field_index("min_count"@) == 0,
            Self::field_index("max_count"@) == 1,
            Self::field_index("query"@) == 2,
            Self::field_index("string_properties"@) == 3,
            Self::field_index("numeric_properties"@) == 4,
    {
        reveal_strlit("min_count");
        reveal_strlit("max_count");
        reveal_strlit("query");
        reveal_strlit("string_properties");
        reveal_strlit("numeric_properties");
        assert("min_count"@.len() == 9);
        assert("max_count"@.len() == 9);
        assert("query"@.len() == 5);
        assert("string_properties"@.len() == 17);
        assert("numeric_properties"@.len() == 18);
        assert("min_count"@[1] != "max_count"@[1]);
    }

    /// Reading what this value is written as gives it back, and what it
    /// is written as can be written as text.
    pub proof fn lemma_read_json(self)
        requires
            self.wf(),
        ensures
            MatchmakerAddView::read(self.json()) == Some(self),
            printable(self.json(), 2),
            self.json() is Object,
    {
        broadcast use {group_lookup, group_printable};

        reveal(MatchmakerAddView::json);
        reveal(MatchmakerAddView::read);
        Self::lemma_names();
        lemma_integer(self.min_count as i64);
        lemma_integer(self.max_count as i64);
        lemma_properties(self.string_properties);
        lemma_printable_deeper(properties_json(self.string_properties), 1, 1);
        lemma_numbers(self.numeric_properties);
        lemma_printable_deeper(numbers_json(self.numeric_properties), 1, 1);
        lemma_object_printable(self.members_5(), 2);
    }
}

impl MatchmakerAdd {
    /// Writes this value as a JSON value.
    pub fn to_json(&self) -> (json: Json)
        ensures
            json@ == self.deep_view().json(),
    {
        reveal(MatchmakerAddView::json);
        let mut members: Vec<Member> = Vec::new();
        assert(member_values(members@) =~= self.deep_view().members_0());
        put_integer(&mut members, "min_count", self.min_count as i64);
        assert(member_values(members@) =~= self.deep_view().members_1());
        put_integer(&mut members, "max_count", self.max_count as i64);
        assert(member_values(members@) =~= self.deep_view().members_2());
        put_text(&mut members, "query", self.query.as_str());
        assert(member_values(members@) =~= self.deep_view().members_3());
        put(&mut members, "string_properties", properties_to_json(&self.string_properties));
        assert(member_values(members@) =~= self.deep_view().members_4());
        put(&mut members, "numeric_properties", numbers_to_json(&self.numeric_properties));
        assert(member_values(members@) =~= self.deep_view().members_5());
        object(members)
    }

    /// Reads a value from a JSON value.
    ///
    /// The JSON value must be an object that holds every field that is not
    /// optional, each with a value of its kind.  Members under other names
    /// are passed over.
    pub fn from_json(json: &Json) -> (read: Option<MatchmakerAdd>)
        ensures
            match read {
                Some(value) => MatchmakerAddView::read(json@) == Some(value.deep_view()),
                None => MatchmakerAddView::read(json@) is None,
            },
    {
        reveal(MatchmakerAddView::read);
        let members = match object_members(json) {
            Some(members) => members,
            None => {
                return None;
            },
        };
        let min_count = match i32_field(members, "min_count") {
            Some(value) => value,
            None => {
                return None;
            },
        };
        let max_count = match i32_field(members, "max_count") {
            Some(value) => value,
            None => {
                return None;
            },
        };
        let query = match text_field(members, "query") {
            Some(value) => value,
            None => {
                return None;
            },
        };
        let string_properties = match find(members, "string_properties") {
            Some(json) => match properties_from_json(json) {
                Some(value) => value,
                None => {
                    return None;
                },
            },
            None => {
                return None;
            },
        };
        let numeric_properties = match find(members, "numeric_properties") {
            Some(json) => match numbers_from_json(json) {
                Some(value) => value,
                None => {
                    return None;
                },
            },
            None => {
                return None;
            },
        };
        Some(MatchmakerAdd { min_count, max_count, query, string_properties, numeric_properties })
    }
}

/// [`MatchmakerUser`], as mathematics.
pub struct MatchmakerUserView {
    pub presence: UserPresenceView,
    pub party_id: Seq<char>,
    pub string_properties: Seq<PropertyView>,
    pub numeric_properties: Seq<NumericPropertyView>,
}

impl DeepView for MatchmakerUser {
    type V = MatchmakerUserView;

    open spec fn deep_view(&self) -> MatchmakerUserView {
        MatchmakerUserView {
            presence: self.presence.deep_view(),
            party_id: self.party_id.deep_view(),
            string_properties: self.string_properties.deep_view(),
            numeric_properties: self.numeric_properties.deep_view(),
        }
    }
}

impl MatchmakerUserView {
    /// Whether every numeric property in this value holds the text of a
    /// JSON number.
    pub open spec fn wf(self) -> bool {
        &&& numbers_valid(self.numeric_properties)
    }

    /// The members before the first field.
    pub open spec fn members_0(self) -> Seq<MemberValue> {
        Seq::empty()
    }

    /// The members up to `presence`.
    pub open spec fn members_1(self) -> Seq<MemberValue> {
        self.members_0() + seq![member("presence"@, self.presence.json())]
    }

    /// The members up to `party_id`.
    pub open spec fn members_2(self) -> Seq<MemberValue> {
        self.members_1() + seq![member("party_id"@, JsonValue::Text(self.party_id))]
    }

    /// The members up to `string_properties`.
    pub open spec fn members_3(self) -> Seq<MemberValue> {
        self.members_2() + seq![member("string_properties"@, properties_json(self.string_properties))]
    }

    /// The members up to `numeric_properties`.
    pub open spec fn members_4(self) -> Seq<MemberValue> {
        self.members_3() + seq![member("numeric_properties"@, numbers_json(self.numeric_properties))]
    }

    /// The JSON value that this value is written as.
    #[verifier::opaque]
    pub open spec fn json(self) -> JsonValue {
        JsonValue::Object(self.members_4())
    }

    /// The value that a JSON value is read as, if it holds one.
    #[verifier::opaque]
    pub open spec fn read(json: JsonValue) -> Option<MatchmakerUserView> {
        match members_of(json) {
            Some(members) => {
                let presence = req_record(members, "presence"@, UserPresenceView::reader());
                let party_id = req_text(members, "party_id"@);
                let string_properties = req_properties(members, "string_properties"@);
                let numeric_properties = req_numbers(members, "numeric_properties"@);
                if presence is Some && party_id is Some && string_properties is Some && numeric_properties is Some {
                    Some(MatchmakerUserView {
                        presence: presence->0,
                        party_id: party_id->0,
                        string_properties: string_properties->0,
                        numeric_properties: numeric_properties->0,
                    })
                } else {
                    None
                }
            },
            None => None,
        }
    }

    /// [`MatchmakerUserView::json`], as a function.
    pub open spec fn writer() -> spec_fn(MatchmakerUserView) -> JsonValue {
        |value: MatchmakerUserView| value.json()
    }

    /// [`MatchmakerUserView::read`], as a function.
    pub open spec fn reader() -> spec_fn(JsonValue) -> Option<MatchmakerUserView> {
        |json: JsonValue| MatchmakerUserView::read(json)
    }

    /// The place of a field name among the field names.
    pub open spec fn field_index(name: Seq<char>) -> int {
        if name == "presence"@ {
            0
        } else if name == "party_id"@ {
            1
        } else if name == "string_properties"@ {
            2
        } else if name == "numeric_properties"@ {
            3
        } else {
            4
        }
    }

    /// The field names differ from each other.
    pub proof fn lemma_names()
        ensures
            Self::field_index("presence"@) == 0,
            Self::field_index("party_id"@) == 1,
            Self::field_index("string_properties"@) == 2,
            Self::field_index("numeric_properties"@) == 3,
    {
        reveal_strlit("presence");
        reveal_strlit("party_id");
        reveal_strlit("string_properties");
        reveal_strlit("numeric_properties");
        assert("presence"@.len() == 8);
        assert("party_id"@.len() == 8);
        assert("string_properties"@.len() == 17);
        assert("numeric_properties"@.len() == 18);
        assert("presence"@[1] != "party_id"@[1]);
    }

    /// Reading what this value is written as gives it back, and what it
    /// is written as can be written as text.
    pub proof fn lemma_read_json(self)
        requires
            self.wf(),
        ensures
            MatchmakerUserView::read(self.json()) == Some(self),
            printable(self.json(), 2),
            self.json() is Object,
    {
        broadcast use {group_lookup, group_printable};

        reveal(MatchmakerUserView::json);
        reveal(MatchmakerUserView::read);
        Self::lemma_names();
        self.presence.lemma_read_json();
        lemma_printable_deeper(self.presence.json(), 1, 1);
        lemma_properties(self.string_properties);
        lemma_printable_deeper(properties_json(self.string_properties), 1, 1);
        lemma_numbers(self.numeric_properties);
        lemma_printable_deeper(numbers_json(self.numeric_properties), 1, 1);
        lemma_object_printable(self.members_4(), 2);
    }

    /// Reading what a sequence of values is written as gives it back.
    pub proof fn lemma_read_each(items: Seq<MatchmakerUserView>)
        requires
            forall|i: int| 0 <= i < items.len() ==> (#[trigger] items[i]).wf(),
        ensures
            read_array(array_json(items, Self::writer()), Self::reader()) == Some(items),
            printable(array_json(items, Self::writer()), 3),
    {
        assert forall|i: int| 0 <= i < items.len() implies (Self::reader())(
            (Self::writer())(#[trigger] items[i]),
        ) == Some(items[i]) && printable((Self::writer())(items[i]), 2) by {
            items[i].lemma_read_json();
        }
        lemma_read_each(items, Self::reader(), Self::writer());
        lemma_each_printable(items, Self::writer(), 3);
    }
}

impl MatchmakerUser {
    /// Writes this value as a JSON value.
    pub fn to_json(&self) -> (json: Json)
        ensures
            json@ == self.deep_view().json(),
    {
        reveal(MatchmakerUserView::json);
        let mut members: Vec<Member> = Vec::new();
        assert(member_values(members@) =~= self.deep_view().members_0());
        put(&mut members, "presence", self.presence.to_json());
        assert(member_values(members@) =~= self.deep_view().members_1());
        put_text(&mut members, "party_id", self.party_id.as_str());
        assert(member_values(members@) =~= self.deep_view().members_2());
        put(&mut members, "string_properties", properties_to_json(&self.string_properties));
        assert(member_values(members@) =~= self.deep_view().members_3());
        put(&mut members, "numeric_properties", numbers_to_json(&self.numeric_properties));
        assert(member_values(members@) =~= self.deep_view().members_4());
        object(members)
    }

    /// Reads a value from a JSON value.
    ///
    /// The JSON value must be an object that holds every field that is not
    /// optional, each with a value of its kind.  Members under other names
    /// are passed over.
    pub fn from_json(json: &Json) -> (read: Option<MatchmakerUser>)
        ensures
            match read {
                Some(value) => MatchmakerUserView::read(json@) == Some(value.deep_view()),
                None => MatchmakerUserView::read(json@) is None,
            },
    {
        reveal(MatchmakerUserView::read);
        let members = match object_members(json) {
            Some(members) => members,
            None => {
                return None;
            },
        };
        let presence = match find(members, "presence") {
            Some(json) => match UserPresence::from_json(json) {
                Some(value) => value,
                None => {
                    return None;
                },
            },
            None => {
                return None;
            },
        };
        let party_id = match text_field(members, "party_id") {
            Some(value) => value,
            None => {
                return None;
            },
        };
        let string_properties = match find(members, "string_properties") {
            Some(json) => match properties_from_json(json) {
                Some(value) => value,
                None => {
                    return None;
                },
            },
            None => {
                return None;
            },
        };
        let numeric_properties = match find(members, "numeric_properties") {
            Some(json) => match numbers_from_json(json) {
                Some(value) => value,
                None => {
                    return None;
                },
            },
            None => {
                return None;
            },
        };
        Some(MatchmakerUser { presence, party_id, string_properties, numeric_properties })
    }

    /// Writes values as an array.
    pub fn vec_to_json(items: &Vec<MatchmakerUser>) -> (json: Json)
        ensures
            json@ == array_json(items.deep_view(), MatchmakerUserView::writer()),
    {
        let mut written: Vec<Json> = Vec::new();
        let mut i: usize = 0;
        while i < items.len()
            invariant
                i <= items.len(),
                written.len() == i,
                forall|k: int|
                    0 <= k < i ==> (#[trigger] written[k])@ == items[k].deep_view().json(),
            decreases items.len() - i,
        {
            written.push(items[i].to_json());
            i = i + 1;
        }
        let json = Json::Array(written);
        assert(json@->Array_0 =~= write_each(items.deep_view(), MatchmakerUserView::writer()));
        json
    }

    /// Reads values from an array.
    pub fn vec_from_json(json: &Json) -> (read: Option<Vec<MatchmakerUser>>)
        ensures
            match read {
                Some(items) => read_array(json@, MatchmakerUserView::reader()) == Some(items.deep_view()),
                None => read_array(json@, MatchmakerUserView::reader()) is None,
            },
    {
        let written = match json {
            Json::Array(written) => written,
            _ => {
                return None;
            },
        };
        let ghost all = json@->Array_0;
        assert(all.len() == written.len());
        let mut items: Vec<MatchmakerUser> = Vec::new();
        let mut i: usize = 0;
        while i < written.len()
            invariant
                i <= written.len(),
                json@ == JsonValue::Array(all),
                all.len() == written.len(),
                forall|k: int| 0 <= k < written.len() ==> all[k] == (#[trigger] written[k])@,
                read_each(all.take(i as int), MatchmakerUserView::reader()) == Some(items.deep_view()),
            decreases written.len() - i,
        {
            assert(all.take(i + 1).drop_last() =~= all.take(i as int));
            match MatchmakerUser::from_json(&written[i]) {
                Some(item) => {
                    let ghost before = items.deep_view();
                    items.push(item);
                    assert(items.deep_view() =~= before.push(item.deep_view()));
                },
                None => {
                    proof {
                        lemma_read_each_none(all, i as int, MatchmakerUserView::reader());
                    }
                    return None;
                },
            }
            i = i + 1;
        }
        assert(all.take(i as int) =~= all);
        Some(items)
    }
}

/// [`MatchmakerMatched`], as mathematics.
pub struct MatchmakerMatchedView {
    pub ticket: Seq<char>,
    pub match_id: Option<Seq<char>>,
    pub token: Option<Seq<char>>,
    pub users: Seq<MatchmakerUserView>,
    pub _self: MatchmakerUserView,
}

impl DeepView for MatchmakerMatched {
    type V = MatchmakerMatchedView;

    open spec fn deep_view(&self) -> MatchmakerMatchedView {
        MatchmakerMatchedView {
            ticket: self.ticket.deep_view(),
            match_id: self.match_id.deep_view(),
            token: self.token.deep_view(),
            users: self.users.deep_view(),
            _self: self._self.deep_view(),
        }
    }
}

impl MatchmakerMatchedView {
    /// Whether every numeric property in this value holds the text of a
    /// JSON number.
    pub open spec fn wf(self) -> bool {
        &&& forall|i: int| 0 <= i < self.users.len() ==> (#[trigger] self.users[i]).wf()
        &&& self._self.wf()
    }

    /// The members before the first field.
    pub open spec fn members_0(self) -> Seq<MemberValue> {
        Seq::empty()
    }

    /// The members up to `ticket`.
    pub open spec fn members_1(self) -> Seq<MemberValue> {
        self.members_0() + seq![member("ticket"@, JsonValue::Text(self.ticket))]
    }

    /// The members up to `match_id`.
    pub open spec fn members_2(self) -> Seq<MemberValue> {
        self.members_1() + if self.match_id is Some {
            seq![member("match_id"@, JsonValue::Text(self.match_id->0))]
        } else {
            Seq::empty()
        }
    }

    /// The members up to `token`.
    pub open spec fn members_3(self) -> Seq<MemberValue> {
        self.members_2() + if self.token is Some {
            seq![member("token"@, JsonValue::Text(self.token->0))]
        } else {
            Seq::empty()
        }
    }

    /// The members up to `users`.
    pub open spec fn members_4(self) -> Seq<MemberValue> {
        self.members_3() + seq![member("users"@, array_json(self.users, MatchmakerUserView::writer()))]
    }

    /// The members up to `self`.
    pub open spec fn members_5(self) -> Seq<MemberValue> {
        self.members_4() + seq![member("self"@, self._self.json())]
    }

    /// The JSON value that this value is written as.
    #[verifier::opaque]
    pub open spec fn json(self) -> JsonValue {
        JsonValue::Object(self.members_5())
    }

    /// The value that a JSON value is read as, if it holds one.
    #[verifier::opaque]
    pub open spec fn read(json: JsonValue) -> Option<MatchmakerMatchedView> {
        match members_of(json) {
            Some(members) => {
                let ticket = req_text(members, "ticket"@);
                let match_id = opt_text(members, "match_id"@);
                let token = opt_text(members, "token"@);
                let users = req_array(members, "users"@, MatchmakerUserView::reader());
                let _self = req_record(members, "self"@, MatchmakerUserView::reader());
                if ticket is Some && match_id is Some && token is Some && users is Some && _self is Some {
                    Some(MatchmakerMatchedView {
                        ticket: ticket->0,
                        match_id: match_id->0,
                        token: token->0,
                        users: users->0,
                        _self: _self->0,
                    })
                } else {
                    None
                }
            },
            None => None,
        }
    }

    /// [`MatchmakerMatchedView::json`], as a function.
    pub open spec fn writer() -> spec_fn(MatchmakerMatchedView) -> JsonValue {
        |value: MatchmakerMatchedView| value.json()
    }

    /// [`MatchmakerMatchedView::read`], as a function.
    pub open spec fn reader() -> spec_fn(JsonValue) -> Option<MatchmakerMatchedView> {
        |json: JsonValue| MatchmakerMatchedView::read(json)
    }

    /// The place of a field name among the field names.
    pub open spec fn field_index(name: Seq<char>) -> int {
        if name == "ticket"@ {
            0
        } else if name == "match_id"@ {
            1
        } else if name == "token"@ {
            2
        } else if name == "users"@ {
            3
        } else if name == "self"@ {
            4
        } else {
            5
        }
    }

    /// The field names differ from each other.
    pub proof fn lemma_names()
        ensures
            Self::field_index("ticket"@) == 0,
            Self::field_index("match_id"@) == 1,
            Self::field_index("token"@) == 2,
            Self::field_index("users"@) == 3,
            Self::field_index("self"@) == 4,
    {
        reveal_strlit("ticket");
        reveal_strlit("match_id");
        reveal_strlit("token");
        reveal_strlit("users");
        reveal_strlit("self");
        assert("ticket"@.len() == 6);
        assert("match_id"@.len() == 8);
        assert("token"@.len() == 5);
        assert("users"@.len() == 5);
        assert("self"@.len() == 4);
        assert("token"@[0] != "users"@[0]);
    }

    /// Reading what this value is written as gives it back, and what it
    /// is written as can be written as text.
    pub proof fn lemma_read_json(self)
        requires
            self.wf(),
        ensures
            MatchmakerMatchedView::read(self.json()) == Some(self),
            printable(self.json(), 4),
            self.json() is Object,
    {
        broadcast use {group_lookup, group_printable};

        reveal(MatchmakerMatchedView::json);
        reveal(MatchmakerMatchedView::read);
        Self::lemma_names();
        MatchmakerUserView::lemma_read_each(self.users);
        lemma_printable_deeper(array_json(self.users, MatchmakerUserView::writer()), 3, 3);
        self._self.lemma_read_json();
        lemma_printable_deeper(self._self.json(), 2, 3);
        lemma_object_printable(self.members_5(), 4);
    }
}

impl MatchmakerMatched {
    /// Writes this value as a JSON value.
    pub fn to_json(&self) -> (json: Json)
        ensures
            json@ == self.deep_view().json(),
    {
        reveal(MatchmakerMatchedView::json);
        let mut members: Vec<Member> = Vec::new();
        assert(member_values(members@) =~= self.deep_view().members_0());
        put_text(&mut members, "ticket", self.ticket.as_str());
        assert(member_values(members@) =~= self.deep_view().members_1());
        if let Some(value) = &self.match_id {
            put_text(&mut members, "match_id", value.as_str());
        }
        assert(member_values(members@) =~= self.deep_view().members_2());
        if let Some(value) = &self.token {
            put_text(&mut members, "token", value.as_str());
        }
        assert(member_values(members@) =~= self.deep_view().members_3());
        put(&mut members, "users", MatchmakerUser::vec_to_json(&self.users));
        assert(member_values(members@) =~= self.deep_view().members_4());
        put(&mut members, "self", self._self.to_json());
        assert(member_values(members@) =~= self.deep_view().members_5());
        object(members)
    }

    /// Reads a value from a JSON value.
    ///
    /// The JSON value must be an object that holds every field that is not
    /// optional, each with a value of its kind.  Members under other names
    /// are passed over.
    pub fn from_json(json: &Json) -> (read: Option<MatchmakerMatched>)
        ensures
            match read {
                Some(value) => MatchmakerMatchedView::read(json@) == Some(value.deep_view()),
                None => MatchmakerMatchedView::read(json@) is None,
            },
    {
        reveal(MatchmakerMatchedView::read);
        let members = match object_members(json) {
            Some(members) => members,
            None => {
                return None;
            },
        };
        let ticket = match text_field(members, "ticket") {
            Some(value) => value,
            None => {
                return None;
            },
        };
        let match_id = match opt_text_field(members, "match_id") {
            Some(value) => value,
            None => {
                return None;
            },
        };
        let token = match opt_text_field(members, "token") {
            Some(value) => value,
            None => {
                return None;
            },
        };
        let users = match find(members, "users") {
            Some(json) => match MatchmakerUser::vec_from_json(json) {
                Some(value) => value,
                None => {
                    return None;
                },
            },
            None => {
                return None;
            },
        };
        let _self = match find(members, "self") {
            Some(json) => match MatchmakerUser::from_json(json) {
                Some(value) => value,
                None => {
                    return None;
                },
            },
            None => {
                return None;
            },
        };
        Some(MatchmakerMatched { ticket, match_id, token, users, _self })
    }
}

/// [`MatchmakerRemove`], as mathematics.
pub struct MatchmakerRemoveView {
    pub ticket: Seq<char>,
}

impl DeepView for MatchmakerRemove {
    type V = MatchmakerRemoveView;

    open spec fn deep_view(&self) -> MatchmakerRemoveView {
        MatchmakerRemoveView {
            ticket: self.ticket.deep_view(),
        }
    }
}

impl MatchmakerRemoveView {
    /// Whether every numeric property in this value holds the text of a
    /// JSON number.
    pub open spec fn wf(self) -> bool {
        true
    }

    /// The members before the first field.
    pub open spec fn members_0(self) -> Seq<MemberValue> {
        Seq::empty()
    }

    /// The members up to `ticket`.
    pub open spec fn members_1(self) -> Seq<MemberValue> {
        self.members_0() + seq![member("ticket"@, JsonValue::Text(self.ticket))]
    }

    /// The JSON value that this value is written as.
    #[verifier::opaque]
    pub open spec fn json(self) -> JsonValue {
        JsonValue::Object(self.members_1())
    }

    /// The value that a JSON value is read as, if it holds one.
    #[verifier::opaque]
    pub open spec fn read(json: JsonValue) -> Option<MatchmakerRemoveView> {
        match members_of(json) {
            Some(members) => {
                let ticket = req_text(members, "ticket"@);
                if ticket is Some {
                    Some(MatchmakerRemoveView {
                        ticket: ticket->0,
                    })
                } else {
                    None
                }
            },
            None => None,
        }
    }

    /// [`MatchmakerRemoveView::json`], as a function.
    pub open spec fn writer() -> spec_fn(MatchmakerRemoveView) -> JsonValue {
        |value: MatchmakerRemoveView| value.json()
    }

    /// [`MatchmakerRemoveView::read`], as a function.
    pub open spec fn reader() -> spec_fn(JsonValue) -> Option<MatchmakerRemoveView> {
        |json: JsonValue| MatchmakerRemoveView::read(json)
    }

    /// Reading what this value is written as gives it back, and what it
    /// is written as can be written as text.
    pub proof fn lemma_read_json(self)
        requires
            self.wf(),
        ensures
            MatchmakerRemoveView::read(self.json()) == Some(self),
            printable(self.json(), 1),
            self.json() is Object,
    {
        broadcast use {group_lookup, group_printable};

        reveal(MatchmakerRemoveView::json);
        reveal(MatchmakerRemoveView::read);
        lemma_object_printable(self.members_1(), 1);
    }
}

impl MatchmakerRemove {
    /// Writes this value as a JSON value.
    pub fn to_json(&self) -> (json: Json)
        ensures
            json@ == self.deep_view().json(),
    {
        reveal(MatchmakerRemoveView::json);
        let mut members: Vec<Member> = Vec::new();
        assert(member_values(members@) =~= self.deep_view().members_0());
        put_text(&mut members, "ticket", self.ticket.as_str());
        assert(member_values(members@) =~= self.deep_view().members_1());
        object(members)
    }

    /// Reads a value from a JSON value.
    ///
    /// The JSON value must be an object that holds every field that is not
    /// optional, each with a value of its kind.  Members under other names
    /// are passed over.
    pub fn from_json(json: &Json) -> (read: Option<MatchmakerRemove>)
        ensures
            match read {
                Some(value) => MatchmakerRemoveView::read(json@) == Some(value.deep_view()),
                None => MatchmakerRemoveView::read(json@) is None,
            },
    {
        reveal(MatchmakerRemoveView::read);
        let members = match object_members(json) {
            Some(members) => members,
            None => {
                return None;
            },
        };
        let ticket = match text_field(members, "ticket") {
            Some(value) => value,
            None => {
                return None;
            },
        };
        Some(MatchmakerRemove { ticket })
    }
}

/// [`MatchmakerTicket`], as mathematics.
pub struct MatchmakerTicketView {
    pub ticket: Seq<char>,
}

impl DeepView for MatchmakerTicket {
    type V = MatchmakerTicketView;

    open spec fn deep_view(&self) -> MatchmakerTicketView {
        MatchmakerTicketView {
            ticket: self.ticket.deep_view(),
        }
    }
}

impl MatchmakerTicketView {
    /// Whether every numeric property in this value holds the text of a
    /// JSON number.
    pub open spec fn wf(self) -> bool {
        true
    }

    /// The members before the first field.
    pub open spec fn members_0(self) -> Seq<MemberValue> {
        Seq::empty()
    }

    /// The members up to `ticket`.
    pub open spec fn members_1(self) -> Seq<MemberValue> {
        self.members_0() + seq![member("ticket"@, JsonValue::Text(self.ticket))]
    }

    /// The JSON value that this value is written as.
    #[verifier::opaque]
    pub open spec fn json(self) -> JsonValue {
        JsonValue::Object(self.members_1())
    }

    /// The value that a JSON value is read as, if it holds one.
    #[verifier::opaque]
    pub open spec fn read(json: JsonValue) -> Option<MatchmakerTicketView> {
        match members_of(json) {
            Some(members) => {
                let ticket = req_text(members, "ticket"@);
                if ticket is Some {
                    Some(MatchmakerTicketView {
                        ticket: ticket->0,
                    })
                } else {
                    None
                }
            },
            None => None,
        }
    }

    /// [`MatchmakerTicketView::json`], as a function.
    pub open spec fn writer() -> spec_fn(MatchmakerTicketView) -> JsonValue {
        |value: MatchmakerTicketView| value.json()
    }

    /// [`MatchmakerTicketView::read`], as a function.
    pub open spec fn reader() -> spec_fn(JsonValue) -> Option<MatchmakerTicketView> {
        |json: JsonValue| MatchmakerTicketView::read(json)
    }

    /// Reading what this value is written as gives it back, and what it
    /// is written as can be written as text.
    pub proof fn lemma_read_json(self)
        requires
            self.wf(),
        ensures
            MatchmakerTicketView::read(self.json()) == Some(self),
            printable(self.json(), 1),
            self.json() is Object,
    {
        broadcast use {group_lookup, group_printable};

        reveal(MatchmakerTicketView::json);
        reveal(MatchmakerTicketView::read);
        lemma_object_printable(self.members_1(), 1);
    }
}

impl MatchmakerTicket {
    /// Writes this value as a JSON value.
    pub fn to_json(&self) -> (json: Json)
        ensures
            json@ == self.deep_view().json(),
    {
        reveal(MatchmakerTicketView::json);
        let mut members: Vec<Member> = Vec::new();
        assert(member_values(members@) =~= self.deep_view().members_0());
        put_text(&mut members, "ticket", self.ticket.as_str());
        assert(member_values(members@) =~= self.deep_view().members_1());
        object(members)
    }

    /// Reads a value from a JSON value.
    ///
    /// The JSON value must be an object that holds every field that is not
    /// optional, each with a value of its kind.  Members under other names
    /// are passed over.
    pub fn from_json(json: &Json) -> (read: Option<MatchmakerTicket>)
        ensures
            match read {
                Some(value) => MatchmakerTicketView::read(json@) == Some(value.deep_view()),
                None => MatchmakerTicketView::read(json@) is None,
            },
    {
        reveal(MatchmakerTicketView::read);
        let members = match object_members(json) {
            Some(members) => members,
            None => {
                return None;
            },
        };
        let ticket = match text_field(members, "ticket") {
            Some(value) => value,
            None => {
                return None;
            },
        };
        Some(MatchmakerTicket { ticket })
    }
}

/// [`Notifications`], as mathematics.
pub struct NotificationsView {
    pub notifications: Seq<ApiNotificationView>,
}

impl DeepView for Notifications {
    type V = NotificationsView;

    open spec fn deep_view(&self) -> NotificationsView {
        NotificationsView {
            notifications: self.notifications.deep_view(),
        }
    }
}

impl NotificationsView {
    /// Whether every numeric property in this value holds the text of a
    /// JSON number.
    pub open spec fn wf(self) -> bool {
        true
    }

    /// The members before the first field.
    pub open spec fn members_0(self) -> Seq<MemberValue> {
        Seq::empty()
    }

    /// The members up to `notifications`.
    pub open spec fn members_1(self) -> Seq<MemberValue> {
        self.members_0() + seq![member("notifications"@, array_json(self.notifications, ApiNotificationView::writer()))]
    }

    /// The JSON value that this value is written as.
    #[verifier::opaque]
    pub open spec fn json(self) -> JsonValue {
        JsonValue::Object(self.members_1())
    }

    /// The value that a JSON value is read as, if it holds one.
    #[verifier::opaque]
    pub open spec fn read(json: JsonValue) -> Option<NotificationsView> {
        match members_of(json) {
            Some(members) => {
                let notifications = req_array(members, "notifications"@, ApiNotificationView::reader());
                if notifications is Some {
                    Some(NotificationsView {
                        notifications: notifications->0,
                    })
                } else {
                    None
                }
            },
            None => None,
        }
    }

    /// [`NotificationsView::json`], as a function.
    pub open spec fn writer() -> spec_fn(NotificationsView) -> JsonValue {
        |value: NotificationsView| value.json()
    }

    /// [`NotificationsView::read`], as a function.
    pub open spec fn reader() -> spec_fn(JsonValue) -> Option<NotificationsView> {
        |json: JsonValue| NotificationsView::read(json)
    }

    /// Reading what this value is written as gives it back, and what it
    /// is written as can be written as text.
    pub proof fn lemma_read_json(self)
        requires
            self.wf(),
        ensures
            NotificationsView::read(self.json()) == Some(self),
            printable(self.json(), 3),
            self.json() is Object,
    {
        broadcast use {group_lookup, group_printable};

        reveal(NotificationsView::json);
        reveal(NotificationsView::read);
        ApiNotificationView::lemma_read_each(self.notifications);
        lemma_printable_deeper(array_json(self.notifications, ApiNotificationView::writer()), 2, 2);
        lemma_object_printable(self.members_1(), 3);
    }
}

impl Notifications {
    /// Writes this value as a JSON value.
    pub fn to_json(&self) -> (json: Json)
        ensures
            json@ == self.deep_view().json(),
    {
        reveal(NotificationsView::json);
        let mut members: Vec<Member> = Vec::new();
        assert(member_values(members@) =~= self.deep_view().members_0());
        put(&mut members, "notifications", ApiNotification::vec_to_json(&self.notifications));
        assert(member_values(members@) =~= self.deep_view().members_1());
        object(members)
    }

    /// Reads a value from a JSON value.
    ///
    /// The JSON value must be an object that holds every field that is not
    /// optional, each with a value of its kind.  Members under other names
    /// are passed over.
    pub fn from_json(json: &Json) -> (read: Option<Notifications>)
        ensures
            match read {
                Some(value) => NotificationsView::read(json@) == Some(value.deep_view()),
                None => NotificationsView::read(json@) is None,
            },
    {
        reveal(NotificationsView::read);
        let members = match object_members(json) {
            Some(members) => members,
            None => {
                return None;
            },
        };
        let notifications = match find(members, "notifications") {
            Some(json) => match ApiNotification::vec_from_json(json) {
                Some(value) => value,
                None => {
                    return None;
                },
            },
            None => {
                return None;
            },
        };
        Some(Notifications { notifications })
    }
}

/// [`Party`], as mathematics.
pub struct PartyView {
    pub party_id: Seq<char>,
    pub open: bool,
    pub max_size: i32,
    pub _self: UserPresenceView,
    pub leader: UserPresenceView,
    pub presences: Seq<UserPresenceView>,
}

impl DeepView for Party {
    type V = PartyView;

    open spec fn deep_view(&self) -> PartyView {
        PartyView {
            party_id: self.party_id.deep_view(),
            open: self.open,
            max_size: self.max_size,
            _self: self._self.deep_view(),
            leader: self.leader.deep_view(),
            presences: self.presences.deep_view(),
        }
    }
}

impl PartyView {
    /// Whether every numeric property in this value holds the text of a
    /// JSON number.
    pub open spec fn wf(self) -> bool {
        true
    }

    /// The members before the first field.
    pub open spec fn members_0(self) -> Seq<MemberValue> {
        Seq::empty()
    }

    /// The members up to `party_id`.
    pub open spec fn members_1(self) -> Seq<MemberValue> {
        self.members_0() + seq![member("party_id"@, JsonValue::Text(self.party_id))]
    }

    /// The members up to `open`.
    pub open spec fn members_2(self) -> Seq<MemberValue> {
        self.members_1() + seq![member("open"@, JsonValue::Bool(self.open))]
    }

    /// The members up to `max_size`.
    pub open spec fn members_3(self) -> Seq<MemberValue> {
        self.members_2() + seq![member("max_size"@, integer_json(self.max_size as int))]
    }

    /// The members up to `self`.
    pub open spec fn members_4(self) -> Seq<MemberValue> {
        self.members_3() + seq![member("self"@, self._self.json())]
    }

    /// The members up to `leader`.
    pub open spec fn members_5(self) -> Seq<MemberValue> {
        self.members_4() + seq![member("leader"@, self.leader.json())]
    }

    /// The members up to `presences`.
    pub open spec fn members_6(self) -> Seq<MemberValue> {
        self.members_5() + seq![member("presences"@, array_json(self.presences, UserPresenceView::writer()))]
    }

    /// The JSON value that this value is written as.
    #[verifier::opaque]
    pub open spec fn json(self) -> JsonValue {
        JsonValue::Object(self.members_6())
    }

    /// The value that a JSON value is read as, if it holds one.
    #[verifier::opaque]
    pub open spec fn read(json: JsonValue) -> Option<PartyView> {
        match members_of(json) {
            Some(members) => {
                let party_id = req_text(members, "party_id"@);
                let open = req_bool(members, "open"@);
                let max_size = req_i32(members, "max_size"@);
                let _self = req_record(members, "self"@, UserPresenceView::reader());
                let leader = req_record(members, "leader"@, UserPresenceView::reader());
                let presences = req_array(members, "presences"@, UserPresenceView::reader());
                if party_id is Some && open is Some && max_size is Some && _self is Some && leader is Some && presences is Some {
                    Some(PartyView {
                        party_id: party_id->0,
                        open: open->0,
                        max_size: max_size->0,
                        _self: _self->0,
                        leader: leader->0,
                        presences: presences->0,
                    })
                } else {
                    None
                }
            },
            None => None,
        }
    }

    /// [`PartyView::json`], as a function.
    pub open spec fn writer() -> spec_fn(PartyView) -> JsonValue {
        |value: PartyView| value.json()
    }

    /// [`PartyView::read`], as a function.
    pub open spec fn reader() -> spec_fn(JsonValue) -> Option<PartyView> {
        |json: JsonValue| PartyView::read(json)
    }

    /// The place of a field name among the field names.
    pub open spec fn field_index(name: Seq<char>) -> int {
        if name == "party_id"@ {
            0
        } else if name == "open"@ {
            1
        } else if name == "max_size"@ {
            2
        } else if name == "self"@ {
            3
        } else if name == "leader"@ {
            4
        } else if name == "presences"@ {
            5
        } else {
            6
        }
    }

    /// The field names differ from each other.
    pub proof fn lemma_names()
        ensures
            Self::field_index("party_id"@) == 0,
            Self::field_index("open"@) == 1,
            Self::field_index("max_size"@) == 2,
            Self::field_index("self"@) == 3,
            Self::field_index("leader"@) == 4,
            Self::field_index("presences"@) == 5,
    {
        reveal_strlit("party_id");
        reveal_strlit("open");
        reveal_strlit("max_size");
        reveal_strlit("self");
        reveal_strlit("leader");
        reveal_strlit("presences");
        assert("party_id"@.len() == 8);
        assert("open"@.len() == 4);
        assert("max_size"@.len() == 8);
        assert("self"@.len() == 4);
        assert("leader"@.len() == 6);
        assert("presences"@.len() == 9);
        assert("party_id"@[0] != "max_size"@[0]);
        assert("open"@[0] != "self"@[0]);
    }

    /// Reading what this value is written as gives it back, and what it
    /// is written as can be written as text.
    pub proof fn lemma_read_json(self)
        requires
            self.wf(),
        ensures
            PartyView::read(self.json()) == Some(self),
            printable(self.json(), 3),
            self.json() is Object,
    {
        broadcast use {group_lookup, group_printable};

        reveal(PartyView::json);
        reveal(PartyView::read);
        Self::lemma_names();
        lemma_integer(self.max_size as i64);
        self._self.lemma_read_json();
        lemma_printable_deeper(self._self.json(), 1, 2);
        self.leader.lemma_read_json();
        lemma_printable_deeper(self.leader.json(), 1, 2);
        UserPresenceView::lemma_read_each(self.presences);
        lemma_printable_deeper(array_json(self.presences, UserPresenceView::writer()), 2, 2);
        lemma_object_printable(self.members_6(), 3);
    }
}

impl Party {
    /// Writes this value as a JSON value.
    pub fn to_json(&self) -> (json: Json)
        ensures
            json@ == self.deep_view().json(),
    {
        reveal(PartyView::json);
        let mut members: Vec<Member> = Vec::new();
        assert(member_values(members@) =~= self.deep_view().members_0());
        put_text(&mut members, "party_id", self.party_id.as_str());
        assert(member_values(members@) =~= self.deep_view().members_1());
        put_bool(&mut members, "open", self.open);
        assert(member_values(members@) =~= self.deep_view().members_2());
        put_integer(&mut members, "max_size", self.max_size as i64);
        assert(member_values(members@) =~= self.deep_view().members_3());
        put(&mut members, "self", self._self.to_json());
        assert(member_values(members@) =~= self.deep_view().members_4());
        put(&mut members, "leader", self.leader.to_json());
        assert(member_values(members@) =~= self.deep_view().members_5());
        put(&mut members, "presences", UserPresence::vec_to_json(&self.presences));
        assert(member_values(members@) =~= self.deep_view().members_6());
        object(members)
    }

    /// Reads a value from a JSON value.
    ///
    /// The JSON value must be an object that holds every field that is not
    /// optional, each with a value of its kind.  Members under other names
    /// are passed over.
    pub fn from_json(json: &Json) -> (read: Option<Party>)
        ensures
            match read {
                Some(value) => PartyView::read(json@) == Some(value.deep_view()),
                None => PartyView::read(json@) is None,
            },
    {
        reveal(PartyView::read);
        let members = match object_members(json) {
            Some(members) => members,
            None => {
                return None;
            },
        };
        let party_id = match text_field(members, "party_id") {
            Some(value) => value,
            None => {
                return None;
            },
        };
        let open = match bool_field(members, "open") {
            Some(value) => value,
            None => {
                return None;
            },
        };
        let max_size = match i32_field(members, "max_size") {
            Some(value) => value,
            None => {
                return None;
            },
        };
        let _self = match find(members, "self") {
            Some(json) => match UserPresence::from_json(json) {
                Some(value) => value,
                None => {
                    return None;
                },
            },
            None => {
                return None;
            },
        };
        let leader = match find(members, "leader") {
            Some(json) => match UserPresence::from_json(json) {
                Some(value) => value,
                None => {
                    return None;
                },
            },
            None => {
                return None;
            },
        };
        let presences = match find(members, "presences") {
            Some(json) => match UserPresence::vec_from_json(json) {
                Some(value) => value,
                None => {
                    return None;
                },
            },
            None => {
                return None;
            },
        };
        Some(Party { party_id, open, max_size, _self, leader, presences })
    }
}

/// [`PartyCreate`], as mathematics.
pub struct PartyCreateView {
    pub open: bool,
    pub max_size: i32,
}

impl DeepView for PartyCreate {
    type V = PartyCreateView;

    open spec fn deep_view(&self) -> PartyCreateView {
        PartyCreateView {
            open: self.open,
            max_size: self.max_size,
        }
    }
}

impl PartyCreateView {
    /// Whether every numeric property in this value holds the text of a
    /// JSON number.
    pub open spec fn wf(self) -> bool {
        true
    }

    /// The members before the first field.
    pub open spec fn members_0(self) -> Seq<MemberValue> {
        Seq::empty()
    }

    /// The members up to `open`.
    pub open spec fn members_1(self) -> Seq<MemberValue> {
        self.members_0() + seq![member("open"@, JsonValue::Bool(self.open))]
    }

    /// The members up to `max_size`.
    pub open spec fn members_2(self) -> Seq<MemberValue> {
        self.members_1() + seq![member("max_size"@, integer_json(self.max_size as int))]
    }

    /// The JSON value that this value is written as.
    #[verifier::opaque]
    pub open spec fn json(self) -> JsonValue {
        JsonValue::Object(self.members_2())
    }

    /// The value that a JSON value is read as, if it holds one.
    #[verifier::opaque]
    pub open spec fn read(json: JsonValue) -> Option<PartyCreateView> {
        match members_of(json) {
            Some(members) => {
                let open = req_bool(members, "open"@);
                let max_size = req_i32(members, "max_size"@);
                if open is Some && max_size is Some {
                    Some(PartyCreateView {
                        open: open->0,
                        max_size: max_size->0,
                    })
                } else {
                    None
                }
            },
            None => None,
        }
    }

    /// [`PartyCreateView::json`], as a function.
    pub open spec fn writer() -> spec_fn(PartyCreateView) -> JsonValue {
        |value: PartyCreateView| value.json()
    }

    /// [`PartyCreateView::read`], as a function.
    pub open spec fn reader() -> spec_fn(JsonValue) -> Option<PartyCreateView> {
        |json: JsonValue| PartyCreateView::read(json)
    }

    /// The place of a field name among the field names.
    pub open spec fn field_index(name: Seq<char>) -> int {
        if name == "open"@ {
            0
        } else if name == "max_size"@ {
            1
        } else {
            2
        }
    }

    /// The field names differ from each other.
    pub proof fn lemma_names()
        ensures
            Self::field_index("open"@) == 0,
            Self::field_index("max_size"@) == 1,
    {
        reveal_strlit("open");
        reveal_strlit("max_size");
        assert("open"@.len() == 4);
        assert("max_size"@.len() == 8);
    }

    /// Reading what this value is written as gives it back, and what it
    /// is written as can be written as text.
    pub proof fn lemma_read_json(self)
        requires
            self.wf(),
        ensures
            PartyCreateView::read(self.json()) == Some(self),
            printable(self.json(), 1),
            self.json() is Object,
    {
        broadcast use {group_lookup, group_printable};

        reveal(PartyCreateView::json);
        reveal(PartyCreateView::read);
        Self::lemma_names();
        lemma_integer(self.max_size as i64);
        lemma_object_printable(self.members_2(), 1);
    }
}

impl PartyCreate {
    /// Writes this value as a JSON value.
    pub fn to_json(&self) -> (json: Json)
        ensures
            json@ == self.deep_view().json(),
    {
        reveal(PartyCreateView::json);
        let mut members: Vec<Member> = Vec::new();
        assert(member_values(members@) =~= self.deep_view().members_0());
        put_bool(&mut members, "open", self.open);
        assert(member_values(members@) =~= self.deep_view().members_1());
        put_integer(&mut members, "max_size", self.max_size as i64);
        assert(member_values(members@) =~= self.deep_view().members_2());
        object(members)
    }

    /// Reads a value from a JSON value.
    ///
    /// The JSON value must be an object that holds every field that is not
    /// optional, each with a value of its kind.  Members under other names
    /// are passed over.
    pub fn from_json(json: &Json) -> (read: Option<PartyCreate>)
        ensures
            match read {
                Some(value) => PartyCreateView::read(json@) == Some(value.deep_view()),
                None => PartyCreateView::read(json@) is None,
            },
    {
        reveal(PartyCreateView::read);
        let members = match object_members(json) {
            Some(members) => members,
            None => {
                return None;
            },
        };
        let open = match bool_field(members, "open") {
            Some(value) => value,
            None => {
                return None;
            },
        };
        let max_size = match i32_field(members, "max_size") {
            Some(value) => value,
            None => {
                return None;
            },
        };
        Some(PartyCreate { open, max_size })
    }
}

/// [`PartyJoin`], as mathematics.
pub struct PartyJoinView {
    pub party_id: Seq<char>,
}

impl DeepView for PartyJoin {
    type V = PartyJoinView;

    open spec fn deep_view(&self) -> PartyJoinView {
        PartyJoinView {
            party_id: self.party_id.deep_view(),
        }
    }
}

impl PartyJoinView {
    /// Whether every numeric property in this value holds the text of a
    /// JSON number.
    pub open spec fn wf(self) -> bool {
        true
    }

    /// The members before the first field.
    pub open spec fn members_0(self) -> Seq<MemberValue> {
        Seq::empty()
    }

    /// The members up to `party_id`.
    pub open spec fn members_1(self) -> Seq<MemberValue> {
        self.members_0() + seq![member("party_id"@, JsonValue::Text(self.party_id))]
    }

    /// The JSON value that this value is written as.
    #[verifier::opaque]
    pub open spec fn json(self) -> JsonValue {
        JsonValue::Object(self.members_1())
    }

    /// The value that a JSON value is read as, if it holds one.
    #[verifier::opaque]
    pub open spec fn read(json: JsonValue) -> Option<PartyJoinView> {
        match members_of(json) {
            Some(members) => {
                let party_id = req_text(members, "party_id"@);
                if party_id is Some {
                    Some(PartyJoinView {
                        party_id: party_id->0,
                    })
                } else {
                    None
                }
            },
            None => None,
        }
    }

    /// [`PartyJoinView::json`], as a function.
    pub open spec fn writer() -> spec_fn(PartyJoinView) -> JsonValue {
        |value: PartyJoinView| value.json()
    }

    /// [`PartyJoinView::read`], as a function.
    pub open spec fn reader() -> spec_fn(JsonValue) -> Option<PartyJoinView> {
        |json: JsonValue| PartyJoinView::read(json)
    }

    /// Reading what this value is written as gives it back, and what it
    /// is written as can be written as text.
    pub proof fn lemma_read_json(self)
        requires
            self.wf(),
        ensures
            PartyJoinView::read(self.json()) == Some(self),
            printable(self.json(), 1),
            self.json() is Object,
    {
        broadcast use {group_lookup, group_printable};

        reveal(PartyJoinView::json);
        reveal(PartyJoinView::read);
        lemma_object_printable(self.members_1(), 1);
    }
}

impl PartyJoin {
    /// Writes this value as a JSON value.
    pub fn to_json(&self) -> (json: Json)
        ensures
            json@ == self.deep_view().json(),
    {
        reveal(PartyJoinView::json);
        let mut members: Vec<Member> = Vec::new();
        assert(member_values(members@) =~= self.deep_view().members_0());
        put_text(&mut members, "party_id", self.party_id.as_str());
        assert(member_values(members@) =~= self.deep_view().members_1());
        object(members)
    }

    /// Reads a value from a JSON value.
    ///
    /// The JSON value must be an object that holds every field that is not
    /// optional, each with a value of its kind.  Members under other names
    /// are passed over.
    pub fn from_json(json: &Json) -> (read: Option<PartyJoin>)
        ensures
            match read {
                Some(value) => PartyJoinView::read(json@) == Some(value.deep_view()),
                None => PartyJoinView::read(json@) is None,
            },
    {
        reveal(PartyJoinView::read);
        let members = match object_members(json) {
            Some(members) => members,
            None => {
                return None;
            },
        };
        let party_id = match text_field(members, "party_id") {
            Some(value) => value,
            None => {
                return None;
            },
        };
        Some(PartyJoin { party_id })
    }
}

/// [`PartyLeave`], as mathematics.
pub struct PartyLeaveView {
    pub party_id: Seq<char>,
}

impl DeepView for PartyLeave {
    type V = PartyLeaveView;

    open spec fn deep_view(&self) -> PartyLeaveView {
        PartyLeaveView {
            party_id: self.party_id.deep_view(),
        }
    }
}

impl PartyLeaveView {
    /// Whether every numeric property in this value holds the text of a
    /// JSON number.
    pub open spec fn wf(self) -> bool {
        true
    }

    /// The members before the first field.
    pub open spec fn members_0(self) -> Seq<MemberValue> {
        Seq::empty()
    }

    /// The members up to `party_id`.
    pub open spec fn members_1(self) -> Seq<MemberValue> {
        self.members_0() + seq![member("party_id"@, JsonValue::Text(self.party_id))]
    }

    /// The JSON value that this value is written as.
    #[verifier::opaque]
    pub open spec fn json(self) -> JsonValue {
        JsonValue::Object(self.members_1())
    }

    /// The value that a JSON value is read as, if it holds one.
    #[verifier::opaque]
    pub open spec fn read(json: JsonValue) -> Option<PartyLeaveView> {
        match members_of(json) {
            Some(members) => {
                let party_id = req_text(members, "party_id"@);
                if party_id is Some {
                    Some(PartyLeaveView {
                        party_id: party_id->0,
                    })
                } else {
                    None
                }
            },
            None => None,
        }
    }

    /// [`PartyLeaveView::json`], as a function.
    pub open spec fn writer() -> spec_fn(PartyLeaveView) -> JsonValue {
        |value: PartyLeaveView| value.json()
    }

    /// [`PartyLeaveView::read`], as a function.
    pub open spec fn reader() -> spec_fn(JsonValue) -> Option<PartyLeaveView> {
        |json: JsonValue| PartyLeaveView::read(json)
    }

    /// Reading what this value is written as gives it back, and what it
    /// is written as can be written as text.
    pub proof fn lemma_read_json(self)
        requires
            self.wf(),
        ensures
            PartyLeaveView::read(self.json()) == Some(self),
            printable(self.json(), 1),
            self.json() is Object,
    {
        broadcast use {group_lookup, group_printable};

        reveal(PartyLeaveView::json);
        reveal(PartyLeaveView::read);
        lemma_object_printable(self.members_1(), 1);
    }
}

impl PartyLeave {
    /// Writes this value as a JSON value.
    pub fn to_json(&self) -> (json: Json)
        ensures
            json@ == self.deep_view().json(),
    {
        reveal(PartyLeaveView::json);
        let mut members: Vec<Member> = Vec::new();
        assert(member_values(members@) =~= self.deep_view().members_0());
        put_text(&mut members, "party_id", self.party_id.as_str());
        assert(member_values(members@) =~= self.deep_view().members_1());
        object(members)
    }

    /// Reads a value from a JSON value.
    ///
    /// The JSON value must be an object that holds every field that is not
    /// optional, each with a value of its kind.  Members under other names
    /// are passed over.
    pub fn from_json(json: &Json) -> (read: Option<PartyLeave>)
        ensures
            match read {
                Some(value) => PartyLeaveView::read(json@) == Some(value.deep_view()),
                None => PartyLeaveView::read(json@) is None,
            },
    {
        reveal(PartyLeaveView::read);
        let members = match object_members(json) {
            Some(members) => members,
            None => {
                return None;
            },
        };
        let party_id = match text_field(members, "party_id") {
            Some(value) => value,
            None => {
                return None;
            },
        };
        Some(PartyLeave { party_id })
    }
}

/// [`PartyPromote`], as mathematics.
pub struct PartyPromoteView {
    pub party_id: Seq<char>,
    pub presence: UserPresenceView,
}

impl DeepView for PartyPromote {
    type V = PartyPromoteView;

    open spec fn deep_view(&self) -> PartyPromoteView {
        PartyPromoteView {
            party_id: self.party_id.deep_view(),
            presence: self.presence.deep_view(),
        }
    }
}

impl PartyPromoteView {
    /// Whether every numeric property in this value holds the text of a
    /// JSON number.
    pub open spec fn wf(self) -> bool {
        true
    }

    /// The members before the first field.
    pub open spec fn members_0(self) -> Seq<MemberValue> {
        Seq::empty()
    }

    /// The members up to `party_id`.
    pub open spec fn members_1(self) -> Seq<MemberValue> {
        self.members_0() + seq![member("party_id"@, JsonValue::Text(self.party_id))]
    }

    /// The members up to `presence`.
    pub open spec fn members_2(self) -> Seq<MemberValue> {
        self.members_1() + seq![member("presence"@, self.presence.json())]
    }

    /// The JSON value that this value is written as.
    #[verifier::opaque]
    pub open spec fn json(self) -> JsonValue {
        JsonValue::Object(self.members_2())
    }

    /// The value that a JSON value is read as, if it holds one.
    #[verifier::opaque]
    pub open spec fn read(json: JsonValue) -> Option<PartyPromoteView> {
        match members_of(json) {
            Some(members) => {
                let party_id = req_text(members, "party_id"@);
                let presence = req_record(members, "presence"@, UserPresenceView::reader());
                if party_id is Some && presence is Some {
                    Some(PartyPromoteView {
                        party_id: party_id->0,
                        presence: presence->0,
                    })
                } else {
                    None
                }
            },
            None => None,
        }
    }

    /// [`PartyPromoteView::json`], as a function.
    pub open spec fn writer() -> spec_fn(PartyPromoteView) -> JsonValue {
        |value: PartyPromoteView| value.json()
    }

    /// [`PartyPromoteView::read`], as a function.
    pub open spec fn reader() -> spec_fn(JsonValue) -> Option<PartyPromoteView> {
        |json: JsonValue| PartyPromoteView::read(json)
    }

    /// The place of a field name among the field names.
    pub open spec fn field_index(name: Seq<char>) -> int {
        if name == "party_id"@ {
            0
        } else if name == "presence"@ {
            1
        } else {
            2
        }
    }

    /// The field names differ from each other.
    pub proof fn lemma_names()
        ensures
            Self::field_index("party_id"@) == 0,
            Self::field_index("presence"@) == 1,
    {
        reveal_strlit("party_id");
        reveal_strlit("presence");
        assert("party_id"@.len() == 8);
        assert("presence"@.len() == 8);
        assert("party_id"@[1] != "presence"@[1]);
    }

    /// Reading what this value is written as gives it back, and what it
    /// is written as can be written as text.
    pub proof fn lemma_read_json(self)
        requires
            self.wf(),
        ensures
            PartyPromoteView::read(self.json()) == Some(self),
            printable(self.json(), 2),
            self.json() is Object,
    {
        broadcast use {group_lookup, group_printable};

        reveal(PartyPromoteView::json);
        reveal(PartyPromoteView::read);
        Self::lemma_names();
        self.presence.lemma_read_json();
        lemma_printable_deeper(self.presence.json(), 1, 1);
        lemma_object_printable(self.members_2(), 2);
    }
}

impl PartyPromote {
    /// Writes this value as a JSON value.
    pub fn to_json(&self) -> (json: Json)
        ensures
            json@ == self.deep_view().json(),
    {
        reveal(PartyPromoteView::json);
        let mut members: Vec<Member> = Vec::new();
        assert(member_values(members@) =~= self.deep_view().members_0());
        put_text(&mut members, "party_id", self.party_id.as_str());
        assert(member_values(members@) =~= self.deep_view().members_1());
        put(&mut members, "presence", self.presence.to_json());
        assert(member_values(members@) =~= self.deep_view().members_2());
        object(members)
    }

    /// Reads a value from a JSON value.
    ///
    /// The JSON value must be an object that holds every field that is not
    /// optional, each with a value of its kind.  Members under other names
    /// are passed over.
    pub fn from_json(json: &Json) -> (read: Option<PartyPromote>)
        ensures
            match read {
                Some(value) => PartyPromoteView::read(json@) == Some(value.deep_view()),
                None => PartyPromoteView::read(json@) is None,
            },
    {
        reveal(PartyPromoteView::read);
        let members = match object_members(json) {
            Some(members) => members,
            None => {
                return None;
            },
        };
        let party_id = match text_field(members, "party_id") {
            Some(value) => value,
            None => {
                return None;
            },
        };
        let presence = match find(members, "presence") {
            Some(json) => match UserPresence::from_json(json) {
                Some(value) => value,
                None => {
                    return None;
                },
            },
            None => {
                return None;
            },
        };
        Some(PartyPromote { party_id, presence })
    }
}

/// [`PartyLeader`], as mathematics.
pub struct PartyLeaderView {
    pub party_id: Seq<char>,
    pub presence: UserPresenceView,
}

impl DeepView for PartyLeader {
    type V = PartyLeaderView;

    open spec fn deep_view(&self) -> PartyLeaderView {
        PartyLeaderView {
            party_id: self.party_id.deep_view(),
            presence: self.presence.deep_view(),
        }
    }
}

impl PartyLeaderView {
    /// Whether every numeric property in this value holds the text of a
    /// JSON number.
    pub open spec fn wf(self) -> bool {
        true
    }

    /// The members before the first field.
    pub open spec fn members_0(self) -> Seq<MemberValue> {
        Seq::empty()
    }

    /// The members up to `party_id`.
    pub open spec fn members_1(self) -> Seq<MemberValue> {
        self.members_0() + seq![member("party_id"@, JsonValue::Text(self.party_id))]
    }

    /// The members up to `presence`.
    pub open spec fn members_2(self) -> Seq<MemberValue> {
        self.members_1() + seq![member("presence"@, self.presence.json())]
    }

    /// The JSON value that this value is written as.
    #[verifier::opaque]
    pub open spec fn json(self) -> JsonValue {
        JsonValue::Object(self.members_2())
    }

    /// The value that a JSON value is read as, if it holds one.
    #[verifier::opaque]
    pub open spec fn read(json: JsonValue) -> Option<PartyLeaderView> {
        match members_of(json) {
            Some(members) => {
                let party_id = req_text(members, "party_id"@);
                let presence = req_record(members, "presence"@, UserPresenceView::reader());
                if party_id is Some && presence is Some {
                    Some(PartyLeaderView {
                        party_id: party_id->0,
                        presence: presence->0,
                    })
                } else {
                    None
                }
            },
            None => None,
        }
    }

    /// [`PartyLeaderView::json`], as a function.
    pub open spec fn writer() -> spec_fn(PartyLeaderView) -> JsonValue {
        |value: PartyLeaderView| value.json()
    }

    /// [`PartyLeaderView::read`], as a function.
    pub open spec fn reader() -> spec_fn(JsonValue) -> Option<PartyLeaderView> {
        |json: JsonValue| PartyLeaderView::read(json)
    }

    /// The place of a field name among the field names.
    pub open spec fn field_index(name: Seq<char>) -> int {
        if name == "party_id"@ {
            0
        } else if name == "presence"@ {
            1
        } else {
            2
        }
    }

    /// The field names differ from each other.
    pub proof fn lemma_names()
        ensures
            Self::field_index("party_id"@) == 0,
            Self::field_index("presence"@) == 1,
    {
        reveal_strlit("party_id");
        reveal_strlit("presence");
        assert("party_id"@.len() == 8);
        assert("presence"@.len() == 8);
        assert("party_id"@[1] != "presence"@[1]);
    }

    /// Reading what this value is written as gives it back, and what it
    /// is written as can be written as text.
    pub proof fn lemma_read_json(self)
        requires
            self.wf(),
        ensures
            PartyLeaderView::read(self.json()) == Some(self),
            printable(self.json(), 2),
            self.json() is Object,
    {
        broadcast use {group_lookup, group_printable};

        reveal(PartyLeaderView::json);
        reveal(PartyLeaderView::read);
        Self::lemma_names();
        self.presence.lemma_read_json();
        lemma_printable_deeper(self.presence.json(), 1, 1);
        lemma_object_printable(self.members_2(), 2);
    }
}

impl PartyLeader {
    /// Writes this value as a JSON value.
    pub fn to_json(&self) -> (json: Json)
        ensures
            json@ == self.deep_view().json(),
    {
        reveal(PartyLeaderView::json);
        let mut members: Vec<Member> = Vec::new();
        assert(member_values(members@) =~= self.deep_view().members_0());
        put_text(&mut members, "party_id", self.party_id.as_str());
        assert(member_values(members@) =~= self.deep_view().members_1());
        put(&mut members, "presence", self.presence.to_json());
        assert(member_values(members@) =~= self.deep_view().members_2());
        object(members)
    }

    /// Reads a value from a JSON value.
    ///
    /// The JSON value must be an object that holds every field that is not
    /// optional, each with a value of its kind.  Members under other names
    /// are passed over.
    pub fn from_json(json: &Json) -> (read: Option<PartyLeader>)
        ensures
            match read {
                Some(value) => PartyLeaderView::read(json@) == Some(value.deep_view()),
                None => PartyLeaderView::read(json@) is None,
            },
    {
        reveal(PartyLeaderView::read);
        let members = match object_members(json) {
            Some(members) => members,
            None => {
                return None;
            },
        };
        let party_id = match text_field(members, "party_id") {
            Some(value) => value,
            None => {
                return None;
            },
        };
        let presence = match find(members, "presence") {
            Some(json) => match UserPresence::from_json(json) {
                Some(value) => value,
                None => {
                    return None;
                },
            },
            None => {
                return None;
            },
        };
        Some(PartyLeader { party_id, presence })
    }
}

/// [`PartyAccept`], as mathematics.
pub struct PartyAcceptView {
    pub party_id: Seq<char>,
    pub presence: UserPresenceView,
}

impl DeepView for PartyAccept {
    type V = PartyAcceptView;

    open spec fn deep_view(&self) -> PartyAcceptView {
        PartyAcceptView {
            party_id: self.party_id.deep_view(),
            presence: self.presence.deep_view(),
        }
    }
}

impl PartyAcceptView {
    /// Whether every numeric property in this value holds the text of a
    /// JSON number.
    pub open spec fn wf(self) -> bool {
        true
    }

    /// The members before the first field.
    pub open spec fn members_0(self) -> Seq<MemberValue> {
        Seq::empty()
    }

    /// The members up to `party_id`.
    pub open spec fn members_1(self) -> Seq<MemberValue> {
        self.members_0() + seq![member("party_id"@, JsonValue::Text(self.party_id))]
    }

    /// The members up to `presence`.
    pub open spec fn members_2(self) -> Seq<MemberValue> {
        self.members_1() + seq![member("presence"@, self.presence.json())]
    }

    /// The JSON value that this value is written as.
    #[verifier::opaque]
    pub open spec fn json(self) -> JsonValue {
        JsonValue::Object(self.members_2())
    }

    /// The value that a JSON value is read as, if it holds one.
    #[verifier::opaque]
    pub open spec fn read(json: JsonValue) -> Option<PartyAcceptView> {
        match members_of(json) {
            Some(members) => {
                let party_id = req_text(members, "party_id"@);
                let presence = req_record(members, "presence"@, UserPresenceView::reader());
                if party_id is Some && presence is Some {
                    Some(PartyAcceptView {
                        party_id: party_id->0,
                        presence: presence->0,
                    })
                } else {
                    None
                }
            },
            None => None,
        }
    }

    /// [`PartyAcceptView::json`], as a function.
    pub open spec fn writer() -> spec_fn(PartyAcceptView) -> JsonValue {
        |value: PartyAcceptView| value.json()
    }

    /// [`PartyAcceptView::read`], as a function.
    pub open spec fn reader() -> spec_fn(JsonValue) -> Option<PartyAcceptView> {
        |json: JsonValue| PartyAcceptView::read(json)
    }

    /// The place of a field name among the field names.
    pub open spec fn field_index(name: Seq<char>) -> int {
        if name == "party_id"@ {
            0
        } else if name == "presence"@ {
            1
        } else {
            2
        }
    }

    /// The field names differ from each other.
    pub proof fn lemma_names()
        ensures
            Self::field_index("party_id"@) == 0,
            Self::field_index("presence"@) == 1,
    {
        reveal_strlit("party_id");
        reveal_strlit("presence");
        assert("party_id"@.len() == 8);
        assert("presence"@.len() == 8);
        assert("party_id"@[1] != "presence"@[1]);
    }

    /// Reading what this value is written as gives it back, and what it
    /// is written as can be written as text.
    pub proof fn lemma_read_json(self)
        requires
            self.wf(),
        ensures
            PartyAcceptView::read(self.json()) == Some(self),
            printable(self.json(), 2),
            self.json() is Object,
    {
        broadcast use {group_lookup, group_printable};

        reveal(PartyAcceptView::json);
        reveal(PartyAcceptView::read);
        Self::lemma_names();
        self.presence.lemma_read_json();
        lemma_printable_deeper(self.presence.json(), 1, 1);
        lemma_object_printable(self.members_2(), 2);
    }
}

impl PartyAccept {
    /// Writes this value as a JSON value.
    pub fn to_json(&self) -> (json: Json)
        ensures
            json@ == self.deep_view().json(),
    {
        reveal(PartyAcceptView::json);
        let mut members: Vec<Member> = Vec::new();
        assert(member_values(members@) =~= self.deep_view().members_0());
        put_text(&mut members, "party_id", self.party_id.as_str());
        assert(member_values(members@) =~= self.deep_view().members_1());
        put(&mut members, "presence", self.presence.to_json());
        assert(member_values(members@) =~= self.deep_view().members_2());
        object(members)
    }

    /// Reads a value from a JSON value.
    ///
    /// The JSON value must be an object that holds every field that is not
    /// optional, each with a value of its kind.  Members under other names
    /// are passed over.
    pub fn from_json(json: &Json) -> (read: Option<PartyAccept>)
        ensures
            match read {
                Some(value) => PartyAcceptView::read(json@) == Some(value.deep_view()),
                None => PartyAcceptView::read(json@) is None,
            },
    {
        reveal(PartyAcceptView::read);
        let members = match object_members(json) {
            Some(members) => members,
            None => {
                return None;
            },
        };
        let party_id = match text_field(members, "party_id") {
            Some(value) => value,
            None => {
                return None;
            },
        };
        let presence = match find(members, "presence") {
            Some(json) => match UserPresence::from_json(json) {
                Some(value) => value,
                None => {
                    return None;
                },
            },
            None => {
                return None;
            },
        };
        Some(PartyAccept { party_id, presence })
    }
}

/// [`PartyRemove`], as mathematics.
pub struct PartyRemoveView {
    pub party_id: Seq<char>,
    pub presence: UserPresenceView,
}

impl DeepView for PartyRemove {
    type V = PartyRemoveView;

    open spec fn deep_view(&self) -> PartyRemoveView {
        PartyRemoveView {
            party_id: self.party_id.deep_view(),
            presence: self.presence.deep_view(),
        }
    }
}

impl PartyRemoveView {
    /// Whether every numeric property in this value holds the text of a
    /// JSON number.
    pub open spec fn wf(self) -> bool {
        true
    }

    /// The members before the first field.
    pub open spec fn members_0(self) -> Seq<MemberValue> {
        Seq::empty()
    }

    /// The members up to `party_id`.
    pub open spec fn members_1(self) -> Seq<MemberValue> {
        self.members_0() + seq![member("party_id"@, JsonValue::Text(self.party_id))]
    }

    /// The members up to `presence`.
    pub open spec fn members_2(self) -> Seq<MemberValue> {
        self.members_1() + seq![member("presence"@, self.presence.json())]
    }

    /// The JSON value that this value is written as.
    #[verifier::opaque]
    pub open spec fn json(self) -> JsonValue {
        JsonValue::Object(self.members_2())
    }

    /// The value that a JSON value is read as, if it holds one.
    #[verifier::opaque]
    pub open spec fn read(json: JsonValue) -> Option<PartyRemoveView> {
        match members_of(json) {
            Some(members) => {
                let party_id = req_text(members, "party_id"@);
                let presence = req_record(members, "presence"@, UserPresenceView::reader());
                if party_id is Some && presence is Some {
                    Some(PartyRemoveView {
                        party_id: party_id->0,
                        presence: presence->0,
                    })
                } else {
                    None
                }
            },
            None => None,
        }
    }

    /// [`PartyRemoveView::json`], as a function.
    pub open spec fn writer() -> spec_fn(PartyRemoveView) -> JsonValue {
        |value: PartyRemoveView| value.json()
    }

    /// [`PartyRemoveView::read`], as a function.
    pub open spec fn reader() -> spec_fn(JsonValue) -> Option<PartyRemoveView> {
        |json: JsonValue| PartyRemoveView::read(json)
    }

    /// The place of a field name among the field names.
    pub open spec fn field_index(name: Seq<char>) -> int {
        if name == "party_id"@ {
            0
        } else if name == "presence"@ {
            1
        } else {
            2
        }
    }

    /// The field names differ from each other.
    pub proof fn lemma_names()
        ensures
            Self::field_index("party_id"@) == 0,
            Self::field_index("presence"@) == 1,
    {
        reveal_strlit("party_id");
        reveal_strlit("presence");
        assert("party_id"@.len() == 8);
        assert("presence"@.len() == 8);
        assert("party_id"@[1] != "presence"@[1]);
    }

    /// Reading what this value is written as gives it back, and what it
    /// is written as can be written as text.
    pub proof fn lemma_read_json(self)
        requires
            self.wf(),
        ensures
            PartyRemoveView::read(self.json()) == Some(self),
            printable(self.json(), 2),
            self.json() is Object,
    {
        broadcast use {group_lookup, group_printable};

        reveal(PartyRemoveView::json);
        reveal(PartyRemoveView::read);
        Self::lemma_names();
        self.presence.lemma_read_json();
        lemma_printable_deeper(self.presence.json(), 1, 1);
        lemma_object_printable(self.members_2(), 2);
    }
}

impl PartyRemove {
    /// Writes this value as a JSON value.
    pub fn to_json(&self) -> (json: Json)
        ensures
            json@ == self.deep_view().json(),
    {
        reveal(PartyRemoveView::json);
        let mut members: Vec<Member> = Vec::new();
        assert(member_values(members@) =~= self.deep_view().members_0());
        put_text(&mut members, "party_id", self.party_id.as_str());
        assert(member_values(members@) =~= self.deep_view().members_1());
        put(&mut members, "presence", self.presence.to_json());
        assert(member_values(members@) =~= self.deep_view().members_2());
        object(members)
    }

    /// Reads a value from a JSON value.
    ///
    /// The JSON value must be an object that holds every field that is not
    /// optional, each with a value of its kind.  Members under other names
    /// are passed over.
    pub fn from_json(json: &Json) -> (read: Option<PartyRemove>)
        ensures
            match read {
                Some(value) => PartyRemoveView::read(json@) == Some(value.deep_view()),
                None => PartyRemoveView::read(json@) is None,
            },
    {
        reveal(PartyRemoveView::read);
        let members = match object_members(json) {
            Some(members) => members,
            None => {
                return None;
            },
        };
        let party_id = match text_field(members, "party_id") {
            Some(value) => value,
            None => {
                return None;
            },
        };
        let presence = match find(members, "presence") {
            Some(json) => match UserPresence::from_json(json) {
                Some(value) => value,
                None => {
                    return None;
                },
            },
            None => {
                return None;
            },
        };
        Some(PartyRemove { party_id, presence })
    }
}

/// [`PartyClose`], as mathematics.
pub struct PartyCloseView {
    pub party_id: Seq<char>,
}

impl DeepView for PartyClose {
    type V = PartyCloseView;

    open spec fn deep_view(&self) -> PartyCloseView {
        PartyCloseView {
            party_id: self.party_id.deep_view(),
        }
    }
}

impl PartyCloseView {
    /// Whether every numeric property in this value holds the text of a
    /// JSON number.
    pub open spec fn wf(self) -> bool {
        true
    }

    /// The members before the first field.
    pub open spec fn members_0(self) -> Seq<MemberValue> {
        Seq::empty()
    }

    /// The members up to `party_id`.
    pub open spec fn members_1(self) -> Seq<MemberValue> {
        self.members_0() + seq![member("party_id"@, JsonValue::Text(self.party_id))]
    }

    /// The JSON value that this value is written as.
    #[verifier::opaque]
    pub open spec fn json(self) -> JsonValue {
        JsonValue::Object(self.members_1())
    }

    /// The value that a JSON value is read as, if it holds one.
    #[verifier::opaque]
    pub open spec fn read(json: JsonValue) -> Option<PartyCloseView> {
        match members_of(json) {
            Some(members) => {
                let party_id = req_text(members, "party_id"@);
                if party_id is Some {
                    Some(PartyCloseView {
                        party_id: party_id->0,
                    })
                } else {
                    None
                }
            },
            None => None,
        }
    }

    /// [`PartyCloseView::json`], as a function.
    pub open spec fn writer() -> spec_fn(PartyCloseView) -> JsonValue {
        |value: PartyCloseView| value.json()
    }

    /// [`PartyCloseView::read`], as a function.
    pub open spec fn reader() -> spec_fn(JsonValue) -> Option<PartyCloseView> {
        |json: JsonValue| PartyCloseView::read(json)
    }

    /// Reading what this value is written as gives it back, and what it
    /// is written as can be written as text.
    pub proof fn lemma_read_json(self)
        requires
            self.wf(),
        ensures
            PartyCloseView::read(self.json()) == Some(self),
            printable(self.json(), 1),
            self.json() is Object,
    {
        broadcast use {group_lookup, group_printable};

        reveal(PartyCloseView::json);
        reveal(PartyCloseView::read);
        lemma_object_printable(self.members_1(), 1);
    }
}

impl PartyClose {
    /// Writes this value as a JSON value.
    pub fn to_json(&self) -> (json: Json)
        ensures
            json@ == self.deep_view().json(),
    {
        reveal(PartyCloseView::json);
        let mut members: Vec<Member> = Vec::new();
        assert(member_values(members@) =~= self.deep_view().members_0());
        put_text(&mut members, "party_id", self.party_id.as_str());
        assert(member_values(members@) =~= self.deep_view().members_1());
        object(members)
    }

    /// Reads a value from a JSON value.
    ///
    /// The JSON value must be an object that holds every field that is not
    /// optional, each with a value of its kind.  Members under other names
    /// are passed over.
    pub fn from_json(json: &Json) -> (read: Option<PartyClose>)
        ensures
            match read {
                Some(value) => PartyCloseView::read(json@) == Some(value.deep_view()),
                None => PartyCloseView::read(json@) is None,
            },
    {
        reveal(PartyCloseView::read);
        let members = match object_members(json) {
            Some(members) => members,
            None => {
                return None;
            },
        };
        let party_id = match text_field(members, "party_id") {
            Some(value) => value,
            None => {
                return None;
            },
        };
        Some(PartyClose { party_id })
    }
}

/// [`PartyJoinRequestList`], as mathematics.
pub struct PartyJoinRequestListView {
    pub party_id: Seq<char>,
}

impl DeepView for PartyJoinRequestList {
    type V = PartyJoinRequestListView;

    open spec fn deep_view(&self) -> PartyJoinRequestListView {
        PartyJoinRequestListView {
            party_id: self.party_id.deep_view(),
        }
    }
}

impl PartyJoinRequestListView {
    /// Whether every numeric property in this value holds the text of a
    /// JSON number.
    pub open spec fn wf(self) -> bool {
        true
    }

    /// The members before the first field.
    pub open spec fn members_0(self) -> Seq<MemberValue> {
        Seq::empty()
    }

    /// The members up to `party_id`.
    pub open spec fn members_1(self) -> Seq<MemberValue> {
        self.members_0() + seq![member("party_id"@, JsonValue::Text(self.party_id))]
    }

    /// The JSON value that this value is written as.
    #[verifier::opaque]
    pub open spec fn json(self) -> JsonValue {
        JsonValue::Object(self.members_1())
    }

    /// The value that a JSON value is read as, if it holds one.
    #[verifier::opaque]
    pub open spec fn read(json: JsonValue) -> Option<PartyJoinRequestListView> {
        match members_of(json) {
            Some(members) => {
                let party_id = req_text(members, "party_id"@);
                if party_id is Some {
                    Some(PartyJoinRequestListView {
                        party_id: party_id->0,
                    })
                } else {
                    None
                }
            },
            None => None,
        }
    }

    /// [`PartyJoinRequestListView::json`], as a function.
    pub open spec fn writer() -> spec_fn(PartyJoinRequestListView) -> JsonValue {
        |value: PartyJoinRequestListView| value.json()
    }

    /// [`PartyJoinRequestListView::read`], as a function.
    pub open spec fn reader() -> spec_fn(JsonValue) -> Option<PartyJoinRequestListView> {
        |json: JsonValue| PartyJoinRequestListView::read(json)
    }

    /// Reading what this value is written as gives it back, and what it
    /// is written as can be written as text.
    pub proof fn lemma_read_json(self)
        requires
            self.wf(),
        ensures
            PartyJoinRequestListView::read(self.json()) == Some(self),
            printable(self.json(), 1),
            self.json() is Object,
    {
        broadcast use {group_lookup, group_printable};

        reveal(PartyJoinRequestListView::json);
        reveal(PartyJoinRequestListView::read);
        lemma_object_printable(self.members_1(), 1);
    }
}

impl PartyJoinRequestList {
    /// Writes this value as a JSON value.
    pub fn to_json(&self) -> (json: Json)
        ensures
            json@ == self.deep_view().json(),
    {
        reveal(PartyJoinRequestListView::json);
        let mut members: Vec<Member> = Vec::new();
        assert(member_values(members@) =~= self.deep_view().members_0());
        put_text(&mut members, "party_id", self.party_id.as_str());
        assert(member_values(members@) =~= self.deep_view().members_1());
        object(members)
    }

    /// Reads a value from a JSON value.
    ///
    /// The JSON value must be an object that holds every field that is not
    /// optional, each with a value of its kind.  Members under other names
    /// are passed over.
    pub fn from_json(json: &Json) -> (read: Option<PartyJoinRequestList>)
        ensures
            match read {
                Some(value) => PartyJoinRequestListView::read(json@) == Some(value.deep_view()),
                None => PartyJoinRequestListView::read(json@) is None,
            },
    {
        reveal(PartyJoinRequestListView::read);
        let members = match object_members(json) {
            Some(members) => members,
            None => {
                return None;
            },
        };
        let party_id = match text_field(members, "party_id") {
            Some(value) => value,
            None => {
                return None;
            },
        };
        Some(PartyJoinRequestList { party_id })
    }
}

/// [`PartyJoinRequest`], as mathematics.
pub struct PartyJoinRequestView {
    pub party_id: Seq<char>,
    pub presences: Seq<UserPresenceView>,
}

impl DeepView for PartyJoinRequest {
    type V = PartyJoinRequestView;

    open spec fn deep_view(&self) -> PartyJoinRequestView {
        PartyJoinRequestView {
            party_id: self.party_id.deep_view(),
            presences: self.presences.deep_view(),
        }
    }
}

impl PartyJoinRequestView {
    /// Whether every numeric property in this value holds the text of a
    /// JSON number.
    pub open spec fn wf(self) -> bool {
        true
    }

    /// The members before the first field.
    pub open spec fn members_0(self) -> Seq<MemberValue> {
        Seq::empty()
    }

    /// The members up to `party_id`.
    pub open spec fn members_1(self) -> Seq<MemberValue> {
        self.members_0() + seq![member("party_id"@, JsonValue::Text(self.party_id))]
    }

    /// The members up to `presences`.
    pub open spec fn members_2(self) -> Seq<MemberValue> {
        self.members_1() + seq![member("presences"@, array_json(self.presences, UserPresenceView::writer()))]
    }

    /// The JSON value that this value is written as.
    #[verifier::opaque]
    pub open spec fn json(self) -> JsonValue {
        JsonValue::Object(self.members_2())
    }

    /// The value that a JSON value is read as, if it holds one.
    #[verifier::opaque]
    pub open spec fn read(json: JsonValue) -> Option<PartyJoinRequestView> {
        match members_of(json) {
            Some(members) => {
                let party_id = req_text(members, "party_id"@);
                let presences = req_array(members, "presences"@, UserPresenceView::reader());
                if party_id is Some && presences is Some {
                    Some(PartyJoinRequestView {
                        party_id: party_id->0,
                        presences: presences->0,
                    })
                } else {
                    None
                }
            },
            None => None,
        }
    }

    /// [`PartyJoinRequestView::json`], as a function.
    pub open spec fn writer() -> spec_fn(PartyJoinRequestView) -> JsonValue {
        |value: PartyJoinRequestView| value.json()
    }

    /// [`PartyJoinRequestView::read`], as a function.
    pub open spec fn reader() -> spec_fn(JsonValue) -> Option<PartyJoinRequestView> {
        |json: JsonValue| PartyJoinRequestView::read(json)
    }

    /// The place of a field name among the field names.
    pub open spec fn field_index(name: Seq<char>) -> int {
        if name == "party_id"@ {
            0
        } else if name == "presences"@ {
            1
        } else {
            2
        }
    }

    /// The field names differ from each other.
    pub proof fn lemma_names()
        ensures
            Self::field_index("party_id"@) == 0,
            Self::field_index("presences"@) == 1,
    {
        reveal_strlit("party_id");
        reveal_strlit("presences");
        assert("party_id"@.len() == 8);
        assert("presences"@.len() == 9);
    }

    /// Reading what this value is written as gives it back, and what it
    /// is written as can be written as text.
    pub proof fn lemma_read_json(self)
        requires
            self.wf(),
        ensures
            PartyJoinRequestView::read(self.json()) == Some(self),
            printable(self.json(), 3),
            self.json() is Object,
    {
        broadcast use {group_lookup, group_printable};

        reveal(PartyJoinRequestView::json);
        reveal(PartyJoinRequestView::read);
        Self::lemma_names();
        UserPresenceView::lemma_read_each(self.presences);
        lemma_printable_deeper(array_json(self.presences, UserPresenceView::writer()), 2, 2);
        lemma_object_printable(self.members_2(), 3);
    }
}

impl PartyJoinRequest {
    /// Writes this value as a JSON value.
    pub fn to_json(&self) -> (json: Json)
        ensures
            json@ == self.deep_view().json(),
    {
        reveal(PartyJoinRequestView::json);
        let mut members: Vec<Member> = Vec::new();
        assert(member_values(members@) =~= self.deep_view().members_0());
        put_text(&mut members, "party_id", self.party_id.as_str());
        assert(member_values(members@) =~= self.deep_view().members_1());
        put(&mut members, "presences", UserPresence::vec_to_json(&self.presences));
        assert(member_values(members@) =~= self.deep_view().members_2());
        object(members)
    }

    /// Reads a value from a JSON value.
    ///
    /// The JSON value must be an object that holds every field that is not
    /// optional, each with a value of its kind.  Members under other names
    /// are passed over.
    pub fn from_json(json: &Json) -> (read: Option<PartyJoinRequest>)
        ensures
            match read {
                Some(value) => PartyJoinRequestView::read(json@) == Some(value.deep_view()),
                None => PartyJoinRequestView::read(json@) is None,
            },
    {
        reveal(PartyJoinRequestView::read);
        let members = match object_members(json) {
            Some(members) => members,
            None => {
                return None;
            },
        };
        let party_id = match text_field(members, "party_id") {
            Some(value) => value,
            None => {
                return None;
            },
        };
        let presences = match find(members, "presences") {
            Some(json) => match UserPresence::vec_from_json(json) {
                Some(value) => value,
                None => {
                    return None;
                },
            },
            None => {
                return None;
            },
        };
        Some(PartyJoinRequest { party_id, presences })
    }
}

/// [`PartyMatchmakerAdd`], as mathematics.
pub struct PartyMatchmakerAddView {
    pub party_id: Seq<char>,
    pub min_count: i32,
    pub max_count: i32,
    pub query: Seq<char>,
    pub string_properties: Seq<PropertyView>,
    pub numeric_properties: Seq<NumericPropertyView>,
}

impl DeepView for PartyMatchmakerAdd {
    type V = PartyMatchmakerAddView;

    open spec fn deep_view(&self) -> PartyMatchmakerAddView {
        PartyMatchmakerAddView {
            party_id: self.party_id.deep_view(),
            min_count: self.min_count,
            max_count: self.max_count,
            query: self.query.deep_view(),
            string_properties: self.string_properties.deep_view(),
            numeric_properties: self.numeric_properties.deep_view(),
        }
    }
}

impl PartyMatchmakerAddView {
    /// Whether every numeric property in this value holds the text of a
    /// JSON number.
    pub open spec fn wf(self) -> bool {
        &&& numbers_valid(self.numeric_properties)
    }

    /// The members before the first field.
    pub open spec fn members_0(self) -> Seq<MemberValue> {
        Seq::empty()
    }

    /// The members up to `party_id`.
    pub open spec fn members_1(self) -> Seq<MemberValue> {
        self.members_0() + seq![member("party_id"@, JsonValue::Text(self.party_id))]
    }

    /// The members up to `min_count`.
    pub open spec fn members_2(self) -> Seq<MemberValue> {
        self.members_1() + seq![member("min_count"@, integer_json(self.min_count as int))]
    }

    /// The members up to `max_count`.
    pub open spec fn members_3(self) -> Seq<MemberValue> {
        self.members_2() + seq![member("max_count"@, integer_json(self.max_count as int))]
    }

    /// The members up to `query`.
    pub open spec fn members_4(self) -> Seq<MemberValue> {
        self.members_3() + seq![member("query"@, JsonValue::Text(self.query))]
    }

    /// The members up to `string_properties`.
    pub open spec fn members_5(self) -> Seq<MemberValue> {
        self.members_4() + seq![member("string_properties"@, properties_json(self.string_properties))]
    }

    /// The members up to `numeric_properties`.
    pub open spec fn members_6(self) -> Seq<MemberValue> {
        self.members_5() + seq![member("numeric_properties"@, numbers_json(self.numeric_properties))]
    }

    /// The JSON value that this value is written as.
    #[verifier::opaque]
    pub open spec fn json(self) -> JsonValue {
        JsonValue::Object(self.members_6())
    }

    /// The value that a JSON value is read as, if it holds one.
    #[verifier::opaque]
    pub open spec fn read(json: JsonValue) -> Option<PartyMatchmakerAddView> {
        match members_of(json) {
            Some(members) => {
                let party_id = req_text(members, "party_id"@);
                let min_count = req_i32(members, "min_count"@);
                let max_count = req_i32(members, "max_count"@);
                let query = req_text(members, "query"@);
                let string_properties = req_properties(members, "string_properties"@);
                let numeric_properties = req_numbers(members, "numeric_properties"@);
                if party_id is Some && min_count is Some && max_count is Some && query is Some && string_properties is Some && numeric_properties is Some {
                    Some(PartyMatchmakerAddView {
                        party_id: party_id->0,
                        min_count: min_count->0,
                        max_count: max_count->0,
                        query: query->0,
                        string_properties: string_properties->0,
                        numeric_properties: numeric_properties->0,
                    })
                } else {
                    None
                }
            },
            None => None,
        }
    }

    /// [`PartyMatchmakerAddView::json`], as a function.
    pub open spec fn writer() -> spec_fn(PartyMatchmakerAddView) -> JsonValue {
        |value: PartyMatchmakerAddView| value.json()
    }

    /// [`PartyMatchmakerAddView::read`], as a function.
    pub open spec fn reader() -> spec_fn(JsonValue) -> Option<PartyMatchmakerAddView> {
        |json: JsonValue| PartyMatchmakerAddView::read(json)
    }

    /// The place of a field name among the field names.
    pub open spec fn field_index(name: Seq<char>) -> int {
        if name == "party_id"@ {
            0
        } else if name == "min_count"@ {
            1
        } else if name == "max_count"@ {
            2
        } else if name == "query"@ {
            3
        } else if name == "string_properties"@ {
            4
        } else if name == "numeric_properties"@ {
            5
        } else {
            6
        }
    }

    /// The field names differ from each other.
    pub proof fn lemma_names()
        ensures
            Self::field_index("party_id"@) == 0,
            Self::field_index("min_count"@) == 1,
            Self::field_index("max_count"@) == 2,
            Self::field_index("query"@) == 3,
            Self::field_index("string_properties"@) == 4,
            Self::field_index("numeric_properties"@) == 5,
    {
        reveal_strlit("party_id");
        reveal_strlit("min_count");
        reveal_strlit("max_count");
        reveal_strlit("query");
        reveal_strlit("string_properties");
        reveal_strlit("numeric_properties");
        assert("party_id"@.len() == 8);
        assert("min_count"@.len() == 9);
        assert("max_count"@.len() == 9);
        assert("query"@.len() == 5);
        assert("string_properties"@.len() == 17);
        assert("numeric_properties"@.len() == 18);
        assert("min_count"@[1] != "max_count"@[1]);
    }

    /// Reading what this value is written as gives it back, and what it
    /// is written as can be written as text.
    pub proof fn lemma_read_json(self)
        requires
            self.wf(),
        ensures
            PartyMatchmakerAddView::read(self.json()) == Some(self),
            printable(self.json(), 2),
            self.json() is Object,
    {
        broadcast use {group_lookup, group_printable};

        reveal(PartyMatchmakerAddView::json);
        reveal(PartyMatchmakerAddView::read);
        Self::lemma_names();
        lemma_integer(self.min_count as i64);
        lemma_integer(self.max_count as i64);
        lemma_properties(self.string_properties);
        lemma_printable_deeper(properties_json(self.string_properties), 1, 1);
        lemma_numbers(self.numeric_properties);
        lemma_printable_deeper(numbers_json(self.numeric_properties), 1, 1);
        lemma_object_printable(self.members_6(), 2);
    }
}

impl PartyMatchmakerAdd {
    /// Writes this value as a JSON value.
    pub fn to_json(&self) -> (json: Json)
        ensures
            json@ == self.deep_view().json(),
    {
        reveal(PartyMatchmakerAddView::json);
        let mut members: Vec<Member> = Vec::new();
        assert(member_values(members@) =~= self.deep_view().members_0());
        put_text(&mut members, "party_id", self.party_id.as_str());
        assert(member_values(members@) =~= self.deep_view().members_1());
        put_integer(&mut members, "min_count", self.min_count as i64);
        assert(member_values(members@) =~= self.deep_view().members_2());
        put_integer(&mut members, "max_count", self.max_count as i64);
        assert(member_values(members@) =~= self.deep_view().members_3());
        put_text(&mut members, "query", self.query.as_str());
        assert(member_values(members@) =~= self.deep_view().members_4());
        put(&mut members, "string_properties", properties_to_json(&self.string_properties));
        assert(member_values(members@) =~= self.deep_view().members_5());
        put(&mut members, "numeric_properties", numbers_to_json(&self.numeric_properties));
        assert(member_values(members@) =~= self.deep_view().members_6());
        object(members)
    }

    /// Reads a value from a JSON value.
    ///
    /// The JSON value must be an object that holds every field that is not
    /// optional, each with a value of its kind.  Members under other names
    /// are passed over.
    pub fn from_json(json: &Json) -> (read: Option<PartyMatchmakerAdd>)
        ensures
            match read {
                Some(value) => PartyMatchmakerAddView::read(json@) == Some(value.deep_view()),
                None => PartyMatchmakerAddView::read(json@) is None,
            },
    {
        reveal(PartyMatchmakerAddView::read);
        let members = match object_members(json) {
            Some(members) => members,
            None => {
                return None;
            },
        };
        let party_id = match text_field(members, "party_id") {
            Some(value) => value,
            None => {
                return None;
            },
        };
        let min_count = match i32_field(members, "min_count") {
            Some(value) => value,
            None => {
                return None;
            },
        };
        let max_count = match i32_field(members, "max_count") {
            Some(value) => value,
            None => {
                return None;
            },
        };
        let query = match text_field(members, "query") {
            Some(value) => value,
            None => {
                return None;
            },
        };
        let string_properties = match find(members, "string_properties") {
            Some(json) => match properties_from_json(json) {
                Some(value) => value,
                None => {
                    return None;
                },
            },
            None => {
                return None;
            },
        };
        let numeric_properties = match find(members, "numeric_properties") {
            Some(json) => match numbers_from_json(json) {
                Some(value) => value,
                None => {
                    return None;
                },
            },
            None => {
                return None;
            },
        };
        Some(PartyMatchmakerAdd { party_id, min_count, max_count, query, string_properties, numeric_properties })
    }
}

/// [`PartyMatchmakerRemove`], as mathematics.
pub struct PartyMatchmakerRemoveView {
    pub party_id: Seq<char>,
    pub ticket: Seq<char>,
}

impl DeepView for PartyMatchmakerRemove {
    type V = PartyMatchmakerRemoveView;

    open spec fn deep_view(&self) -> PartyMatchmakerRemoveView {
        PartyMatchmakerRemoveView {
            party_id: self.party_id.deep_view(),
            ticket: self.ticket.deep_view(),
        }
    }
}

impl PartyMatchmakerRemoveView {
    /// Whether every numeric property in this value holds the text of a
    /// JSON number.
    pub open spec fn wf(self) -> bool {
        true
    }

    /// The members before the first field.
    pub open spec fn members_0(self) -> Seq<MemberValue> {
        Seq::empty()
    }

    /// The members up to `party_id`.
    pub open spec fn members_1(self) -> Seq<MemberValue> {
        self.members_0() + seq![member("party_id"@, JsonValue::Text(self.party_id))]
    }

    /// The members up to `ticket`.
    pub open spec fn members_2(self) -> Seq<MemberValue> {
        self.members_1() + seq![member("ticket"@, JsonValue::Text(self.ticket))]
    }

    /// The JSON value that this value is written as.
    #[verifier::opaque]
    pub open spec fn json(self) -> JsonValue {
        JsonValue::Object(self.members_2())
    }

    /// The value that a JSON value is read as, if it holds one.
    #[verifier::opaque]
    pub open spec fn read(json: JsonValue) -> Option<PartyMatchmakerRemoveView> {
        match members_of(json) {
            Some(members) => {
                let party_id = req_text(members, "party_id"@);
                let ticket = req_text(members, "ticket"@);
                if party_id is Some && ticket is Some {
                    Some(PartyMatchmakerRemoveView {
                        party_id: party_id->0,
                        ticket: ticket->0,
                    })
                } else {
                    None
                }
            },
            None => None,
        }
    }

    /// [`PartyMatchmakerRemoveView::json`], as a function.
    pub open spec fn writer() -> spec_fn(PartyMatchmakerRemoveView) -> JsonValue {
        |value: PartyMatchmakerRemoveView| value.json()
    }

    /// [`PartyMatchmakerRemoveView::read`], as a function.
    pub open spec fn reader() -> spec_fn(JsonValue) -> Option<PartyMatchmakerRemoveView> {
        |json: JsonValue| PartyMatchmakerRemoveView::read(json)
    }

    /// The place of a field name among the field names.
    pub open spec fn field_index(name: Seq<char>) -> int {
        if name == "party_id"@ {
            0
        } else if name == "ticket"@ {
            1
        } else {
            2
        }
    }

    /// The field names differ from each other.
    pub proof fn lemma_names()
        ensures
            Self::field_index("party_id"@) == 0,
            Self::field_index("ticket"@) == 1,
    {
        reveal_strlit("party_id");
        reveal_strlit("ticket");
        assert("party_id"@.len() == 8);
        assert("ticket"@.len() == 6);
    }

    /// Reading what this value is written as gives it back, and what it
    /// is written as can be written as text.
    pub proof fn lemma_read_json(self)
        requires
            self.wf(),
        ensures
            PartyMatchmakerRemoveView::read(self.json()) == Some(self),
            printable(self.json(), 1),
            self.json() is Object,
    {
        broadcast use {group_lookup, group_printable};

        reveal(PartyMatchmakerRemoveView::json);
        reveal(PartyMatchmakerRemoveView::read);
        Self::lemma_names();
        lemma_object_printable(self.members_2(), 1);
    }
}

impl PartyMatchmakerRemove {
    /// Writes this value as a JSON value.
    pub fn to_json(&self) -> (json: Json)
        ensures
            json@ == self.deep_view().json(),
    {
        reveal(PartyMatchmakerRemoveView::json);
        let mut members: Vec<Member> = Vec::new();
        assert(member_values(members@) =~= self.deep_view().members_0());
        put_text(&mut members, "party_id", self.party_id.as_str());
        assert(member_values(members@) =~= self.deep_view().members_1());
        put_text(&mut members, "ticket", self.ticket.as_str());
        assert(member_values(members@) =~= self.deep_view().members_2());
        object(members)
    }

    /// Reads a value from a JSON value.
    ///
    /// The JSON value must be an object that holds every field that is not
    /// optional, each with a value of its kind.  Members under other names
    /// are passed over.
    pub fn from_json(json: &Json) -> (read: Option<PartyMatchmakerRemove>)
        ensures
            match read {
                Some(value) => PartyMatchmakerRemoveView::read(json@) == Some(value.deep_view()),
                None => PartyMatchmakerRemoveView::read(json@) is None,
            },
    {
        reveal(PartyMatchmakerRemoveView::read);
        let members = match object_members(json) {
            Some(members) => members,
            None => {
                return None;
            },
        };
        let party_id = match text_field(members, "party_id") {
            Some(value) => value,
            None => {
                return None;
            },
        };
        let ticket = match text_field(members, "ticket") {
            Some(value) => value,
            None => {
                return None;
            },
        };
        Some(PartyMatchmakerRemove { party_id, ticket })
    }
}

/// [`PartyMatchmakerTicket`], as mathematics.
pub struct PartyMatchmakerTicketView {
    pub party_id: Seq<char>,
    pub ticket: Seq<char>,
}

impl DeepView for PartyMatchmakerTicket {
    type V = PartyMatchmakerTicketView;

    open spec fn deep_view(&self) -> PartyMatchmakerTicketView {
        PartyMatchmakerTicketView {
            party_id: self.party_id.deep_view(),
            ticket: self.ticket.deep_view(),
        }
    }
}

impl PartyMatchmakerTicketView {
    /// Whether every numeric property in this value holds the text of a
    /// JSON number.
    pub open spec fn wf(self) -> bool {
        true
    }

    /// The members before the first field.
    pub open spec fn members_0(self) -> Seq<MemberValue> {
        Seq::empty()
    }

    /// The members up to `party_id`.
    pub open spec fn members_1(self) -> Seq<MemberValue> {
        self.members_0() + seq![member("party_id"@, JsonValue::Text(self.party_id))]
    }

    /// The members up to `ticket`.
    pub open spec fn members_2(self) -> Seq<MemberValue> {
        self.members_1() + seq![member("ticket"@, JsonValue::Text(self.ticket))]
    }

    /// The JSON value that this value is written as.
    #[verifier::opaque]
    pub open spec fn json(self) -> JsonValue {
        JsonValue::Object(self.members_2())
    }

    /// The value that a JSON value is read as, if it holds one.
    #[verifier::opaque]
    pub open spec fn read(json: JsonValue) -> Option<PartyMatchmakerTicketView> {
        match members_of(json) {
            Some(members) => {
                let party_id = req_text(members, "party_id"@);
                let ticket = req_text(members, "ticket"@);
                if party_id is Some && ticket is Some {
                    Some(PartyMatchmakerTicketView {
                        party_id: party_id->0,
                        ticket: ticket->0,
                    })
                } else {
                    None
                }
            },
            None => None,
        }
    }

    /// [`PartyMatchmakerTicketView::json`], as a function.
    pub open spec fn writer() -> spec_fn(PartyMatchmakerTicketView) -> JsonValue {
        |value: PartyMatchmakerTicketView| value.json()
    }

    /// [`PartyMatchmakerTicketView::read`], as a function.
    pub open spec fn reader() -> spec_fn(JsonValue) -> Option<PartyMatchmakerTicketView> {
        |json: JsonValue| PartyMatchmakerTicketView::read(json)
    }

    /// The place of a field name among the field names.
    pub open spec fn field_index(name: Seq<char>) -> int {
        if name == "party_id"@ {
            0
        } else if name == "ticket"@ {
            1
        } else {
            2
        }
    }

    /// The field names differ from each other.
    pub proof fn lemma_names()
        ensures
            Self::field_index("party_id"@) == 0,
            Self::field_index("ticket"@) == 1,
    {
        reveal_strlit("party_id");
        reveal_strlit("ticket");
        assert("party_id"@.len() == 8);
        assert("ticket"@.len() == 6);
    }

    /// Reading what this value is written as gives it back, and what it
    /// is written as can be written as text.
    pub proof fn lemma_read_json(self)
        requires
            self.wf(),
        ensures
            PartyMatchmakerTicketView::read(self.json()) == Some(self),
            printable(self.json(), 1),
            self.json() is Object,
    {
        broadcast use {group_lookup, group_printable};

        reveal(PartyMatchmakerTicketView::json);
        reveal(PartyMatchmakerTicketView::read);
        Self::lemma_names();
        lemma_object_printable(self.members_2(), 1);
    }
}

impl PartyMatchmakerTicket {
    /// Writes this value as a JSON value.
    pub fn to_json(&self) -> (json: Json)
        ensures
            json@ == self.deep_view().json(),
    {
        reveal(PartyMatchmakerTicketView::json);
        let mut members: Vec<Member> = Vec::new();
        assert(member_values(members@) =~= self.deep_view().members_0());
        put_text(&mut members, "party_id", self.party_id.as_str());
        assert(member_values(members@) =~= self.deep_view().members_1());
        put_text(&mut members, "ticket", self.ticket.as_str());
        assert(member_values(members@) =~= self.deep_view().members_2());
        object(members)
    }

    /// Reads a value from a JSON value.
    ///
    /// The JSON value must be an object that holds every field that is not
    /// optional, each with a value of its kind.  Members under other names
    /// are passed over.
    pub fn from_json(json: &Json) -> (read: Option<PartyMatchmakerTicket>)
        ensures
            match read {
                Some(value) => PartyMatchmakerTicketView::read(json@) == Some(value.deep_view()),
                None => PartyMatchmakerTicketView::read(json@) is None,
            },
    {
        reveal(PartyMatchmakerTicketView::read);
        let members = match object_members(json) {
            Some(members) => members,
            None => {
                return None;
            },
        };
        let party_id = match text_field(members, "party_id") {
            Some(value) => value,
            None => {
                return None;
            },
        };
        let ticket = match text_field(members, "ticket") {
            Some(value) => value,
            None => {
                return None;
            },
        };
        Some(PartyMatchmakerTicket { party_id, ticket })
    }
}

/// [`PartyData`], as mathematics.
pub struct PartyDataView {
    pub party_id: Seq<char>,
    pub presence: UserPresenceView,
    pub op_code: i64,
    pub data: Seq<u8>,
}

impl DeepView for PartyData {
    type V = PartyDataView;

    open spec fn deep_view(&self) -> PartyDataView {
        PartyDataView {
            party_id: self.party_id.deep_view(),
            presence: self.presence.deep_view(),
            op_code: self.op_code,
            data: self.data.deep_view(),
        }
    }
}

impl PartyDataView {
    /// Whether every numeric property in this value holds the text of a
    /// JSON number.
    pub open spec fn wf(self) -> bool {
        true
    }

    /// The members before the first field.
    pub open spec fn members_0(self) -> Seq<MemberValue> {
        Seq::empty()
    }

    /// The members up to `party_id`.
    pub open spec fn members_1(self) -> Seq<MemberValue> {
        self.members_0() + seq![member("party_id"@, JsonValue::Text(self.party_id))]
    }

    /// The members up to `presence`.
    pub open spec fn members_2(self) -> Seq<MemberValue> {
        self.members_1() + seq![member("presence"@, self.presence.json())]
    }

    /// The members up to `op_code`.
    pub open spec fn members_3(self) -> Seq<MemberValue> {
        self.members_2() + seq![member("op_code"@, integer_json(self.op_code as int))]
    }

    /// The members up to `data`.
    pub open spec fn members_4(self) -> Seq<MemberValue> {
        self.members_3() + seq![member("data"@, array_json(self.data, byte_writer()))]
    }

    /// The JSON value that this value is written as.
    #[verifier::opaque]
    pub open spec fn json(self) -> JsonValue {
        JsonValue::Object(self.members_4())
    }

    /// The value that a JSON value is read as, if it holds one.
    #[verifier::opaque]
    pub open spec fn read(json: JsonValue) -> Option<PartyDataView> {
        match members_of(json) {
            Some(members) => {
                let party_id = req_text(members, "party_id"@);
                let presence = req_record(members, "presence"@, UserPresenceView::reader());
                let op_code = req_i64(members, "op_code"@);
                let data = req_array(members, "data"@, byte_reader());
                if party_id is Some && presence is Some && op_code is Some && data is Some {
                    Some(PartyDataView {
                        party_id: party_id->0,
                        presence: presence->0,
                        op_code: op_code->0,
                        data: data->0,
                    })
                } else {
                    None
                }
            },
            None => None,
        }
    }

    /// [`PartyDataView::json`], as a function.
    pub open spec fn writer() -> spec_fn(PartyDataView) -> JsonValue {
        |value: PartyDataView| value.json()
    }

    /// [`PartyDataView::read`], as a function.
    pub open spec fn reader() -> spec_fn(JsonValue) -> Option<PartyDataView> {
        |json: JsonValue| PartyDataView::read(json)
    }

    /// The place of a field name among the field names.
    pub open spec fn field_index(name: Seq<char>) -> int {
        if name == "party_id"@ {
            0
        } else if name == "presence"@ {
            1
        } else if name == "op_code"@ {
            2
        } else if name == "data"@ {
            3
        } else {
            4
        }
    }

    /// The field names differ from each other.
    pub proof fn lemma_names()
        ensures
            Self::field_index("party_id"@) == 0,
            Self::field_index("presence"@) == 1,
            Self::field_index("op_code"@) == 2,
            Self::field_index("data"@) == 3,
    {
        reveal_strlit("party_id");
        reveal_strlit("presence");
        reveal_strlit("op_code");
        reveal_strlit("data");
        assert("party_id"@.len() == 8);
        assert("presence"@.len() == 8);
        assert("op_code"@.len() == 7);
        assert("data"@.len() == 4);
        assert("party_id"@[1] != "presence"@[1]);
    }

    /// Reading what this value is written as gives it back, and what it
    /// is written as can be written as text.
    pub proof fn lemma_read_json(self)
        requires
            self.wf(),
        ensures
            PartyDataView::read(self.json()) == Some(self),
            printable(self.json(), 2),
            self.json() is Object,
    {
        broadcast use {group_lookup, group_printable};

        reveal(PartyDataView::json);
        reveal(PartyDataView::read);
        Self::lemma_names();
        self.presence.lemma_read_json();
        lemma_printable_deeper(self.presence.json(), 1, 1);
        lemma_integer(self.op_code as i64);
        lemma_bytes(self.data);
        lemma_printable_deeper(array_json(self.data, byte_writer()), 1, 1);
        lemma_object_printable(self.members_4(), 2);
    }
}

impl PartyData {
    /// Writes this value as a JSON value.
    pub fn to_json(&self) -> (json: Json)
        ensures
            json@ == self.deep_view().json(),
    {
        reveal(PartyDataView::json);
        let mut members: Vec<Member> = Vec::new();
        assert(member_values(members@) =~= self.deep_view().members_0());
        put_text(&mut members, "party_id", self.party_id.as_str());
        assert(member_values(members@) =~= self.deep_view().members_1());
        put(&mut members, "presence", self.presence.to_json());
        assert(member_values(members@) =~= self.deep_view().members_2());
        put_integer(&mut members, "op_code", self.op_code as i64);
        assert(member_values(members@) =~= self.deep_view().members_3());
        put(&mut members, "data", bytes_to_json(&self.data));
        assert(member_values(members@) =~= self.deep_view().members_4());
        object(members)
    }

    /// Reads a value from a JSON value.
    ///
    /// The JSON value must be an object that holds every field that is not
    /// optional, each with a value of its kind.  Members under other names
    /// are passed over.
    pub fn from_json(json: &Json) -> (read: Option<PartyData>)
        ensures
            match read {
                Some(value) => PartyDataView::read(json@) == Some(value.deep_view()),
                None => PartyDataView::read(json@) is None,
            },
    {
        reveal(PartyDataView::read);
        let members = match object_members(json) {
            Some(members) => members,
            None => {
                return None;
            },
        };
        let party_id = match text_field(members, "party_id") {
            Some(value) => value,
            None => {
                return None;
            },
        };
        let presence = match find(members, "presence") {
            Some(json) => match UserPresence::from_json(json) {
                Some(value) => value,
                None => {
                    return None;
                },
            },
            None => {
                return None;
            },
        };
        let op_code = match i64_field(members, "op_code") {
            Some(value) => value,
            None => {
                return None;
            },
        };
        let data = match find(members, "data") {
            Some(json) => match bytes_from_json(json) {
                Some(value) => value,
                None => {
                    return None;
                },
            },
            None => {
                return None;
            },
        };
        Some(PartyData { party_id, presence, op_code, data })
    }
}

/// [`PartyDataSend`], as mathematics.
pub struct PartyDataSendView {
    pub party_id: Seq<char>,
    pub op_code: i64,
    pub data: Seq<u8>,
}

impl DeepView for PartyDataSend {
    type V = PartyDataSendView;

    open spec fn deep_view(&self) -> PartyDataSendView {
        PartyDataSendView {
            party_id: self.party_id.deep_view(),
            op_code: self.op_code,
            data: self.data.deep_view(),
        }
    }
}

impl PartyDataSendView {
    /// Whether every numeric property in this value holds the text of a
    /// JSON number.
    pub open spec fn wf(self) -> bool {
        true
    }

    /// The members before the first field.
    pub open spec fn members_0(self) -> Seq<MemberValue> {
        Seq::empty()
    }

    /// The members up to `party_id`.
    pub open spec fn members_1(self) -> Seq<MemberValue> {
        self.members_0() + seq![member("party_id"@, JsonValue::Text(self.party_id))]
    }

    /// The members up to `op_code`.
    pub open spec fn members_2(self) -> Seq<MemberValue> {
        self.members_1() + seq![member("op_code"@, integer_json(self.op_code as int))]
    }

    /// The members up to `data`.
    pub open spec fn members_3(self) -> Seq<MemberValue> {
        self.members_2() + seq![member("data"@, array_json(self.data, byte_writer()))]
    }

    /// The JSON value that this value is written as.
    #[verifier::opaque]
    pub open spec fn json(self) -> JsonValue {
        JsonValue::Object(self.members_3())
    }

    /// The value that a JSON value is read as, if it holds one.
    #[verifier::opaque]
    pub open spec fn read(json: JsonValue) -> Option<PartyDataSendView> {
        match members_of(json) {
            Some(members) => {
                let party_id = req_text(members, "party_id"@);
                let op_code = req_i64(members, "op_code"@);
                let data = req_array(members, "data"@, byte_reader());
                if party_id is Some && op_code is Some && data is Some {
                    Some(PartyDataSendView {
                        party_id: party_id->0,
                        op_code: op_code->0,
                        data: data->0,
                    })
                } else {
                    None
                }
            },
            None => None,
        }
    }

    /// [`PartyDataSendView::json`], as a function.
    pub open spec fn writer() -> spec_fn(PartyDataSendView) -> JsonValue {
        |value: PartyDataSendView| value.json()
    }

    /// [`PartyDataSendView::read`], as a function.
    pub open spec fn reader() -> spec_fn(JsonValue) -> Option<PartyDataSendView> {
        |json: JsonValue| PartyDataSendView::read(json)
    }

    /// The place of a field name among the field names.
    pub open spec fn field_index(name: Seq<char>) -> int {
        if name == "party_id"@ {
            0
        } else if name == "op_code"@ {
            1
        } else if name == "data"@ {
            2
        } else {
            3
        }
    }

    /// The field names differ from each other.
    pub proof fn lemma_names()
        ensures
            Self::field_index("party_id"@) == 0,
            Self::field_index("op_code"@) == 1,
            Self::field_index("data"@) == 2,
    {
        reveal_strlit("party_id");
        reveal_strlit("op_code");
        reveal_strlit("data");
        assert("party_id"@.len() == 8);
        assert("op_code"@.len() == 7);
        assert("data"@.len() == 4);
    }

    /// Reading what this value is written as gives it back, and what it
    /// is written as can be written as text.
    pub proof fn lemma_read_json(self)
        requires
            self.wf(),
        ensures
            PartyDataSendView::read(self.json()) == Some(self),
            printable(self.json(), 2),
            self.json() is Object,
    {
        broadcast use {group_lookup, group_printable};

        reveal(PartyDataSendView::json);
        reveal(PartyDataSendView::read);
        Self::lemma_names();
        lemma_integer(self.op_code as i64);
        lemma_bytes(self.data);
        lemma_printable_deeper(array_json(self.data, byte_writer()), 1, 1);
        lemma_object_printable(self.members_3(), 2);
    }
}

impl PartyDataSend {
    /// Writes this value as a JSON value.
    pub fn to_json(&self) -> (json: Json)
        ensures
            json@ == self.deep_view().json(),
    {
        reveal(PartyDataSendView::json);
        let mut members: Vec<Member> = Vec::new();
        assert(member_values(members@) =~= self.deep_view().members_0());
        put_text(&mut members, "party_id", self.party_id.as_str());
        assert(member_values(members@) =~= self.deep_view().members_1());
        put_integer(&mut members, "op_code", self.op_code as i64);
        assert(member_values(members@) =~= self.deep_view().members_2());
        put(&mut members, "data", bytes_to_json(&self.data));
        assert(member_values(members@) =~= self.deep_view().members_3());
        object(members)
    }

    /// Reads a value from a JSON value.
    ///
    /// The JSON value must be an object that holds every field that is not
    /// optional, each with a value of its kind.  Members under other names
    /// are passed over.
    pub fn from_json(json: &Json) -> (read: Option<PartyDataSend>)
        ensures
            match read {
                Some(value) => PartyDataSendView::read(json@) == Some(value.deep_view()),
                None => PartyDataSendView::read(json@) is None,
            },
    {
        reveal(PartyDataSendView::read);
        let members = match object_members(json) {
            Some(members) => members,
            None => {
                return None;
            },
        };
        let party_id = match text_field(members, "party_id") {
            Some(value) => value,
            None => {
                return None;
            },
        };
        let op_code = match i64_field(members, "op_code") {
            Some(value) => value,
            None => {
                return None;
            },
        };
        let data = match find(members, "data") {
            Some(json) => match bytes_from_json(json) {
                Some(value) => value,
                None => {
                    return None;
                },
            },
            None => {
                return None;
            },
        };
        Some(PartyDataSend { party_id, op_code, data })
    }
}

/// [`PartyPresenceEvent`], as mathematics.
pub struct PartyPresenceEventView {
    pub party_id: Seq<char>,
    pub joins: Seq<UserPresenceView>,
    pub leaves: Seq<UserPresenceView>,
}

impl DeepView for PartyPresenceEvent {
    type V = PartyPresenceEventView;

    open spec fn deep_view(&self) -> PartyPresenceEventView {
        PartyPresenceEventView {
            party_id: self.party_id.deep_view(),
            joins: self.joins.deep_view(),
            leaves: self.leaves.deep_view(),
        }
    }
}

impl PartyPresenceEventView {
    /// Whether every numeric property in this value holds the text of a
    /// JSON number.
    pub open spec fn wf(self) -> bool {
        true
    }

    /// The members before the first field.
    pub open spec fn members_0(self) -> Seq<MemberValue> {
        Seq::empty()
    }

    /// The members up to `party_id`.
    pub open spec fn members_1(self) -> Seq<MemberValue> {
        self.members_0() + seq![member("party_id"@, JsonValue::Text(self.party_id))]
    }

    /// The members up to `joins`.
    pub open spec fn members_2(self) -> Seq<MemberValue> {
        self.members_1() + seq![member("joins"@, array_json(self.joins, UserPresenceView::writer()))]
    }

    /// The members up to `leaves`.
    pub open spec fn members_3(self) -> Seq<MemberValue> {
        self.members_2() + seq![member("leaves"@, array_json(self.leaves, UserPresenceView::writer()))]
    }

    /// The JSON value that this value is written as.
    #[verifier::opaque]
    pub open spec fn json(self) -> JsonValue {
        JsonValue::Object(self.members_3())
    }

    /// The value that a JSON value is read as, if it holds one.
    #[verifier::opaque]
    pub open spec fn read(json: JsonValue) -> Option<PartyPresenceEventView> {
        match members_of(json) {
            Some(members) => {
                let party_id = req_text(members, "party_id"@);
                let joins = req_array(members, "joins"@, UserPresenceView::reader());
                let leaves = req_array(members, "leaves"@, UserPresenceView::reader());
                if party_id is Some && joins is Some && leaves is Some {
                    Some(PartyPresenceEventView {
                        party_id: party_id->0,
                        joins: joins->0,
                        leaves: leaves->0,
                    })
                } else {
                    None
                }
            },
            None => None,
        }
    }

    /// [`PartyPresenceEventView::json`], as a function.
    pub open spec fn writer() -> spec_fn(PartyPresenceEventView) -> JsonValue {
        |value: PartyPresenceEventView| value.json()
    }

    /// [`PartyPresenceEventView::read`], as a function.
    pub open spec fn reader() -> spec_fn(JsonValue) -> Option<PartyPresenceEventView> {
        |json: JsonValue| PartyPresenceEventView::read(json)
    }

    /// The place of a field name among the field names.
    pub open spec fn field_index(name: Seq<char>) -> int {
        if name == "party_id"@ {
            0
        } else if name == "joins"@ {
            1
        } else if name == "leaves"@ {
            2
        } else {
            3
        }
    }

    /// The field names differ from each other.
    pub proof fn lemma_names()
        ensures
            Self::field_index("party_id"@) == 0,
            Self::field_index("joins"@) == 1,
            Self::field_index("leaves"@) == 2,
    {
        reveal_strlit("party_id");
        reveal_strlit("joins");
        reveal_strlit("leaves");
        assert("party_id"@.len() == 8);
        assert("joins"@.len() == 5);
        assert("leaves"@.len() == 6);
    }

    /// Reading what this value is written as gives it back, and what it
    /// is written as can be written as text.
    pub proof fn lemma_read_json(self)
        requires
            self.wf(),
        ensures
            PartyPresenceEventView::read(self.json()) == Some(self),
            printable(self.json(), 3),
            self.json() is Object,
    {
        broadcast use {group_lookup, group_printable};

        reveal(PartyPresenceEventView::json);
        reveal(PartyPresenceEventView::read);
        Self::lemma_names();
        UserPresenceView::lemma_read_each(self.joins);
        lemma_printable_deeper(array_json(self.joins, UserPresenceView::writer()), 2, 2);
        UserPresenceView::lemma_read_each(self.leaves);
        lemma_printable_deeper(array_json(self.leaves, UserPresenceView::writer()), 2, 2);
        lemma_object_printable(self.members_3(), 3);
    }
}

impl PartyPresenceEvent {
    /// Writes this value as a JSON value.
    pub fn to_json(&self) -> (json: Json)
        ensures
            json@ == self.deep_view().json(),
    {
        reveal(PartyPresenceEventView::json);
        let mut members: Vec<Member> = Vec::new();
        assert(member_values(members@) =~= self.deep_view().members_0());
        put_text(&mut members, "party_id", self.party_id.as_str());
        assert(member_values(members@) =~= self.deep_view().members_1());
        put(&mut members, "joins", UserPresence::vec_to_json(&self.joins));
        assert(member_values(members@) =~= self.deep_view().members_2());
        put(&mut members, "leaves", UserPresence::vec_to_json(&self.leaves));
        assert(member_values(members@) =~= self.deep_view().members_3());
        object(members)
    }

    /// Reads a value from a JSON value.
    ///
    /// The JSON value must be an object that holds every field that is not
    /// optional, each with a value of its kind.  Members under other names
    /// are passed over.
    pub fn from_json(json: &Json) -> (read: Option<PartyPresenceEvent>)
        ensures
            match read {
                Some(value) => PartyPresenceEventView::read(json@) == Some(value.deep_view()),
                None => PartyPresenceEventView::read(json@) is None,
            },
    {
        reveal(PartyPresenceEventView::read);
        let members = match object_members(json) {
            Some(members) => members,
            None => {
                return None;
            },
        };
        let party_id = match text_field(members, "party_id") {
            Some(value) => value,
            None => {
                return None;
            },
        };
        let joins = match find(members, "joins") {
            Some(json) => match UserPresence::vec_from_json(json) {
                Some(value) => value,
                None => {
                    return None;
                },
            },
            None => {
                return None;
            },
        };
        let leaves = match find(members, "leaves") {
            Some(json) => match UserPresence::vec_from_json(json) {
                Some(value) => value,
                None => {
                    return None;
                },
            },
            None => {
                return None;
            },
        };
        Some(PartyPresenceEvent { party_id, joins, leaves })
    }
}

/// [`Ping`], as mathematics.
pub struct PingView {}

impl DeepView for Ping {
    type V = PingView;

    open spec fn deep_view(&self) -> PingView {
        PingView {}
    }
}

impl PingView {
    /// Whether every numeric property in this value holds the text of a
    /// JSON number.
    pub open spec fn wf(self) -> bool {
        true
    }

    /// The members before the first field.
    pub open spec fn members_0(self) -> Seq<MemberValue> {
        Seq::empty()
    }

    /// The JSON value that this value is written as.
    #[verifier::opaque]
    pub open spec fn json(self) -> JsonValue {
        JsonValue::Object(self.members_0())
    }

    /// The value that a JSON value is read as, if it holds one.
    #[verifier::opaque]
    pub open spec fn read(json: JsonValue) -> Option<PingView> {
        match members_of(json) {
            Some(_) => Some(PingView {}),
            None => None,
        }
    }

    /// [`PingView::json`], as a function.
    pub open spec fn writer() -> spec_fn(PingView) -> JsonValue {
        |value: PingView| value.json()
    }

    /// [`PingView::read`], as a function.
    pub open spec fn reader() -> spec_fn(JsonValue) -> Option<PingView> {
        |json: JsonValue| PingView::read(json)
    }

    /// Reading what this value is written as gives it back, and what it
    /// is written as can be written as text.
    pub proof fn lemma_read_json(self)
        requires
            self.wf(),
        ensures
            PingView::read(self.json()) == Some(self),
            printable(self.json(), 1),
            self.json() is Object,
    {
        broadcast use {group_lookup, group_printable};

        reveal(PingView::json);
        reveal(PingView::read);
        lemma_object_printable(self.members_0(), 1);
    }
}

impl Ping {
    /// Writes this value as a JSON value.
    pub fn to_json(&self) -> (json: Json)
        ensures
            json@ == self.deep_view().json(),
    {
        reveal(PingView::json);
        let mut members: Vec<Member> = Vec::new();
        assert(member_values(members@) =~= self.deep_view().members_0());
        object(members)
    }

    /// Reads a value from a JSON value.
    ///
    /// The JSON value must be an object that holds every field that is not
    /// optional, each with a value of its kind.  Members under other names
    /// are passed over.
    pub fn from_json(json: &Json) -> (read: Option<Ping>)
        ensures
            match read {
                Some(value) => PingView::read(json@) == Some(value.deep_view()),
                None => PingView::read(json@) is None,
            },
    {
        reveal(PingView::read);
        let members = match object_members(json) {
            Some(members) => members,
            None => {
                return None;
            },
        };
        Some(Ping {})
    }
}

/// [`Pong`], as mathematics.
pub struct PongView {}

impl DeepView for Pong {
    type V = PongView;

    open spec fn deep_view(&self) -> PongView {
        PongView {}
    }
}

impl PongView {
    /// Whether every numeric property in this value holds the text of a
    /// JSON number.
    pub open spec fn wf(self) -> bool {
        true
    }

    /// The members before the first field.
    pub open spec fn members_0(self) -> Seq<MemberValue> {
        Seq::empty()
    }

    /// The JSON value that this value is written as.
    #[verifier::opaque]
    pub open spec fn json(self) -> JsonValue {
        JsonValue::Object(self.members_0())
    }

    /// The value that a JSON value is read as, if it holds one.
    #[verifier::opaque]
    pub open spec fn read(json: JsonValue) -> Option<PongView> {
        match members_of(json) {
            Some(_) => Some(PongView {}),
            None => None,
        }
    }

    /// [`PongView::json`], as a function.
    pub open spec fn writer() -> spec_fn(PongView) -> JsonValue {
        |value: PongView| value.json()
    }

    /// [`PongView::read`], as a function.
    pub open spec fn reader() -> spec_fn(JsonValue) -> Option<PongView> {
        |json: JsonValue| PongView::read(json)
    }

    /// Reading what this value is written as gives it back, and what it
    /// is written as can be written as text.
    pub proof fn lemma_read_json(self)
        requires
            self.wf(),
        ensures
            PongView::read(self.json()) == Some(self),
            printable(self.json(), 1),
            self.json() is Object,
    {
        broadcast use {group_lookup, group_printable};

        reveal(PongView::json);
        reveal(PongView::read);
        lemma_object_printable(self.members_0(), 1);
    }
}

impl Pong {
    /// Writes this value as a JSON value.
    pub fn to_json(&self) -> (json: Json)
        ensures
            json@ == self.deep_view().json(),
    {
        reveal(PongView::json);
        let mut members: Vec<Member> = Vec::new();
        assert(member_values(members@) =~= self.deep_view().members_0());
        object(members)
    }

    /// Reads a value from a JSON value.
    ///
    /// The JSON value must be an object that holds every field that is not
    /// optional, each with a value of its kind.  Members under other names
    /// are passed over.
    pub fn from_json(json: &Json) -> (read: Option<Pong>)
        ensures
            match read {
                Some(value) => PongView::read(json@) == Some(value.deep_view()),
                None => PongView::read(json@) is None,
            },
    {
        reveal(PongView::read);
        let members = match object_members(json) {
            Some(members) => members,
            None => {
                return None;
            },
        };
        Some(Pong {})
    }
}

/// [`Status`], as mathematics.
pub struct StatusView {
    pub presences: Seq<UserPresenceView>,
}

impl DeepView for Status {
    type V = StatusView;

    open spec fn deep_view(&self) -> StatusView {
        StatusView {
            presences: self.presences.deep_view(),
        }
    }
}

impl StatusView {
    /// Whether every numeric property in this value holds the text of a
    /// JSON number.
    pub open spec fn wf(self) -> bool {
        true
    }

    /// The members before the first field.
    pub open spec fn members_0(self) -> Seq<MemberValue> {
        Seq::empty()
    }

    /// The members up to `presences`.
    pub open spec fn members_1(self) -> Seq<MemberValue> {
        self.members_0() + seq![member("presences"@, array_json(self.presences, UserPresenceView::writer()))]
    }

    /// The JSON value that this value is written as.
    #[verifier::opaque]
    pub open spec fn json(self) -> JsonValue {
        JsonValue::Object(self.members_1())
    }

    /// The value that a JSON value is read as, if it holds one.
    #[verifier::opaque]
    pub open spec fn read(json: JsonValue) -> Option<StatusView> {
        match members_of(json) {
            Some(members) => {
                let presences = req_array(members, "presences"@, UserPresenceView::reader());
                if presences is Some {
                    Some(StatusView {
                        presences: presences->0,
                    })
                } else {
                    None
                }
            },
            None => None,
        }
    }

    /// [`StatusView::json`], as a function.
    pub open spec fn writer() -> spec_fn(StatusView) -> JsonValue {
        |value: StatusView| value.json()
    }

    /// [`StatusView::read`], as a function.
    pub open spec fn reader() -> spec_fn(JsonValue) -> Option<StatusView> {
        |json: JsonValue| StatusView::read(json)
    }

    /// Reading what this value is written as gives it back, and what it
    /// is written as can be written as text.
    pub proof fn lemma_read_json(self)
        requires
            self.wf(),
        ensures
            StatusView::read(self.json()) == Some(self),
            printable(self.json(), 3),
            self.json() is Object,
    {
        broadcast use {group_lookup, group_printable};

        reveal(StatusView::json);
        reveal(StatusView::read);
        UserPresenceView::lemma_read_each(self.presences);
        lemma_printable_deeper(array_json(self.presences, UserPresenceView::writer()), 2, 2);
        lemma_object_printable(self.members_1(), 3);
    }
}

impl Status {
    /// Writes this value as a JSON value.
    pub fn to_json(&self) -> (json: Json)
        ensures
            json@ == self.deep_view().json(),
    {
        reveal(StatusView::json);
        let mut members: Vec<Member> = Vec::new();
        assert(member_values(members@) =~= self.deep_view().members_0());
        put(&mut members, "presences", UserPresence::vec_to_json(&self.presences));
        assert(member_values(members@) =~= self.deep_view().members_1());
        object(members)
    }

    /// Reads a value from a JSON value.
    ///
    /// The JSON value must be an object that holds every field that is not
    /// optional, each with a value of its kind.  Members under other names
    /// are passed over.
    pub fn from_json(json: &Json) -> (read: Option<Status>)
        ensures
            match read {
                Some(value) => StatusView::read(json@) == Some(value.deep_view()),
                None => StatusView::read(json@) is None,
            },
    {
        reveal(StatusView::read);
        let members = match object_members(json) {
            Some(members) => members,
            None => {
                return None;
            },
        };
        let presences = match find(members, "presences") {
            Some(json) => match UserPresence::vec_from_json(json) {
                Some(value) => value,
                None => {
                    return None;
                },
            },
            None => {
                return None;
            },
        };
        Some(Status { presences })
    }
}

/// [`StatusFollow`], as mathematics.
pub struct StatusFollowView {
    pub user_ids: Seq<Seq<char>>,
    pub usernames: Seq<Seq<char>>,
}

impl DeepView for StatusFollow {
    type V = StatusFollowView;

    open spec fn deep_view(&self) -> StatusFollowView {
        StatusFollowView {
            user_ids: self.user_ids.deep_view(),
            usernames: self.usernames.deep_view(),
        }
    }
}

impl StatusFollowView {
    /// Whether every numeric property in this value holds the text of a
    /// JSON number.
    pub open spec fn wf(self) -> bool {
        true
    }

    /// The members before the first field.
    pub open spec fn members_0(self) -> Seq<MemberValue> {
        Seq::empty()
    }

    /// The members up to `user_ids`.
    pub open spec fn members_1(self) -> Seq<MemberValue> {
        self.members_0() + seq![member("user_ids"@, array_json(self.user_ids, text_writer()))]
    }

    /// The members up to `usernames`.
    pub open spec fn members_2(self) -> Seq<MemberValue> {
        self.members_1() + seq![member("usernames"@, array_json(self.usernames, text_writer()))]
    }

    /// The JSON value that this value is written as.
    #[verifier::opaque]
    pub open spec fn json(self) -> JsonValue {
        JsonValue::Object(self.members_2())
    }

    /// The value that a JSON value is read as, if it holds one.
    #[verifier::opaque]
    pub open spec fn read(json: JsonValue) -> Option<StatusFollowView> {
        match members_of(json) {
            Some(members) => {
                let user_ids = req_array(members, "user_ids"@, text_reader());
                let usernames = req_array(members, "usernames"@, text_reader());
                if user_ids is Some && usernames is Some {
                    Some(StatusFollowView {
                        user_ids: user_ids->0,
                        usernames: usernames->0,
                    })
                } else {
                    None
                }
            },
            None => None,
        }
    }

    /// [`StatusFollowView::json`], as a function.
    pub open spec fn writer() -> spec_fn(StatusFollowView) -> JsonValue {
        |value: StatusFollowView| value.json()
    }

    /// [`StatusFollowView::read`], as a function.
    pub open spec fn reader() -> spec_fn(JsonValue) -> Option<StatusFollowView> {
        |json: JsonValue| StatusFollowView::read(json)
    }

    /// The place of a field name among the field names.
    pub open spec fn field_index(name: Seq<char>) -> int {
        if name == "user_ids"@ {
            0
        } else if name == "usernames"@ {
            1
        } else {
            2
        }
    }

    /// The field names differ from each other.
    pub proof fn lemma_names()
        ensures
            Self::field_index("user_ids"@) == 0,
            Self::field_index("usernames"@) == 1,
    {
        reveal_strlit("user_ids");
        reveal_strlit("usernames");
        assert("user_ids"@.len() == 8);
        assert("usernames"@.len() == 9);
    }

    /// Reading what this value is written as gives it back, and what it
    /// is written as can be written as text.
    pub proof fn lemma_read_json(self)
        requires
            self.wf(),
        ensures
            StatusFollowView::read(self.json()) == Some(self),
            printable(self.json(), 2),
            self.json() is Object,
    {
        broadcast use {group_lookup, group_printable};

        reveal(StatusFollowView::json);
        reveal(StatusFollowView::read);
        Self::lemma_names();
        lemma_texts(self.user_ids);
        lemma_printable_deeper(array_json(self.user_ids, text_writer()), 1, 1);
        lemma_texts(self.usernames);
        lemma_printable_deeper(array_json(self.usernames, text_writer()), 1, 1);
        lemma_object_printable(self.members_2(), 2);
    }
}

impl StatusFollow {
    /// Writes this value as a JSON value.
    pub fn to_json(&self) -> (json: Json)
        ensures
            json@ == self.deep_view().json(),
    {
        reveal(StatusFollowView::json);
        let mut members: Vec<Member> = Vec::new();
        assert(member_values(members@) =~= self.deep_view().members_0());
        put(&mut members, "user_ids", texts_to_json(&self.user_ids));
        assert(member_values(members@) =~= self.deep_view().members_1());
        put(&mut members, "usernames", texts_to_json(&self.usernames));
        assert(member_values(members@) =~= self.deep_view().members_2());
        object(members)
    }

    /// Reads a value from a JSON value.
    ///
    /// The JSON value must be an object that holds every field that is not
    /// optional, each with a value of its kind.  Members under other names
    /// are passed over.
    pub fn from_json(json: &Json) -> (read: Option<StatusFollow>)
        ensures
            match read {
                Some(value) => StatusFollowView::read(json@) == Some(value.deep_view()),
                None => StatusFollowView::read(json@) is None,
            },
    {
        reveal(StatusFollowView::read);
        let members = match object_members(json) {
            Some(members) => members,
            None => {
                return None;
            },
        };
        let user_ids = match find(members, "user_ids") {
            Some(json) => match texts_from_json(json) {
                Some(value) => value,
                None => {
                    return None;
                },
            },
            None => {
                return None;
            },
        };
        let usernames = match find(members, "usernames") {
            Some(json) => match texts_from_json(json) {
                Some(value) => value,
                None => {
                    return None;
                },
            },
            None => {
                return None;
            },
        };
        Some(StatusFollow { user_ids, usernames })
    }
}

/// [`StatusPresenceEvent`], as mathematics.
pub struct StatusPresenceEventView {
    pub joins: Seq<UserPresenceView>,
    pub leaves: Seq<UserPresenceView>,
}

impl DeepView for StatusPresenceEvent {
    type V = StatusPresenceEventView;

    open spec fn deep_view(&self) -> StatusPresenceEventView {
        StatusPresenceEventView {
            joins: self.joins.deep_view(),
            leaves: self.leaves.deep_view(),
        }
    }
}

impl StatusPresenceEventView {
    /// Whether every numeric property in this value holds the text of a
    /// JSON number.
    pub open spec fn wf(self) -> bool {
        true
    }

    /// The members before the first field.
    pub open spec fn members_0(self) -> Seq<MemberValue> {
        Seq::empty()
    }

    /// The members up to `joins`.
    pub open spec fn members_1(self) -> Seq<MemberValue> {
        self.members_0() + seq![member("joins"@, array_json(self.joins, UserPresenceView::writer()))]
    }

    /// The members up to `leaves`.
    pub open spec fn members_2(self) -> Seq<MemberValue> {
        self.members_1() + seq![member("leaves"@, array_json(self.leaves, UserPresenceView::writer()))]
    }

    /// The JSON value that this value is written as.
    #[verifier::opaque]
    pub open spec fn json(self) -> JsonValue {
        JsonValue::Object(self.members_2())
    }

    /// The value that a JSON value is read as, if it holds one.
    #[verifier::opaque]
    pub open spec fn read(json: JsonValue) -> Option<StatusPresenceEventView> {
        match members_of(json) {
            Some(members) => {
                let joins = req_array(members, "joins"@, UserPresenceView::reader());
                let leaves = req_array(members, "leaves"@, UserPresenceView::reader());
                if joins is Some && leaves is Some {
                    Some(StatusPresenceEventView {
                        joins: joins->0,
                        leaves: leaves->0,
                    })
                } else {
                    None
                }
            },
            None => None,
        }
    }

    /// [`StatusPresenceEventView::json`], as a function.
    pub open spec fn writer() -> spec_fn(StatusPresenceEventView) -> JsonValue {
        |value: StatusPresenceEventView| value.json()
    }

    /// [`StatusPresenceEventView::read`], as a function.
    pub open spec fn reader() -> spec_fn(JsonValue) -> Option<StatusPresenceEventView> {
        |json: JsonValue| StatusPresenceEventView::read(json)
    }

    /// The place of a field name among the field names.
    pub open spec fn field_index(name: Seq<char>) -> int {
        if name == "joins"@ {
            0
        } else if name == "leaves"@ {
            1
        } else {
            2
        }
    }

    /// The field names differ from each other.
    pub proof fn lemma_names()
        ensures
            Self::field_index("joins"@) == 0,
            Self::field_index("leaves"@) == 1,
    {
        reveal_strlit("joins");
        reveal_strlit("leaves");
        assert("joins"@.len() == 5);
        assert("leaves"@.len() == 6);
    }

    /// Reading what this value is written as gives it back, and what it
    /// is written as can be written as text.
    pub proof fn lemma_read_json(self)
        requires
            self.wf(),
        ensures
            StatusPresenceEventView::read(self.json()) == Some(self),
            printable(self.json(), 3),
            self.json() is Object,
    {
        broadcast use {group_lookup, group_printable};

        reveal(StatusPresenceEventView::json);
        reveal(StatusPresenceEventView::read);
        Self::lemma_names();
        UserPresenceView::lemma_read_each(self.joins);
        lemma_printable_deeper(array_json(self.joins, UserPresenceView::writer()), 2, 2);
        UserPresenceView::lemma_read_each(self.leaves);
        lemma_printable_deeper(array_json(self.leaves, UserPresenceView::writer()), 2, 2);
        lemma_object_printable(self.members_2(), 3);
    }
}

impl StatusPresenceEvent {
    /// Writes this value as a JSON value.
    pub fn to_json(&self) -> (json: Json)
        ensures
            json@ == self.deep_view().json(),
    {
        reveal(StatusPresenceEventView::json);
        let mut members: Vec<Member> = Vec::new();
        assert(member_values(members@) =~= self.deep_view().members_0());
        put(&mut members, "joins", UserPresence::vec_to_json(&self.joins));
        assert(member_values(members@) =~= self.deep_view().members_1());
        put(&mut members, "leaves", UserPresence::vec_to_json(&self.leaves));
        assert(member_values(members@) =~= self.deep_view().members_2());
        object(members)
    }

    /// Reads a value from a JSON value.
    ///
    /// The JSON value must be an object that holds every field that is not
    /// optional, each with a value of its kind.  Members under other names
    /// are passed over.
    pub fn from_json(json: &Json) -> (read: Option<StatusPresenceEvent>)
        ensures
            match read {
                Some(value) => StatusPresenceEventView::read(json@) == Some(value.deep_view()),
                None => StatusPresenceEventView::read(json@) is None,
            },
    {
        reveal(StatusPresenceEventView::read);
        let members = match object_members(json) {
            Some(members) => members,
            None => {
                return None;
            },
        };
        let joins = match find(members, "joins") {
            Some(json) => match UserPresence::vec_from_json(json) {
                Some(value) => value,
                None => {
                    return None;
                },
            },
            None => {
                return None;
            },
        };
        let leaves = match find(members, "leaves") {
            Some(json) => match UserPresence::vec_from_json(json) {
                Some(value) => value,
                None => {
                    return None;
                },
            },
            None => {
                return None;
            },
        };
        Some(StatusPresenceEvent { joins, leaves })
    }
}

/// [`StatusUnfollow`], as mathematics.
pub struct StatusUnfollowView {
    pub user_ids: Seq<Seq<char>>,
}

impl DeepView for StatusUnfollow {
    type V = StatusUnfollowView;

    open spec fn deep_view(&self) -> StatusUnfollowView {
        StatusUnfollowView {
            user_ids: self.user_ids.deep_view(),
        }
    }
}

impl StatusUnfollowView {
    /// Whether every numeric property in this value holds the text of a
    /// JSON number.
    pub open spec fn wf(self) -> bool {
        true
    }

    /// The members before the first field.
    pub open spec fn members_0(self) -> Seq<MemberValue> {
        Seq::empty()
    }

    /// The members up to `user_ids`.
    pub open spec fn members_1(self) -> Seq<MemberValue> {
        self.members_0() + seq![member("user_ids"@, array_json(self.user_ids, text_writer()))]
    }

    /// The JSON value that this value is written as.
    #[verifier::opaque]
    pub open spec fn json(self) -> JsonValue {
        JsonValue::Object(self.members_1())
    }

    /// The value that a JSON value is read as, if it holds one.
    #[verifier::opaque]
    pub open spec fn read(json: JsonValue) -> Option<StatusUnfollowView> {
        match members_of(json) {
            Some(members) => {
                let user_ids = req_array(members, "user_ids"@, text_reader());
                if user_ids is Some {
                    Some(StatusUnfollowView {
                        user_ids: user_ids->0,
                    })
                } else {
                    None
                }
            },
            None => None,
        }
    }

    /// [`StatusUnfollowView::json`], as a function.
    pub open spec fn writer() -> spec_fn(StatusUnfollowView) -> JsonValue {
        |value: StatusUnfollowView| value.json()
    }

    /// [`StatusUnfollowView::read`], as a function.
    pub open spec fn reader() -> spec_fn(JsonValue) -> Option<StatusUnfollowView> {
        |json: JsonValue| StatusUnfollowView::read(json)
    }

    /// Reading what this value is written as gives it back, and what it
    /// is written as can be written as text.
    pub proof fn lemma_read_json(self)
        requires
            self.wf(),
        ensures
            StatusUnfollowView::read(self.json()) == Some(self),
            printable(self.json(), 2),
            self.json() is Object,
    {
        broadcast use {group_lookup, group_printable};

        reveal(StatusUnfollowView::json);
        reveal(StatusUnfollowView::read);
        lemma_texts(self.user_ids);
        lemma_printable_deeper(array_json(self.user_ids, text_writer()), 1, 1);
        lemma_object_printable(self.members_1(), 2);
    }
}

impl StatusUnfollow {
    /// Writes this value as a JSON value.
    pub fn to_json(&self) -> (json: Json)
        ensures
            json@ == self.deep_view().json(),
    {
        reveal(StatusUnfollowView::json);
        let mut members: Vec<Member> = Vec::new();
        assert(member_values(members@) =~= self.deep_view().members_0());
        put(&mut members, "user_ids", texts_to_json(&self.user_ids));
        assert(member_values(members@) =~= self.deep_view().members_1());
        object(members)
    }

    /// Reads a value from a JSON value.
    ///
    /// The JSON value must be an object that holds every field that is not
    /// optional, each with a value of its kind.  Members under other names
    /// are passed over.
    pub fn from_json(json: &Json) -> (read: Option<StatusUnfollow>)
        ensures
            match read {
                Some(value) => StatusUnfollowView::read(json@) == Some(value.deep_view()),
                None => StatusUnfollowView::read(json@) is None,
            },
    {
        reveal(StatusUnfollowView::read);
        let members = match object_members(json) {
            Some(members) => members,
            None => {
                return None;
            },
        };
        let user_ids = match find(members, "user_ids") {
            Some(json) => match texts_from_json(json) {
                Some(value) => value,
                None => {
                    return None;
                },
            },
            None => {
                return None;
            },
        };
        Some(StatusUnfollow { user_ids })
    }
}

/// [`StatusUpdate`], as mathematics.
pub struct StatusUpdateView {
    pub status: Seq<char>,
}

impl DeepView for StatusUpdate {
    type V = StatusUpdateView;

    open spec fn deep_view(&self) -> StatusUpdateView {
        StatusUpdateView {
            status: self.status.deep_view(),
        }
    }
}

impl StatusUpdateView {
    /// Whether every numeric property in this value holds the text of a
    /// JSON number.
    pub open spec fn wf(self) -> bool {
        true
    }

    /// The members before the first field.
    pub open spec fn members_0(self) -> Seq<MemberValue> {
        Seq::empty()
    }

    /// The members up to `status`.
    pub open spec fn members_1(self) -> Seq<MemberValue> {
        self.members_0() + seq![member("status"@, JsonValue::Text(self.status))]
    }

    /// The JSON value that this value is written as.
    #[verifier::opaque]
    pub open spec fn json(self) -> JsonValue {
        JsonValue::Object(self.members_1())
    }

    /// The value that a JSON value is read as, if it holds one.
    #[verifier::opaque]
    pub open spec fn read(json: JsonValue) -> Option<StatusUpdateView> {
        match members_of(json) {
            Some(members) => {
                let status = req_text(members, "status"@);
                if status is Some {
                    Some(StatusUpdateView {
                        status: status->0,
                    })
                } else {
                    None
                }
            },
            None => None,
        }
    }

    /// [`StatusUpdateView::json`], as a function.
    pub open spec fn writer() -> spec_fn(StatusUpdateView) -> JsonValue {
        |value: StatusUpdateView| value.json()
    }

    /// [`StatusUpdateView::read`], as a function.
    pub open spec fn reader() -> spec_fn(JsonValue) -> Option<StatusUpdateView> {
        |json: JsonValue| StatusUpdateView::read(json)
    }

    /// Reading what this value is written as gives it back, and what it
    /// is written as can be written as text.
    pub proof fn lemma_read_json(self)
        requires
            self.wf(),
        ensures
            StatusUpdateView::read(self.json()) == Some(self),
            printable(self.json(), 1),
            self.json() is Object,
    {
        broadcast use {group_lookup, group_printable};

        reveal(StatusUpdateView::json);
        reveal(StatusUpdateView::read);
        lemma_object_printable(self.members_1(), 1);
    }
}

impl StatusUpdate {
    /// Writes this value as a JSON value.
    pub fn to_json(&self) -> (json: Json)
        ensures
            json@ == self.deep_view().json(),
    {
        reveal(StatusUpdateView::json);
        let mut members: Vec<Member> = Vec::new();
        assert(member_values(members@) =~= self.deep_view().members_0());
        put_text(&mut members, "status", self.status.as_str());
        assert(member_values(members@) =~= self.deep_view().members_1());
        object(members)
    }

    /// Reads a value from a JSON value.
    ///
    /// The JSON value must be an object that holds every field that is not
    /// optional, each with a value of its kind.  Members under other names
    /// are passed over.
    pub fn from_json(json: &Json) -> (read: Option<StatusUpdate>)
        ensures
            match read {
                Some(value) => StatusUpdateView::read(json@) == Some(value.deep_view()),
                None => StatusUpdateView::read(json@) is None,
            },
    {
        reveal(StatusUpdateView::read);
        let members = match object_members(json) {
            Some(members) => members,
            None => {
                return None;
            },
        };
        let status = match text_field(members, "status") {
            Some(value) => value,
            None => {
                return None;
            },
        };
        Some(StatusUpdate { status })
    }
}

/// [`Stream`], as mathematics.
pub struct StreamView {
    pub mode: i32,
    pub subject: Seq<char>,
    pub subcontext: Seq<char>,
    pub label: Seq<char>,
}

impl DeepView for Stream {
    type V = StreamView;

    open spec fn deep_view(&self) -> StreamView {
        StreamView {
            mode: self.mode,
            subject: self.subject.deep_view(),
            subcontext: self.subcontext.deep_view(),
            label: self.label.deep_view(),
        }
    }
}

impl StreamView {
    /// Whether every numeric property in this value holds the text of a
    /// JSON number.
    pub open spec fn wf(self) -> bool {
        true
    }

    /// The members before the first field.
    pub open spec fn members_0(self) -> Seq<MemberValue> {
        Seq::empty()
    }

    /// The members up to `mode`.
    pub open spec fn members_1(self) -> Seq<MemberValue> {
        self.members_0() + seq![member("mode"@, integer_json(self.mode as int))]
    }

    /// The members up to `subject`.
    pub open spec fn members_2(self) -> Seq<MemberValue> {
        self.members_1() + seq![member("subject"@, JsonValue::Text(self.subject))]
    }

    /// The members up to `subcontext`.
    pub open spec fn members_3(self) -> Seq<MemberValue> {
        self.members_2() + seq![member("subcontext"@, JsonValue::Text(self.subcontext))]
    }

    /// The members up to `label`.
    pub open spec fn members_4(self) -> Seq<MemberValue> {
        self.members_3() + seq![member("label"@, JsonValue::Text(self.label))]
    }

    /// The JSON value that this value is written as.
    #[verifier::opaque]
    pub open spec fn json(self) -> JsonValue {
        JsonValue::Object(self.members_4())
    }

    /// The value that a JSON value is read as, if it holds one.
    #[verifier::opaque]
    pub open spec fn read(json: JsonValue) -> Option<StreamView> {
        match members_of(json) {
            Some(members) => {
                let mode = req_i32(members, "mode"@);
                let subject = req_text(members, "subject"@);
                let subcontext = req_text(members, "subcontext"@);
                let label = req_text(members, "label"@);
                if mode is Some && subject is Some && subcontext is Some && label is Some {
                    Some(StreamView {
                        mode: mode->0,
                        subject: subject->0,
                        subcontext: subcontext->0,
                        label: label->0,
                    })
                } else {
                    None
                }
            },
            None => None,
        }
    }

    /// [`StreamView::json`], as a function.
    pub open spec fn writer() -> spec_fn(StreamView) -> JsonValue {
        |value: StreamView| value.json()
    }

    /// [`StreamView::read`], as a function.
    pub open spec fn reader() -> spec_fn(JsonValue) -> Option<StreamView> {
        |json: JsonValue| StreamView::read(json)
    }

    /// The place of a field name among the field names.
    pub open spec fn field_index(name: Seq<char>) -> int {
        if name == "mode"@ {
            0
        } else if name == "subject"@ {
            1
        } else if name == "subcontext"@ {
            2
        } else if name == "label"@ {
            3
        } else {
            4
        }
    }

    /// The field names differ from each other.
    pub proof fn lemma_names()
        ensures
            Self::field_index("mode"@) == 0,
            Self::field_index("subject"@) == 1,
            Self::field_index("subcontext"@) == 2,
            Self::field_index("label"@) == 3,
    {
        reveal_strlit("mode");
        reveal_strlit("subject");
        reveal_strlit("subcontext");
        reveal_strlit("label");
        assert("mode"@.len() == 4);
        assert("subject"@.len() == 7);
        assert("subcontext"@.len() == 10);
        assert("label"@.len() == 5);
    }

    /// Reading what this value is written as gives it back, and what it
    /// is written as can be written as text.
    pub proof fn lemma_read_json(self)
        requires
            self.wf(),
        ensures
            StreamView::read(self.json()) == Some(self),
            printable(self.json(), 1),
            self.json() is Object,
    {
        broadcast use {group_lookup, group_printable};

        reveal(StreamView::json);
        reveal(StreamView::read);
        Self::lemma_names();
        lemma_integer(self.mode as i64);
        lemma_object_printable(self.members_4(), 1);
    }
}

impl Stream {
    /// Writes this value as a JSON value.
    pub fn to_json(&self) -> (json: Json)
        ensures
            json@ == self.deep_view().json(),
    {
        reveal(StreamView::json);
        let mut members: Vec<Member> = Vec::new();
        assert(member_values(members@) =~= self.deep_view().members_0());
        put_integer(&mut members, "mode", self.mode as i64);
        assert(member_values(members@) =~= self.deep_view().members_1());
        put_text(&mut members, "subject", self.subject.as_str());
        assert(member_values(members@) =~= self.deep_view().members_2());
        put_text(&mut members, "subcontext", self.subcontext.as_str());
        assert(member_values(members@) =~= self.deep_view().members_3());
        put_text(&mut members, "label", self.label.as_str());
        assert(member_values(members@) =~= self.deep_view().members_4());
        object(members)
    }

    /// Reads a value from a JSON value.
    ///
    /// The JSON value must be an object that holds every field that is not
    /// optional, each with a value of its kind.  Members under other names
    /// are passed over.
    pub fn from_json(json: &Json) -> (read: Option<Stream>)
        ensures
            match read {
                Some(value) => StreamView::read(json@) == Some(value.deep_view()),
                None => StreamView::read(json@) is None,
            },
    {
        reveal(StreamView::read);
        let members = match object_members(json) {
            Some(members) => members,
            None => {
                return None;
            },
        };
        let mode = match i32_field(members, "mode") {
            Some(value) => value,
            None => {
                return None;
            },
        };
        let subject = match text_field(members, "subject") {
            Some(value) => value,
            None => {
                return None;
            },
        };
        let subcontext = match text_field(members, "subcontext") {
            Some(value) => value,
            None => {
                return None;
            },
        };
        let label = match text_field(members, "label") {
            Some(value) => value,
            None => {
                return None;
            },
        };
        Some(Stream { mode, subject, subcontext, label })
    }
}

/// [`StreamData`], as mathematics.
pub struct StreamDataView {
    pub stream: StreamView,
    pub sender: UserPresenceView,
    pub data: Seq<char>,
    pub reliable: bool,
}

impl DeepView for StreamData {
    type V = StreamDataView;

    open spec fn deep_view(&self) -> StreamDataView {
        StreamDataView {
            stream: self.stream.deep_view(),
            sender: self.sender.deep_view(),
            data: self.data.deep_view(),
            reliable: self.reliable,
        }
    }
}

impl StreamDataView {
    /// Whether every numeric property in this value holds the text of a
    /// JSON number.
    pub open spec fn wf(self) -> bool {
        true
    }

    /// The members before the first field.
    pub open spec fn members_0(self) -> Seq<MemberValue> {
        Seq::empty()
    }

    /// The members up to `stream`.
    pub open spec fn members_1(self) -> Seq<MemberValue> {
        self.members_0() + seq![member("stream"@, self.stream.json())]
    }

    /// The members up to `sender`.
    pub open spec fn members_2(self) -> Seq<MemberValue> {
        self.members_1() + seq![member("sender"@, self.sender.json())]
    }

    /// The members up to `data`.
    pub open spec fn members_3(self) -> Seq<MemberValue> {
        self.members_2() + seq![member("data"@, JsonValue::Text(self.data))]
    }

    /// The members up to `reliable`.
    pub open spec fn members_4(self) -> Seq<MemberValue> {
        self.members_3() + seq![member("reliable"@, JsonValue::Bool(self.reliable))]
    }

    /// The JSON value that this value is written as.
    #[verifier::opaque]
    pub open spec fn json(self) -> JsonValue {
        JsonValue::Object(self.members_4())
    }

    /// The value that a JSON value is read as, if it holds one.
    #[verifier::opaque]
    pub open spec fn read(json: JsonValue) -> Option<StreamDataView> {
        match members_of(json) {
            Some(members) => {
                let stream = req_record(members, "stream"@, StreamView::reader());
                let sender = req_record(members, "sender"@, UserPresenceView::reader());
                let data = req_text(members, "data"@);
                let reliable = req_bool(members, "reliable"@);
                if stream is Some && sender is Some && data is Some && reliable is Some {
                    Some(StreamDataView {
                        stream: stream->0,
                        sender: sender->0,
                        data: data->0,
                        reliable: reliable->0,
                    })
                } else {
                    None
                }
            },
            None => None,
        }
    }

    /// [`StreamDataView::json`], as a function.
    pub open spec fn writer() -> spec_fn(StreamDataView) -> JsonValue {
        |value: StreamDataView| value.json()
    }

    /// [`StreamDataView::read`], as a function.
    pub open spec fn reader() -> spec_fn(JsonValue) -> Option<StreamDataView> {
        |json: JsonValue| StreamDataView::read(json)
    }

    /// The place of a field name among the field names.
    pub open spec fn field_index(name: Seq<char>) -> int {
        if name == "stream"@ {
            0
        } else if name == "sender"@ {
            1
        } else if name == "data"@ {
            2
        } else if name == "reliable"@ {
            3
        } else {
            4
        }
    }

    /// The field names differ from each other.
    pub proof fn lemma_names()
        ensures
            Self::field_index("stream"@) == 0,
            Self::field_index("sender"@) == 1,
            Self::field_index("data"@) == 2,
            Self::field_index("reliable"@) == 3,
    {
        reveal_strlit("stream");
        reveal_strlit("sender");
        reveal_strlit("data");
        reveal_strlit("reliable");
        assert("stream"@.len() == 6);
        assert("sender"@.len() == 6);
        assert("data"@.len() == 4);
        assert("reliable"@.len() == 8);
        assert("stream"@[1] != "sender"@[1]);
    }

    /// Reading what this value is written as gives it back, and what it
    /// is written as can be written as text.
    pub proof fn lemma_read_json(self)
        requires
            self.wf(),
        ensures
            StreamDataView::read(self.json()) == Some(self),
            printable(self.json(), 2),
            self.json() is Object,
    {
        broadcast use {group_lookup, group_printable};

        reveal(StreamDataView::json);
        reveal(StreamDataView::read);
        Self::lemma_names();
        self.stream.lemma_read_json();
        lemma_printable_deeper(self.stream.json(), 1, 1);
        self.sender.lemma_read_json();
        lemma_printable_deeper(self.sender.json(), 1, 1);
        lemma_object_printable(self.members_4(), 2);
    }
}

impl StreamData {
    /// Writes this value as a JSON value.
    pub fn to_json(&self) -> (json: Json)
        ensures
            json@ == self.deep_view().json(),
    {
        reveal(StreamDataView::json);
        let mut members: Vec<Member> = Vec::new();
        assert(member_values(members@) =~= self.deep_view().members_0());
        put(&mut members, "stream", self.stream.to_json());
        assert(member_values(members@) =~= self.deep_view().members_1());
        put(&mut members, "sender", self.sender.to_json());
        assert(member_values(members@) =~= self.deep_view().members_2());
        put_text(&mut members, "data", self.data.as_str());
        assert(member_values(members@) =~= self.deep_view().members_3());
        put_bool(&mut members, "reliable", self.reliable);
        assert(member_values(members@) =~= self.deep_view().members_4());
        object(members)
    }

    /// Reads a value from a JSON value.
    ///
    /// The JSON value must be an object that holds every field that is not
    /// optional, each with a value of its kind.  Members under other names
    /// are passed over.
    pub fn from_json(json: &Json) -> (read: Option<StreamData>)
        ensures
            match read {
                Some(value) => StreamDataView::read(json@) == Some(value.deep_view()),
                None => StreamDataView::read(json@) is None,
            },
    {
        reveal(StreamDataView::read);
        let members = match object_members(json) {
            Some(members) => members,
            None => {
                return None;
            },
        };
        let stream = match find(members, "stream") {
            Some(json) => match Stream::from_json(json) {
                Some(value) => value,
                None => {
                    return None;
                },
            },
            None => {
                return None;
            },
        };
        let sender = match find(members, "sender") {
            Some(json) => match UserPresence::from_json(json) {
                Some(value) => value,
                None => {
                    return None;
                },
            },
            None => {
                return None;
            },
        };
        let data = match text_field(members, "data") {
            Some(value) => value,
            None => {
                return None;
            },
        };
        let reliable = match bool_field(members, "reliable") {
            Some(value) => value,
            None => {
                return None;
            },
        };
        Some(StreamData { stream, sender, data, reliable })
    }
}

/// [`StreamPresenceEvent`], as mathematics.
pub struct StreamPresenceEventView {
    pub stream: StreamView,
    pub joins: Seq<UserPresenceView>,
    pub leaves: Seq<UserPresenceView>,
}

impl DeepView for StreamPresenceEvent {
    type V = StreamPresenceEventView;

    open spec fn deep_view(&self) -> StreamPresenceEventView {
        StreamPresenceEventView {
            stream: self.stream.deep_view(),
            joins: self.joins.deep_view(),
            leaves: self.leaves.deep_view(),
        }
    }
}

impl StreamPresenceEventView {
    /// Whether every numeric property in this value holds the text of a
    /// JSON number.
    pub open spec fn wf(self) -> bool {
        true
    }

    /// The members before the first field.
    pub open spec fn members_0(self) -> Seq<MemberValue> {
        Seq::empty()
    }

    /// The members up to `stream`.
    pub open spec fn members_1(self) -> Seq<MemberValue> {
        self.members_0() + seq![member("stream"@, self.stream.json())]
    }

    /// The members up to `joins`.
    pub open spec fn members_2(self) -> Seq<MemberValue> {
        self.members_1() + seq![member("joins"@, array_json(self.joins, UserPresenceView::writer()))]
    }

    /// The members up to `leaves`.
    pub open spec fn members_3(self) -> Seq<MemberValue> {
        self.members_2() + seq![member("leaves"@, array_json(self.leaves, UserPresenceView::writer()))]
    }

    /// The JSON value that this value is written as.
    #[verifier::opaque]
    pub open spec fn json(self) -> JsonValue {
        JsonValue::Object(self.members_3())
    }

    /// The value that a JSON value is read as, if it holds one.
    #[verifier::opaque]
    pub open spec fn read(json: JsonValue) -> Option<StreamPresenceEventView> {
        match members_of(json) {
            Some(members) => {
                let stream = req_record(members, "stream"@, StreamView::reader());
                let joins = req_array(members, "joins"@, UserPresenceView::reader());
                let leaves = req_array(members, "leaves"@, UserPresenceView::reader());
                if stream is Some && joins is Some && leaves is Some {
                    Some(StreamPresenceEventView {
                        stream: stream->0,
                        joins: joins->0,
                        leaves: leaves->0,
                    })
                } else {
                    None
                }
            },
            None => None,
        }
    }

    /// [`StreamPresenceEventView::json`], as a function.
    pub open spec fn writer() -> spec_fn(StreamPresenceEventView) -> JsonValue {
        |value: StreamPresenceEventView| value.json()
    }

    /// [`StreamPresenceEventView::read`], as a function.
    pub open spec fn reader() -> spec_fn(JsonValue) -> Option<StreamPresenceEventView> {
        |json: JsonValue| StreamPresenceEventView::read(json)
    }

    /// The place of a field name among the field names.
    pub open spec fn field_index(name: Seq<char>) -> int {
        if name == "stream"@ {
            0
        } else if name == "joins"@ {
            1
        } else if name == "leaves"@ {
            2
        } else {
            3
        }
    }

    /// The field names differ from each other.
    pub proof fn lemma_names()
        ensures
            Self::field_index("stream"@) == 0,
            Self::field_index("joins"@) == 1,
            Self::field_index("leaves"@) == 2,
    {
        reveal_strlit("stream");
        reveal_strlit("joins");
        reveal_strlit("leaves");
        assert("stream"@.len() == 6);
        assert("joins"@.len() == 5);
        assert("leaves"@.len() == 6);
        assert("stream"@[0] != "leaves"@[0]);
    }

    /// Reading what this value is written as gives it back, and what it
    /// is written as can be written as text.
    pub proof fn lemma_read_json(self)
        requires
            self.wf(),
        ensures
            StreamPresenceEventView::read(self.json()) == Some(self),
            printable(self.json(), 3),
            self.json() is Object,
    {
        broadcast use {group_lookup, group_printable};

        reveal(StreamPresenceEventView::json);
        reveal(StreamPresenceEventView::read);
        Self::lemma_names();
        self.stream.lemma_read_json();
        lemma_printable_deeper(self.stream.json(), 1, 2);
        UserPresenceView::lemma_read_each(self.joins);
        lemma_printable_deeper(array_json(self.joins, UserPresenceView::writer()), 2, 2);
        UserPresenceView::lemma_read_each(self.leaves);
        lemma_printable_deeper(array_json(self.leaves, UserPresenceView::writer()), 2, 2);
        lemma_object_printable(self.members_3(), 3);
    }
}

impl StreamPresenceEvent {
    /// Writes this value as a JSON value.
    pub fn to_json(&self) -> (json: Json)
        ensures
            json@ == self.deep_view().json(),
    {
        reveal(StreamPresenceEventView::json);
        let mut members: Vec<Member> = Vec::new();
        assert(member_values(members@) =~= self.deep_view().members_0());
        put(&mut members, "stream", self.stream.to_json());
        assert(member_values(members@) =~= self.deep_view().members_1());
        put(&mut members, "joins", UserPresence::vec_to_json(&self.joins));
        assert(member_values(members@) =~= self.deep_view().members_2());
        put(&mut members, "leaves", UserPresence::vec_to_json(&self.leaves));
        assert(member_values(members@) =~= self.deep_view().members_3());
        object(members)
    }

    /// Reads a value from a JSON value.
    ///
    /// The JSON value must be an object that holds every field that is not
    /// optional, each with a value of its kind.  Members under other names
    /// are passed over.
    pub fn from_json(json: &Json) -> (read: Option<StreamPresenceEvent>)
        ensures
            match read {
                Some(value) => StreamPresenceEventView::read(json@) == Some(value.deep_view()),
                None => StreamPresenceEventView::read(json@) is None,
            },
    {
        reveal(StreamPresenceEventView::read);
        let members = match object_members(json) {
            Some(members) => members,
            None => {
                return None;
            },
        };
        let stream = match find(members, "stream") {
            Some(json) => match Stream::from_json(json) {
                Some(value) => value,
                None => {
                    return None;
                },
            },
            None => {
                return None;
            },
        };
        let joins = match find(members, "joins") {
            Some(json) => match UserPresence::vec_from_json(json) {
                Some(value) => value,
                None => {
                    return None;
                },
            },
            None => {
                return None;
            },
        };
        let leaves = match find(members, "leaves") {
            Some(json) => match UserPresence::vec_from_json(json) {
                Some(value) => value,
                None => {
                    return None;
                },
            },
            None => {
                return None;
            },
        };
        Some(StreamPresenceEvent { stream, joins, leaves })
    }
}

} // verus!
