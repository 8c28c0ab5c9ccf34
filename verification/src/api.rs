//! Records that the realtime channel shares with the request/response API.

use vstd::prelude::*;

verus! {

/// A message in a chat channel.
#[derive(Debug, Clone, Default, PartialEq)]
pub struct ApiChannelMessage {
    pub channel_id: String,
    pub code: i32,
    pub content: String,
    pub create_time: String,
    pub group_id: String,
    pub message_id: String,
    pub persistent: bool,
    pub room_name: String,
    pub sender_id: String,
    pub update_time: String,
    pub user_id_one: String,
    pub user_id_two: String,
    pub username: String,
}

/// A notification addressed to the current user.
#[derive(Debug, Clone, Default, PartialEq)]
pub struct ApiNotification {
    pub code: i32,
    pub content: String,
    pub create_time: String,
    pub id: String,
    pub persistent: bool,
    pub sender_id: String,
    pub subject: String,
}

/// A batch of notifications.
#[derive(Debug, Clone, Default, PartialEq)]
pub struct ApiNotificationList {
    pub cacheable_cursor: String,
    pub notifications: Vec<ApiNotification>,
}

/// A remote procedure call: the function's id and its payload.
#[derive(Debug, Clone, Default, PartialEq)]
pub struct ApiRpc {
    pub http_key: String,
    pub id: String,
    pub payload: String,
}

/// A session as the server hands it out.  An empty `refresh_token` means
/// that the server gave none.
#[derive(Debug, Clone, Default, PartialEq)]
pub struct ApiSession {
    pub created: bool,
    pub refresh_token: String,
    pub token: String,
}

} // verus!
