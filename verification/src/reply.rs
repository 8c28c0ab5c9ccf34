//! Reading the reply to a call.
//!
//! A caller is woken with a frame, or with the reason why none will come.
//! A frame that holds an error is the server's refusal.  Otherwise it
//! must hold the payload that answers the request; a frame without it is
//! reported as [`SocketError::UnexpectedReply`], never passed off as an
//! empty result.

use crate::api::ApiRpc;
use crate::socket::{
    Channel, ChannelMessageAck, Match, MatchmakerTicket, Party, PartyJoinRequest,
    PartyMatchmakerTicket, Status,
};
use crate::web_socket::{Reply, SocketError};
use vstd::prelude::*;

verus! {

/// Reads a match out of what a caller was woken with.
pub fn expect_match(reply: Reply) -> (result: Result<Match, SocketError>)
    ensures
        result == match reply {
            Err(reason) => Err(reason),
            Ok(frame) => if frame.error is Some {
                Err(SocketError::Server(frame.error->0))
            } else if frame.new_match is Some {
                Ok(frame.new_match->0)
            } else {
                Err(SocketError::UnexpectedReply)
            },
        },
{
    match reply {
        Err(reason) => Err(reason),
        Ok(frame) => {
            if let Some(error) = frame.error {
                Err(SocketError::Server(error))
            } else if let Some(payload) = frame.new_match {
                Ok(payload)
            } else {
                Err(SocketError::UnexpectedReply)
            }
        },
    }
}

/// Reads a chat channel out of what a caller was woken with.
pub fn expect_channel(reply: Reply) -> (result: Result<Channel, SocketError>)
    ensures
        result == match reply {
            Err(reason) => Err(reason),
            Ok(frame) => if frame.error is Some {
                Err(SocketError::Server(frame.error->0))
            } else if frame.channel is Some {
                Ok(frame.channel->0)
            } else {
                Err(SocketError::UnexpectedReply)
            },
        },
{
    match reply {
        Err(reason) => Err(reason),
        Ok(frame) => {
            if let Some(error) = frame.error {
                Err(SocketError::Server(error))
            } else if let Some(payload) = frame.channel {
                Ok(payload)
            } else {
                Err(SocketError::UnexpectedReply)
            }
        },
    }
}

/// Reads a matchmaker ticket out of what a caller was woken with.
pub fn expect_matchmaker_ticket(reply: Reply) -> (result: Result<MatchmakerTicket, SocketError>)
    ensures
        result == match reply {
            Err(reason) => Err(reason),
            Ok(frame) => if frame.error is Some {
                Err(SocketError::Server(frame.error->0))
            } else if frame.matchmaker_ticket is Some {
                Ok(frame.matchmaker_ticket->0)
            } else {
                Err(SocketError::UnexpectedReply)
            },
        },
{
    match reply {
        Err(reason) => Err(reason),
        Ok(frame) => {
            if let Some(error) = frame.error {
                Err(SocketError::Server(error))
            } else if let Some(payload) = frame.matchmaker_ticket {
                Ok(payload)
            } else {
                Err(SocketError::UnexpectedReply)
            }
        },
    }
}

/// Reads a party's matchmaker ticket out of what a caller was woken with.
pub fn expect_party_matchmaker_ticket(reply: Reply) -> (result: Result<PartyMatchmakerTicket, SocketError>)
    ensures
        result == match reply {
            Err(reason) => Err(reason),
            Ok(frame) => if frame.error is Some {
                Err(SocketError::Server(frame.error->0))
            } else if frame.party_matchmaker_ticket is Some {
                Ok(frame.party_matchmaker_ticket->0)
            } else {
                Err(SocketError::UnexpectedReply)
            },
        },
{
    match reply {
        Err(reason) => Err(reason),
        Ok(frame) => {
            if let Some(error) = frame.error {
                Err(SocketError::Server(error))
            } else if let Some(payload) = frame.party_matchmaker_ticket {
                Ok(payload)
            } else {
                Err(SocketError::UnexpectedReply)
            }
        },
    }
}

/// Reads a party out of what a caller was woken with.
pub fn expect_party(reply: Reply) -> (result: Result<Party, SocketError>)
    ensures
        result == match reply {
            Err(reason) => Err(reason),
            Ok(frame) => if frame.error is Some {
                Err(SocketError::Server(frame.error->0))
            } else if frame.party is Some {
                Ok(frame.party->0)
            } else {
                Err(SocketError::UnexpectedReply)
            },
        },
{
    match reply {
        Err(reason) => Err(reason),
        Ok(frame) => {
            if let Some(error) = frame.error {
                Err(SocketError::Server(error))
            } else if let Some(payload) = frame.party {
                Ok(payload)
            } else {
                Err(SocketError::UnexpectedReply)
            }
        },
    }
}

/// Reads the presences of the followed users out of what a caller was woken with.
pub fn expect_status(reply: Reply) -> (result: Result<Status, SocketError>)
    ensures
        result == match reply {
            Err(reason) => Err(reason),
            Ok(frame) => if frame.error is Some {
                Err(SocketError::Server(frame.error->0))
            } else if frame.status is Some {
                Ok(frame.status->0)
            } else {
                Err(SocketError::UnexpectedReply)
            },
        },
{
    match reply {
        Err(reason) => Err(reason),
        Ok(frame) => {
            if let Some(error) = frame.error {
                Err(SocketError::Server(error))
            } else if let Some(payload) = frame.status {
                Ok(payload)
            } else {
                Err(SocketError::UnexpectedReply)
            }
        },
    }
}

/// Reads the requests to join a party out of what a caller was woken with.
pub fn expect_party_join_request(reply: Reply) -> (result: Result<PartyJoinRequest, SocketError>)
    ensures
        result == match reply {
            Err(reason) => Err(reason),
            Ok(frame) => if frame.error is Some {
                Err(SocketError::Server(frame.error->0))
            } else if frame.party_join_request is Some {
                Ok(frame.party_join_request->0)
            } else {
                Err(SocketError::UnexpectedReply)
            },
        },
{
    match reply {
        Err(reason) => Err(reason),
        Ok(frame) => {
            if let Some(error) = frame.error {
                Err(SocketError::Server(error))
            } else if let Some(payload) = frame.party_join_request {
                Ok(payload)
            } else {
                Err(SocketError::UnexpectedReply)
            }
        },
    }
}

/// Reads the acknowledgement of a chat message out of what a caller was woken with.
pub fn expect_channel_message_ack(reply: Reply) -> (result: Result<ChannelMessageAck, SocketError>)
    ensures
        result == match reply {
            Err(reason) => Err(reason),
            Ok(frame) => if frame.error is Some {
                Err(SocketError::Server(frame.error->0))
            } else if frame.channel_message_ack is Some {
                Ok(frame.channel_message_ack->0)
            } else {
                Err(SocketError::UnexpectedReply)
            },
        },
{
    match reply {
        Err(reason) => Err(reason),
        Ok(frame) => {
            if let Some(error) = frame.error {
                Err(SocketError::Server(error))
            } else if let Some(payload) = frame.channel_message_ack {
                Ok(payload)
            } else {
                Err(SocketError::UnexpectedReply)
            }
        },
    }
}

/// Reads the result of a remote procedure call out of what a caller was woken with.
pub fn expect_rpc(reply: Reply) -> (result: Result<ApiRpc, SocketError>)
    ensures
        result == match reply {
            Err(reason) => Err(reason),
            Ok(frame) => if frame.error is Some {
                Err(SocketError::Server(frame.error->0))
            } else if frame.rpc is Some {
                Ok(frame.rpc->0)
            } else {
                Err(SocketError::UnexpectedReply)
            },
        },
{
    match reply {
        Err(reason) => Err(reason),
        Ok(frame) => {
            if let Some(error) = frame.error {
                Err(SocketError::Server(error))
            } else if let Some(payload) = frame.rpc {
                Ok(payload)
            } else {
                Err(SocketError::UnexpectedReply)
            }
        },
    }
}

} // verus!
