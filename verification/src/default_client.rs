//! What the client does with sessions.
//!
//! The server's answer to an authentication becomes a [`Session`].  A
//! session is renewed in two steps around one request: the refresh token
//! is taken out and sent, and the answer replaces the session's tokens.

use crate::api::ApiSession;
use crate::session::Session;
use vstd::prelude::*;

verus! {

/// The body of an answer in which the server refuses a request.
#[derive(Debug, Clone, Default, PartialEq)]
pub struct ClientError {
    pub error: String,
    pub code: i32,
    pub message: String,
}

/// The key that a server accepts unless it was given another.
pub fn default_server_key() -> (key: String)
    ensures
        key@ == "defaultkey"@,
{
    "defaultkey".to_owned()
}

/// The refresh token of a session that holds `refresh_token`: none if the
/// text is empty.
pub open spec fn refresh_token_spec(refresh_token: String) -> Option<String> {
    if refresh_token@.len() == 0 {
        None
    } else {
        Some(refresh_token)
    }
}

/// Turns the server's answer to an authentication into a session.
pub fn map_session(api_session: ApiSession) -> (session: Session)
    ensures
        session.auth_token == api_session.token,
        session.refresh_token == refresh_token_spec(api_session.refresh_token),
{
    let refresh_token = if api_session.refresh_token.as_str().is_empty() {
        None
    } else {
        Some(api_session.refresh_token)
    };
    Session { auth_token: api_session.token, refresh_token }
}

/// Starts renewing `session`: takes its refresh token out, to be sent
/// to the server.  Without a refresh token there is nothing to renew, and
/// the session stays as it is.
pub fn begin_refresh(session: &mut Session) -> (token: Option<String>)
    ensures
        token == old(session).refresh_token,
        final(session).refresh_token is None,
        final(session).auth_token == old(session).auth_token,
{
    session.refresh_token.take()
}

/// Finishes renewing `session` with the server's answer: both tokens are
/// replaced.
pub fn finish_refresh(session: &mut Session, refreshed: ApiSession)
    ensures
        final(session).auth_token == refreshed.token,
        final(session).refresh_token == refresh_token_spec(refreshed.refresh_token),
{
    let renewed = map_session(refreshed);
    session.auth_token = renewed.auth_token;
    session.refresh_token = renewed.refresh_token;
}

} // verus!
