//! Client-side core of a game backend's realtime channel.
//!
//! One duplex connection carries many independent operations as JSON text
//! frames.  This crate holds the part that decides: which correlation id a
//! request gets, which waiting caller a reply belongs to, which handler an
//! unsolicited event goes to, and what every frame looks like as text.
//! Moving the text, locking and suspending callers are left to the
//! embedding program.
//!
//! The modules, from the wire up:
//!
//! - [`json`] reads and writes JSON, [`wire`] and [`properties`] hold what
//!   every record is written from, [`codec`] writes and reads each record,
//!   and [`envelope`] the frame around them;
//! - [`correlation`] fixes the text of correlation ids, [`registry`] keeps
//!   the calls that wait, [`handlers`] the handlers of events, and
//!   [`dispatcher`] sends each inbound frame to one or the other;
//! - [`web_socket`] is the socket itself, with its operations in [`calls`],
//!   [`sends`], [`reply`] and [`events`];
//! - [`http_adapter`] and [`default_client`] hold what the HTTP client
//!   computes before and after a request.

pub mod api;
pub mod calls;
pub mod codec;
pub mod correlation;
pub mod default_client;
pub mod dispatcher;
pub mod envelope;
pub mod events;
pub mod handlers;
pub mod http_adapter;
pub mod json;
pub mod properties;
pub mod push;
pub mod registry;
pub mod reply;
pub mod sends;
pub mod session;
pub mod socket;
pub mod waiter;
pub mod web_socket;
pub mod web_socket_adapter;
pub mod wire;
