//! The socket: connection state, correlation ids, pending calls and event
//! handlers behind one surface.
//!
//! The socket does not own a transport.  An operation that has something
//! to send returns the envelope; what the transport reports is handed in
//! as a value.  Whoever embeds the socket moves the bytes, and waits on
//! the receiving end of the channel that a call returns.

use crate::correlation::{cid_text, cid_to_string, lemma_parse_cid_text};
use crate::dispatcher::{
    answers, dispatch, dispatch_spec, events, pending_after, pending_after_all, Dispatch,
};
use crate::envelope::decode_spec;
use crate::handlers::Handlers;
use crate::push::{PushEvent, PushKind};
use crate::registry::PendingCalls;
use crate::session::Session;
use crate::socket::{Error, WebSocketMessageEnvelope};
use oneshot::{Receiver, Sender};
use vstd::prelude::*;
use vstd::string::*;

verus! {

/// Why a call did not give the result that was asked for.
#[derive(Debug, Clone, PartialEq)]
pub enum SocketError {
    /// The socket was closed while the call was waiting.
    Closed,
    /// Every correlation id has been handed out.
    IdsExhausted,
    /// A call is already waiting under the id that this call was given.
    DuplicateId,
    /// The reply holds neither the payload that answers the request nor an
    /// error.
    UnexpectedReply,
    /// The server answered with an error.
    Server(Error),
}

/// What a waiting caller is woken with.
pub type Reply = Result<WebSocketMessageEnvelope, SocketError>;

/// Where the connection stands.
#[derive(Debug, Clone, Copy, PartialEq, Eq)]
pub enum ConnectionState {
    Disconnected,
    Connecting,
    Connected,
    Closed,
}

/// A call that has been registered and is ready to be sent.
pub struct Call {
    /// The correlation id of the call.
    pub cid: i64,
    /// The frame to send.
    pub envelope: WebSocketMessageEnvelope,
    /// Where the reply, or the reason why there is none, will arrive.
    pub reply: Receiver<Reply>,
}

/// What the transport is to be asked for when a connection is opened.
#[derive(Debug, Clone, PartialEq)]
pub struct ConnectRequest {
    pub address: String,
    pub timeout: i32,
}

/// The result of asking for a connection.
pub struct Connect {
    /// What to ask of the transport; `None` if nothing is to be asked,
    /// because a connection is there or on its way.
    pub request: Option<ConnectRequest>,
    /// Fires once the connection is there.
    pub connected: Receiver<()>,
}

/// What the transport handed up.
#[derive(Debug, Clone, PartialEq)]
pub enum Received {
    /// A frame that could be read.
    Envelope(WebSocketMessageEnvelope),
    /// Text that is no frame.
    Malformed,
    /// An error of the transport in place of a frame.
    TransportError,
}

impl Received {
    /// Reads what the transport handed up as text: a frame if the text is
    /// the JSON of one, and [`Received::Malformed`] otherwise.
    pub fn decode(text: &str) -> (received: Received)
        ensures
            match received {
                Received::Envelope(frame) => decode_spec(text@) == Some(frame.deep_view()),
                Received::Malformed => decode_spec(text@) is None,
                Received::TransportError => false,
            },
    {
        match WebSocketMessageEnvelope::decode(text) {
            Ok(frame) => Received::Envelope(frame),
            Err(_) => Received::Malformed,
        }
    }
}

/// What became of something that the transport handed up.
#[derive(Debug, Clone, PartialEq)]
pub enum Outcome {
    /// It answered the call `id`.  `woken` tells whether the caller was
    /// still waiting for it.
    Resolved { id: i64, woken: bool },
    /// It is an event for the handler of its kind.
    Event(PushEvent),
    /// It was for nobody.
    Dropped,
}

/// The address to connect to.
pub open spec fn connect_address_spec(appear_online: bool, token: Seq<char>) -> Seq<char> {
    "ws://127.0.0.1:7350/ws?lang=en&status="@ + (if appear_online {
        "true"@
    } else {
        "false"@
    }) + "&token="@ + token
}

/// The address to connect to: the server's socket endpoint, with whether
/// the user wants to appear online and the session's token as parameters.
pub fn connect_address(appear_online: bool, token: &str) -> (address: String)
    ensures
        address@ == connect_address_spec(appear_online, token@),
{
    let mut address = String::from_str("ws://127.0.0.1:7350/ws?lang=en&status=");
    if appear_online {
        address.append("true");
    } else {
        address.append("false");
    }
    address.append("&token=");
    address.append(token);
    assert(address@ =~= connect_address_spec(appear_online, token@));
    address
}

/// Whether every id in `ids` was handed out before or as `last`: the first
/// id that a socket hands out is 2, and each next one is one more.
pub open spec fn handed_out(ids: Set<i64>, last: i64) -> bool {
    forall|id: i64| #[trigger] ids.contains(id) ==> 1 < id <= last
}

/// What the callers and the transport's delivery path share.
pub struct SharedState {
    cid: i64,
    connected: Vec<Sender<()>>,
    responses: PendingCalls<Sender<Reply>>,
}

/// The socket.  `H` is whatever the embedding program registers as a
/// handler.
pub struct WebSocket<H> {
    connection: ConnectionState,
    shared_state: SharedState,
    handlers: Handlers<H>,
}

impl<H> WebSocket<H> {
    /// The correlation id that was handed out last.
    pub closed spec fn last_cid(&self) -> i64 {
        self.shared_state.cid
    }

    /// The calls that wait for a reply, each with the sender that wakes it.
    pub closed spec fn pending(&self) -> Map<i64, Sender<Reply>> {
        self.shared_state.responses@
    }

    /// The callers that wait for the connection.
    pub closed spec fn connect_waiters(&self) -> Seq<Sender<()>> {
        self.shared_state.connected@
    }

    /// Where the connection stands.
    pub closed spec fn connection(&self) -> ConnectionState {
        self.connection
    }

    /// The registered handlers.
    pub closed spec fn handlers(&self) -> Map<PushKind, H> {
        self.handlers@
    }

    /// What holds of a socket from `new` on: the pending calls carry ids
    /// that were handed out, and callers wait for a connection only while
    /// one is on its way.
    pub open spec fn wf(&self) -> bool {
        &&& self.last_cid() >= 1
        &&& handed_out(self.pending().dom(), self.last_cid())
        &&& self.connect_waiters().len() > 0 ==> self.connection() == ConnectionState::Connecting
    }

    /// Whether `self` differs from `before` at most in its pending calls.
    pub open spec fn same_but_pending(&self, before: &Self) -> bool {
        &&& self.last_cid() == before.last_cid()
        &&& self.connect_waiters() == before.connect_waiters()
        &&& self.connection() == before.connection()
        &&& self.handlers() == before.handlers()
    }

    /// A socket that is not connected, has handed out no id, and has no
    /// handlers.
    pub fn new() -> (socket: Self)
        ensures
            socket.wf(),
            socket.connection() == ConnectionState::Disconnected,
            socket.last_cid() == 1,
            socket.pending() == Map::<i64, Sender<Reply>>::empty(),
            socket.connect_waiters().len() == 0,
            socket.handlers() == Map::<PushKind, H>::empty(),
    {
        WebSocket {
            connection: ConnectionState::Disconnected,
            shared_state: SharedState {
                cid: 1,
                connected: Vec::new(),
                responses: PendingCalls::new(),
            },
            handlers: Handlers::new(),
        }
    }

    /// Where the connection stands.
    pub fn state(&self) -> (state: ConnectionState)
        ensures
            state == self.connection(),
    {
        self.connection
    }

    /// How many calls wait for a reply.
    pub fn pending_calls(&self) -> (n: usize)
        ensures
            n == self.pending().len(),
    {
        self.shared_state.responses.len()
    }

    /// Whether a call waits for a reply under `id`.
    pub fn is_pending(&self, id: i64) -> (pending: bool)
        ensures
            pending == self.pending().contains_key(id),
    {
        self.shared_state.responses.is_pending(id)
    }

    /// Makes `handler` the handler of events of `kind`, in place of the
    /// one that was registered, if any.  Nothing else changes.
    pub fn on_received(&mut self, kind: PushKind, handler: H)
        ensures
            final(self).handlers() == old(self).handlers().insert(kind, handler),
            final(self).last_cid() == old(self).last_cid(),
            final(self).pending() == old(self).pending(),
            final(self).connect_waiters() == old(self).connect_waiters(),
            final(self).connection() == old(self).connection(),
    {
        self.handlers.register(kind, handler);
    }

    /// The handler of events of `kind`, if one is registered.
    pub fn handler(&self, kind: PushKind) -> (handler: Option<&H>)
        ensures
            handler == if self.handlers().contains_key(kind) {
                Some(&self.handlers()[kind])
            } else {
                None
            },
    {
        self.handlers.get(kind)
    }

    /// Takes in one thing that the transport handed up.
    ///
    /// A frame that answers a pending call wakes the caller with it, and
    /// the call stops being pending.  A frame that is an event comes back
    /// as such if its kind has a handler.  Anything else is dropped, and
    /// leaves the socket as it was.
    pub fn handle_message(&mut self, received: Received) -> (outcome: Outcome)
        ensures
            final(self).same_but_pending(old(self)),
            old(self).wf() ==> final(self).wf(),
            match received {
                Received::Envelope(frame) => {
                    &&& final(self).pending() == pending_after(old(self).pending(), frame)
                    &&& match dispatch_spec(old(self).pending(), old(self).handlers(), frame) {
                        Dispatch::Resolve { id, .. } => outcome matches Outcome::Resolved {
                            id: answered,
                            ..
                        } && answered == id,
                        Dispatch::Deliver { event, .. } => outcome == Outcome::Event(event),
                        Dispatch::Drop => outcome == Outcome::Dropped,
                    }
                },
                _ => final(self).pending() == old(self).pending() && outcome == Outcome::Dropped,
            },
    {
        match received {
            Received::Envelope(frame) => {
                match dispatch(&mut self.shared_state.responses, &self.handlers, frame) {
                    Dispatch::Resolve { id, waiter, reply } => {
                        let sent = waiter.send(Ok(reply));
                        Outcome::Resolved { id, woken: sent.is_ok() }
                    },
                    Dispatch::Deliver { handler: _, event } => Outcome::Event(event),
                    Dispatch::Drop => Outcome::Dropped,
                }
            },
            _ => Outcome::Dropped,
        }
    }

    /// Takes in what the transport had buffered, in the order in which it
    /// arrived, and returns the events that are to go to their handlers,
    /// in that order.  Replies wake their callers on the way.
    pub fn tick(&mut self, frames: Vec<Received>) -> (delivered: Vec<PushEvent>)
        ensures
            final(self).same_but_pending(old(self)),
            old(self).wf() ==> final(self).wf(),
            final(self).pending() == pending_after_all(old(self).pending(), envelopes(frames@)),
            delivered@ == events(old(self).pending(), old(self).handlers(), envelopes(frames@)),
    {
        let ghost all = frames@;
        let mut delivered: Vec<PushEvent> = Vec::new();
        for received in it: frames
            invariant
                it.seq() == all,
                self.same_but_pending(old(self)),
                old(self).wf() ==> self.wf(),
                self.pending() == pending_after_all(
                    old(self).pending(),
                    envelopes(all.take(it.index())),
                ),
                delivered@ == events(
                    old(self).pending(),
                    old(self).handlers(),
                    envelopes(all.take(it.index())),
                ),
        {
            proof {
                let shorter = all.take(it.index());
                let longer = all.take(it.index() + 1);
                assert(longer.drop_last() =~= shorter);
                assert(longer.last() == received);
                if received is Envelope {
                    assert(envelopes(longer).drop_last() =~= envelopes(shorter));
                    assert(envelopes(longer).last() == received->Envelope_0);
                }
            }
            match self.handle_message(received) {
                Outcome::Event(event) => {
                    delivered.push(event);
                },
                _ => {},
            }
        }
        assert(all.take(all.len() as int) =~= all);
        delivered
    }

    /// Asks for a connection on behalf of one caller.
    ///
    /// From `Disconnected` or `Closed` the socket starts connecting, and
    /// the result holds what to ask of the transport.  While connecting,
    /// the caller joins those that wait.  Once connected, the caller is
    /// told at once, and nothing else happens.
    pub fn connect(&mut self, session: &Session, appear_online: bool, connect_timeout: i32) -> (connect:
        Connect)
        ensures
            old(self).wf() ==> final(self).wf(),
            final(self).last_cid() == old(self).last_cid(),
            final(self).pending() == old(self).pending(),
            final(self).handlers() == old(self).handlers(),
            match old(self).connection() {
                ConnectionState::Connected => {
                    &&& connect.request is None
                    &&& final(self).connection() == ConnectionState::Connected
                    &&& final(self).connect_waiters() == old(self).connect_waiters()
                },
                ConnectionState::Connecting => {
                    &&& connect.request is None
                    &&& final(self).connection() == ConnectionState::Connecting
                    &&& final(self).connect_waiters().len() == old(self).connect_waiters().len() + 1
                    &&& final(self).connect_waiters().drop_last() == old(self).connect_waiters()
                },
                _ => {
                    &&& connect.request matches Some(request) && request.timeout == connect_timeout
                        && request.address@ == connect_address_spec(
                        appear_online,
                        session.auth_token@,
                    )
                    &&& final(self).connection() == ConnectionState::Connecting
                    &&& final(self).connect_waiters().len() == old(self).connect_waiters().len() + 1
                    &&& final(self).connect_waiters().drop_last() == old(self).connect_waiters()
                },
            },
    {
        let (sender, connected) = oneshot::channel::<()>();
        match self.connection {
            ConnectionState::Connected => {
                let _ = sender.send(());
                Connect { request: None, connected }
            },
            ConnectionState::Connecting => {
                self.shared_state.connected.push(sender);
                assert(self.shared_state.connected@.drop_last() =~= old(
                    self,
                ).shared_state.connected@);
                Connect { request: None, connected }
            },
            _ => {
                self.connection = ConnectionState::Connecting;
                self.shared_state.connected.push(sender);
                assert(self.shared_state.connected@.drop_last() =~= old(
                    self,
                ).shared_state.connected@);
                let address = connect_address(appear_online, session.auth_token.as_str());
                Connect {
                    request: Some(ConnectRequest { address, timeout: connect_timeout }),
                    connected,
                }
            },
        }
    }

    /// Takes in the transport's report that the connection is there.
    ///
    /// If the socket was connecting, it is connected now, and every caller
    /// that waited for the connection is told so; the result is how many
    /// there were.  In any other state the report changes nothing.
    pub fn on_connected(&mut self) -> (woken: usize)
        ensures
            old(self).wf() ==> final(self).wf(),
            final(self).last_cid() == old(self).last_cid(),
            final(self).pending() == old(self).pending(),
            final(self).handlers() == old(self).handlers(),
            if old(self).connection() == ConnectionState::Connecting {
                &&& final(self).connection() == ConnectionState::Connected
                &&& final(self).connect_waiters().len() == 0
                &&& woken == old(self).connect_waiters().len()
            } else {
                &&& final(self).connection() == old(self).connection()
                &&& final(self).connect_waiters() == old(self).connect_waiters()
                &&& woken == 0
            },
    {
        match self.connection {
            ConnectionState::Connecting => {
                self.connection = ConnectionState::Connected;
                let ghost before = *self;
                let waiting: usize = self.shared_state.connected.len();
                let mut woken: usize = 0;
                loop
                    invariant
                        self.connection == before.connection,
                        self.shared_state.cid == before.shared_state.cid,
                        self.shared_state.responses == before.shared_state.responses,
                        self.handlers == before.handlers,
                        woken + self.shared_state.connected@.len() == waiting,
                    ensures
                        self.shared_state.connected@.len() == 0,
                    decreases self.shared_state.connected@.len(),
                {
                    match self.shared_state.connected.pop() {
                        Some(sender) => {
                            let _ = sender.send(());
                            woken = woken + 1;
                        },
                        None => {
                            break ;
                        },
                    }
                }
                woken
            },
            _ => 0,
        }
    }

    /// Closes the socket.
    ///
    /// Every call that waited for a reply is woken with
    /// [`SocketError::Closed`], and none is pending afterwards; the result
    /// is how many there were.  Callers that waited for the connection are
    /// let go: their channels are dropped.  Ids that were handed out stay
    /// used, and the handlers stay registered.
    pub fn close(&mut self) -> (cancelled: usize)
        ensures
            old(self).wf() ==> final(self).wf(),
            final(self).connection() == ConnectionState::Closed,
            final(self).pending() == Map::<i64, Sender<Reply>>::empty(),
            final(self).connect_waiters().len() == 0,
            final(self).last_cid() == old(self).last_cid(),
            final(self).handlers() == old(self).handlers(),
            cancelled == old(self).pending().len(),
    {
        self.connection = ConnectionState::Closed;
        self.shared_state.connected.clear();
        let mut waiters = self.shared_state.responses.cancel_all();
        let cancelled = waiters.len();
        loop
            invariant
                waiters@.len() <= cancelled,
            decreases waiters@.len(),
        {
            match waiters.pop() {
                Some((_, waiter)) => {
                    let _ = waiter.send(Err(SocketError::Closed));
                },
                None => {
                    break ;
                },
            }
        }
        cancelled
    }

    /// Takes in the transport's report that the connection is gone: the
    /// socket is closed, as by [`WebSocket::close`].
    pub fn on_closed(&mut self) -> (cancelled: usize)
        ensures
            old(self).wf() ==> final(self).wf(),
            final(self).connection() == ConnectionState::Closed,
            final(self).pending() == Map::<i64, Sender<Reply>>::empty(),
            final(self).connect_waiters().len() == 0,
            final(self).last_cid() == old(self).last_cid(),
            final(self).handlers() == old(self).handlers(),
            cancelled == old(self).pending().len(),
    {
        self.close()
    }

    /// What a call that got its id did to the socket: `self` is the socket
    /// before, `after` the socket after.
    pub open spec fn call_begun(&self, after: &Self, call: &Call) -> bool {
        &&& self.last_cid() < i64::MAX
        &&& call.cid == self.last_cid() + 1
        &&& !self.pending().contains_key(call.cid)
        &&& after.last_cid() == call.cid
        &&& after.pending().dom() == self.pending().dom().insert(call.cid)
        &&& forall|id: i64| #[trigger]
            self.pending().contains_key(id) ==> after.pending()[id] == self.pending()[id]
        &&& after.connect_waiters() == self.connect_waiters()
        &&& after.connection() == self.connection()
        &&& after.handlers() == self.handlers()
        &&& call.envelope.cid matches Some(text) && text@ == cid_text(call.cid as int)
    }

    /// What a call that got no id did to the socket, and why it got none.
    pub open spec fn call_refused(&self, after: &Self, error: SocketError) -> bool {
        &&& after.pending() == self.pending()
        &&& after.connect_waiters() == self.connect_waiters()
        &&& after.connection() == self.connection()
        &&& after.handlers() == self.handlers()
        &&& if self.last_cid() == i64::MAX {
            error == SocketError::IdsExhausted && after.last_cid() == self.last_cid()
        } else {
            &&& error == SocketError::DuplicateId
            &&& after.last_cid() == self.last_cid() + 1
            &&& self.pending().contains_key(after.last_cid())
        }
    }

    /// Whether `outcome` is what beginning a call comes to: either the call
    /// got the next id and was registered under it, or it was refused.  A
    /// socket that is as `new` and its operations leave it refuses a call
    /// only once the ids have run out.
    pub open spec fn begins(&self, after: &Self, outcome: Result<Call, SocketError>) -> bool {
        &&& self.wf() ==> after.wf()
        &&& self.wf() && self.last_cid() < i64::MAX ==> outcome is Ok
        &&& match outcome {
            Ok(call) => self.call_begun(after, &call),
            Err(error) => self.call_refused(after, error),
        }
    }

    /// A frame that carries the id of a call that has begun answers that
    /// call: it is dispatched to the waiter that the call left behind, and
    /// to nobody else.
    pub proof fn lemma_reply_answers_call(
        &self,
        after: &Self,
        call: &Call,
        reply: WebSocketMessageEnvelope,
    )
        requires
            self.call_begun(after, call),
            reply.cid matches Some(text) && text@ == cid_text(call.cid as int),
        ensures
            reply.correlation() == Some(call.cid),
            answers(after.pending(), reply),
            dispatch_spec(after.pending(), after.handlers(), reply) matches Dispatch::Resolve {
                id,
                waiter,
                reply: handed,
            } && id == call.cid && waiter == after.pending()[call.cid] && handed == reply,
            pending_after(after.pending(), reply) == self.pending(),
    {
        lemma_parse_cid_text(call.cid);
        assert(after.pending().dom().contains(call.cid));
        assert(after.pending().remove(call.cid) =~= self.pending());
    }

    /// Gives `request` the next correlation id and registers a waiter for
    /// the reply.  The frame of the call is `request` with that id.
    pub fn begin_call(&mut self, request: WebSocketMessageEnvelope) -> (outcome: Result<
        Call,
        SocketError,
    >)
        ensures
            old(self).begins(final(self), outcome),
            outcome matches Ok(call) ==> call.envelope == (WebSocketMessageEnvelope {
                cid: call.envelope.cid,
                ..request
            }),
    {
        if self.shared_state.cid == i64::MAX {
            return Err(SocketError::IdsExhausted);
        }
        let cid: i64 = self.shared_state.cid + 1;
        self.shared_state.cid = cid;
        let (sender, reply) = oneshot::channel::<Reply>();
        match self.shared_state.responses.register(cid, sender) {
            Ok(()) => {
                let mut envelope = request;
                envelope.cid = Some(cid_to_string(cid));
                Ok(Call { cid, envelope, reply })
            },
            Err(_) => Err(SocketError::DuplicateId),
        }
    }
}

/// The frames among what the transport handed up, in order.
pub open spec fn envelopes(frames: Seq<Received>) -> Seq<WebSocketMessageEnvelope>
    decreases frames.len(),
{
    if frames.len() == 0 {
        Seq::empty()
    } else {
        match frames.last() {
            Received::Envelope(frame) => envelopes(frames.drop_last()).push(frame),
            _ => envelopes(frames.drop_last()),
        }
    }
}

} // verus!
