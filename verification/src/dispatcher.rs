//! Where an inbound frame goes.
//!
//! A frame that answers a pending call goes to the waiter of that call.
//! Any other frame is looked at as an event: if it is one, and a handler is
//! registered for its kind, it goes to that handler.  Everything else is
//! dropped.

use crate::correlation::{parse_cid, parse_cid_spec};
use crate::handlers::Handlers;
use crate::push::{PushEvent, PushKind};
use crate::registry::PendingCalls;
use crate::socket::WebSocketMessageEnvelope;
use vstd::prelude::*;

verus! {

/// What to do with an inbound frame.
pub enum Dispatch<'a, W, H> {
    /// The frame answers the call `id`: wake `waiter` with it.
    Resolve { id: i64, waiter: W, reply: WebSocketMessageEnvelope },
    /// The frame is an event: call `handler` with it.
    Deliver { handler: &'a H, event: PushEvent },
    /// The frame is for nobody.
    Drop,
}

impl WebSocketMessageEnvelope {
    /// The correlation id that this frame carries, if its `cid` field is
    /// set and holds the text of one.
    pub open spec fn correlation(&self) -> Option<i64> {
        match self.cid {
            Some(text) => parse_cid_spec(text@),
            None => None,
        }
    }

    /// The correlation id that this frame carries, if its `cid` field is
    /// set and holds the text of one.
    pub fn correlation_id(&self) -> (id: Option<i64>)
        ensures
            id == self.correlation(),
    {
        match &self.cid {
            Some(text) => parse_cid(text.as_str()),
            None => None,
        }
    }
}

/// Whether `frame` answers a call that is pending in `pending`.
pub open spec fn answers<W>(pending: Map<i64, W>, frame: WebSocketMessageEnvelope) -> bool {
    frame.correlation() matches Some(id) && pending.contains_key(id)
}

/// Where `event` goes: to the handler of its kind, if there is one.
pub open spec fn to_handler<'a, W, H>(handlers: Map<PushKind, H>, event: PushEvent) -> Dispatch<
    'a,
    W,
    H,
> {
    if handlers.contains_key(event.spec_kind()) {
        Dispatch::Deliver { handler: &handlers[event.spec_kind()], event }
    } else {
        Dispatch::Drop
    }
}

/// What becomes of `frame`, given the pending calls and the handlers.
pub open spec fn dispatch_spec<'a, W, H>(
    pending: Map<i64, W>,
    handlers: Map<PushKind, H>,
    frame: WebSocketMessageEnvelope,
) -> Dispatch<'a, W, H> {
    if answers(pending, frame) {
        let id = frame.correlation()->0;
        Dispatch::Resolve { id, waiter: pending[id], reply: frame }
    } else {
        match frame.push_event() {
            Some(event) => to_handler(handlers, event),
            None => Dispatch::Drop,
        }
    }
}

/// The calls that are still pending once `frame` has been dispatched.
pub open spec fn pending_after<W>(pending: Map<i64, W>, frame: WebSocketMessageEnvelope) -> Map<
    i64,
    W,
> {
    if answers(pending, frame) {
        pending.remove(frame.correlation()->0)
    } else {
        pending
    }
}

/// Decides what becomes of `frame`.
///
/// If the frame answers a pending call, that call stops being pending and
/// its waiter comes out with the frame.  Otherwise no call is touched, and
/// the frame goes to the handler of its event kind or nowhere.
pub fn dispatch<'a, W, H>(
    pending: &mut PendingCalls<W>,
    handlers: &'a Handlers<H>,
    frame: WebSocketMessageEnvelope,
) -> (action: Dispatch<'a, W, H>)
    ensures
        action == dispatch_spec(old(pending)@, handlers@, frame),
        final(pending)@ == pending_after(old(pending)@, frame),
{
    if let Some(id) = frame.correlation_id() {
        if let Some(waiter) = pending.resolve(id) {
            return Dispatch::Resolve { id, waiter, reply: frame };
        }
        assert(pending@ =~= old(pending)@);
    }
    match frame.into_push_event() {
        Some(event) => match handlers.get(event.kind()) {
            Some(handler) => Dispatch::Deliver { handler, event },
            None => Dispatch::Drop,
        },
        None => Dispatch::Drop,
    }
}

/// The calls that are still pending once `frames` have been dispatched, one
/// after the other.
pub open spec fn pending_after_all<W>(
    pending: Map<i64, W>,
    frames: Seq<WebSocketMessageEnvelope>,
) -> Map<i64, W>
    decreases frames.len(),
{
    if frames.len() == 0 {
        pending
    } else {
        pending_after(pending_after_all(pending, frames.drop_last()), frames.last())
    }
}

/// The replies that dispatching `frames`, one after the other, hands out:
/// for each, the id of the call, its waiter, and the frame, in the order of
/// arrival.
pub open spec fn replies<W>(pending: Map<i64, W>, frames: Seq<WebSocketMessageEnvelope>) -> Seq<
    (i64, W, WebSocketMessageEnvelope),
>
    decreases frames.len(),
{
    if frames.len() == 0 {
        Seq::empty()
    } else {
        let earlier = replies(pending, frames.drop_last());
        let now = pending_after_all(pending, frames.drop_last());
        if answers(now, frames.last()) {
            let id = frames.last().correlation()->0;
            earlier.push((id, now[id], frames.last()))
        } else {
            earlier
        }
    }
}

/// The events that dispatching `frames`, one after the other, hands to
/// handlers, in the order of arrival.
pub open spec fn events<W, H>(
    pending: Map<i64, W>,
    handlers: Map<PushKind, H>,
    frames: Seq<WebSocketMessageEnvelope>,
) -> Seq<PushEvent>
    decreases frames.len(),
{
    if frames.len() == 0 {
        Seq::empty()
    } else {
        let earlier = events(pending, handlers, frames.drop_last());
        let now = pending_after_all(pending, frames.drop_last());
        match dispatch_spec(now, handlers, frames.last()) {
            Dispatch::Deliver { event, .. } => earlier.push(event),
            _ => earlier,
        }
    }
}

/// Whether some frame of `frames` carries the correlation id `id`.
pub open spec fn mentions(frames: Seq<WebSocketMessageEnvelope>, id: i64) -> bool {
    exists|i: int| 0 <= i < frames.len() && (#[trigger] frames[i]).correlation() == Some(id)
}

/// Dispatching frames only ever takes calls away: a call is still pending
/// afterwards exactly if it was pending before and no frame carried its id,
/// and then it still has its waiter.
pub proof fn lemma_pending_after_all<W>(
    pending: Map<i64, W>,
    frames: Seq<WebSocketMessageEnvelope>,
    id: i64,
)
    ensures
        pending_after_all(pending, frames).contains_key(id) <==> pending.contains_key(id)
            && !mentions(frames, id),
        pending_after_all(pending, frames).contains_key(id) ==> pending_after_all(
            pending,
            frames,
        )[id] == pending[id],
    decreases frames.len(),
{
    if frames.len() > 0 {
        let before = frames.drop_last();
        lemma_pending_after_all(pending, before, id);
        if mentions(before, id) {
            let i = choose|i: int|
                0 <= i < before.len() && (#[trigger] before[i]).correlation() == Some(id);
            assert(frames[i].correlation() == Some(id));
        }
        if frames.last().correlation() == Some(id) {
            assert(frames[frames.len() - 1].correlation() == Some(id));
        }
        if mentions(frames, id) && !mentions(before, id) {
            let i = choose|i: int|
                0 <= i < frames.len() && (#[trigger] frames[i]).correlation() == Some(id);
            if i < before.len() {
                assert(before[i].correlation() == Some(id));
            }
        }
    }
}

/// Every reply that is handed out goes to the waiter that was registered
/// under the id that the frame carries, and no call is answered twice.
pub proof fn lemma_replies_are_correlated<W>(
    pending: Map<i64, W>,
    frames: Seq<WebSocketMessageEnvelope>,
)
    ensures
        forall|k: int|
            0 <= k < replies(pending, frames).len() ==> {
                let reply = #[trigger] replies(pending, frames)[k];
                &&& pending.contains_key(reply.0)
                &&& reply.1 == pending[reply.0]
                &&& reply.2.correlation() == Some(reply.0)
                &&& mentions(frames, reply.0)
            },
        forall|k: int, l: int|
            0 <= k < l < replies(pending, frames).len() ==> (#[trigger] replies(
                pending,
                frames,
            )[k]).0 != (#[trigger] replies(pending, frames)[l]).0,
    decreases frames.len(),
{
    if frames.len() > 0 {
        let before = frames.drop_last();
        let earlier = replies(pending, before);
        let now = pending_after_all(pending, before);
        lemma_replies_are_correlated(pending, before);
        assert forall|k: int| 0 <= k < earlier.len() implies mentions(
            frames,
            (#[trigger] earlier[k]).0,
        ) by {
            let id = earlier[k].0;
            let i = choose|i: int|
                0 <= i < before.len() && (#[trigger] before[i]).correlation() == Some(id);
            assert(frames[i].correlation() == Some(id));
        }
        if answers(now, frames.last()) {
            let id = frames.last().correlation()->0;
            lemma_pending_after_all(pending, before, id);
            assert(frames[frames.len() - 1].correlation() == Some(id));
        }
    }
}

/// A call that is pending gets the first frame that carries its id, and
/// is no longer pending afterwards, whatever else arrives before or after
/// that frame and in whatever order.
pub proof fn lemma_call_gets_its_reply<W>(
    pending: Map<i64, W>,
    frames: Seq<WebSocketMessageEnvelope>,
    id: i64,
    i: int,
)
    requires
        pending.contains_key(id),
        0 <= i < frames.len(),
        frames[i].correlation() == Some(id),
        forall|j: int| 0 <= j < i ==> (#[trigger] frames[j]).correlation() != Some(id),
    ensures
        replies(pending, frames).contains((id, pending[id], frames[i])),
        !pending_after_all(pending, frames).contains_key(id),
    decreases frames.len(),
{
    let before = frames.drop_last();
    lemma_pending_after_all(pending, frames, id);
    if i == frames.len() - 1 {
        lemma_pending_after_all(pending, before, id);
        assert(!mentions(before, id)) by {
            if mentions(before, id) {
                let j = choose|j: int|
                    0 <= j < before.len() && (#[trigger] before[j]).correlation() == Some(id);
                assert(frames[j].correlation() == Some(id));
            }
        }
        let all = replies(pending, frames);
        assert(all[all.len() - 1] == (id, pending[id], frames[i]));
    } else {
        assert(before[i] == frames[i]);
        assert forall|j: int| 0 <= j < i implies (#[trigger] before[j]).correlation() != Some(
            id,
        ) by {
            assert(before[j] == frames[j]);
        }
        lemma_call_gets_its_reply(pending, before, id, i);
        let earlier = replies(pending, before);
        let k = choose|k: int|
            0 <= k < earlier.len() && earlier[k] == (id, pending[id], frames[i]);
        assert(replies(pending, frames)[k] == (id, pending[id], frames[i]));
    }
}

/// A frame that answers no pending call, arriving at any point among other
/// frames, changes nothing for them: the same calls get the same replies,
/// and the same calls stay pending.
pub proof fn lemma_stray_frame_changes_nothing<W>(
    pending: Map<i64, W>,
    frames: Seq<WebSocketMessageEnvelope>,
    at: int,
    stray: WebSocketMessageEnvelope,
)
    requires
        0 <= at <= frames.len(),
        !answers(pending_after_all(pending, frames.take(at)), stray),
    ensures
        pending_after_all(pending, frames.insert(at, stray)) == pending_after_all(pending, frames),
        replies(pending, frames.insert(at, stray)) == replies(pending, frames),
    decreases frames.len() - at,
{
    let with_stray = frames.insert(at, stray);
    if at == frames.len() {
        assert(frames.take(at) =~= frames);
        assert(with_stray.drop_last() =~= frames);
        assert(with_stray.last() == stray);
    } else {
        let before = frames.drop_last();
        assert(before.take(at) =~= frames.take(at));
        assert(with_stray.drop_last() =~= before.insert(at, stray));
        assert(with_stray.last() == frames.last());
        lemma_stray_frame_changes_nothing(pending, before, at, stray);
    }
}

/// An event without a correlation id goes to the handler that is
/// registered for its kind, if there is one, and nowhere else.
pub proof fn lemma_event_goes_to_its_handler<W, H>(
    pending: Map<i64, W>,
    handlers: Map<PushKind, H>,
    frame: WebSocketMessageEnvelope,
)
    requires
        frame.cid is None,
        frame.push_event() is Some,
    ensures
        dispatch_spec(pending, handlers, frame) == to_handler::<W, H>(
            handlers,
            frame.push_event()->0,
        ),
        pending_after(pending, frame) == pending,
{
}

/// Registering a handler for a kind redirects the events of that kind to
/// it, and leaves the events of every other kind where they went.
pub proof fn lemma_registration_replaces<W, H>(
    pending: Map<i64, W>,
    handlers: Map<PushKind, H>,
    kind: PushKind,
    handler: H,
    frame: WebSocketMessageEnvelope,
)
    requires
        frame.cid is None,
        frame.push_event() is Some,
    ensures
        frame.push_event()->0.spec_kind() == kind ==> (dispatch_spec(
            pending,
            handlers.insert(kind, handler),
            frame,
        ) matches Dispatch::Deliver { handler: target, event } && *target == handler && event
            == frame.push_event()->0),
        frame.push_event()->0.spec_kind() != kind ==> dispatch_spec(
            pending,
            handlers.insert(kind, handler),
            frame,
        ) == dispatch_spec(pending, handlers, frame),
{
}

} // verus!
