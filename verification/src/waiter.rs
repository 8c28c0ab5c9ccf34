//! The single-use channels that wake suspended callers.
//!
//! A caller that has to wait keeps the receiving end of a `oneshot` channel
//! and leaves the sending end with the socket.  Nothing in this crate looks
//! inside either end, and nothing is claimed about what a channel does:
//! the declarations below only make the types and the two functions known
//! to the verifier.

use vstd::prelude::*;

verus! {

/// `oneshot::Sender<T>`, the end of a channel that sends its one message.
/// Opaque: no property of a sender is stated.
#[verifier::external_type_specification]
#[verifier::external_body]
#[verifier::reject_recursive_types(T)]
pub struct ExSender<T>(oneshot::Sender<T>);

/// `oneshot::Receiver<T>`, the end of a channel that its owner waits on.
/// Opaque: no property of a receiver is stated.
#[verifier::external_type_specification]
#[verifier::external_body]
#[verifier::reject_recursive_types(T)]
pub struct ExReceiver<T>(oneshot::Receiver<T>);

/// `oneshot::SendError<T>`, which `send` returns when the receiver is gone.
/// Opaque: it is only ever dropped.
#[verifier::external_type_specification]
#[verifier::external_body]
#[verifier::reject_recursive_types(T)]
pub struct ExSendError<T>(oneshot::SendError<T>);

/// `oneshot::RecvError`, with which a receiver stops waiting when its
/// sender was dropped without sending.  Opaque; it is named here because
/// the receiver's type mentions it.
#[verifier::external_type_specification]
#[verifier::external_body]
pub struct ExRecvError(oneshot::RecvError);

/// `oneshot::channel` makes the two ends of a new channel.  Nothing is
/// claimed about them.
pub assume_specification<T>[ oneshot::channel::<T> ]() -> (ends: (
    oneshot::Sender<T>,
    oneshot::Receiver<T>,
));

/// `oneshot::Sender::send` uses up the sender to pass `message` on.  It
/// fails when the receiver has been dropped; whether it has is not known
/// here, so nothing is claimed about the result.
pub assume_specification<T>[ oneshot::Sender::<T>::send ](
    sender: oneshot::Sender<T>,
    message: T,
) -> (sent: Result<(), oneshot::SendError<T>>);

} // verus!
