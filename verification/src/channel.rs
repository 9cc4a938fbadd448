//! The handle through which a page hands messages to its background worker.

use vstd::prelude::*;

use futures::channel::mpsc::UnboundedSender;

verus! {

#[verifier::external_type_specification]
#[verifier::external_body]
#[verifier::reject_recursive_types(T)]
pub struct ExUnboundedSender<T>(UnboundedSender<T>);

/// Calls `futures::channel::mpsc::UnboundedSender::unbounded_send`. The
/// result tells whether the message was queued, which depends on whether
/// the receiving end is still open: nothing is claimed of it. The call
/// panics when the channel already holds the largest number of messages it
/// can count, which depends on the channel's shared state and is not stated.
#[verifier::external_body]
fn queue_message<T>(sender: &UnboundedSender<T>, msg: T) -> (queued: bool) {
    sender.unbounded_send(msg).is_ok()
}

/// Calls `Clone::clone` of `futures::channel::mpsc::UnboundedSender`: a new
/// sender to the same receiver. Nothing is claimed of the result; the call
/// panics when the channel already has the largest number of senders it can
/// count, which depends on the channel's shared state and is not stated.
#[verifier::external_body]
fn copy_sender<T>(sender: &UnboundedSender<T>) -> UnboundedSender<T> {
    sender.clone()
}

/// The sending side of a page's worker channel.
#[verifier::reject_recursive_types(T)]
pub struct CoroutineHandle<T>(pub UnboundedSender<T>);

impl<T> Clone for CoroutineHandle<T> {
    fn clone(&self) -> Self {
        CoroutineHandle(copy_sender(&self.0))
    }
}

impl<T> CoroutineHandle<T> {
    /// Hands `msg` to the worker; a message to a worker that has ended is dropped.
    pub fn send(&self, msg: T) {
        let _ = queue_message(&self.0, msg);
    }
}

} // verus!
