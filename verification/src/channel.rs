//! The rendezvous channel carrying commands to the worker and the reply
//! channel carrying messages back, behind trusted declarations and wrappers.

use vstd::prelude::*;

use crate::protocol::Message;
use crate::protocol::Request;

verus! {

#[verifier::external_type_specification]
#[verifier::external_body]
#[verifier::reject_recursive_types(T)]
pub struct ExSender<T>(crossbeam_channel::Sender<T>);

#[verifier::external_type_specification]
#[verifier::external_body]
#[verifier::reject_recursive_types(T)]
pub struct ExReceiver<T>(crossbeam_channel::Receiver<T>);

/// Relies on `crossbeam_channel::bounded` with capacity zero: a rendezvous
/// channel, where a send completes only once a receive accepts it, so the
/// caller can never run ahead of the worker.
#[verifier::external_body]
pub fn request_channel() -> (r: (
    crossbeam_channel::Sender<Request>,
    crossbeam_channel::Receiver<Request>,
)) {
    crossbeam_channel::bounded(0)
}

/// Relies on `crossbeam_channel::unbounded`: a queue the worker can always
/// push replies into without waiting on the caller.
#[verifier::external_body]
pub fn message_channel() -> (r: (
    crossbeam_channel::Sender<Message>,
    crossbeam_channel::Receiver<Message>,
)) {
    crossbeam_channel::unbounded()
}

/// Relies on `crossbeam_channel::Sender::send`: the request is delivered
/// unless every receiver is gone, and a failed send hands the request back
/// unchanged.
#[verifier::external_body]
pub fn send_request(s: &crossbeam_channel::Sender<Request>, req: Request) -> (r: Result<
    (),
    Request,
>)
    ensures
        r matches Err(q) ==> q == req,
{
    match s.send(req) {
        Ok(()) => Ok(()),
        Err(crossbeam_channel::SendError(q)) => Err(q),
    }
}

/// Relies on `crossbeam_channel::Sender::send`: the message is delivered
/// unless every receiver is gone, and a failed send hands the message back
/// unchanged.
#[verifier::external_body]
pub fn send_message(s: &crossbeam_channel::Sender<Message>, msg: Message) -> (r: Result<
    (),
    Message,
>)
    ensures
        r matches Err(m) ==> m == msg,
{
    match s.send(msg) {
        Ok(()) => Ok(()),
        Err(crossbeam_channel::SendError(m)) => Err(m),
    }
}

/// Relies on `crossbeam_channel::Receiver::recv`: blocks until a request
/// arrives, and returns `None` only when the channel is empty and every
/// sender is gone.
#[verifier::external_body]
pub fn recv_request(r: &crossbeam_channel::Receiver<Request>) -> (res: Option<Request>) {
    match r.recv() {
        Ok(q) => Some(q),
        Err(_) => None,
    }
}

} // verus!
