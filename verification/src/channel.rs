//! Trusted boundary around tokio's unbounded multi-producer,
//! single-consumer channel. The dispatcher and the logger both funnel
//! their values through such a channel; everything stated here is what
//! tokio's own source shows of these calls.

use vstd::prelude::*;

verus! {

/// tokio's send half of an unbounded channel, declared so that it can
/// stand in fields and signatures; its inside stays opaque.
#[verifier::external_type_specification]
#[verifier::external_body]
#[verifier::reject_recursive_types(T)]
pub struct ExUnboundedSender<T>(tokio::sync::mpsc::UnboundedSender<T>);

/// tokio's receive half of an unbounded channel, declared so that it can
/// stand in fields and signatures; its inside stays opaque.
#[verifier::external_type_specification]
#[verifier::external_body]
#[verifier::reject_recursive_types(T)]
pub struct ExUnboundedReceiver<T>(tokio::sync::mpsc::UnboundedReceiver<T>);

/// Relies on tokio::sync::mpsc::unbounded_channel: returns a fresh,
/// linked send/receive pair. Which values later travel between the two
/// halves is runtime state, so nothing is stated of the pair itself.
#[verifier::external_body]
pub fn make_unbounded_channel<T>() -> (
    tokio::sync::mpsc::UnboundedSender<T>,
    tokio::sync::mpsc::UnboundedReceiver<T>,
) {
    tokio::sync::mpsc::unbounded_channel()
}

/// Relies on tokio's UnboundedSender::send: the enqueue never blocks and
/// fails exactly when the receive half is gone; on failure the rejected
/// value comes back unchanged inside the error.
#[verifier::external_body]
pub fn send_on<T>(tx: &tokio::sync::mpsc::UnboundedSender<T>, value: T) -> (r: Result<(), T>)
    ensures
        r matches Err(rejected) ==> rejected == value,
{
    match tx.send(value) {
        Ok(()) => Ok(()),
        Err(tokio::sync::mpsc::error::SendError(rejected)) => Err(rejected),
    }
}

/// Relies on tokio's UnboundedReceiver::try_recv: hands out the next
/// queued value, or nothing when the queue is empty or every send half
/// is gone; at worst it waits out a send caught mid-flight. What comes
/// out is runtime state.
#[verifier::external_body]
pub fn try_recv_on<T>(rx: &mut tokio::sync::mpsc::UnboundedReceiver<T>) -> (r: Option<T>) {
    match rx.try_recv() {
        Ok(value) => Some(value),
        Err(_) => None,
    }
}

} // verus!
