//! The single-slot mailbox between the worker and the driver.
//!
//! A bounded channel of capacity one carries each result across; a send
//! blocks while the previous result is still undelivered, which is the
//! backpressure that keeps the worker from racing ahead of the driver.

use vstd::prelude::*;
use crate::data::WebcamFacialData;

verus! {

#[verifier::external_type_specification]
#[verifier::external_body]
#[verifier::reject_recursive_types(T)]
pub struct ExSender<T>(crossbeam_channel::Sender<T>);

#[verifier::external_type_specification]
#[verifier::external_body]
#[verifier::reject_recursive_types(T)]
pub struct ExReceiver<T>(crossbeam_channel::Receiver<T>);

/// Relies on `crossbeam_channel::bounded` with capacity one: the endpoints
/// share a mailbox that holds at most one undelivered value — a send on a
/// full mailbox blocks until the value is taken, never overwrites it.
#[verifier::external_body]
pub(crate) fn new_mailbox() -> (endpoints: (
    crossbeam_channel::Sender<WebcamFacialData>,
    crossbeam_channel::Receiver<WebcamFacialData>,
))
{
    crossbeam_channel::bounded(1)
}

/// Relies on `crossbeam_channel::Sender::send`: blocks until the mailbox
/// has room, delivers the value exactly once, and fails only when the
/// receiver is gone, handing the undelivered value back as the error.
#[verifier::external_body]
pub(crate) fn mailbox_send(
    sender: &crossbeam_channel::Sender<WebcamFacialData>,
    data: WebcamFacialData,
) -> (r: Result<(), WebcamFacialData>)
    ensures
        r matches Err(d) ==> d == data,
{
    match sender.send(data) {
        Ok(()) => Ok(()),
        Err(crossbeam_channel::SendError(d)) => Err(d),
    }
}

/// Relies on `crossbeam_channel::Receiver::try_recv`: returns without
/// blocking, `None` when the mailbox is empty or the sender is gone.
#[verifier::external_body]
pub(crate) fn mailbox_try_recv(receiver: &crossbeam_channel::Receiver<WebcamFacialData>) -> (r:
    Option<WebcamFacialData>)
{
    receiver.try_recv().ok()
}

} // verus!
