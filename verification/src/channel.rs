//! Trusted declarations for the multi-producer/single-consumer channel that
//! carries log records from the sink to the application.
//!
//! Whether a send or a receive succeeds depends on the channel's state and on
//! the other endpoint, so nothing is promised of an outcome here; the callers
//! state what holds whichever way a call went.

use vstd::prelude::*;

use crate::logger::{Severity, Transmitted};

verus! {

/// Declares std::sync::mpsc::Sender so it can stand in signatures and
/// fields; its values are opaque here.
#[verifier::external_type_specification]
#[verifier::external_body]
#[verifier::reject_recursive_types(T)]
pub struct ExSender<T>(std::sync::mpsc::Sender<T>);

/// Declares std::sync::mpsc::Receiver so it can stand in signatures and
/// fields; its values are opaque here.
#[verifier::external_type_specification]
#[verifier::external_body]
#[verifier::reject_recursive_types(T)]
pub struct ExReceiver<T>(std::sync::mpsc::Receiver<T>);

/// Relies on std::sync::mpsc::Sender::send: it never blocks, and it returns
/// an error exactly when the receiving end has been dropped. Which case
/// occurs cannot be promised here.
#[verifier::external_body]
pub(crate) fn send_log(
    sender: &std::sync::mpsc::Sender<Transmitted>,
    level: Severity,
    message: String,
) -> bool {
    sender.send((level, message)).is_ok()
}

/// Relies on std::sync::mpsc::Receiver::try_recv: it never blocks, and it
/// hands back a pending message if one is queued; an empty and a
/// disconnected channel both yield nothing.
#[verifier::external_body]
pub(crate) fn try_recv_log(receiver: &std::sync::mpsc::Receiver<Transmitted>) -> Option<
    Transmitted,
> {
    receiver.try_recv().ok()
}

} // verus!
