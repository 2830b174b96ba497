//! Output ports: the sending ends of crossbeam channels.
//!
//! What stands here is believed, not proved.

use vstd::prelude::*;
use crossbeam::channel::{Sender, TrySendError};
use crate::model::SendOutcome;

verus! {

/// The sending end of a crossbeam channel. Nothing inside it is visible to the proofs.
#[verifier::external_type_specification]
#[verifier::external_body]
#[verifier::reject_recursive_types(T)]
pub struct ExSender<T>(Sender<T>);

/// Calls `Sender::try_send`, which hands the message to the channel without blocking, and
/// tells its three answers apart. Which answer comes back depends on the receiving end
/// and on the room in the queue, so nothing is claimed of it.
#[verifier::external_body]
pub(crate) fn try_send<T>(port: &Sender<T>, message: T) -> (outcome: SendOutcome) {
    match port.try_send(message) {
        Ok(()) => SendOutcome::Sent,
        Err(TrySendError::Full(_)) => SendOutcome::Full,
        Err(TrySendError::Disconnected(_)) => SendOutcome::Disconnected,
    }
}

} // verus!
