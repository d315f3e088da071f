use vstd::prelude::*;

verus! {

/// The sending half of the one-way channels through which decoded packet
/// batches and heartbeat events are handed to downstream collaborators.
#[verifier::external_type_specification]
#[verifier::external_body]
#[verifier::reject_recursive_types(T)]
pub struct ExSender<T>(crossbeam_channel::Sender<T>);

/// The error a send returns when the receiving end is gone; it hands the
/// unsent message back.
#[verifier::external_type_specification]
#[verifier::reject_recursive_types(T)]
pub struct ExSendError<T>(crossbeam_channel::SendError<T>);

/// Relies on crossbeam_channel::Sender::send: it fails only when the
/// channel is disconnected, and then returns the message unchanged.
/// Whether the receiver is still connected depends on the other side, so
/// nothing more can be promised of the outcome.
pub assume_specification<T>[ crossbeam_channel::Sender::<T>::send ](
    sender: &crossbeam_channel::Sender<T>,
    msg: T,
) -> (r: Result<(), crossbeam_channel::SendError<T>>)
    ensures
        r matches Err(e) ==> e.0 == msg,
;

} // verus!
