//! The channel that carries requests and events between the node's parts.
//!
//! The channel is the bounded multi-producer, single-consumer queue of the
//! `futures` crate. Nothing is proved about it. Its state is shared with
//! other tasks, so the items below claim nothing of what a call answers:
//! verified code handles every answer.

use futures::sync::mpsc::{Receiver, Sender, TrySendError};
use vstd::prelude::*;

verus! {

/// The sending half of a channel, `futures::sync::mpsc::Sender`. Its state
/// is shared with the receiving half and is not modelled.
#[verifier::external_type_specification]
#[verifier::external_body]
#[verifier::reject_recursive_types(T)]
pub struct ExSender<T>(Sender<T>);

/// The receiving half of a channel, `futures::sync::mpsc::Receiver`.
#[verifier::external_type_specification]
#[verifier::external_body]
#[verifier::reject_recursive_types(T)]
pub struct ExReceiver<T>(Receiver<T>);

/// The error of `Sender::try_send`, `futures::sync::mpsc::TrySendError`. It
/// holds the message that was not sent.
#[verifier::external_type_specification]
#[verifier::external_body]
#[verifier::reject_recursive_types(T)]
pub struct ExTrySendError<T>(TrySendError<T>);

/// `Sender::try_send` puts a message into the channel without blocking. It
/// fails when the sender's slot is still taken by an earlier message or when
/// the receiving half is gone. Which of these happens depends on what the
/// receiving side has done, so nothing is claimed of the result. The call
/// does not wait for room. It gives up with a panic only where another
/// thread has panicked while it held the channel's lock, or where the
/// channel holds more messages than its counter can count.
pub assume_specification<T>[ Sender::<T>::try_send ](sender: &mut Sender<T>, msg: T) -> (res: Result<
    (),
    TrySendError<T>,
>);

/// `Sender::is_closed` reads whether the receiving half has closed the
/// channel or was dropped. The answer depends on what the receiving side has
/// done, so nothing is claimed of the result.
pub assume_specification<T>[ Sender::<T>::is_closed ](sender: &Sender<T>) -> (closed: bool);

} // verus!
