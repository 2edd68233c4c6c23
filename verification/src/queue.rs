//! The bounded action queue: a `futures` mpsc channel, and what the store makes
//! of the outcome of a send.

use crate::bounds::Action;
use futures::channel::mpsc::{Receiver, Sender};
use vstd::prelude::*;

verus! {

/// `futures::channel::mpsc::Sender`, the sending end of the queue, as an
/// opaque value.
#[verifier::external_type_specification]
#[verifier::external_body]
#[verifier::reject_recursive_types(T)]
pub struct ExSender<T>(Sender<T>);

/// `futures::channel::mpsc::Receiver`, the receiving end of the queue, as an
/// opaque value.
#[verifier::external_type_specification]
#[verifier::external_body]
#[verifier::reject_recursive_types(T)]
pub struct ExReceiver<T>(Receiver<T>);

/// The capacity a store's queue has when none is given.
pub const DEFAULT_CAPACITY: usize = 128;

/// Why the queue did not take an action.
#[derive(Clone, Copy, Debug, PartialEq, Eq, Structural)]
pub enum SendFailure {
    /// The sending handle has used its slot and the shared buffer is full.
    Full,
    /// The queue is closed: the store was shut down or its worker is gone.
    Disconnected,
}

/// The one failure of a dispatch that is reported to the caller.
#[derive(Clone, Copy, Debug, PartialEq, Eq, Structural)]
pub enum DispatchError {
    /// The queue is at capacity; the action was dropped.
    Full,
}

/// Whether a capacity can be asked of the queue.
pub open spec fn capacity_in_range(capacity: usize) -> bool {
    capacity < usize::MAX / 4
}

/// What a dispatch reports for a given outcome of the send.
pub open spec fn dispatch_verdict(result: Result<(), SendFailure>) -> Result<(), DispatchError> {
    match result {
        Ok(()) => Ok(()),
        Err(SendFailure::Disconnected) => Ok(()),
        Err(SendFailure::Full) => Err(DispatchError::Full),
    }
}

/// Decides what a dispatch reports: an action that was queued, or that met a
/// closed queue, is no error; only a full queue is.
pub fn handle_dispatch_result(result: Result<(), SendFailure>) -> (verdict: Result<
    (),
    DispatchError,
>)
    ensures
        verdict == dispatch_verdict(result),
        verdict is Err <==> result == Err::<(), SendFailure>(SendFailure::Full),
{
    match result {
        Ok(()) => Ok(()),
        Err(SendFailure::Disconnected) => Ok(()),
        Err(SendFailure::Full) => Err(DispatchError::Full),
    }
}

/// `futures::channel::mpsc::channel`: a bounded channel of `buffer` shared
/// slots plus one slot per sender. It panics on a `buffer` of
/// `usize::MAX >> 2` or more, which the precondition leaves out.
pub assume_specification<T>[ futures::channel::mpsc::channel::<T> ](buffer: usize) -> (ends: (
    Sender<T>,
    Receiver<T>,
))
    requires
        buffer < usize::MAX / 4,
;

/// `Sender::try_send`, with the error reduced to its kind. `Ok` means the
/// action is in the queue; either failure means it was dropped. Which of the
/// three comes back depends on what the queue holds and on the receiver, so
/// nothing is promised of the result. (The channel also panics when it holds
/// `usize::MAX >> 1` messages, which no memory can hold.)
#[verifier::external_body]
pub(crate) fn try_send<A: Action>(sender: &mut Sender<A>, action: A) -> (result: Result<
    (),
    SendFailure,
>) {
    sender.try_send(action).map_err(
        |e| if e.is_full() {
            SendFailure::Full
        } else {
            SendFailure::Disconnected
        },
    )
}

/// `Sender::close_channel`: closes the queue for every sender; what is queued
/// is still delivered.
pub assume_specification<T>[ Sender::<T>::close_channel ](sender: &mut Sender<T>)
;

/// `Sender::clone`: another handle on the same queue, with a slot of its own.
/// (It panics when about `usize::MAX >> 1` handles are alive, which no memory
/// can hold.)
pub assume_specification<T>[ <Sender<T> as Clone>::clone ](sender: &Sender<T>) -> (handle:
    Sender<T>)
;

} // verus!
