//! Channels of `tokio::sync`, as far as the library uses them without
//! awaiting.
use crate::messages::SendMessageCommand;
use crate::sentry_client_reactor::SendMessageError;
use tokio::sync::mpsc;
use tokio::sync::mpsc::error::TrySendError;
use tokio::sync::watch;
use vstd::prelude::*;

verus! {

/// `tokio::sync::mpsc::Sender`: the sending half of a bounded queue.
#[verifier::external_type_specification]
#[verifier::external_body]
#[verifier::reject_recursive_types(T)]
pub struct ExQueueSender<T>(mpsc::Sender<T>);

/// `tokio::sync::watch::Sender`: the writing half of a channel that keeps
/// only the last value sent.
#[verifier::external_type_specification]
#[verifier::external_body]
#[verifier::reject_recursive_types(T)]
pub struct ExWatchSender<T>(watch::Sender<T>);

/// `tokio::sync::watch::Receiver`: a reader of such a channel, which
/// remembers the last value it has seen.
#[verifier::external_type_specification]
#[verifier::external_body]
#[verifier::reject_recursive_types(T)]
pub struct ExWatchReceiver<T>(watch::Receiver<T>);

/// Calls `mpsc::Sender::try_send`, which never waits: it takes the command if
/// the queue has room, and else says whether the queue is full or its
/// receiver is gone. Which of the three happens depends on the queue, so the
/// contract leaves it open.
#[verifier::external_body]
pub(crate) fn try_send(
    queue: &mpsc::Sender<SendMessageCommand>,
    command: SendMessageCommand,
) -> Result<(), SendMessageError> {
    match queue.try_send(command) {
        Ok(()) => Ok(()),
        Err(TrySendError::Full(_)) => Err(SendMessageError::SendQueueFull),
        Err(TrySendError::Closed(_)) => Err(SendMessageError::ReactorStopped),
    }
}

/// Calls `watch::Sender::new`: a channel that holds `init` and has no
/// receiver yet.
#[verifier::external_body]
pub(crate) fn new_watch(init: usize) -> watch::Sender<usize> {
    watch::Sender::new(init)
}

/// Calls `watch::Sender::send_replace`, which stores `value` and wakes every
/// receiver, whether or not there is one.
#[verifier::external_body]
pub(crate) fn publish(sender: &watch::Sender<usize>, value: usize) {
    sender.send_replace(value);
}

/// Calls `watch::Sender::subscribe`: a new receiver, which counts the value
/// now in the channel as seen.
#[verifier::external_body]
pub(crate) fn subscribe(sender: &watch::Sender<usize>) -> watch::Receiver<usize> {
    sender.subscribe()
}

/// Calls `watch::Receiver::borrow_and_update`, which reads the value now in
/// the channel and counts it as seen. The value is whatever was sent last.
#[verifier::external_body]
pub(crate) fn latest(receiver: &mut watch::Receiver<usize>) -> usize {
    *receiver.borrow_and_update()
}

} // verus!
