//! The sentry client, through which messages leave for the peers.
use crate::channels::try_send;
use crate::messages::{Message, PeerFilter, SendMessageCommand};
use tokio::sync::mpsc;
use vstd::prelude::*;

verus! {

/// Why the sentry client did not take a message.
#[derive(Clone, Copy, Debug, PartialEq, Eq, Structural)]
pub enum SendMessageError {
    /// The send queue has no room right now; it will have again.
    SendQueueFull,
    /// The reactor that drains the send queue has stopped for good.
    ReactorStopped,
    /// The message could not be sent for a reason that is neither of the two.
    Other,
}

impl SendMessageError {
    /// Whether a later attempt can succeed: true of a full queue only.
    pub open spec fn spec_is_transient(self) -> bool {
        self == SendMessageError::SendQueueFull
    }

    /// Whether a later attempt can succeed: true of a full queue only.
    #[verifier::when_used_as_spec(spec_is_transient)]
    pub fn is_transient(self) -> (transient: bool)
        ensures
            transient == self.spec_is_transient(),
    {
        match self {
            SendMessageError::SendQueueFull => true,
            SendMessageError::ReactorStopped => false,
            SendMessageError::Other => false,
        }
    }
}

/// Feeds the bounded queue from which the sentry reactor sends messages to
/// peers.
pub struct SentryClientReactor {
    send_queue: mpsc::Sender<SendMessageCommand>,
}

impl SentryClientReactor {
    /// A client that feeds `send_queue`.
    pub fn new(send_queue: mpsc::Sender<SendMessageCommand>) -> (client: Self)
        ensures
            client.spec_send_queue() == send_queue,
    {
        SentryClientReactor { send_queue }
    }

    /// Offers `message` to the send queue without waiting. The answer depends
    /// on the queue alone: `Ok` if it took the message, `SendQueueFull` if it
    /// had no room, `ReactorStopped` if nobody drains it any more.
    pub fn try_send_message(&self, message: Message, peer_filter: PeerFilter) -> Result<
        (),
        SendMessageError,
    > {
        try_send(&self.send_queue, SendMessageCommand { message, peer_filter })
    }

    /// The queue that this client feeds, for a caller that wants to wait for
    /// room in it.
    pub fn send_queue(&self) -> (queue: &mpsc::Sender<SendMessageCommand>)
        ensures
            *queue == self.spec_send_queue(),
    {
        &self.send_queue
    }

    /// The queue that this client feeds: the one it was made with.
    pub closed spec fn spec_send_queue(&self) -> mpsc::Sender<SendMessageCommand> {
        self.send_queue
    }
}

} // verus!
