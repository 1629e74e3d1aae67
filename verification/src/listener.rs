//! A queue paired with what is done to each of its messages.

use vstd::prelude::*;
use crate::message::QueueMessage;

verus! {

/// The queue to listen to and the handler to run on every message received
/// from it. The handler may be run any number of times.
pub struct SQSListener<F: Fn(&QueueMessage)> {
    /// Where the queue is.
    pub queue_url: String,
    /// What is run on each message.
    pub handler: F,
}

impl<F: Fn(&QueueMessage)> SQSListener<F> {
    /// Pairs the queue at `queue_url` with `handler`.
    pub fn new(queue_url: String, handler: F) -> (listener: Self)
        ensures
            listener.queue_url == queue_url,
            listener.handler == handler,
    {
        SQSListener { queue_url, handler }
    }
}

} // verus!
