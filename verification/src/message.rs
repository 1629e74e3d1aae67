//! Messages as the queue hands them out.

use vstd::prelude::*;

verus! {

/// A message received from the queue.
///
/// The receipt handle is the token the queue wants back when the message is
/// deleted; a message that came without one cannot be acknowledged.
#[derive(Debug, PartialEq, Eq)]
pub struct QueueMessage {
    pub id: String,
    pub body: String,
    pub receipt_handle: Option<String>,
}

/// What a [`QueueMessage`] is in contracts: its three texts as sequences of
/// characters.
pub struct MessageView {
    pub id: Seq<char>,
    pub body: Seq<char>,
    pub receipt_handle: Option<Seq<char>>,
}

/// The characters of an optional text.
pub open spec fn text_of(text: Option<String>) -> Option<Seq<char>> {
    match text {
        Some(t) => Some(t@),
        None => None,
    }
}

/// The views of a sequence of messages, in the same order.
pub open spec fn views_of(messages: Seq<QueueMessage>) -> Seq<MessageView> {
    messages.map_values(|m: QueueMessage| m@)
}

impl View for QueueMessage {
    type V = MessageView;

    open spec fn view(&self) -> MessageView {
        MessageView {
            id: self.id@,
            body: self.body@,
            receipt_handle: text_of(self.receipt_handle),
        }
    }
}

impl MessageView {
    /// Whether the message can be acknowledged at all.
    pub open spec fn can_ack(self) -> bool {
        self.receipt_handle is Some
    }
}

impl QueueMessage {
    /// A message with the given id, body and receipt handle.
    pub fn new(id: String, body: String, receipt_handle: Option<String>) -> (message: Self)
        ensures
            message@ == (MessageView {
                id: id@,
                body: body@,
                receipt_handle: text_of(receipt_handle),
            }),
    {
        QueueMessage { id, body, receipt_handle }
    }

    /// A copy of the receipt handle, if the message has one.
    pub fn handle(&self) -> (handle: Option<String>)
        ensures
            text_of(handle) == self@.receipt_handle,
    {
        match &self.receipt_handle {
            Some(h) => Some(h.clone()),
            None => None,
        }
    }
}

impl Clone for QueueMessage {
    fn clone(&self) -> (copy: Self)
        ensures
            copy@ == self@,
    {
        QueueMessage { id: self.id.clone(), body: self.body.clone(), receipt_handle: self.handle() }
    }
}

} // verus!
