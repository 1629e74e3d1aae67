//! What passes between a consumer and the driver that runs it.
//!
//! The consumer never talks to the queue itself. It answers every [`Event`]
//! with an [`Output`], whose [`Request`] names the one thing the driver does
//! next; when that is done the driver reports back with the next event.

use vstd::prelude::*;
use crate::error::{recorded_view, reply_view, Error, ErrorView};
use crate::message::{views_of, MessageView, QueueMessage};

verus! {

/// What a caller can ask of a running consumer.
#[derive(Debug, PartialEq, Eq)]
pub enum Command {
    /// Delete this message from the queue, and answer with how that went.
    Ack(QueueMessage),
    /// Stop polling.
    Terminate,
}

/// What a [`Command`] is in contracts.
pub enum CommandView {
    Ack(MessageView),
    Terminate,
}

impl View for Command {
    type V = CommandView;

    open spec fn view(&self) -> CommandView {
        match self {
            Command::Ack(message) => CommandView::Ack(message@),
            Command::Terminate => CommandView::Terminate,
        }
    }
}

/// Something that happened outside the consumer and that it has to react to.
#[derive(Debug, PartialEq, Eq)]
pub enum Event {
    /// The poll timer fired; `now` is the clock's reading in milliseconds.
    Tick { now: u64 },
    /// The receive call returned: a failure with the client's account of it,
    /// an answer without a list of messages, or the list.
    Received(Result<Option<Vec<QueueMessage>>, String>),
    /// The handler returned.
    Handled,
    /// The delete call returned, with the client's account of a failure.
    Deleted(Result<(), String>),
    /// A command arrived.
    Command(Command),
}

/// What an [`Event`] is in contracts.
pub enum EventView {
    Tick { now: u64 },
    Received(Result<Option<Seq<MessageView>>, Seq<char>>),
    Handled,
    Deleted(Result<(), Seq<char>>),
    Command(CommandView),
}

/// The view of what a receive call returned.
pub open spec fn received_view(outcome: Result<Option<Vec<QueueMessage>>, String>) -> Result<
    Option<Seq<MessageView>>,
    Seq<char>,
> {
    match outcome {
        Ok(Some(batch)) => Ok(Some(views_of(batch@))),
        Ok(None) => Ok(None),
        Err(detail) => Err(detail@),
    }
}

/// The view of what a delete call returned.
pub open spec fn deleted_view(outcome: Result<(), String>) -> Result<(), Seq<char>> {
    match outcome {
        Ok(_) => Ok(()),
        Err(detail) => Err(detail@),
    }
}

impl View for Event {
    type V = EventView;

    open spec fn view(&self) -> EventView {
        match self {
            Event::Tick { now } => EventView::Tick { now: *now },
            Event::Received(outcome) => EventView::Received(received_view(*outcome)),
            Event::Handled => EventView::Handled,
            Event::Deleted(outcome) => EventView::Deleted(deleted_view(*outcome)),
            Event::Command(command) => EventView::Command(command@),
        }
    }
}

/// The one thing the driver does next.
#[derive(Debug, PartialEq, Eq)]
pub enum Request {
    /// Call receive on this queue and report `Event::Received`.
    Receive { queue_url: String },
    /// Run the handler on this message and report `Event::Handled`.
    Handle { message: QueueMessage },
    /// Call delete on this queue with this receipt handle and report
    /// `Event::Deleted`.
    Delete { queue_url: String, receipt_handle: String },
    /// Wait until the clock reads `until` milliseconds and report
    /// `Event::Tick`, or report a command as soon as one arrives.
    Wait { until: u64 },
    /// The consumer has terminated: leave the loop.
    Stop,
    /// Nothing new: whatever the driver was doing, it goes on doing.
    Continue,
}

/// What a [`Request`] is in contracts.
pub enum RequestView {
    Receive { queue_url: Seq<char> },
    Handle { message: MessageView },
    Delete { queue_url: Seq<char>, receipt_handle: Seq<char> },
    Wait { until: u64 },
    Stop,
    Continue,
}

impl View for Request {
    type V = RequestView;

    open spec fn view(&self) -> RequestView {
        match self {
            Request::Receive { queue_url } => RequestView::Receive { queue_url: queue_url@ },
            Request::Handle { message } => RequestView::Handle { message: message@ },
            Request::Delete { queue_url, receipt_handle } => RequestView::Delete {
                queue_url: queue_url@,
                receipt_handle: receipt_handle@,
            },
            Request::Wait { until } => RequestView::Wait { until: *until },
            Request::Stop => RequestView::Stop,
            Request::Continue => RequestView::Continue,
        }
    }
}

/// The consumer's answer to one event.
#[derive(Debug, PartialEq, Eq)]
pub struct Output {
    /// What the driver does next.
    pub request: Request,
    /// A failure that did not stop anything and is worth a line in a log.
    pub recorded: Option<Error>,
    /// The answer to the manual acknowledgment that this event settled.
    pub reply: Option<Result<(), Error>>,
}

/// What an [`Output`] is in contracts.
pub struct OutputView {
    pub request: RequestView,
    pub recorded: Option<ErrorView>,
    pub reply: Option<Result<(), ErrorView>>,
}

impl View for Output {
    type V = OutputView;

    open spec fn view(&self) -> OutputView {
        OutputView {
            request: self.request@,
            recorded: recorded_view(self.recorded),
            reply: reply_view(self.reply),
        }
    }
}

impl OutputView {
    /// An output that asks for `request` and says nothing else.
    pub open spec fn only(request: RequestView) -> OutputView {
        OutputView { request, recorded: None, reply: None }
    }
}

impl Output {
    /// An output that asks for `request` and says nothing else.
    pub fn only(request: Request) -> (output: Self)
        ensures
            output@ == OutputView::only(request@),
    {
        Output { request, recorded: None, reply: None }
    }
}

} // verus!
