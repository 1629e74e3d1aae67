//! What can go wrong while a consumer runs, and while one is built.

use vstd::prelude::*;
use vstd::string::*;

verus! {

/// A failure met by a running consumer.
///
/// None of them ends the poll loop: failures of the queue service are recorded
/// and the consumer carries on; only a manual acknowledgment hands its failure
/// back to the caller.
#[derive(Debug, PartialEq, Eq)]
pub enum Error {
    /// The receive call failed; the text is the queue client's own account.
    ReceiveMessages(String),
    /// The delete call failed; the text is the queue client's own account.
    AckMessage(String),
    /// The message came without a receipt handle, so it cannot be deleted.
    NoMessageHandle,
    /// The consumer is not running.
    ListenerStopped,
    /// The receive call returned no list of messages at all.
    UnknownReceiveMessages,
    /// The receive call returned an empty list.
    NoMessageInQueue,
}

/// What an [`Error`] is in contracts.
pub enum ErrorView {
    ReceiveMessages(Seq<char>),
    AckMessage(Seq<char>),
    NoMessageHandle,
    ListenerStopped,
    UnknownReceiveMessages,
    NoMessageInQueue,
}

impl View for Error {
    type V = ErrorView;

    open spec fn view(&self) -> ErrorView {
        match self {
            Error::ReceiveMessages(detail) => ErrorView::ReceiveMessages(detail@),
            Error::AckMessage(detail) => ErrorView::AckMessage(detail@),
            Error::NoMessageHandle => ErrorView::NoMessageHandle,
            Error::ListenerStopped => ErrorView::ListenerStopped,
            Error::UnknownReceiveMessages => ErrorView::UnknownReceiveMessages,
            Error::NoMessageInQueue => ErrorView::NoMessageInQueue,
        }
    }
}

/// The view of the answer to an acknowledgment.
pub open spec fn answer_view(answer: Result<(), Error>) -> Result<(), ErrorView> {
    match answer {
        Ok(_) => Ok(()),
        Err(error) => Err(error@),
    }
}

/// The view of an error that may or may not have been recorded.
pub open spec fn recorded_view(recorded: Option<Error>) -> Option<ErrorView> {
    match recorded {
        Some(error) => Some(error@),
        None => None,
    }
}

/// The view of an answer that may or may not have been given.
pub open spec fn reply_view(reply: Option<Result<(), Error>>) -> Option<Result<(), ErrorView>> {
    match reply {
        Some(answer) => Some(answer_view(answer)),
        None => None,
    }
}

impl ErrorView {
    /// The error in words.
    pub open spec fn message(self) -> Seq<char> {
        match self {
            ErrorView::ReceiveMessages(detail) => "unable to receive messages: "@ + detail,
            ErrorView::AckMessage(detail) => "unable to acknowledge message: "@ + detail,
            ErrorView::NoMessageHandle =>
                "Message did not contain a message handle to use for acknowledging"@,
            ErrorView::ListenerStopped => "Listener has stopped"@,
            ErrorView::UnknownReceiveMessages => "Unable to receive messages"@,
            ErrorView::NoMessageInQueue => "No messages in queue"@,
        }
    }

    /// Whether the error only says that a poll brought nothing to work on.
    pub open spec fn is_benign(self) -> bool {
        self is UnknownReceiveMessages || self is NoMessageInQueue
    }
}

impl Error {
    /// The error in words.
    pub fn message(&self) -> (text: String)
        ensures
            text@ == self@.message(),
    {
        match self {
            Error::ReceiveMessages(detail) => String::from_str(
                "unable to receive messages: ",
            ).concat(detail.as_str()),
            Error::AckMessage(detail) => String::from_str("unable to acknowledge message: ").concat(
                detail.as_str(),
            ),
            Error::NoMessageHandle => String::from_str(
                "Message did not contain a message handle to use for acknowledging",
            ),
            Error::ListenerStopped => String::from_str("Listener has stopped"),
            Error::UnknownReceiveMessages => String::from_str("Unable to receive messages"),
            Error::NoMessageInQueue => String::from_str("No messages in queue"),
        }
    }

    /// Whether the error only says that a poll brought nothing to work on.
    /// Such a condition is worth a note in a log and nothing more.
    pub fn is_benign(&self) -> (benign: bool)
        ensures
            benign == self@.is_benign(),
    {
        match self {
            Error::UnknownReceiveMessages => true,
            Error::NoMessageInQueue => true,
            _ => false,
        }
    }
}

impl Clone for Error {
    fn clone(&self) -> (copy: Self)
        ensures
            copy@ == self@,
    {
        match self {
            Error::ReceiveMessages(detail) => Error::ReceiveMessages(detail.clone()),
            Error::AckMessage(detail) => Error::AckMessage(detail.clone()),
            Error::NoMessageHandle => Error::NoMessageHandle,
            Error::ListenerStopped => Error::ListenerStopped,
            Error::UnknownReceiveMessages => Error::UnknownReceiveMessages,
            Error::NoMessageInQueue => Error::NoMessageInQueue,
        }
    }
}

/// Why a consumer could not be built.
#[derive(Debug, PartialEq, Eq)]
pub enum SQSListenerClientBuilderError {
    /// A required part was never supplied; the text names it.
    UninitializedField(&'static str),
    /// A part was supplied but cannot be used; the text says why.
    ValidationError(String),
}

/// What a [`SQSListenerClientBuilderError`] is in contracts.
pub enum BuilderErrorView {
    UninitializedField(Seq<char>),
    ValidationError(Seq<char>),
}

impl View for SQSListenerClientBuilderError {
    type V = BuilderErrorView;

    open spec fn view(&self) -> BuilderErrorView {
        match self {
            SQSListenerClientBuilderError::UninitializedField(name) => {
                BuilderErrorView::UninitializedField(name@)
            },
            SQSListenerClientBuilderError::ValidationError(reason) => {
                BuilderErrorView::ValidationError(reason@)
            },
        }
    }
}

impl BuilderErrorView {
    /// The error in words.
    pub open spec fn message(self) -> Seq<char> {
        match self {
            BuilderErrorView::UninitializedField(name) => "`"@ + name + "` must be initialized"@,
            BuilderErrorView::ValidationError(reason) => reason,
        }
    }
}

impl SQSListenerClientBuilderError {
    /// The error in words.
    pub fn message(&self) -> (text: String)
        ensures
            text@ == self@.message(),
    {
        match self {
            SQSListenerClientBuilderError::UninitializedField(name) => String::from_str(
                "`",
            ).concat(name).concat("` must be initialized"),
            SQSListenerClientBuilderError::ValidationError(reason) => reason.clone(),
        }
    }
}

} // verus!
