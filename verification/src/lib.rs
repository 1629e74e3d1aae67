//! A managed consumer for a remote message queue.
//!
//! The consumer polls a queue, hands every received message to a handler and,
//! when asked to, acknowledges the message by deleting it from the queue.
//! Everything the consumer decides lives here as a state machine whose
//! transitions are proved against a mathematical model; talking to the queue
//! service, sleeping and running the handler are left to the driver, which
//! performs each [`Request`] and reports back with an [`Event`].

pub mod client;
pub mod config;
pub mod consumer;
pub mod error;
pub mod laws;
pub mod listener;
pub mod message;
pub mod model;
pub mod protocol;

pub use client::{ack_result, region_or_default, SQSListenerClient, SQSListenerClientBuilder};
pub use config::{millis_of, Config, ConfigBuilder};
pub use consumer::Consumer;
pub use error::{Error, ErrorView, SQSListenerClientBuilderError};
pub use listener::SQSListener;
pub use message::{MessageView, QueueMessage};
pub use model::{ConsumerView, Outcome, Phase};
pub use protocol::{Command, Event, Output, Request};
