//! Building a consumer, and the consumer together with what it runs on.

use vstd::prelude::*;
use vstd::string::*;
use crate::config::{default_config, Config, ConfigBuilder};
use crate::consumer::Consumer;
use crate::error::{answer_view, BuilderErrorView, Error, ErrorView, SQSListenerClientBuilderError};
use crate::listener::SQSListener;
use crate::message::QueueMessage;
use crate::model::{ConsumerView, Phase};
use crate::protocol::{Command, Event, Output};

verus! {

/// The region a queue client is made for when none is named.
pub const DEFAULT_REGION: &'static str = "us-west-2";

/// The region to make a queue client for: the one named, or the default.
pub fn region_or_default(region: Option<String>) -> (name: String)
    ensures
        name@ == match region {
            Some(named) => named@,
            None => DEFAULT_REGION@,
        },
{
    match region {
        Some(named) => named,
        None => String::from_str(DEFAULT_REGION),
    }
}

/// Collects what a consumer is made of: the queue client `C`, the listener and,
/// if the defaults do not suit, a configuration.
pub struct SQSListenerClientBuilder<C, F: Fn(&QueueMessage)> {
    pub client: Option<C>,
    pub listener: Option<SQSListener<F>>,
    pub config: Option<Config>,
}

impl<C, F: Fn(&QueueMessage)> SQSListenerClientBuilder<C, F> {
    /// What is wrong with the builder, if anything: the first part that was
    /// never supplied, the client before the listener, or else a queue without
    /// a name.
    pub open spec fn fault(self) -> Option<BuilderErrorView> {
        if self.client is None {
            Some(BuilderErrorView::UninitializedField("client"@))
        } else if self.listener is None {
            Some(BuilderErrorView::UninitializedField("listener"@))
        } else if self.listener->0.queue_url@.len() == 0 {
            Some(BuilderErrorView::ValidationError("queue_url must not be empty"@))
        } else {
            None
        }
    }

    /// The configuration the consumer is built with.
    pub open spec fn config_or_default(self) -> Config {
        match self.config {
            Some(config) => config,
            None => default_config(),
        }
    }

    /// A builder with nothing supplied.
    pub fn empty() -> (builder: Self)
        ensures
            builder.client is None,
            builder.listener is None,
            builder.config is None,
    {
        SQSListenerClientBuilder { client: None, listener: None, config: None }
    }

    /// A builder for a consumer that reaches its queue through `client`.
    pub fn new_with_client(client: C) -> (builder: Self)
        ensures
            builder.client == Some(client),
            builder.listener is None,
            builder.config is None,
    {
        SQSListenerClientBuilder { client: Some(client), listener: None, config: None }
    }

    /// Sets the queue client.
    pub fn client(self, client: C) -> (builder: Self)
        ensures
            builder.client == Some(client),
            builder.listener == self.listener,
            builder.config == self.config,
    {
        SQSListenerClientBuilder { client: Some(client), listener: self.listener, config: self.config }
    }

    /// Sets the listener.
    pub fn listener(self, listener: SQSListener<F>) -> (builder: Self)
        ensures
            builder.client == self.client,
            builder.listener == Some(listener),
            builder.config == self.config,
    {
        SQSListenerClientBuilder { client: self.client, listener: Some(listener), config: self.config }
    }

    /// Sets the configuration.
    pub fn config(self, config: Config) -> (builder: Self)
        ensures
            builder.client == self.client,
            builder.listener == self.listener,
            builder.config == Some(config),
    {
        SQSListenerClientBuilder { client: self.client, listener: self.listener, config: Some(config) }
    }

    /// Builds the consumer, idle and ready to start, or says what is missing
    /// or unusable. Nothing is sent to the queue.
    pub fn build(self) -> (built: Result<SQSListenerClient<C, F>, SQSListenerClientBuilderError>)
        ensures
            built is Err <==> self.fault() is Some,
            built matches Err(error) ==> Some(error@) == self.fault(),
            built matches Ok(listener_client) ==> {
                &&& Some(listener_client.client_spec()) == self.client
                &&& listener_client.handler_spec() == self.listener->0.handler
                &&& listener_client@ == ConsumerView::initial(
                    self.listener->0.queue_url@,
                    self.config_or_default(),
                )
            },
    {
        let client = match self.client {
            Some(client) => client,
            None => {
                return Err(SQSListenerClientBuilderError::UninitializedField("client"));
            },
        };
        let listener = match self.listener {
            Some(listener) => listener,
            None => {
                return Err(SQSListenerClientBuilderError::UninitializedField("listener"));
            },
        };
        if listener.queue_url.as_str().is_empty() {
            return Err(
                SQSListenerClientBuilderError::ValidationError(
                    String::from_str("queue_url must not be empty"),
                ),
            );
        }
        let config = match self.config {
            Some(config) => config,
            None => ConfigBuilder::default().build(),
        };
        Ok(
            SQSListenerClient {
                client,
                handler: listener.handler,
                consumer: Consumer::new(listener.queue_url, config),
            },
        )
    }
}

/// A consumer together with the queue client it reaches its queue through and
/// the handler it runs on each message. Only a builder makes one.
pub struct SQSListenerClient<C, F: Fn(&QueueMessage)> {
    client: C,
    handler: F,
    consumer: Consumer,
}

impl<C, F: Fn(&QueueMessage)> View for SQSListenerClient<C, F> {
    type V = ConsumerView;

    closed spec fn view(&self) -> ConsumerView {
        self.consumer@
    }
}

impl<C, F: Fn(&QueueMessage)> SQSListenerClient<C, F> {
    /// The queue client.
    pub closed spec fn client_spec(&self) -> C {
        self.client
    }

    /// The handler.
    pub closed spec fn handler_spec(&self) -> F {
        self.handler
    }

    /// The queue client.
    pub fn client(&self) -> (client: &C)
        ensures
            *client == self.client_spec(),
    {
        &self.client
    }

    /// The handler to run on each message.
    pub fn handler(&self) -> (handler: &F)
        ensures
            *handler == self.handler_spec(),
    {
        &self.handler
    }

    /// The consumer's state.
    pub fn consumer(&self) -> (consumer: &Consumer)
        ensures
            consumer@ == self@,
    {
        &self.consumer
    }

    /// Takes the three parts apart.
    pub fn into_parts(self) -> (parts: (C, F, Consumer))
        ensures
            parts.0 == self.client_spec(),
            parts.1 == self.handler_spec(),
            parts.2@ == self@,
    {
        (self.client, self.handler, self.consumer)
    }

    /// Starts the loop when the clock reads `now`: the consumer asks for its
    /// first poll at once. A consumer is started once, from idle.
    pub fn start(&mut self, now: u64) -> (output: Output)
        requires
            old(self)@.phase == Phase::Idle,
        ensures
            final(self)@.wf(),
            final(self).client_spec() == old(self).client_spec(),
            final(self).handler_spec() == old(self).handler_spec(),
            final(self)@ == old(self)@.start(now).state,
            output@ == old(self)@.start(now).output,
    {
        self.consumer.start(now)
    }

    /// Takes one event and says what the driver does next.
    pub fn step(&mut self, event: Event) -> (output: Output)
        ensures
            final(self)@.wf(),
            final(self).client_spec() == old(self).client_spec(),
            final(self).handler_spec() == old(self).handler_spec(),
            final(self)@ == old(self)@.next(event@).state,
            output@ == old(self)@.next(event@).output,
    {
        self.consumer.step(event)
    }

    /// A caller asks for `message` to be deleted from the queue.
    ///
    /// A consumer that is not running answers `Error::ListenerStopped`. One
    /// that waits for its next poll answers `Error::NoMessageHandle` if the
    /// message has no receipt handle, and otherwise asks for the delete call,
    /// whose result becomes the answer.
    pub fn ack_message(&mut self, message: QueueMessage) -> (output: Output)
        ensures
            final(self)@.wf(),
            final(self).client_spec() == old(self).client_spec(),
            final(self).handler_spec() == old(self).handler_spec(),
            final(self)@ == old(self)@.on_ack(message@).state,
            output@ == old(self)@.on_ack(message@).output,
    {
        self.consumer.on_ack(message)
    }

    /// A caller asks the loop to end.
    pub fn terminate(&mut self) -> (output: Output)
        ensures
            final(self)@.wf(),
            final(self).client_spec() == old(self).client_spec(),
            final(self).handler_spec() == old(self).handler_spec(),
            final(self)@ == old(self)@.on_terminate().state,
            output@ == old(self)@.on_terminate().output,
    {
        self.consumer.on_terminate()
    }
}

/// The result of a manual acknowledgment as its caller sees it: the
/// consumer's answer, or, when the command could not be delivered or no
/// answer came back, that the listener has stopped.
pub fn ack_result(reply: Option<Result<(), Error>>) -> (result: Result<(), Error>)
    ensures
        answer_view(result) == match reply {
            Some(answer) => answer_view(answer),
            None => Err(ErrorView::ListenerStopped),
        },
{
    match reply {
        Some(answer) => answer,
        None => Err(Error::ListenerStopped),
    }
}

/// A builder that was given a client and a listener for a named queue, and
/// nothing else, has no fault, and the consumer it builds polls every five
/// seconds and acknowledges by itself.
pub proof fn law_listener_alone_builds_with_defaults<C, F: Fn(&QueueMessage)>(
    builder: SQSListenerClientBuilder<C, F>,
)
    requires
        builder.client is Some,
        builder.listener is Some,
        builder.listener->0.queue_url@.len() > 0,
        builder.config is None,
    ensures
        builder.fault() is None,
        builder.config_or_default() == (Config { check_interval: 5_000, auto_ack: true }),
{
}

/// A builder without a listener has a fault: a part that was never supplied.
pub proof fn law_missing_listener_is_a_fault<C, F: Fn(&QueueMessage)>(
    builder: SQSListenerClientBuilder<C, F>,
)
    requires
        builder.listener is None,
    ensures
        builder.fault() is Some,
        builder.fault()->0 is UninitializedField,
        builder.client is Some ==> builder.fault() == Some(
            BuilderErrorView::UninitializedField("listener"@),
        ),
{
}

} // verus!
