//! The consumer: the poll, dispatch and acknowledge loop as a state machine.
//!
//! A [`Consumer`] holds what the loop has to remember and decides, event by
//! event, what happens next. It performs nothing itself. Every method that
//! takes an event is proved to do exactly what
//! [`ConsumerView::next`](crate::model::ConsumerView::next) says.

use vstd::prelude::*;
use crate::config::Config;
use crate::error::{recorded_view, Error};
use crate::message::{views_of, QueueMessage};
use crate::model::{ConsumerView, Phase};
use crate::protocol::{deleted_view, received_view, Command, Event, Output, Request};

verus! {

/// The state of one poll loop.
#[derive(Debug)]
pub struct Consumer {
    queue_url: String,
    config: Config,
    phase: Phase,
    last_poll: u64,
    batch: Vec<QueueMessage>,
    cursor: usize,
}

impl View for Consumer {
    type V = ConsumerView;

    closed spec fn view(&self) -> ConsumerView {
        ConsumerView {
            queue_url: self.queue_url@,
            config: self.config,
            phase: self.phase,
            last_poll: self.last_poll,
            batch: if self.in_batch() {
                views_of(self.batch@)
            } else {
                Seq::empty()
            },
            cursor: if self.in_batch() {
                self.cursor as nat
            } else {
                0
            },
        }
    }
}

impl Consumer {
    /// Whether a batch is being worked on.
    spec fn in_batch(&self) -> bool {
        self.phase == Phase::Handling || self.phase == Phase::AutoAcking
    }

    /// While a batch is worked on the cursor points into it, and a message is
    /// only ever deleted automatically where the configuration asks for it
    /// and the message has a receipt handle.
    #[verifier::type_invariant]
    spec fn sound(self) -> bool {
        match self.phase {
            Phase::Handling => self.cursor < self.batch.len(),
            Phase::AutoAcking => {
                &&& self.cursor < self.batch.len()
                &&& self.config.auto_ack
                &&& self.batch[self.cursor as int]@.can_ack()
            },
            _ => true,
        }
    }

    /// An idle consumer for the queue at `queue_url`.
    pub fn new(queue_url: String, config: Config) -> (consumer: Self)
        ensures
            consumer@ == ConsumerView::initial(queue_url@, config),
            consumer@.wf(),
    {
        Consumer { queue_url, config, phase: Phase::Idle, last_poll: 0, batch: Vec::new(), cursor: 0 }
    }

    /// Where the consumer stands. Whatever was done to a consumer, it is in a
    /// state that the loop can be in.
    pub fn phase(&self) -> (phase: Phase)
        ensures
            phase == self@.phase,
            self@.wf(),
    {
        proof {
            use_type_invariant(self);
        }
        self.phase
    }

    /// The configuration the consumer was built with.
    pub fn config(&self) -> (config: Config)
        ensures
            config == self@.config,
    {
        self.config
    }

    /// The queue the consumer polls.
    pub fn queue_url(&self) -> (queue_url: &String)
        ensures
            queue_url@ == self@.queue_url,
    {
        &self.queue_url
    }

    /// The clock's reading when the latest receive call started.
    pub fn last_poll(&self) -> (millis: u64)
        ensures
            millis == self@.last_poll,
    {
        self.last_poll
    }

    /// Whether the poll loop is alive: started and not terminated.
    pub fn is_running(&self) -> (running: bool)
        ensures
            running == self@.running(),
    {
        match self.phase {
            Phase::Idle => false,
            Phase::Terminated => false,
            _ => true,
        }
    }

    /// Whether the next poll may start when the clock reads `now`.
    pub fn is_due(&self, now: u64) -> (due: bool)
        ensures
            due == self@.due(now),
    {
        now >= self.last_poll && now - self.last_poll >= self.config.check_interval
    }

    fn receive_request(&self) -> (request: Request)
        ensures
            request@ == self@.receive(),
    {
        Request::Receive { queue_url: self.queue_url.clone() }
    }

    fn delete_request(&self, receipt_handle: String) -> (request: Request)
        ensures
            request@ == self@.delete(receipt_handle@),
    {
        Request::Delete { queue_url: self.queue_url.clone(), receipt_handle }
    }

    fn wait_request(&self) -> (request: Request)
        ensures
            request@ == self@.wait(),
    {
        Request::Wait { until: self.last_poll.saturating_add(self.config.check_interval) }
    }

    fn rest(&mut self)
        ensures
            final(self)@ == old(self)@.at_rest(),
    {
        self.phase = Phase::Waiting;
        self.batch = Vec::new();
        self.cursor = 0;
    }

    fn proceed(&mut self, recorded: Option<Error>) -> (output: Output)
        requires
            old(self).in_batch(),
        ensures
            final(self)@ == old(self)@.proceed(recorded_view(recorded)).state,
            output@ == old(self)@.proceed(recorded_view(recorded)).output,
    {
        proof {
            use_type_invariant(&*self);
        }
        if self.cursor + 1 < self.batch.len() {
            self.phase = Phase::Handling;
            self.cursor = self.cursor + 1;
            let message = self.batch[self.cursor].clone();
            Output { request: Request::Handle { message }, recorded, reply: None }
        } else {
            let request = self.wait_request();
            self.rest();
            Output { request, recorded, reply: None }
        }
    }

    fn nothing_received(&mut self, why: Error) -> (output: Output)
        ensures
            final(self)@ == old(self)@.nothing_received(why@).state,
            output@ == old(self)@.nothing_received(why@).output,
    {
        let request = self.wait_request();
        self.rest();
        Output { request, recorded: Some(why), reply: None }
    }

    /// Starts the loop when the clock reads `now`: the first poll goes out at
    /// once. A consumer is started once, from idle.
    pub fn start(&mut self, now: u64) -> (output: Output)
        requires
            old(self)@.phase == Phase::Idle,
        ensures
            final(self)@.wf(),
            final(self)@ == old(self)@.start(now).state,
            output@ == old(self)@.start(now).output,
    {
        self.phase = Phase::Receiving;
        self.last_poll = now;
        Output::only(self.receive_request())
    }

    /// The poll timer fired when the clock read `now`. While waiting, the next
    /// poll goes out if the interval has passed since the last one started,
    /// and the wait goes on if it has not.
    pub fn on_tick(&mut self, now: u64) -> (output: Output)
        ensures
            final(self)@.wf(),
            final(self)@ == old(self)@.on_tick(now).state,
            output@ == old(self)@.on_tick(now).output,
    {
        proof {
            use_type_invariant(&*self);
        }
        match self.phase {
            Phase::Waiting => {
                if self.is_due(now) {
                    self.phase = Phase::Receiving;
                    self.last_poll = now;
                    Output::only(self.receive_request())
                } else {
                    Output::only(self.wait_request())
                }
            },
            _ => Output::only(Request::Continue),
        }
    }

    /// The receive call returned. A failure, an answer without a list and an
    /// empty list are recorded and the consumer rests until the next poll;
    /// otherwise the first message goes to the handler.
    pub fn on_received(&mut self, outcome: Result<Option<Vec<QueueMessage>>, String>) -> (output:
        Output)
        ensures
            final(self)@.wf(),
            final(self)@ == old(self)@.on_received(received_view(outcome)).state,
            output@ == old(self)@.on_received(received_view(outcome)).output,
    {
        proof {
            use_type_invariant(&*self);
        }
        match self.phase {
            Phase::Receiving => match outcome {
                Err(detail) => self.nothing_received(Error::ReceiveMessages(detail)),
                Ok(None) => self.nothing_received(Error::UnknownReceiveMessages),
                Ok(Some(batch)) => {
                    if batch.len() == 0 {
                        self.nothing_received(Error::NoMessageInQueue)
                    } else {
                        let message = batch[0].clone();
                        self.batch = batch;
                        self.cursor = 0;
                        self.phase = Phase::Handling;
                        Output::only(Request::Handle { message })
                    }
                },
            },
            _ => Output::only(Request::Continue),
        }
    }

    /// The handler returned. With automatic acknowledgment the message is now
    /// deleted, or, if it has no receipt handle, that is recorded and the
    /// batch goes on; without, the batch goes on at once.
    pub fn on_handled(&mut self) -> (output: Output)
        ensures
            final(self)@.wf(),
            final(self)@ == old(self)@.on_handled().state,
            output@ == old(self)@.on_handled().output,
    {
        proof {
            use_type_invariant(&*self);
        }
        match self.phase {
            Phase::Handling => {
                if !self.config.auto_ack {
                    self.proceed(None)
                } else {
                    match self.batch[self.cursor].handle() {
                        Some(receipt_handle) => {
                            self.phase = Phase::AutoAcking;
                            Output::only(self.delete_request(receipt_handle))
                        },
                        None => self.proceed(Some(Error::NoMessageHandle)),
                    }
                }
            },
            _ => Output::only(Request::Continue),
        }
    }

    /// The delete call returned. After an automatic acknowledgment a failure
    /// is recorded and the batch goes on either way; after a manual one the
    /// caller gets its answer and the consumer rests.
    pub fn on_deleted(&mut self, outcome: Result<(), String>) -> (output: Output)
        ensures
            final(self)@.wf(),
            final(self)@ == old(self)@.on_deleted(deleted_view(outcome)).state,
            output@ == old(self)@.on_deleted(deleted_view(outcome)).output,
    {
        proof {
            use_type_invariant(&*self);
        }
        match self.phase {
            Phase::AutoAcking => match outcome {
                Ok(_) => self.proceed(None),
                Err(detail) => self.proceed(Some(Error::AckMessage(detail))),
            },
            Phase::ManualAcking => {
                let request = self.wait_request();
                self.rest();
                let answer: Result<(), Error> = match outcome {
                    Ok(_) => Ok(()),
                    Err(detail) => Err(Error::AckMessage(detail)),
                };
                Output { request, recorded: None, reply: Some(answer) }
            },
            _ => Output::only(Request::Continue),
        }
    }

    /// A caller asked for `message` to be deleted. A consumer that is not
    /// running answers that it has stopped. While waiting, a message without a
    /// receipt handle is refused and no delete goes out; one with a handle is
    /// deleted, and the answer follows the delete call.
    pub fn on_ack(&mut self, message: QueueMessage) -> (output: Output)
        ensures
            final(self)@.wf(),
            final(self)@ == old(self)@.on_ack(message@).state,
            output@ == old(self)@.on_ack(message@).output,
    {
        proof {
            use_type_invariant(&*self);
        }
        match self.phase {
            Phase::Idle | Phase::Terminated => Output {
                request: Request::Continue,
                recorded: None,
                reply: Some(Err(Error::ListenerStopped)),
            },
            Phase::Waiting => match message.receipt_handle {
                Some(receipt_handle) => {
                    self.phase = Phase::ManualAcking;
                    Output::only(self.delete_request(receipt_handle))
                },
                None => Output {
                    request: self.wait_request(),
                    recorded: None,
                    reply: Some(Err(Error::NoMessageHandle)),
                },
            },
            _ => Output::only(Request::Continue),
        }
    }

    /// A caller asked the loop to end. While waiting, it ends here.
    pub fn on_terminate(&mut self) -> (output: Output)
        ensures
            final(self)@.wf(),
            final(self)@ == old(self)@.on_terminate().state,
            output@ == old(self)@.on_terminate().output,
    {
        proof {
            use_type_invariant(&*self);
        }
        match self.phase {
            Phase::Waiting => {
                self.phase = Phase::Terminated;
                Output::only(Request::Stop)
            },
            _ => Output::only(Request::Continue),
        }
    }

    /// A command arrived.
    pub fn on_command(&mut self, command: Command) -> (output: Output)
        ensures
            final(self)@.wf(),
            final(self)@ == old(self)@.on_command(command@).state,
            output@ == old(self)@.on_command(command@).output,
    {
        match command {
            Command::Ack(message) => self.on_ack(message),
            Command::Terminate => self.on_terminate(),
        }
    }

    /// Takes one event and says what the driver does next.
    ///
    /// An event that the consumer is not waiting for changes nothing and is
    /// answered with `Request::Continue`. Commands are taken up between two
    /// polls only: one that arrives while a poll or a batch is under way is to
    /// be kept and handed in when the consumer asks to wait.
    pub fn step(&mut self, event: Event) -> (output: Output)
        ensures
            final(self)@.wf(),
            final(self)@ == old(self)@.next(event@).state,
            output@ == old(self)@.next(event@).output,
    {
        match event {
            Event::Tick { now } => self.on_tick(now),
            Event::Received(outcome) => self.on_received(outcome),
            Event::Handled => self.on_handled(),
            Event::Deleted(outcome) => self.on_deleted(outcome),
            Event::Command(command) => self.on_command(command),
        }
    }
}

} // verus!
