//! The consumer as a mathematical state machine.
//!
//! A [`ConsumerView`] is the state; [`ConsumerView::next`] says, for every
//! state and every event, what the state becomes and what the consumer puts
//! out. The executable consumer is proved to follow it step by step, and the
//! laws of the poll loop are proved about it.

use vstd::prelude::*;
use crate::config::Config;
use crate::error::ErrorView;
use crate::message::MessageView;
use crate::protocol::{CommandView, EventView, OutputView, RequestView};

verus! {

/// Where a consumer stands in its life.
#[derive(Clone, Copy, Debug, PartialEq, Eq, Structural)]
pub enum Phase {
    /// Built, not started.
    Idle,
    /// A receive call is under way.
    Receiving,
    /// The handler is running on the message under the cursor.
    Handling,
    /// The message under the cursor has been handled and is being deleted.
    AutoAcking,
    /// Between two polls: the only moment at which commands are taken up.
    Waiting,
    /// A message is being deleted because a caller asked for it.
    ManualAcking,
    /// The loop has ended, for good.
    Terminated,
}

/// The state of a consumer.
pub struct ConsumerView {
    /// The queue that is polled.
    pub queue_url: Seq<char>,
    pub config: Config,
    pub phase: Phase,
    /// The clock's reading when the latest receive call started.
    pub last_poll: u64,
    /// The messages of the poll that is being worked on.
    pub batch: Seq<MessageView>,
    /// The place in `batch` of the message that is being worked on.
    pub cursor: nat,
}

/// A state together with what the consumer put out on the way to it.
pub struct Outcome {
    pub state: ConsumerView,
    pub output: OutputView,
}

impl ConsumerView {
    /// A consumer as it is built: idle, with nothing received.
    pub open spec fn initial(queue_url: Seq<char>, config: Config) -> ConsumerView {
        ConsumerView {
            queue_url,
            config,
            phase: Phase::Idle,
            last_poll: 0,
            batch: Seq::empty(),
            cursor: 0,
        }
    }

    /// The states a consumer can be in: while a batch is worked on the cursor
    /// points into it, a message is only ever deleted automatically where the
    /// configuration asks for it and the message has a receipt handle, and
    /// outside a batch nothing is kept.
    pub open spec fn wf(self) -> bool {
        match self.phase {
            Phase::Handling => self.cursor < self.batch.len(),
            Phase::AutoAcking => {
                &&& self.cursor < self.batch.len()
                &&& self.config.auto_ack
                &&& self.batch[self.cursor as int].can_ack()
            },
            _ => self.batch.len() == 0 && self.cursor == 0,
        }
    }

    /// Whether the poll loop is alive.
    pub open spec fn running(self) -> bool {
        self.phase != Phase::Idle && self.phase != Phase::Terminated
    }

    /// The earliest reading of the clock at which the next poll may start.
    pub open spec fn deadline(self) -> int {
        self.last_poll + self.config.check_interval
    }

    /// Whether the next poll may start when the clock reads `now`.
    pub open spec fn due(self, now: u64) -> bool {
        now >= self.deadline()
    }

    /// The request to poll the queue.
    pub open spec fn receive(self) -> RequestView {
        RequestView::Receive { queue_url: self.queue_url }
    }

    /// The request to delete the message with this receipt handle.
    pub open spec fn delete(self, receipt_handle: Seq<char>) -> RequestView {
        RequestView::Delete { queue_url: self.queue_url, receipt_handle }
    }

    /// The request to wait for the next poll. A deadline that the clock can
    /// never show is a wait without end.
    pub open spec fn wait(self) -> RequestView {
        RequestView::Wait {
            until: if self.deadline() <= u64::MAX {
                self.deadline() as u64
            } else {
                u64::MAX
            },
        }
    }

    /// The state between two polls.
    pub open spec fn at_rest(self) -> ConsumerView {
        ConsumerView { phase: Phase::Waiting, batch: Seq::empty(), cursor: 0, ..self }
    }

    /// An event that the consumer has no use for: nothing changes.
    pub open spec fn ignore(self) -> Outcome {
        Outcome { state: self, output: OutputView::only(RequestView::Continue) }
    }

    /// The transition that starts the loop: the first poll goes out at once.
    pub open spec fn start(self, now: u64) -> Outcome {
        Outcome {
            state: ConsumerView { phase: Phase::Receiving, last_poll: now, ..self },
            output: OutputView::only(self.receive()),
        }
    }

    /// The message under the cursor is done with: on to the next one, or to
    /// rest when it was the last.
    pub open spec fn proceed(self, recorded: Option<ErrorView>) -> Outcome {
        if self.cursor + 1 < self.batch.len() {
            Outcome {
                state: ConsumerView {
                    phase: Phase::Handling,
                    cursor: (self.cursor + 1) as nat,
                    ..self
                },
                output: OutputView {
                    request: RequestView::Handle { message: self.batch[self.cursor as int + 1] },
                    recorded,
                    reply: None,
                },
            }
        } else {
            Outcome {
                state: self.at_rest(),
                output: OutputView { request: self.wait(), recorded, reply: None },
            }
        }
    }

    /// A poll brought nothing to work on: note why, and rest.
    pub open spec fn nothing_received(self, why: ErrorView) -> Outcome {
        Outcome {
            state: self.at_rest(),
            output: OutputView { request: self.wait(), recorded: Some(why), reply: None },
        }
    }

    /// The poll timer fired.
    pub open spec fn on_tick(self, now: u64) -> Outcome {
        if self.phase != Phase::Waiting {
            self.ignore()
        } else if self.due(now) {
            Outcome {
                state: ConsumerView { phase: Phase::Receiving, last_poll: now, ..self },
                output: OutputView::only(self.receive()),
            }
        } else {
            Outcome { state: self, output: OutputView::only(self.wait()) }
        }
    }

    /// The receive call returned.
    pub open spec fn on_received(
        self,
        outcome: Result<Option<Seq<MessageView>>, Seq<char>>,
    ) -> Outcome {
        if self.phase != Phase::Receiving {
            self.ignore()
        } else {
            match outcome {
                Err(detail) => self.nothing_received(ErrorView::ReceiveMessages(detail)),
                Ok(None) => self.nothing_received(ErrorView::UnknownReceiveMessages),
                Ok(Some(batch)) => if batch.len() == 0 {
                    self.nothing_received(ErrorView::NoMessageInQueue)
                } else {
                    Outcome {
                        state: ConsumerView { phase: Phase::Handling, batch, cursor: 0, ..self },
                        output: OutputView::only(RequestView::Handle { message: batch[0] }),
                    }
                },
            }
        }
    }

    /// The handler returned.
    pub open spec fn on_handled(self) -> Outcome {
        if self.phase != Phase::Handling {
            self.ignore()
        } else if !self.config.auto_ack {
            self.proceed(None)
        } else {
            match self.batch[self.cursor as int].receipt_handle {
                Some(receipt_handle) => Outcome {
                    state: ConsumerView { phase: Phase::AutoAcking, ..self },
                    output: OutputView::only(self.delete(receipt_handle)),
                },
                None => self.proceed(Some(ErrorView::NoMessageHandle)),
            }
        }
    }

    /// The delete call returned.
    pub open spec fn on_deleted(self, outcome: Result<(), Seq<char>>) -> Outcome {
        match self.phase {
            Phase::AutoAcking => match outcome {
                Ok(_) => self.proceed(None),
                Err(detail) => self.proceed(Some(ErrorView::AckMessage(detail))),
            },
            Phase::ManualAcking => Outcome {
                state: self.at_rest(),
                output: OutputView {
                    request: self.wait(),
                    recorded: None,
                    reply: Some(
                        match outcome {
                            Ok(_) => Ok(()),
                            Err(detail) => Err(ErrorView::AckMessage(detail)),
                        },
                    ),
                },
            },
            _ => self.ignore(),
        }
    }

    /// A caller asked for a message to be deleted.
    pub open spec fn on_ack(self, message: MessageView) -> Outcome {
        match self.phase {
            Phase::Idle | Phase::Terminated => Outcome {
                state: self,
                output: OutputView {
                    request: RequestView::Continue,
                    recorded: None,
                    reply: Some(Err(ErrorView::ListenerStopped)),
                },
            },
            Phase::Waiting => match message.receipt_handle {
                Some(receipt_handle) => Outcome {
                    state: ConsumerView { phase: Phase::ManualAcking, ..self },
                    output: OutputView::only(self.delete(receipt_handle)),
                },
                None => Outcome {
                    state: self,
                    output: OutputView {
                        request: self.wait(),
                        recorded: None,
                        reply: Some(Err(ErrorView::NoMessageHandle)),
                    },
                },
            },
            _ => self.ignore(),
        }
    }

    /// A caller asked the loop to end.
    pub open spec fn on_terminate(self) -> Outcome {
        if self.phase == Phase::Waiting {
            Outcome {
                state: ConsumerView { phase: Phase::Terminated, ..self },
                output: OutputView::only(RequestView::Stop),
            }
        } else {
            self.ignore()
        }
    }

    /// A command arrived.
    pub open spec fn on_command(self, command: CommandView) -> Outcome {
        match command {
            CommandView::Ack(message) => self.on_ack(message),
            CommandView::Terminate => self.on_terminate(),
        }
    }

    /// What the consumer does with an event.
    pub open spec fn next(self, event: EventView) -> Outcome {
        match event {
            EventView::Tick { now } => self.on_tick(now),
            EventView::Received(outcome) => self.on_received(outcome),
            EventView::Handled => self.on_handled(),
            EventView::Deleted(outcome) => self.on_deleted(outcome),
            EventView::Command(command) => self.on_command(command),
        }
    }
}

} // verus!
