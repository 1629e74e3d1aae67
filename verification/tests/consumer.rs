use sqs_listener::{
    ack_result, Command, ConfigBuilder, Consumer, Error, Event, Output, Phase, QueueMessage,
    Request,
};

const QUEUE: &str = "https://sqs.us-west-2.amazonaws.com/123456789012/jobs";

fn message(id: &str, body: &str, handle: Option<&str>) -> QueueMessage {
    QueueMessage::new(id.to_string(), body.to_string(), handle.map(|h| h.to_string()))
}

fn consumer(auto_ack: bool) -> Consumer {
    Consumer::new(QUEUE.to_string(), ConfigBuilder::default().auto_ack(auto_ack).build())
}

fn receive() -> Output {
    Output::only(Request::Receive { queue_url: QUEUE.to_string() })
}

fn handle(message: QueueMessage) -> Output {
    Output::only(Request::Handle { message })
}

fn delete(receipt_handle: &str) -> Output {
    Output::only(Request::Delete {
        queue_url: QUEUE.to_string(),
        receipt_handle: receipt_handle.to_string(),
    })
}

fn wait(until: u64) -> Output {
    Output::only(Request::Wait { until })
}

fn nothing_new() -> Output {
    Output::only(Request::Continue)
}

/// A consumer that was started when the clock read `now` and whose first
/// poll brought no list of messages: it waits for its next poll.
fn waiting(auto_ack: bool, now: u64) -> Consumer {
    let mut consumer = consumer(auto_ack);
    consumer.start(now);
    consumer.step(Event::Received(Ok(None)));
    assert_eq!(consumer.phase(), Phase::Waiting);
    consumer
}

#[test]
fn new_consumer_is_idle() {
    let consumer = consumer(true);
    assert_eq!(consumer.phase(), Phase::Idle);
    assert!(!consumer.is_running());
    assert_eq!(consumer.queue_url(), QUEUE);
    assert_eq!(consumer.config().check_interval(), 5_000);
    assert!(consumer.config().auto_ack());
    assert_eq!(consumer.last_poll(), 0);
}

#[test]
fn start_polls_at_once() {
    let mut consumer = consumer(true);
    assert_eq!(consumer.start(7), receive());
    assert_eq!(consumer.phase(), Phase::Receiving);
    assert!(consumer.is_running());
    assert_eq!(consumer.last_poll(), 7);
}

#[test]
fn two_messages_are_handled_and_deleted_in_order() {
    let mut consumer = consumer(true);
    consumer.start(0);
    let batch = vec![message("1", "a", Some("h1")), message("2", "b", Some("h2"))];

    assert_eq!(consumer.step(Event::Received(Ok(Some(batch)))), handle(message("1", "a", Some("h1"))));
    assert_eq!(consumer.phase(), Phase::Handling);
    assert_eq!(consumer.step(Event::Handled), delete("h1"));
    assert_eq!(consumer.phase(), Phase::AutoAcking);
    assert_eq!(consumer.step(Event::Deleted(Ok(()))), handle(message("2", "b", Some("h2"))));
    assert_eq!(consumer.step(Event::Handled), delete("h2"));
    assert_eq!(consumer.step(Event::Deleted(Ok(()))), wait(5_000));
    assert_eq!(consumer.phase(), Phase::Waiting);
}

#[test]
fn message_without_handle_is_handled_and_not_deleted() {
    let mut consumer = consumer(true);
    consumer.start(0);
    let batch = vec![message("3", "c", None)];

    assert_eq!(consumer.step(Event::Received(Ok(Some(batch)))), handle(message("3", "c", None)));
    let output = consumer.step(Event::Handled);
    assert_eq!(
        output,
        Output {
            request: Request::Wait { until: 5_000 },
            recorded: Some(Error::NoMessageHandle),
            reply: None,
        }
    );
    assert_eq!(consumer.phase(), Phase::Waiting);
}

#[test]
fn message_without_handle_does_not_hold_up_the_batch() {
    let mut consumer = consumer(true);
    consumer.start(0);
    let batch = vec![message("3", "c", None), message("4", "d", Some("h4"))];

    consumer.step(Event::Received(Ok(Some(batch))));
    assert_eq!(
        consumer.step(Event::Handled),
        Output {
            request: Request::Handle { message: message("4", "d", Some("h4")) },
            recorded: Some(Error::NoMessageHandle),
            reply: None,
        }
    );
    assert_eq!(consumer.step(Event::Handled), delete("h4"));
}

#[test]
fn ack_after_termination_fails_with_listener_stopped() {
    let mut consumer = waiting(false, 0);
    assert_eq!(consumer.step(Event::Command(Command::Terminate)), Output::only(Request::Stop));
    assert_eq!(consumer.phase(), Phase::Terminated);

    let output = consumer.step(Event::Command(Command::Ack(message("9", "i", Some("h9")))));
    assert_eq!(
        output,
        Output {
            request: Request::Continue,
            recorded: None,
            reply: Some(Err(Error::ListenerStopped)),
        }
    );
    assert_eq!(ack_result(output.reply), Err(Error::ListenerStopped));
    assert_eq!(consumer.phase(), Phase::Terminated);
}

#[test]
fn ack_before_start_fails_with_listener_stopped() {
    let mut consumer = consumer(false);
    let output = consumer.on_ack(message("9", "i", Some("h9")));
    assert_eq!(output.request, Request::Continue);
    assert_eq!(output.reply, Some(Err(Error::ListenerStopped)));
    assert_eq!(consumer.phase(), Phase::Idle);
}

#[test]
fn delete_goes_out_before_the_next_handler_call_whatever_comes_in_between() {
    let mut consumer = consumer(true);
    consumer.start(0);
    let batch = vec![message("1", "a", Some("h1")), message("2", "b", Some("h2"))];
    consumer.step(Event::Received(Ok(Some(batch))));

    assert_eq!(consumer.step(Event::Tick { now: 9_000 }), nothing_new());
    assert_eq!(consumer.step(Event::Deleted(Ok(()))), nothing_new());
    assert_eq!(consumer.step(Event::Received(Ok(None))), nothing_new());
    assert_eq!(consumer.step(Event::Command(Command::Terminate)), nothing_new());
    assert_eq!(consumer.phase(), Phase::Handling);
    assert_eq!(consumer.step(Event::Handled), delete("h1"));

    assert_eq!(consumer.step(Event::Handled), nothing_new());
    assert_eq!(consumer.step(Event::Tick { now: 9_000 }), nothing_new());
    assert_eq!(consumer.phase(), Phase::AutoAcking);
    assert_eq!(consumer.step(Event::Deleted(Ok(()))), handle(message("2", "b", Some("h2"))));
}

#[test]
fn without_auto_ack_the_loop_deletes_nothing() {
    let mut consumer = consumer(false);
    consumer.start(0);
    let batch = vec![message("1", "a", Some("h1")), message("2", "b", Some("h2"))];

    assert_eq!(consumer.step(Event::Received(Ok(Some(batch)))), handle(message("1", "a", Some("h1"))));
    assert_eq!(consumer.step(Event::Handled), handle(message("2", "b", Some("h2"))));
    assert_eq!(consumer.step(Event::Handled), wait(5_000));
    assert_eq!(consumer.phase(), Phase::Waiting);
}

#[test]
fn without_auto_ack_a_manual_ack_deletes() {
    let mut consumer = waiting(false, 0);
    let output = consumer.step(Event::Command(Command::Ack(message("1", "a", Some("h1")))));
    assert_eq!(output, delete("h1"));
    assert_eq!(consumer.phase(), Phase::ManualAcking);

    let output = consumer.step(Event::Deleted(Ok(())));
    assert_eq!(
        output,
        Output { request: Request::Wait { until: 5_000 }, recorded: None, reply: Some(Ok(())) }
    );
    assert_eq!(ack_result(output.reply), Ok(()));
    assert_eq!(consumer.phase(), Phase::Waiting);
}

#[test]
fn manual_ack_that_fails_answers_with_the_failure() {
    let mut consumer = waiting(true, 0);
    consumer.on_ack(message("1", "a", Some("h1")));
    let output = consumer.on_deleted(Err("access denied".to_string()));
    assert_eq!(
        output,
        Output {
            request: Request::Wait { until: 5_000 },
            recorded: None,
            reply: Some(Err(Error::AckMessage("access denied".to_string()))),
        }
    );
    assert_eq!(ack_result(output.reply), Err(Error::AckMessage("access denied".to_string())));
    assert_eq!(consumer.phase(), Phase::Waiting);
}

#[test]
fn manual_ack_without_handle_is_refused() {
    let mut consumer = waiting(false, 0);
    let output = consumer.step(Event::Command(Command::Ack(message("3", "c", None))));
    assert_eq!(
        output,
        Output {
            request: Request::Wait { until: 5_000 },
            recorded: None,
            reply: Some(Err(Error::NoMessageHandle)),
        }
    );
    assert_eq!(consumer.phase(), Phase::Waiting);
}

#[test]
fn command_during_a_batch_is_left_for_later() {
    let mut consumer = consumer(false);
    consumer.start(0);
    consumer.step(Event::Received(Ok(Some(vec![message("1", "a", Some("h1"))]))));

    let output = consumer.step(Event::Command(Command::Ack(message("1", "a", Some("h1")))));
    assert_eq!(output, nothing_new());
    assert_eq!(consumer.step(Event::Command(Command::Terminate)), nothing_new());
    assert_eq!(consumer.phase(), Phase::Handling);
    assert_eq!(consumer.step(Event::Handled), wait(5_000));
}

#[test]
fn polls_are_an_interval_apart() {
    let mut consumer = consumer(true);
    assert_eq!(consumer.start(1_000), receive());
    assert_eq!(
        consumer.step(Event::Received(Ok(Some(Vec::new())))),
        Output {
            request: Request::Wait { until: 6_000 },
            recorded: Some(Error::NoMessageInQueue),
            reply: None,
        }
    );

    assert!(!consumer.is_due(5_999));
    assert_eq!(consumer.step(Event::Tick { now: 5_999 }), wait(6_000));
    assert_eq!(consumer.phase(), Phase::Waiting);
    assert_eq!(consumer.last_poll(), 1_000);

    assert!(consumer.is_due(6_000));
    assert_eq!(consumer.step(Event::Tick { now: 6_000 }), receive());
    assert_eq!(consumer.phase(), Phase::Receiving);
    assert_eq!(consumer.last_poll(), 6_000);

    consumer.step(Event::Received(Ok(None)));
    assert_eq!(consumer.step(Event::Tick { now: 10_999 }), wait(11_000));
    assert_eq!(consumer.step(Event::Tick { now: 20_000 }), receive());
    assert_eq!(consumer.last_poll(), 20_000);
}

#[test]
fn time_spent_on_a_batch_counts_towards_the_interval() {
    let mut consumer = Consumer::new(
        QUEUE.to_string(),
        ConfigBuilder::default().check_interval(1_000).auto_ack(false).build(),
    );
    consumer.start(500);
    consumer.step(Event::Received(Ok(Some(vec![message("1", "a", None)]))));
    assert_eq!(consumer.step(Event::Handled), wait(1_500));
    assert_eq!(consumer.step(Event::Tick { now: 1_500 }), receive());
}

#[test]
fn clock_that_went_back_does_not_start_a_poll() {
    let mut consumer = waiting(true, 10_000);
    assert!(!consumer.is_due(9_000));
    assert_eq!(consumer.step(Event::Tick { now: 9_000 }), wait(15_000));
    assert_eq!(consumer.last_poll(), 10_000);
}

#[test]
fn deadline_beyond_the_clock_is_never_due() {
    let mut consumer = Consumer::new(
        QUEUE.to_string(),
        ConfigBuilder::default().check_interval(u64::MAX).build(),
    );
    consumer.start(5);
    assert_eq!(
        consumer.step(Event::Received(Err("boom".to_string()))).request,
        Request::Wait { until: u64::MAX }
    );
    assert!(!consumer.is_due(u64::MAX));
    assert_eq!(consumer.step(Event::Tick { now: u64::MAX }), wait(u64::MAX));
}

#[test]
fn zero_interval_polls_on_every_tick() {
    let mut consumer =
        Consumer::new(QUEUE.to_string(), ConfigBuilder::default().check_interval(0).build());
    consumer.start(3);
    assert_eq!(consumer.step(Event::Received(Ok(None))).request, Request::Wait { until: 3 });
    assert_eq!(consumer.step(Event::Tick { now: 3 }), receive());
}

#[test]
fn terminate_while_waiting_stops_without_another_receive() {
    let mut consumer = waiting(true, 0);
    assert_eq!(consumer.on_terminate(), Output::only(Request::Stop));
    assert_eq!(consumer.phase(), Phase::Terminated);
    assert!(!consumer.is_running());

    assert_eq!(consumer.step(Event::Tick { now: 1_000_000 }), nothing_new());
    assert_eq!(consumer.step(Event::Received(Ok(None))), nothing_new());
    assert_eq!(consumer.step(Event::Handled), nothing_new());
    assert_eq!(consumer.step(Event::Deleted(Ok(()))), nothing_new());
    assert_eq!(consumer.phase(), Phase::Terminated);
}

#[test]
fn terminate_twice_is_a_no_op() {
    let mut consumer = waiting(true, 0);
    consumer.step(Event::Command(Command::Terminate));
    assert_eq!(consumer.step(Event::Command(Command::Terminate)), nothing_new());
    assert_eq!(consumer.phase(), Phase::Terminated);
}

#[test]
fn terminate_before_start_changes_nothing() {
    let mut consumer = consumer(true);
    assert_eq!(consumer.step(Event::Command(Command::Terminate)), nothing_new());
    assert_eq!(consumer.phase(), Phase::Idle);
    assert_eq!(consumer.start(0), receive());
}

#[test]
fn receive_failure_is_recorded_and_the_loop_goes_on() {
    let mut consumer = consumer(true);
    consumer.start(0);
    assert_eq!(
        consumer.step(Event::Received(Err("connection reset".to_string()))),
        Output {
            request: Request::Wait { until: 5_000 },
            recorded: Some(Error::ReceiveMessages("connection reset".to_string())),
            reply: None,
        }
    );
    assert!(consumer.is_running());
    assert_eq!(consumer.step(Event::Tick { now: 5_000 }), receive());
}

#[test]
fn answer_without_a_list_is_recorded_and_the_loop_goes_on() {
    let mut consumer = consumer(true);
    consumer.start(0);
    assert_eq!(
        consumer.on_received(Ok(None)),
        Output {
            request: Request::Wait { until: 5_000 },
            recorded: Some(Error::UnknownReceiveMessages),
            reply: None,
        }
    );
    assert_eq!(consumer.phase(), Phase::Waiting);
}

#[test]
fn empty_list_is_recorded_and_the_loop_goes_on() {
    let mut consumer = consumer(true);
    consumer.start(0);
    assert_eq!(
        consumer.on_received(Ok(Some(Vec::new()))),
        Output {
            request: Request::Wait { until: 5_000 },
            recorded: Some(Error::NoMessageInQueue),
            reply: None,
        }
    );
    assert_eq!(consumer.phase(), Phase::Waiting);
}

#[test]
fn failed_delete_is_recorded_and_the_batch_goes_on() {
    let mut consumer = consumer(true);
    consumer.start(0);
    let batch = vec![message("1", "a", Some("h1")), message("2", "b", Some("h2"))];
    consumer.step(Event::Received(Ok(Some(batch))));
    consumer.step(Event::Handled);

    assert_eq!(
        consumer.step(Event::Deleted(Err("throttled".to_string()))),
        Output {
            request: Request::Handle { message: message("2", "b", Some("h2")) },
            recorded: Some(Error::AckMessage("throttled".to_string())),
            reply: None,
        }
    );
    assert_eq!(consumer.step(Event::Handled), delete("h2"));
    assert_eq!(
        consumer.step(Event::Deleted(Err("throttled".to_string()))),
        Output {
            request: Request::Wait { until: 5_000 },
            recorded: Some(Error::AckMessage("throttled".to_string())),
            reply: None,
        }
    );
    assert!(consumer.is_running());
}

#[test]
fn events_nobody_waits_for_change_nothing() {
    let mut consumer = waiting(true, 0);
    assert_eq!(consumer.step(Event::Handled), nothing_new());
    assert_eq!(consumer.step(Event::Deleted(Err("late".to_string()))), nothing_new());
    assert_eq!(
        consumer.step(Event::Received(Ok(Some(vec![message("1", "a", Some("h1"))])))),
        nothing_new()
    );
    assert_eq!(consumer.phase(), Phase::Waiting);
    assert_eq!(consumer.last_poll(), 0);

    let mut idle = self::consumer(true);
    assert_eq!(idle.step(Event::Tick { now: 50_000 }), nothing_new());
    assert_eq!(idle.step(Event::Handled), nothing_new());
    assert_eq!(idle.phase(), Phase::Idle);
}

#[test]
fn tick_during_a_manual_ack_changes_nothing() {
    let mut consumer = waiting(false, 0);
    consumer.on_ack(message("1", "a", Some("h1")));
    assert_eq!(consumer.on_tick(60_000), nothing_new());
    assert_eq!(consumer.on_handled(), nothing_new());
    assert_eq!(consumer.phase(), Phase::ManualAcking);
    assert_eq!(consumer.on_deleted(Ok(())).reply, Some(Ok(())));
}

#[test]
fn on_command_takes_either_command() {
    let mut consumer = waiting(false, 0);
    assert_eq!(
        consumer.on_command(Command::Ack(message("3", "c", None))).reply,
        Some(Err(Error::NoMessageHandle))
    );
    assert_eq!(consumer.on_command(Command::Terminate), Output::only(Request::Stop));
}

#[test]
fn ack_result_without_an_answer_is_listener_stopped() {
    assert_eq!(ack_result(None), Err(Error::ListenerStopped));
    assert_eq!(ack_result(Some(Ok(()))), Ok(()));
    assert_eq!(ack_result(Some(Err(Error::NoMessageHandle))), Err(Error::NoMessageHandle));
}

#[test]
fn error_messages_read_as_expected() {
    assert_eq!(
        Error::ReceiveMessages("timed out".to_string()).message(),
        "unable to receive messages: timed out"
    );
    assert_eq!(
        Error::AckMessage("denied".to_string()).message(),
        "unable to acknowledge message: denied"
    );
    assert_eq!(
        Error::NoMessageHandle.message(),
        "Message did not contain a message handle to use for acknowledging"
    );
    assert_eq!(Error::ListenerStopped.message(), "Listener has stopped");
    assert_eq!(Error::UnknownReceiveMessages.message(), "Unable to receive messages");
    assert_eq!(Error::NoMessageInQueue.message(), "No messages in queue");
}

#[test]
fn only_an_empty_poll_is_benign() {
    assert!(Error::UnknownReceiveMessages.is_benign());
    assert!(Error::NoMessageInQueue.is_benign());
    assert!(!Error::ReceiveMessages("x".to_string()).is_benign());
    assert!(!Error::AckMessage("x".to_string()).is_benign());
    assert!(!Error::NoMessageHandle.is_benign());
    assert!(!Error::ListenerStopped.is_benign());
}

#[test]
fn clones_are_equal_to_what_they_were_made_from() {
    let with_handle = message("1", "a", Some("h1"));
    let without_handle = message("2", "b", None);
    assert_eq!(with_handle.clone(), with_handle);
    assert_eq!(without_handle.clone(), without_handle);
    assert_ne!(with_handle.clone(), without_handle);
    assert_eq!(with_handle.handle(), Some("h1".to_string()));
    assert_eq!(without_handle.handle(), None);

    let error = Error::AckMessage("denied".to_string());
    assert_eq!(error.clone(), error);
    assert_eq!(Error::ListenerStopped.clone(), Error::ListenerStopped);
}
