//! What holds of every run of a consumer.
//!
//! A run is a state to begin with and the sequence of events that the driver
//! reports from there on. [`state_after`] and [`output_at`] say where the
//! consumer stands after part of a run and what it put out on each event; the
//! laws below are proved for every state the loop can be in and every sequence
//! of events, whether the driver keeps to the protocol or not.

use vstd::prelude::*;
use crate::error::ErrorView;
use crate::message::MessageView;
use crate::model::{ConsumerView, Phase};
use crate::protocol::{CommandView, EventView, OutputView, RequestView};

verus! {

/// The state of a consumer that began in `state` and has taken the first `n`
/// of `events`.
pub open spec fn state_after(state: ConsumerView, events: Seq<EventView>, n: nat) -> ConsumerView
    decreases n,
{
    if n == 0 {
        state
    } else {
        state_after(state, events, (n - 1) as nat).next(events[n - 1]).state
    }
}

/// What a consumer that began in `state` puts out on the event at place `k`
/// of `events`.
pub open spec fn output_at(state: ConsumerView, events: Seq<EventView>, k: nat) -> OutputView {
    state_after(state, events, k).next(events[k as int]).output
}

/// Whether the consumer asks for nothing new on any event strictly between
/// the places `k` and `j`.
pub open spec fn quiet_between(
    state: ConsumerView,
    events: Seq<EventView>,
    k: nat,
    j: nat,
) -> bool {
    forall|i: nat| k < i < j ==> (#[trigger] output_at(state, events, i)).request == RequestView::Continue
}

/// A step keeps the consumer in a state the loop can be in, leaves the queue
/// and the configuration alone, and never turns the time of the latest poll
/// back.
pub proof fn law_step_keeps_the_consumer_sound(state: ConsumerView, event: EventView)
    requires
        state.wf(),
    ensures
        state.next(event).state.wf(),
        state.next(event).state.queue_url == state.queue_url,
        state.next(event).state.config == state.config,
        state.next(event).state.last_poll >= state.last_poll,
{
}

/// The same of a whole run, however long.
pub proof fn law_run_keeps_the_consumer_sound(state: ConsumerView, events: Seq<EventView>, n: nat)
    requires
        state.wf(),
    ensures
        state_after(state, events, n).wf(),
        state_after(state, events, n).queue_url == state.queue_url,
        state_after(state, events, n).config == state.config,
        state_after(state, events, n).last_poll >= state.last_poll,
    decreases n,
{
    if n > 0 {
        law_run_keeps_the_consumer_sound(state, events, (n - 1) as nat);
        law_step_keeps_the_consumer_sound(
            state_after(state, events, (n - 1) as nat),
            events[n - 1],
        );
    }
}

/// An event answered with `Continue` leaves the consumer as it was.
pub proof fn law_continue_changes_nothing(state: ConsumerView, event: EventView)
    requires
        state.next(event).output.request == RequestView::Continue,
    ensures
        state.next(event).state == state,
{
}

/// Over a stretch of events that are all answered with `Continue` the
/// consumer stays as it was at the start of the stretch.
proof fn lemma_quiet_stretch(state: ConsumerView, events: Seq<EventView>, k: nat, i: nat)
    requires
        k < i,
        quiet_between(state, events, k, i),
    ensures
        state_after(state, events, i) == state_after(state, events, k + 1),
    decreases i,
{
    if i > k + 1 {
        let before: nat = (i - 1) as nat;
        assert(quiet_between(state, events, k, before)) by {
            assert forall|x: nat| k < x < before implies (#[trigger] output_at(
                state,
                events,
                x,
            )).request == RequestView::Continue by {
                assert(k < x < i);
            }
        }
        lemma_quiet_stretch(state, events, k, before);
        assert(output_at(state, events, before).request == RequestView::Continue);
        law_continue_changes_nothing(state_after(state, events, before), events[before as int]);
    }
}

/// Once the consumer has asked for a message to be handled, it is in the
/// middle of its batch with the cursor on that message, and it stays there
/// until it asks for something new.
proof fn lemma_waiting_for_the_handler(
    state: ConsumerView,
    events: Seq<EventView>,
    k: nat,
    j: nat,
    message: MessageView,
)
    requires
        state.wf(),
        k < j,
        output_at(state, events, k).request == (RequestView::Handle { message }),
        quiet_between(state, events, k, j),
    ensures
        state_after(state, events, j).wf(),
        state_after(state, events, j).phase == Phase::Handling,
        state_after(state, events, j).batch[state_after(state, events, j).cursor as int]
            == message,
        state_after(state, events, j).queue_url == state.queue_url,
        state_after(state, events, j).config == state.config,
{
    law_run_keeps_the_consumer_sound(state, events, k);
    law_run_keeps_the_consumer_sound(state, events, j);
    lemma_quiet_stretch(state, events, k, j);
    assert(state_after(state, events, k + 1) == state_after(state, events, k).next(
        events[k as int],
    ).state);
}

/// With automatic acknowledgment, a handled message that has a receipt handle
/// is deleted next: the answer to the handler's return is the request to
/// delete exactly that receipt handle from the consumer's queue.
pub proof fn law_handled_message_is_deleted(state: ConsumerView, receipt_handle: Seq<char>)
    requires
        state.wf(),
        state.config.auto_ack,
        state.phase == Phase::Handling,
        state.batch[state.cursor as int].receipt_handle == Some(receipt_handle),
    ensures
        state.next(EventView::Handled).output == OutputView::only(state.delete(receipt_handle)),
        state.next(EventView::Handled).state.phase == Phase::AutoAcking,
{
}

/// With automatic acknowledgment, the delete of a message goes out before the
/// next message reaches the handler.
///
/// In any run: if the consumer hands a message with a receipt handle to the
/// handler at place `k`, the first request it makes after that, at place `j`,
/// answers the handler's return and is the request to delete that receipt
/// handle. No other message is handed out in between.
pub proof fn law_auto_ack_deletes_before_the_next_message(
    state: ConsumerView,
    events: Seq<EventView>,
    k: nat,
    j: nat,
    message: MessageView,
    receipt_handle: Seq<char>,
)
    requires
        state.wf(),
        state.config.auto_ack,
        k < j < events.len(),
        output_at(state, events, k).request == (RequestView::Handle { message }),
        message.receipt_handle == Some(receipt_handle),
        quiet_between(state, events, k, j),
        output_at(state, events, j).request != RequestView::Continue,
    ensures
        events[j as int] == EventView::Handled,
        output_at(state, events, j) == OutputView::only(state.delete(receipt_handle)),
{
    lemma_waiting_for_the_handler(state, events, k, j, message);
}

/// Without automatic acknowledgment the loop deletes nothing by itself.
///
/// In any run: a request to delete answers a command to acknowledge a message
/// and carries that message's receipt handle.
pub proof fn law_without_auto_ack_only_a_command_deletes(
    state: ConsumerView,
    events: Seq<EventView>,
    k: nat,
)
    requires
        state.wf(),
        !state.config.auto_ack,
        k < events.len(),
        output_at(state, events, k).request is Delete,
    ensures
        events[k as int] matches EventView::Command(CommandView::Ack(message))
            && message.receipt_handle matches Some(receipt_handle)
            && output_at(state, events, k).request == state.delete(receipt_handle),
{
    law_run_keeps_the_consumer_sound(state, events, k);
}

/// With automatic acknowledgment, a handled message without a receipt handle
/// is not deleted: in any run, the first request after such a message was
/// handed to the handler answers the handler's return, records that the
/// handle is missing, and is no request to delete.
pub proof fn law_message_without_handle_is_not_deleted(
    state: ConsumerView,
    events: Seq<EventView>,
    k: nat,
    j: nat,
    message: MessageView,
)
    requires
        state.wf(),
        state.config.auto_ack,
        k < j < events.len(),
        output_at(state, events, k).request == (RequestView::Handle { message }),
        message.receipt_handle is None,
        quiet_between(state, events, k, j),
        output_at(state, events, j).request != RequestView::Continue,
    ensures
        events[j as int] == EventView::Handled,
        output_at(state, events, j).recorded == Some(ErrorView::NoMessageHandle),
        !(output_at(state, events, j).request is Delete),
{
    lemma_waiting_for_the_handler(state, events, k, j, message);
}

/// A manual acknowledgment of a message without a receipt handle deletes
/// nothing, whatever the consumer is doing; a consumer that takes the command
/// up answers that the handle is missing and stays as it was.
pub proof fn law_ack_without_handle_is_refused(state: ConsumerView, message: MessageView)
    requires
        state.wf(),
        message.receipt_handle is None,
    ensures
        !(state.on_ack(message).output.request is Delete),
        state.on_ack(message).state == state,
        state.phase == Phase::Waiting ==> state.on_ack(message).output.reply == Some(
            Err::<(), ErrorView>(ErrorView::NoMessageHandle),
        ),
{
}

/// Whether, on the events strictly between the places `k` and `j`, the
/// consumer neither hands a message to the handler nor starts a poll.
pub open spec fn same_batch_between(
    state: ConsumerView,
    events: Seq<EventView>,
    k: nat,
    j: nat,
) -> bool {
    forall|i: nat|
        k < i < j ==> !((#[trigger] output_at(state, events, i)).request is Handle) && !(output_at(
            state,
            events,
            i,
        ).request is Receive)
}

/// While no message is handed out and no poll is started, the consumer is
/// either still busy with the message it handed out last, or done with the
/// whole batch.
proof fn lemma_batch_in_progress(state: ConsumerView, events: Seq<EventView>, k: nat, n: nat)
    requires
        state.wf(),
        k < n,
        output_at(state, events, k).request is Handle,
        same_batch_between(state, events, k, n),
    ensures
        state_after(state, events, n).wf(),
        ({
            let at = state_after(state, events, k + 1);
            let now = state_after(state, events, n);
            ||| {
                &&& now.phase == Phase::Handling || now.phase == Phase::AutoAcking
                &&& now.batch == at.batch
                &&& now.cursor == at.cursor
            }
            ||| now.phase == Phase::Waiting
            ||| now.phase == Phase::ManualAcking
            ||| now.phase == Phase::Terminated
        }),
    decreases n,
{
    law_run_keeps_the_consumer_sound(state, events, k);
    law_run_keeps_the_consumer_sound(state, events, n);
    if n > k + 1 {
        let before: nat = (n - 1) as nat;
        assert(same_batch_between(state, events, k, before)) by {
            assert forall|i: nat| k < i < before implies !((#[trigger] output_at(
                state,
                events,
                i,
            )).request is Handle) && !(output_at(state, events, i).request is Receive) by {
                assert(k < i < n);
            }
        }
        lemma_batch_in_progress(state, events, k, before);
        assert(!(output_at(state, events, before).request is Handle));
        assert(!(output_at(state, events, before).request is Receive));
    }
}

/// The messages of a batch reach the handler in the order in which the queue
/// returned them.
///
/// In any run: if a message is handed to the handler at place `k`, and the
/// next message handed out, at place `j`, comes before any new poll, it is
/// the message that follows it in the batch, and the batch is the same.
pub proof fn law_batch_is_handled_in_order(
    state: ConsumerView,
    events: Seq<EventView>,
    k: nat,
    j: nat,
)
    requires
        state.wf(),
        k < j < events.len(),
        output_at(state, events, k).request is Handle,
        output_at(state, events, j).request is Handle,
        same_batch_between(state, events, k, j),
    ensures
        ({
            let at = state_after(state, events, k + 1);
            let next = state_after(state, events, j + 1);
            &&& at.cursor + 1 < at.batch.len()
            &&& output_at(state, events, k).request == (RequestView::Handle {
                message: at.batch[at.cursor as int],
            })
            &&& output_at(state, events, j).request == (RequestView::Handle {
                message: at.batch[at.cursor as int + 1],
            })
            &&& next.batch == at.batch
            &&& next.cursor == at.cursor + 1
        }),
{
    law_run_keeps_the_consumer_sound(state, events, k);
    lemma_batch_in_progress(state, events, k, j);
}

/// The first message handed out after a poll is the first of the batch the
/// poll brought.
pub proof fn law_batch_begins_with_its_first_message(
    state: ConsumerView,
    batch: Seq<MessageView>,
)
    requires
        state.wf(),
        state.phase == Phase::Receiving,
        batch.len() > 0,
    ensures
        state.on_received(Ok(Some(batch))).output == OutputView::only(
            RequestView::Handle { message: batch[0] },
        ),
        state.on_received(Ok(Some(batch))).state.batch == batch,
        state.on_received(Ok(Some(batch))).state.cursor == 0,
{
}

/// A manual acknowledgment that a waiting consumer takes up for a message
/// with a receipt handle is one delete call and one answer: the consumer asks
/// for the delete of that handle, and when the call returns it answers with
/// success, or with the call's failure, and waits for its next poll again.
pub proof fn law_manual_ack_answers_with_the_result_of_the_delete(
    state: ConsumerView,
    message: MessageView,
    receipt_handle: Seq<char>,
    outcome: Result<(), Seq<char>>,
)
    requires
        state.wf(),
        state.phase == Phase::Waiting,
        message.receipt_handle == Some(receipt_handle),
    ensures
        state.on_ack(message).output == OutputView::only(state.delete(receipt_handle)),
        ({
            let settled = state.on_ack(message).state.on_deleted(outcome);
            &&& settled.state == state
            &&& settled.output.request == state.wait()
            &&& settled.output.recorded is None
            &&& settled.output.reply == Some(
                match outcome {
                    Ok(_) => Ok(()),
                    Err(detail) => Err(ErrorView::AckMessage(detail)),
                },
            )
        }),
{
    assert(state.batch =~= Seq::empty());
}

/// A consumer that is not running answers every manual acknowledgment with
/// `ListenerStopped`, deletes nothing and stays as it is.
pub proof fn law_stopped_listener_refuses_acks(state: ConsumerView, message: MessageView)
    requires
        !state.running(),
    ensures
        state.on_ack(message).state == state,
        state.on_ack(message).output.request == RequestView::Continue,
        state.on_ack(message).output.reply == Some(
            Err::<(), ErrorView>(ErrorView::ListenerStopped),
        ),
{
}

/// A poll starts only on a tick of the timer, and only when a full interval
/// has passed since the latest poll before the run began.
pub proof fn law_poll_waits_for_the_interval(
    state: ConsumerView,
    events: Seq<EventView>,
    j: nat,
)
    requires
        state.wf(),
        j < events.len(),
        output_at(state, events, j).request is Receive,
    ensures
        events[j as int] matches EventView::Tick { now } && now - state.last_poll
            >= state.config.check_interval,
        state_after(state, events, j + 1).last_poll == events[j as int]->now,
{
    law_run_keeps_the_consumer_sound(state, events, j);
}

/// Two polls of one run start at least an interval apart.
pub proof fn law_polls_are_an_interval_apart(
    state: ConsumerView,
    events: Seq<EventView>,
    i: nat,
    j: nat,
)
    requires
        state.wf(),
        i < j < events.len(),
        output_at(state, events, i).request is Receive,
        output_at(state, events, j).request is Receive,
    ensures
        events[i as int] matches EventView::Tick { now: earlier } && events[j as int]
            matches EventView::Tick { now: later } && later - earlier
            >= state.config.check_interval,
{
    law_poll_waits_for_the_interval(state, events, i);
    law_run_keeps_the_consumer_sound(state, events, j);
    lemma_last_poll_grows(state, events, i + 1, j);
}

/// The time of the latest poll never goes back in the course of a run.
proof fn lemma_last_poll_grows(state: ConsumerView, events: Seq<EventView>, n: nat, m: nat)
    requires
        state.wf(),
        n <= m,
    ensures
        state_after(state, events, n).last_poll <= state_after(state, events, m).last_poll,
    decreases m,
{
    if n < m {
        lemma_last_poll_grows(state, events, n, (m - 1) as nat);
        law_run_keeps_the_consumer_sound(state, events, (m - 1) as nat);
        law_step_keeps_the_consumer_sound(
            state_after(state, events, (m - 1) as nat),
            events[m - 1],
        );
    }
}

/// A terminated consumer stays terminated and asks for nothing any more.
pub proof fn law_terminated_is_final(state: ConsumerView, events: Seq<EventView>, k: nat)
    requires
        state.phase == Phase::Terminated,
    ensures
        state_after(state, events, k) == state,
        output_at(state, events, k).request == RequestView::Continue,
    decreases k,
{
    if k > 0 {
        law_terminated_is_final(state, events, (k - 1) as nat);
    }
}

/// A command to terminate that reaches a waiting consumer ends the loop on the
/// spot: the consumer asks the driver to stop, is terminated from there on,
/// and never asks for another poll, whatever events follow.
pub proof fn law_terminate_ends_polling(state: ConsumerView, events: Seq<EventView>, k: nat)
    requires
        state.phase == Phase::Waiting,
        0 < events.len(),
        events[0] == EventView::Command(CommandView::Terminate),
        k < events.len(),
    ensures
        output_at(state, events, 0) == OutputView::only(RequestView::Stop),
        state_after(state, events, k + 1).phase == Phase::Terminated,
        !(output_at(state, events, k).request is Receive),
        k > 0 ==> output_at(state, events, k).request == RequestView::Continue,
    decreases k,
{
    if k > 0 {
        law_terminate_ends_polling(state, events, (k - 1) as nat);
    }
}

/// Nothing but a command to terminate ends the loop: whatever else happens to
/// a running consumer, a failure of the queue service included, it is still
/// running afterwards.
pub proof fn law_only_terminate_ends_the_loop(state: ConsumerView, event: EventView)
    requires
        state.wf(),
        state.running(),
        event != EventView::Command(CommandView::Terminate),
    ensures
        state.next(event).state.running(),
{
}

/// The same of a whole run: a running consumer that is never told to
/// terminate is still running after any number of events.
pub proof fn law_loop_outlives_every_failure(state: ConsumerView, events: Seq<EventView>, n: nat)
    requires
        state.wf(),
        state.running(),
        n <= events.len(),
        forall|i: int| 0 <= i < n ==> events[i] != EventView::Command(CommandView::Terminate),
    ensures
        state_after(state, events, n).running(),
    decreases n,
{
    if n > 0 {
        law_loop_outlives_every_failure(state, events, (n - 1) as nat);
        law_run_keeps_the_consumer_sound(state, events, (n - 1) as nat);
        law_only_terminate_ends_the_loop(state_after(state, events, (n - 1) as nat), events[n - 1]);
    }
}

} // verus!
