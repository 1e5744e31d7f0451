//! What holds of the correlation engine, proved from its state machine.
use crate::decimal::{decimal, lemma_decimal_injective, lemma_numeral_of_decimal, numeral_of};
use crate::error::ClientError;
use crate::model::{CallState, ClientState, Inbound, ListenerStep, Poll, Step, TableState};
use crate::responses::{ChatResponse, ChatSrvResponse};
use vstd::prelude::*;

verus! {

/// Whether an inbound event is a frame that carries the correlation id of
/// the call `id`.
pub open spec fn answers(event: Inbound, id: u64) -> bool {
    event matches Inbound::Frame(envelope) && envelope.corr_id matches Some(text) && text@
        == decimal(id as nat)
}

/// Whether an inbound event is a frame without a correlation id.
pub open spec fn uncorrelated(event: Inbound) -> bool {
    event matches Inbound::Frame(envelope) && envelope.corr_id is None
}

/// The envelopes of a run of events that are all frames.
pub open spec fn envelopes_of(events: Seq<Inbound>) -> Seq<ChatSrvResponse> {
    Seq::new(events.len(), |i: int| events[i]->Frame_0)
}

/// The correlation id on the wire names the call `id` exactly when its text
/// is the decimal numeral of `id` and the call still waits.
pub proof fn lemma_waiter_of(table: TableState, corr_id: Option<String>, id: u64)
    ensures
        table.waiter_of(corr_id) == Some(id) <==> (corr_id matches Some(text) && text@ == decimal(
            id as nat,
        ) && table.awaiting(id)),
{
    if let Some(text) = corr_id {
        lemma_numeral_of_decimal(text@, id);
        if let Some(other) = numeral_of(text@) {
            lemma_numeral_of_decimal(text@, other);
        }
    }
}

/// Every step of the client leads from a well-formed state to a well-formed
/// state.
pub proof fn lemma_steps_keep_wf(state: ClientState, event: Inbound, id: u64, now: u64)
    requires
        state.wf(),
    ensures
        ClientState::initial().wf(),
        state.table.can_register() ==> state.send(now).wf(),
        state.listen(event).wf(),
        state.poll(id, now).wf(),
        state.abandon(id).wf(),
        state.shutdown().wf(),
        state.pull().wf(),
{
    let forgotten = state.table.forget(id);
    assert(forgotten.wf()) by {
        if !forgotten.open {
            assert forall|any: u64| !forgotten.awaiting(any) by {
                assert(!state.table.awaiting(any));
            }
        }
    }
}

/// A correlation id is never handed out twice: no step makes the counter
/// smaller, and registering a call makes it larger.
pub proof fn lemma_ids_only_rise(state: ClientState, event: Inbound, id: u64, now: u64)
    ensures
        state.table.can_register() ==> state.send(now).table.last_id > state.table.last_id,
        state.listen(event).table.last_id == state.table.last_id,
        state.poll(id, now).table.last_id == state.table.last_id,
        state.abandon(id).table.last_id == state.table.last_id,
        state.shutdown().table.last_id == state.table.last_id,
        state.pull().table.last_id == state.table.last_id,
{
}

/// The correlation id of a new call is unique among the calls that are
/// registered at that moment: nothing is registered under it, so it differs
/// from the id of every such call, and so does its text on the wire. Once
/// registered, the call waits under it, and every other call is as before.
pub proof fn lemma_new_id_is_unique(state: ClientState, now: u64)
    requires
        state.wf(),
        state.table.can_register(),
    ensures
        !state.table.calls.contains_key(state.table.next_id()),
        forall|other: u64| #[trigger]
            state.table.calls.contains_key(other) ==> other != state.table.next_id() && decimal(
                other as nat,
            ) != decimal(state.table.next_id() as nat),
        state.send(now).table.awaiting(state.table.next_id()),
        forall|other: u64| #[trigger]
            state.table.calls.contains_key(other) ==> state.send(now).table.calls.contains_key(
                other,
            ) && state.send(now).table.calls[other] == state.table.calls[other],
{
    let id: u64 = state.table.next_id();
    assert forall|other: u64| #[trigger] state.table.calls.contains_key(other) implies decimal(
        other as nat,
    ) != decimal(id as nat) by {
        if decimal(other as nat) == decimal(id as nat) {
            lemma_decimal_injective(other as nat, id as nat);
        }
    }
}

/// A new call waits for one timeout, counted from the moment it is sent:
/// asked before that, its caller is told how long is left; asked from then
/// on, its caller is told `Timeout`.
pub proof fn lemma_call_waits_for_one_timeout(state: ClientState, now: u64, at: u64)
    requires
        state.table.can_register(),
        now + state.timeout <= u64::MAX,
    ensures
        at < now + state.timeout ==> state.send(now).table.outcome(state.table.next_id(), at) == (
        Poll::Pending { wait: (now + state.timeout - at) as u64 }),
        at >= now + state.timeout ==> state.send(now).table.outcome(state.table.next_id(), at)
            == Poll::Ready(Err::<ChatResponse, ClientError>(ClientError::Timeout)),
{
}

/// A response that carries the correlation id of a waiting call is delivered
/// to that call and to nothing else: the queue and all other calls stay as
/// they are. The caller then gets exactly that response, whatever the time,
/// and gets it once: collecting it takes the call off the table, so that a
/// second frame under the same id goes to the queue.
pub proof fn lemma_response_reaches_its_caller(
    state: ClientState,
    id: u64,
    envelope: ChatSrvResponse,
    now: u64,
    again: ChatSrvResponse,
)
    requires
        state.table.awaiting(id),
        answers(Inbound::Frame(envelope), id),
        answers(Inbound::Frame(again), id),
    ensures
        state.step(Inbound::Frame(envelope)) == (ListenerStep::Delivered { corr_id: id }),
        state.receive(envelope).table.calls == state.table.calls.insert(
            id,
            CallState::Delivered(envelope.resp),
        ),
        state.receive(envelope).queue == state.queue,
        state.receive(envelope).table.outcome(id, now) == Poll::Ready(
            Ok::<ChatResponse, ClientError>(envelope.resp),
        ),
        !state.receive(envelope).poll(id, now).table.calls.contains_key(id),
        state.receive(envelope).poll(id, now).table.outcome(id, now) == Poll::Ready(
            Err::<ChatResponse, ClientError>(ClientError::UnknownCall),
        ),
        state.receive(envelope).receive(again).table == state.receive(envelope).table,
        state.receive(envelope).receive(again).queue == state.queue.push(again),
        state.receive(envelope).poll(id, now).receive(again).queue == state.queue.push(again),
{
    lemma_waiter_of(state.table, envelope.corr_id, id);
    let delivered = state.receive(envelope);
    lemma_waiter_of(delivered.table, again.corr_id, id);
    let collected = delivered.poll(id, now);
    lemma_waiter_of(collected.table, again.corr_id, id);
    assert(delivered.table.waiter_of(again.corr_id) is None);
    assert(collected.table.waiter_of(again.corr_id) is None);
}

/// Whether a step is the caller of `id` collecting its call or giving it up.
pub open spec fn collects(step: Step, id: u64) -> bool {
    match step {
        Step::Poll { id: asked, .. } => asked == id,
        Step::Abandon { id: given_up } => given_up == id,
        _ => false,
    }
}

/// A response that was delivered waits for its caller: until the caller
/// collects it, nothing replaces it or takes it away, neither further frames
/// under the same id, nor the deadline, nor the end of the connection. When
/// the caller asks, it gets exactly that response.
pub proof fn lemma_delivered_response_waits_for_its_caller(
    state: ClientState,
    id: u64,
    steps: Seq<Step>,
    now: u64,
)
    requires
        state.wf(),
        state.table.calls.contains_key(id),
        state.table.calls[id] is Delivered,
        forall|i: int| 0 <= i < steps.len() ==> !collects(#[trigger] steps[i], id),
    ensures
        state.run(steps).table.calls.contains_key(id),
        state.run(steps).table.calls[id] == state.table.calls[id],
        state.run(steps).table.outcome(id, now) == Poll::Ready(
            Ok::<ChatResponse, ClientError>(state.table.calls[id]->Delivered_0),
        ),
    decreases steps.len(),
{
    if steps.len() > 0 {
        let earlier = steps.drop_last();
        assert forall|i: int| 0 <= i < earlier.len() implies !collects(#[trigger] earlier[i], id) by {
            assert(earlier[i] == steps[i]);
        }
        lemma_delivered_response_waits_for_its_caller(state, id, earlier, now);
        lemma_run_keeps_wf(state, earlier);
        let before = state.run(earlier);
        let last = steps.last();
        assert(!collects(last, id));
        match last {
            Step::Listen(Inbound::Frame(envelope)) => {
                if let Some(target) = before.table.waiter_of(envelope.corr_id) {
                    assert(before.table.awaiting(target));
                }
            },
            _ => {},
        }
    }
}

/// Whether a step concerns the call `id`: a frame that carries its
/// correlation id, the end of the connection, or its own caller asking after
/// it or giving it up.
pub open spec fn concerns(step: Step, id: u64) -> bool {
    match step {
        Step::Listen(event) => answers(event, id) || event is Closed,
        Step::Poll { id: asked, .. } => asked == id,
        Step::Abandon { id: given_up } => given_up == id,
        Step::Shutdown => true,
        _ => false,
    }
}

/// Every state that a client reaches is well formed.
pub proof fn lemma_run_keeps_wf(state: ClientState, steps: Seq<Step>)
    requires
        state.wf(),
    ensures
        state.run(steps).wf(),
    decreases steps.len(),
{
    if steps.len() > 0 {
        lemma_run_keeps_wf(state, steps.drop_last());
        let before = state.run(steps.drop_last());
        match steps.last() {
            Step::Send { now } => lemma_steps_keep_wf(before, Inbound::Malformed, 0, now),
            Step::Listen(event) => lemma_steps_keep_wf(before, event, 0, 0),
            Step::Poll { id, now } => lemma_steps_keep_wf(before, Inbound::Malformed, id, now),
            Step::Abandon { id } => lemma_steps_keep_wf(before, Inbound::Malformed, id, 0),
            _ => lemma_steps_keep_wf(before, Inbound::Malformed, 0, 0),
        }
    }
}

/// The counter of correlation ids never falls.
pub proof fn lemma_counter_never_falls(state: ClientState, steps: Seq<Step>)
    ensures
        state.run(steps).table.last_id >= state.table.last_id,
    decreases steps.len(),
{
    if steps.len() > 0 {
        lemma_counter_never_falls(state, steps.drop_last());
    }
}

/// A correlation id is handed out once in the life of a client: whatever
/// happens after a call was registered, every later call gets a larger id.
pub proof fn lemma_id_is_never_handed_out_again(state: ClientState, now: u64, steps: Seq<Step>)
    requires
        state.table.can_register(),
    ensures
        state.send(now).run(steps).table.can_register() ==> state.send(now).run(
            steps,
        ).table.next_id() > state.table.next_id(),
{
    lemma_counter_never_falls(state.send(now), steps);
}

/// A call that has left the table stays out of it: nothing reopens it, and
/// nothing is ever registered under its id again.
pub proof fn lemma_ended_call_stays_ended(state: ClientState, id: u64, steps: Seq<Step>)
    requires
        state.wf(),
        id <= state.table.last_id,
        !state.table.calls.contains_key(id),
    ensures
        !state.run(steps).table.calls.contains_key(id),
    decreases steps.len(),
{
    if steps.len() > 0 {
        lemma_ended_call_stays_ended(state, id, steps.drop_last());
        lemma_counter_never_falls(state, steps.drop_last());
        lemma_run_keeps_wf(state, steps.drop_last());
        let before = state.run(steps.drop_last());
        if let Step::Listen(Inbound::Frame(envelope)) = steps.last() {
            if let Some(target) = before.table.waiter_of(envelope.corr_id) {
                assert(before.table.awaiting(target));
            }
        }
    }
}

/// What happens to other calls, to the queue or to the timeout leaves a
/// call as it is: as long as no step concerns it, it stays registered in the
/// state it was in, with its deadline.
pub proof fn lemma_call_is_untouched_by_others(state: ClientState, id: u64, steps: Seq<Step>)
    requires
        state.wf(),
        state.table.calls.contains_key(id),
        forall|i: int| 0 <= i < steps.len() ==> !concerns(#[trigger] steps[i], id),
    ensures
        state.run(steps).table.calls.contains_key(id),
        state.run(steps).table.calls[id] == state.table.calls[id],
    decreases steps.len(),
{
    if steps.len() > 0 {
        let earlier = steps.drop_last();
        assert forall|i: int| 0 <= i < earlier.len() implies !concerns(#[trigger] earlier[i], id) by {
            assert(earlier[i] == steps[i]);
        }
        lemma_call_is_untouched_by_others(state, id, earlier);
        lemma_run_keeps_wf(state, earlier);
        let before = state.run(earlier);
        let last = steps.last();
        assert(!concerns(last, id));
        match last {
            Step::Listen(Inbound::Frame(envelope)) => {
                lemma_waiter_of(before.table, envelope.corr_id, id);
            },
            _ => {},
        }
    }
}

/// A call that gets no matching response before its deadline ends with
/// `Timeout`, and leaves the table when it does: afterwards nothing is
/// registered under its id. Until the deadline it is told to keep waiting,
/// and for how long. Nothing that happens to other calls changes this.
pub proof fn lemma_unanswered_call_times_out(
    state: ClientState,
    id: u64,
    steps: Seq<Step>,
    now: u64,
)
    requires
        state.wf(),
        state.table.awaiting(id),
        forall|i: int| 0 <= i < steps.len() ==> !concerns(#[trigger] steps[i], id),
    ensures
        state.run(steps).table.awaiting(id),
        now >= state.table.calls[id]->deadline ==> {
            &&& state.run(steps).table.outcome(id, now) == Poll::Ready(
                Err::<ChatResponse, ClientError>(ClientError::Timeout),
            )
            &&& !state.run(steps).poll(id, now).table.calls.contains_key(id)
        },
        now < state.table.calls[id]->deadline ==> {
            &&& state.run(steps).table.outcome(id, now) == (Poll::Pending {
                wait: (state.table.calls[id]->deadline - now) as u64,
            })
            &&& state.run(steps).poll(id, now) == state.run(steps)
        },
{
    lemma_call_is_untouched_by_others(state, id, steps);
}

/// A response for which no waiter is active is queued as unsolicited: it is
/// not dropped, and no call is touched by it. This covers an id that was
/// never registered, an id whose call has been collected or has timed out,
/// a text that is no id at all, and a message without correlation id.
pub proof fn lemma_unmatched_response_is_queued(state: ClientState, envelope: ChatSrvResponse)
    requires
        forall|id: u64| state.table.awaiting(id) ==> !answers(Inbound::Frame(envelope), id),
    ensures
        state.step(Inbound::Frame(envelope)) == ListenerStep::Queued,
        state.receive(envelope).queue == state.queue.push(envelope),
        state.receive(envelope).table == state.table,
        state.receive(envelope).timeout == state.timeout,
{
    if let Some(id) = state.table.waiter_of(envelope.corr_id) {
        lemma_waiter_of(state.table, envelope.corr_id, id);
    }
}

/// A response that arrives after its call has timed out is to be had from
/// the queue of unsolicited messages, and from nowhere else.
pub proof fn lemma_late_response_is_queued(
    state: ClientState,
    id: u64,
    now: u64,
    envelope: ChatSrvResponse,
)
    requires
        state.table.awaiting(id),
        now >= state.table.calls[id]->deadline,
        answers(Inbound::Frame(envelope), id),
    ensures
        state.poll(id, now).receive(envelope).queue == state.queue.push(envelope),
        state.poll(id, now).receive(envelope).table == state.poll(id, now).table,
        !state.poll(id, now).receive(envelope).table.calls.contains_key(id),
        state.queue.len() == 0 ==> state.poll(id, now).receive(envelope).next() == Ok::<
            Option<ChatSrvResponse>,
            ClientError,
        >(Some(envelope)),
{
    let expired = state.poll(id, now);
    assert(!expired.table.awaiting(id));
    lemma_numeral_of_decimal(envelope.corr_id->0@, id);
}

/// Messages without correlation id all go to the queue, in the order in
/// which they were received, and leave every call as it is.
pub proof fn lemma_uncorrelated_messages_queue_in_order(state: ClientState, events: Seq<Inbound>)
    requires
        forall|i: int| 0 <= i < events.len() ==> uncorrelated(#[trigger] events[i]),
    ensures
        state.listen_all(events).queue == state.queue + envelopes_of(events),
        state.listen_all(events).table == state.table,
    decreases events.len(),
{
    if events.len() > 0 {
        let earlier = events.drop_last();
        assert forall|i: int| 0 <= i < earlier.len() implies uncorrelated(#[trigger] earlier[i]) by {
            assert(earlier[i] == events[i]);
        }
        lemma_uncorrelated_messages_queue_in_order(state, earlier);
        assert(uncorrelated(events.last()));
        assert(state.queue + envelopes_of(events) =~= (state.queue + envelopes_of(earlier)).push(
            events.last()->Frame_0,
        ));
    } else {
        assert(state.queue + envelopes_of(events) =~= state.queue);
    }
}

/// The message that a step puts into the queue, if it puts one there.
pub open spec fn queued_by(state: ClientState, step: Step) -> Seq<ChatSrvResponse> {
    match step {
        Step::Listen(Inbound::Frame(envelope)) => if state.table.waiter_of(envelope.corr_id)
            is None {
            seq![envelope]
        } else {
            Seq::empty()
        },
        _ => Seq::empty(),
    }
}

/// The message that a step hands to a consumer, if it hands one out.
pub open spec fn pulled_by(state: ClientState, step: Step) -> Seq<ChatSrvResponse> {
    match step {
        Step::Pull => if state.queue.len() > 0 {
            seq![state.queue[0]]
        } else {
            Seq::empty()
        },
        _ => Seq::empty(),
    }
}

/// All messages that `steps` put into the queue, in the order of their arrival.
pub open spec fn arrivals(state: ClientState, steps: Seq<Step>) -> Seq<ChatSrvResponse>
    decreases steps.len(),
{
    if steps.len() == 0 {
        Seq::empty()
    } else {
        arrivals(state, steps.drop_last()) + queued_by(
            state.run(steps.drop_last()),
            steps.last(),
        )
    }
}

/// All messages that `steps` handed to consumers, in the order of the pulls.
pub open spec fn pulls(state: ClientState, steps: Seq<Step>) -> Seq<ChatSrvResponse>
    decreases steps.len(),
{
    if steps.len() == 0 {
        Seq::empty()
    } else {
        pulls(state, steps.drop_last()) + pulled_by(state.run(steps.drop_last()), steps.last())
    }
}

/// The queue is first in, first out, and loses nothing: what consumers have
/// pulled, followed by what still waits, is what was queued at the start
/// followed by what arrived since, in the order of arrival.
pub proof fn lemma_queue_is_first_in_first_out(state: ClientState, steps: Seq<Step>)
    ensures
        pulls(state, steps) + state.run(steps).queue == state.queue + arrivals(state, steps),
    decreases steps.len(),
{
    if steps.len() == 0 {
        assert(pulls(state, steps) + state.run(steps).queue =~= state.queue + arrivals(
            state,
            steps,
        ));
    } else {
        let earlier = steps.drop_last();
        lemma_queue_is_first_in_first_out(state, earlier);
        let before = state.run(earlier);
        let last = steps.last();
        let after = before.apply(last);
        assert(pulled_by(before, last) + after.queue =~= before.queue + queued_by(before, last));
        assert(pulls(state, steps) + after.queue =~= pulls(state, earlier) + (pulled_by(
            before,
            last,
        ) + after.queue));
        assert(state.queue + arrivals(state, steps) =~= (state.queue + arrivals(state, earlier))
            + queued_by(before, last));
        assert((pulls(state, earlier) + before.queue) + queued_by(before, last) =~= pulls(
            state,
            earlier,
        ) + (before.queue + queued_by(before, last)));
    }
}

/// The listener never takes a message out of the queue or reorders it: what
/// was queued stays at the front, in its order, and what it adds goes behind.
pub proof fn lemma_listener_only_appends(state: ClientState, events: Seq<Inbound>)
    ensures
        state.queue.is_prefix_of(state.listen_all(events).queue),
    decreases events.len(),
{
    if events.len() > 0 {
        lemma_listener_only_appends(state, events.drop_last());
    }
}

/// Handling one run of events and then another is handling the two as one.
pub proof fn lemma_listen_all_concat(state: ClientState, first: Seq<Inbound>, second: Seq<Inbound>)
    ensures
        state.listen_all(first + second) == state.listen_all(first).listen_all(second),
    decreases second.len(),
{
    if second.len() == 0 {
        assert(first + second =~= first);
    } else {
        lemma_listen_all_concat(state, first, second.drop_last());
        assert((first + second).drop_last() =~= first + second.drop_last());
        assert((first + second).last() == second.last());
    }
}

/// A malformed frame changes nothing and stops nothing: the frames before
/// it and after it are handled as if it had never arrived.
pub proof fn lemma_malformed_frame_is_passed_over(
    state: ClientState,
    before: Seq<Inbound>,
    after: Seq<Inbound>,
)
    ensures
        state.listen(Inbound::Malformed) == state,
        state.step(Inbound::Malformed) == ListenerStep::Skipped,
        state.listen_all(before + seq![Inbound::Malformed] + after) == state.listen_all(
            before + after,
        ),
{
    let malformed = seq![Inbound::Malformed];
    lemma_listen_all_concat(state, before + malformed, after);
    lemma_listen_all_concat(state, before, malformed);
    lemma_listen_all_concat(state, before, after);
    let reached = state.listen_all(before);
    assert(malformed.drop_last() =~= Seq::<Inbound>::empty());
    assert(reached.listen_all(malformed.drop_last()) == reached);
    assert(reached.listen_all(malformed) == reached.listen(Inbound::Malformed));
}

/// Responses to different waiting calls can arrive in either order: each
/// call gets its own response, and the state is the same.
pub proof fn lemma_deliveries_commute(
    state: ClientState,
    one: u64,
    other: u64,
    to_one: ChatSrvResponse,
    to_other: ChatSrvResponse,
)
    requires
        one != other,
        state.table.awaiting(one),
        state.table.awaiting(other),
        answers(Inbound::Frame(to_one), one),
        answers(Inbound::Frame(to_other), other),
    ensures
        state.receive(to_one).receive(to_other) == state.receive(to_other).receive(to_one),
        state.receive(to_one).receive(to_other).table.calls[one] == CallState::Delivered(
            to_one.resp,
        ),
        state.receive(to_one).receive(to_other).table.calls[other] == CallState::Delivered(
            to_other.resp,
        ),
        state.receive(to_one).receive(to_other).queue == state.queue,
{
    lemma_waiter_of(state.table, to_one.corr_id, one);
    lemma_waiter_of(state.table, to_other.corr_id, other);
    lemma_waiter_of(state.receive(to_one).table, to_other.corr_id, other);
    lemma_waiter_of(state.receive(to_other).table, to_one.corr_id, one);
    let left = state.receive(to_one).receive(to_other);
    let right = state.receive(to_other).receive(to_one);
    assert(left.table.calls =~= right.table.calls);
}

/// Closing the connection releases every waiter: each call that was waiting
/// ends with `ConnectionClosed`, whatever the time; a response that had been
/// delivered before can still be collected; and no call can be started.
pub proof fn lemma_close_releases_every_waiter(state: ClientState, id: u64, now: u64)
    requires
        state.table.calls.contains_key(id),
    ensures
        !state.shutdown().table.can_register(),
        forall|any: u64| !state.shutdown().table.awaiting(any),
        state.table.awaiting(id) ==> state.shutdown().table.outcome(id, now) == Poll::Ready(
            Err::<ChatResponse, ClientError>(ClientError::ConnectionClosed),
        ),
        !state.table.awaiting(id) ==> state.shutdown().table.outcome(id, now)
            == state.table.outcome(id, now),
        state.shutdown().queue == state.queue,
        state.listen(Inbound::Closed) == state.shutdown(),
        state.step(Inbound::Closed) == ListenerStep::Stopped,
{
}

/// Every call ends in exactly one way: once its outcome has been told, the
/// call is gone from the table and nothing reopens it.
pub proof fn lemma_call_ends_once(state: ClientState, id: u64, now: u64, later: u64)
    requires
        state.table.outcome(id, now) is Ready,
    ensures
        !state.poll(id, now).table.calls.contains_key(id),
        state.poll(id, now).table.outcome(id, later) == Poll::Ready(
            Err::<ChatResponse, ClientError>(ClientError::UnknownCall),
        ),
        forall|other: u64|
            other != id ==> state.poll(id, now).table.outcome(other, later)
                == state.table.outcome(other, later),
{
}

} // verus!
