//! What holds of every bridged call, whatever the channels and the blocking
//! call do: stated over the sequences of events that the two state machines
//! accept.

use vstd::prelude::*;

use crate::ureq_adapter::bridge::{
    spec_accepts, spec_action, spec_next_state, BridgeState, FutureResultView, PollActionView,
    PollEvent,
};
use crate::ureq_adapter::worker::{
    spec_worker_accepts, spec_worker_action, spec_worker_next_state, WorkerActionView,
    WorkerEvent, WorkerState,
};

verus! {

/// The caller's state after the given events, from a call just made.
pub open spec fn state_after<Res>(events: Seq<PollEvent<Res>>) -> BridgeState
    decreases events.len(),
{
    if events.len() == 0 {
        BridgeState::NotStarted
    } else {
        spec_next_state(state_after(events.drop_last()), events.last())
    }
}

/// Whether the events are a run of the caller's side: each can happen in the
/// state that the events before it lead to.
pub open spec fn is_run<Res>(events: Seq<PollEvent<Res>>) -> bool
    decreases events.len(),
{
    events.len() == 0 || (is_run(events.drop_last()) && spec_accepts(
        state_after(events.drop_last()),
        events.last(),
    ))
}

/// The action that answers the event at place `i`.
pub open spec fn action_at<Res>(events: Seq<PollEvent<Res>>, i: int) -> PollActionView<Res> {
    spec_action(state_after(events.take(i)), events[i])
}

/// The beginning of a run is a run, and each event of a run can happen in the
/// state that the events before it lead to.
pub proof fn lemma_run_prefix<Res>(events: Seq<PollEvent<Res>>, i: int)
    requires
        is_run(events),
        0 <= i <= events.len(),
    ensures
        is_run(events.take(i)),
        i < events.len() ==> spec_accepts(state_after(events.take(i)), events[i]),
    decreases events.len(),
{
    if i == events.len() {
        assert(events.take(i) =~= events);
    } else {
        let shorter = events.drop_last();
        if i < events.len() - 1 {
            lemma_run_prefix(shorter, i);
            assert(shorter.take(i) =~= events.take(i));
        }
    }
}

/// A step resolves the call exactly when it leads to the settled state.
pub proof fn lemma_resolves_iff_settles<Res>(state: BridgeState, event: PollEvent<Res>)
    requires
        spec_accepts(state, event),
    ensures
        spec_action(state, event) is Resolve <==> spec_next_state(state, event)
            == BridgeState::Settled,
{
}

/// A call resolves at most once: in a run, no step but the last resolves the
/// call, and the last does exactly when the run ends settled.
pub proof fn lemma_single_resolution<Res>(events: Seq<PollEvent<Res>>, i: int)
    requires
        is_run(events),
        0 <= i < events.len(),
    ensures
        action_at(events, i) is Resolve <==> (i == events.len() - 1 && state_after(events)
            == BridgeState::Settled),
{
    lemma_run_prefix(events, i);
    lemma_run_prefix(events, i + 1);
    let before = state_after(events.take(i));
    assert(events.take(i + 1).drop_last() =~= events.take(i));
    lemma_resolves_iff_settles(before, events[i]);
}

/// The wake handle goes to the worker at most once in a run.
pub proof fn lemma_waker_sent_once<Res>(events: Seq<PollEvent<Res>>, i: int, j: int)
    requires
        is_run(events),
        0 <= i < events.len(),
        0 <= j < events.len(),
        events[i] is WakerSent,
        events[j] is WakerSent,
    ensures
        i == j,
{
    if i < j {
        lemma_waker_then_registered(events, i, j);
        lemma_run_prefix(events, j);
    } else if j < i {
        lemma_waker_then_registered(events, j, i);
        lemma_run_prefix(events, i);
    }
}

/// Once the wake handle has gone to the worker, the caller never falls back
/// to the state before.
proof fn lemma_waker_then_registered<Res>(events: Seq<PollEvent<Res>>, i: int, n: int)
    requires
        is_run(events),
        0 <= i < n <= events.len(),
        events[i] is WakerSent,
    ensures
        state_after(events.take(n)) != BridgeState::NotStarted,
    decreases n,
{
    lemma_run_prefix(events, n - 1);
    assert(events.take(n).drop_last() =~= events.take(n - 1));
    if n - 1 > i {
        lemma_waker_then_registered(events, i, n - 1);
    }
}

/// The result channel is looked into only once the wake handle is with the
/// worker: the step that asks for it is the one that sent the handle, or
/// comes after it.
pub proof fn lemma_result_asked_after_waker<Res>(events: Seq<PollEvent<Res>>, i: int)
    requires
        is_run(events),
        0 <= i < events.len(),
        action_at(events, i) is ReceiveResult,
    ensures
        exists|j: int| 0 <= j <= i && (#[trigger] events[j]) is WakerSent,
{
    lemma_run_prefix(events, i);
    if !(events[i] is WakerSent) {
        lemma_registered_after_waker(events.take(i));
        let j = choose|j: int| 0 <= j < i && (#[trigger] events.take(i)[j]) is WakerSent;
        assert(events[j] is WakerSent);
    }
}

/// A run that ends with the waiter registered holds the sending of the wake
/// handle.
proof fn lemma_registered_after_waker<Res>(events: Seq<PollEvent<Res>>)
    requires
        is_run(events),
        state_after(events) == BridgeState::WaiterRegistered,
    ensures
        exists|j: int| 0 <= j < events.len() && (#[trigger] events[j]) is WakerSent,
    decreases events.len(),
{
    let shorter = events.drop_last();
    if !(events.last() is WakerSent) {
        lemma_registered_after_waker(shorter);
        let j = choose|j: int| 0 <= j < shorter.len() && (#[trigger] shorter[j]) is WakerSent;
        assert(events[j] is WakerSent);
    }
}

/// A poll once the wake handle is with the worker settles the call as soon as
/// the result channel has something to say: with the worker's result when it
/// is there, with a communication error when the channel is closed. While the
/// channel is open and empty the call stays as it is.
pub proof fn lemma_poll_outcomes<Res>(res: Res)
    ensures
        spec_action(BridgeState::WaiterRegistered, PollEvent::<Res>::Polled)
            == PollActionView::<Res>::ReceiveResult,
        spec_action(BridgeState::WaiterRegistered, PollEvent::ResultReceived(res))
            == PollActionView::Resolve(FutureResultView::Result(res)),
        spec_action(BridgeState::WaiterRegistered, PollEvent::<Res>::ResultChannelClosed)
            is Resolve,
        spec_action(BridgeState::WaiterRegistered, PollEvent::<Res>::ResultPending)
            == PollActionView::<Res>::Suspend,
        spec_next_state(BridgeState::WaiterRegistered, PollEvent::<Res>::ResultPending)
            == BridgeState::WaiterRegistered,
{
}

/// The worker's state after the given events, from a worker just created.
pub open spec fn worker_state_after(events: Seq<WorkerEvent>) -> WorkerState
    decreases events.len(),
{
    if events.len() == 0 {
        WorkerState::Created
    } else {
        spec_worker_next_state(worker_state_after(events.drop_last()), events.last())
    }
}

/// Whether the events are a run of the worker: each can happen in the state
/// that the events before it lead to.
pub open spec fn is_worker_run(events: Seq<WorkerEvent>) -> bool
    decreases events.len(),
{
    events.len() == 0 || (is_worker_run(events.drop_last()) && spec_worker_accepts(
        worker_state_after(events.drop_last()),
        events.last(),
    ))
}

/// The action that answers the worker's event at place `i`.
pub open spec fn worker_action_at(events: Seq<WorkerEvent>, i: int) -> WorkerActionView {
    spec_worker_action(worker_state_after(events.take(i)), events[i])
}

/// How many steps a worker in `state` has taken: every accepted event moves
/// the worker forward, so no state is visited twice.
pub open spec fn worker_progress(state: WorkerState) -> int {
    match state {
        WorkerState::Created => 0,
        WorkerState::AwaitingWaker => 1,
        WorkerState::Calling => 2,
        WorkerState::DeliveringOk => 3,
        WorkerState::DeliveringErr => 3,
        WorkerState::Waking => 4,
        WorkerState::Finished => 5,
    }
}

/// The beginning of a worker's run is a run, and each event of a run can
/// happen in the state that the events before it lead to.
pub proof fn lemma_worker_run_prefix(events: Seq<WorkerEvent>, i: int)
    requires
        is_worker_run(events),
        0 <= i <= events.len(),
    ensures
        is_worker_run(events.take(i)),
        i < events.len() ==> spec_worker_accepts(worker_state_after(events.take(i)), events[i]),
    decreases events.len(),
{
    if i == events.len() {
        assert(events.take(i) =~= events);
    } else {
        let shorter = events.drop_last();
        if i < events.len() - 1 {
            lemma_worker_run_prefix(shorter, i);
            assert(shorter.take(i) =~= events.take(i));
        }
    }
}

/// Every step moves the worker forward: between two places of a run the
/// worker has advanced by at least as many steps as lie between them.
pub proof fn lemma_worker_advances(events: Seq<WorkerEvent>, i: int, j: int)
    requires
        is_worker_run(events),
        0 <= i <= j <= events.len(),
    ensures
        worker_progress(worker_state_after(events.take(i))) + (j - i) <= worker_progress(
            worker_state_after(events.take(j)),
        ),
    decreases j - i,
{
    if i < j {
        lemma_worker_advances(events, i, j - 1);
        lemma_worker_run_prefix(events, j - 1);
        assert(events.take(j).drop_last() =~= events.take(j - 1));
    }
}

/// A worker that has not ended has taken exactly one step for each stage it
/// has passed.
pub proof fn lemma_worker_steps_counted(events: Seq<WorkerEvent>, i: int)
    requires
        is_worker_run(events),
        0 <= i <= events.len(),
    ensures
        worker_state_after(events.take(i)) != WorkerState::Finished ==> worker_progress(
            worker_state_after(events.take(i)),
        ) == i,
    decreases i,
{
    if i > 0 {
        lemma_worker_steps_counted(events, i - 1);
        lemma_worker_run_prefix(events, i - 1);
        assert(events.take(i).drop_last() =~= events.take(i - 1));
    }
}

/// A worker's run has at most five events.
pub proof fn lemma_worker_run_is_short(events: Seq<WorkerEvent>)
    requires
        is_worker_run(events),
    ensures
        events.len() <= 5,
{
    lemma_worker_advances(events, 0, events.len() as int);
}

/// The worker sends at most one result: two steps of a run that both send
/// are the same step.
pub proof fn lemma_result_sent_once(events: Seq<WorkerEvent>, i: int, j: int)
    requires
        is_worker_run(events),
        0 <= i < events.len(),
        0 <= j < events.len(),
        worker_action_at(events, i) is SendResult,
        worker_action_at(events, j) is SendResult,
    ensures
        i == j,
{
    lemma_worker_run_prefix(events, i);
    lemma_worker_run_prefix(events, j);
    if i < j {
        lemma_worker_advances(events, i, j);
    } else if j < i {
        lemma_worker_advances(events, j, i);
    }
}

/// The worker's steps come in one order: the blocking call is made only by
/// the step that received the wake handle, the result is sent only by the
/// step that ended the call, and the caller is woken only by the step that
/// saw the result go into the channel.
pub proof fn lemma_worker_order(events: Seq<WorkerEvent>, i: int)
    requires
        is_worker_run(events),
        0 <= i < events.len(),
    ensures
        worker_action_at(events, i) is RunRequest <==> events[i] == WorkerEvent::WakerReceived,
        worker_action_at(events, i) is SendResult <==> (events[i] == WorkerEvent::CallSucceeded
            || events[i] == WorkerEvent::CallFailed),
        worker_action_at(events, i) is Wake <==> events[i] == WorkerEvent::ResultSent,
        worker_action_at(events, i) is Finish <==> worker_state_after(events.take(i + 1))
            == WorkerState::Finished,
        events[i] == WorkerEvent::ResultSent ==> i == 3 && (events[i - 1]
            == WorkerEvent::CallSucceeded || events[i - 1] == WorkerEvent::CallFailed)
            && events[i - 2] == WorkerEvent::WakerReceived,
{
    lemma_worker_run_prefix(events, i);
    assert(events.take(i + 1).drop_last() =~= events.take(i));
    if events[i] == WorkerEvent::ResultSent {
        lemma_worker_steps_counted(events, i);
        lemma_worker_run_prefix(events, i - 1);
        lemma_worker_run_prefix(events, i - 2);
    }
}

/// A worker that has ended well has sent its result and woken the caller
/// after that: its run is the five steps in their order.
pub proof fn lemma_worker_finished_well(events: Seq<WorkerEvent>)
    requires
        is_worker_run(events),
        events.len() > 0,
        worker_action_at(events, events.len() - 1) == WorkerActionView::Finish(Ok(())),
    ensures
        events.len() == 5,
        events[0] == WorkerEvent::Started,
        events[1] == WorkerEvent::WakerReceived,
        events[2] == WorkerEvent::CallSucceeded || events[2] == WorkerEvent::CallFailed,
        events[3] == WorkerEvent::ResultSent,
        events[4] == WorkerEvent::Woken,
{
    let n = events.len() as int;
    lemma_worker_run_prefix(events, n - 1);
    lemma_worker_steps_counted(events, n - 1);
    lemma_worker_run_prefix(events, 3);
    lemma_worker_order(events, 3);
    lemma_worker_run_prefix(events, 0);
}

} // verus!
