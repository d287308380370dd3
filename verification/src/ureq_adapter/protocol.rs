//! A bridged call as a whole: the caller's side, the worker, and the two
//! channels between them.
//!
//! The two state machines say what each side does; this module adds what the
//! channels answer, and proves what then holds in every state that a call can
//! reach: the call resolves at most once, a result that was sent is never
//! lost, the caller is woken only once the result is in the channel, and a
//! poll that finds the worker gone always resolves.
//!
//! The channels are modelled as the standard library documents them. Sending
//! succeeds while the other end exists. Receiving without blocking yields what
//! is queued; when nothing is queued it reports an empty channel while the
//! sender exists and a closed one after. The worker holds its ends until it
//! ends or panics. The caller holds its ends until the worker has been
//! joined, so the worker never finds a channel closed.

use vstd::prelude::*;

use crate::ureq_adapter::bridge::{
    spec_accepts, spec_action, spec_next_state, BridgeState, FutureResultView, PollActionView,
    PollEvent,
};
use crate::ureq_adapter::worker::{
    spec_worker_accepts, spec_worker_next_state, WorkerEvent, WorkerState,
};

verus! {

/// What the caller's side has been asked to do and has not yet reported on.
pub enum Pending {
    /// Nothing: the caller has not polled yet, or the last poll has returned.
    Idle,
    /// Sending the wake handle.
    SendWaker,
    /// Looking into the result channel.
    ReceiveResult,
}

/// The state of one bridged call.
pub struct Call<Res> {
    /// Where the caller's side stands.
    pub caller: BridgeState,
    /// What the caller's side is in the middle of.
    pub pending: Pending,
    /// Where the worker stands. A worker that panicked counts as finished.
    pub worker: WorkerState,
    /// Whether the wake handle is in the waker channel.
    pub waker_queued: bool,
    /// What is in the result channel.
    pub result_queued: Option<Res>,
    /// Whether the worker has put its result into the result channel.
    pub sent: bool,
    /// How many times the worker has woken the caller.
    pub wakes: nat,
    /// What the caller has been told the call resolved to, in order.
    pub resolved: Seq<FutureResultView<Res>>,
}

/// One thing that happens in a bridged call.
pub enum Step<Res> {
    /// The caller's side takes an event.
    Caller(PollEvent<Res>),
    /// The worker takes an event.
    Worker(WorkerEvent),
    /// The worker panics.
    WorkerPanicked,
}

/// The state of a call that has just been made.
pub open spec fn initial<Res>() -> Call<Res> {
    Call {
        caller: BridgeState::NotStarted,
        pending: Pending::Idle,
        worker: WorkerState::Created,
        waker_queued: false,
        result_queued: None,
        sent: false,
        wakes: 0,
        resolved: Seq::empty(),
    }
}

/// What the caller's side is in the middle of after an action.
pub open spec fn pending_after<Res>(action: PollActionView<Res>) -> Pending {
    match action {
        PollActionView::SendWaker => Pending::SendWaker,
        PollActionView::ReceiveResult => Pending::ReceiveResult,
        PollActionView::Suspend => Pending::Idle,
        PollActionView::Resolve(_) => Pending::Idle,
    }
}

/// Whether the worker's ends of the channels still exist.
pub open spec fn worker_present<Res>(call: Call<Res>) -> bool {
    call.worker != WorkerState::Finished
}

/// Whether `step` can happen in `call`: the caller polls only between polls
/// and before the call has resolved, each side reports only on what it was
/// asked to do, and the reports are what the channels answer.
pub open spec fn enabled<Res>(call: Call<Res>, step: Step<Res>) -> bool {
    match step {
        Step::Caller(PollEvent::Polled) => call.pending is Idle && call.caller
            != BridgeState::Settled,
        Step::Caller(PollEvent::WakerSent) => call.pending is SendWaker && worker_present(call),
        Step::Caller(PollEvent::WakerChannelClosed) => call.pending is SendWaker
            && !worker_present(call),
        Step::Caller(PollEvent::ResultReceived(res)) => call.pending is ReceiveResult
            && call.result_queued == Some(res),
        Step::Caller(PollEvent::ResultPending) => call.pending is ReceiveResult
            && call.result_queued is None && worker_present(call),
        Step::Caller(PollEvent::ResultChannelClosed) => call.pending is ReceiveResult
            && call.result_queued is None && !worker_present(call),
        Step::Worker(WorkerEvent::Started) => call.worker == WorkerState::Created,
        Step::Worker(WorkerEvent::WakerReceived) => call.worker == WorkerState::AwaitingWaker
            && call.waker_queued,
        Step::Worker(WorkerEvent::WakerChannelClosed) => false,
        Step::Worker(WorkerEvent::CallSucceeded) => call.worker == WorkerState::Calling,
        Step::Worker(WorkerEvent::CallFailed) => call.worker == WorkerState::Calling,
        Step::Worker(WorkerEvent::ResultSent) => call.worker == WorkerState::DeliveringOk
            || call.worker == WorkerState::DeliveringErr,
        Step::Worker(WorkerEvent::ResultChannelClosed) => false,
        Step::Worker(WorkerEvent::Woken) => call.worker == WorkerState::Waking,
        Step::WorkerPanicked => worker_present(call),
    }
}

/// The state after `step`, for a call whose blocking call returns `outcome`.
pub open spec fn next<Res>(outcome: Res, call: Call<Res>, step: Step<Res>) -> Call<Res> {
    match step {
        Step::Caller(event) => {
            let action = spec_action(call.caller, event);
            Call {
                caller: spec_next_state(call.caller, event),
                pending: pending_after(action),
                waker_queued: call.waker_queued || event is WakerSent,
                result_queued: if event is ResultReceived {
                    None
                } else {
                    call.result_queued
                },
                resolved: match action {
                    PollActionView::Resolve(to) => call.resolved.push(to),
                    _ => call.resolved,
                },
                ..call
            }
        },
        Step::Worker(event) => Call {
            worker: spec_worker_next_state(call.worker, event),
            waker_queued: call.waker_queued && event != WorkerEvent::WakerReceived,
            result_queued: if event == WorkerEvent::ResultSent {
                Some(outcome)
            } else {
                call.result_queued
            },
            sent: call.sent || event == WorkerEvent::ResultSent,
            wakes: if event == WorkerEvent::Woken {
                call.wakes + 1
            } else {
                call.wakes
            },
            ..call
        },
        Step::WorkerPanicked => Call { worker: WorkerState::Finished, ..call },
    }
}

/// The state of a call after the given steps.
pub open spec fn call_after<Res>(outcome: Res, steps: Seq<Step<Res>>) -> Call<Res>
    decreases steps.len(),
{
    if steps.len() == 0 {
        initial()
    } else {
        next(outcome, call_after(outcome, steps.drop_last()), steps.last())
    }
}

/// Whether the steps are a course that a call can take: each can happen in
/// the state that the steps before it lead to.
pub open spec fn is_course<Res>(outcome: Res, steps: Seq<Step<Res>>) -> bool
    decreases steps.len(),
{
    steps.len() == 0 || (is_course(outcome, steps.drop_last()) && enabled(
        call_after(outcome, steps.drop_last()),
        steps.last(),
    ))
}

/// Whether the worker has got as far as holding the wake handle.
pub open spec fn worker_has_waker(worker: WorkerState) -> bool {
    worker == WorkerState::Calling || worker == WorkerState::DeliveringOk || worker
        == WorkerState::DeliveringErr || worker == WorkerState::Waking
}

/// What holds in every state that a call can reach.
pub open spec fn call_is_sound<Res>(outcome: Res, call: Call<Res>) -> bool {
    // each side is asked only for what its state allows
    &&& call.pending is SendWaker ==> call.caller == BridgeState::NotStarted
    &&& call.pending is ReceiveResult ==> call.caller == BridgeState::WaiterRegistered
    &&& call.caller == BridgeState::NotStarted ==> !call.waker_queued
    // the worker moves on only with the wake handle in hand
    &&& call.waker_queued ==> call.worker == WorkerState::Created || call.worker
        == WorkerState::AwaitingWaker || call.worker == WorkerState::Finished
    &&& worker_has_waker(call.worker) || call.sent || call.wakes > 0 ==> call.caller
        != BridgeState::NotStarted
    // the call resolves at most once
    &&& call.resolved.len() <= 1
    &&& call.resolved.len() == 1 <==> call.caller == BridgeState::Settled
    // a result that was sent is in the channel or with the caller
    &&& call.sent <==> call.result_queued == Some(outcome) || call.resolved
        == seq![FutureResultView::Result(outcome)]
    &&& call.result_queued is Some ==> call.result_queued == Some(outcome)
    &&& call.sent ==> call.worker == WorkerState::Waking || call.worker == WorkerState::Finished
    // a communication error means the worker is gone without having sent
    &&& call.resolved.len() == 1 && !call.sent ==> call.resolved[0] is CommunicationError
        && call.worker == WorkerState::Finished
    // the caller is woken once, and only after the result is sent
    &&& call.wakes <= 1
    &&& call.wakes == 1 ==> call.sent && call.worker == WorkerState::Finished
    &&& call.worker == WorkerState::Waking ==> call.sent && call.wakes == 0
}

/// Each side's state machine accepts whatever can happen to it.
pub proof fn lemma_enabled_is_accepted<Res>(outcome: Res, call: Call<Res>, step: Step<Res>)
    requires
        call_is_sound(outcome, call),
        enabled(call, step),
    ensures
        step matches Step::Caller(event) ==> spec_accepts(call.caller, event),
        step matches Step::Worker(event) ==> spec_worker_accepts(call.worker, event),
{
}

/// A step that can happen keeps a call sound.
pub proof fn lemma_step_keeps_call_sound<Res>(outcome: Res, call: Call<Res>, step: Step<Res>)
    requires
        call_is_sound(outcome, call),
        enabled(call, step),
    ensures
        call_is_sound(outcome, next(outcome, call, step)),
{
    let after = next(outcome, call, step);
    match step {
        Step::Caller(event) => match spec_action(call.caller, event) {
            PollActionView::Resolve(to) => {
                assert(after.resolved =~= seq![to]);
                if !(event is ResultReceived) {
                    // a communication error is not the worker's result
                    assert(after.resolved[0] != seq![FutureResultView::Result(outcome)][0]);
                }
            },
            _ => {},
        },
        _ => {},
    }
}

/// A call is sound after every course that it can take.
pub proof fn lemma_call_is_sound<Res>(outcome: Res, steps: Seq<Step<Res>>)
    requires
        is_course(outcome, steps),
    ensures
        call_is_sound(outcome, call_after(outcome, steps)),
    decreases steps.len(),
{
    if steps.len() > 0 {
        lemma_call_is_sound(outcome, steps.drop_last());
        lemma_step_keeps_call_sound(outcome, call_after(outcome, steps.drop_last()), steps.last());
    } else {
        assert(initial::<Res>().resolved != seq![FutureResultView::Result(outcome)]) by {
            assert(seq![FutureResultView::Result(outcome)].len() == 1);
        }
    }
}

/// Exactly one outcome per call: whatever course a call takes, the caller is
/// told at most once what the call resolved to, and exactly once if the call
/// has settled. What it is told is the worker's result, or a communication
/// error if the worker ended without sending one.
pub proof fn lemma_resolves_once<Res>(outcome: Res, steps: Seq<Step<Res>>)
    requires
        is_course(outcome, steps),
    ensures
        ({
            let call = call_after(outcome, steps);
            &&& call.resolved.len() <= 1
            &&& call.resolved.len() == 1 <==> call.caller == BridgeState::Settled
            &&& call.resolved.len() == 1 ==> if call.sent {
                call.resolved[0] == FutureResultView::Result(outcome)
            } else {
                call.resolved[0] is CommunicationError && call.worker == WorkerState::Finished
            }
        }),
{
    lemma_call_is_sound(outcome, steps);
    let call = call_after(outcome, steps);
    if call.resolved.len() == 1 && call.sent {
        assert(call.result_queued is None) by {
            lemma_settled_channel_is_empty(outcome, steps);
        }
    }
}

/// Once the call has settled, nothing is left in the result channel.
proof fn lemma_settled_channel_is_empty<Res>(outcome: Res, steps: Seq<Step<Res>>)
    requires
        is_course(outcome, steps),
    ensures
        call_after(outcome, steps).resolved.len() == 1 ==> call_after(
            outcome,
            steps,
        ).result_queued is None,
        call_after(outcome, steps).sent && call_after(outcome, steps).result_queued is None
            ==> call_after(outcome, steps).resolved.len() == 1,
    decreases steps.len(),
{
    if steps.len() > 0 {
        let before = call_after(outcome, steps.drop_last());
        lemma_settled_channel_is_empty(outcome, steps.drop_last());
        lemma_call_is_sound(outcome, steps.drop_last());
        lemma_call_is_sound(outcome, steps);
    }
}

/// The caller is woken only for a result that is there: once the worker has
/// woken the caller, the result is in the channel until the caller takes it,
/// so the poll that follows the wake can only find the result and resolve to
/// it.
pub proof fn lemma_wake_finds_result<Res>(outcome: Res, steps: Seq<Step<Res>>)
    requires
        is_course(outcome, steps),
        call_after(outcome, steps).wakes == 1,
        call_after(outcome, steps).caller != BridgeState::Settled,
    ensures
        ({
            let call = call_after(outcome, steps);
            &&& call.caller == BridgeState::WaiterRegistered
            &&& call.result_queued == Some(outcome)
            &&& forall|event: PollEvent<Res>|
                call.pending is ReceiveResult && #[trigger] enabled(call, Step::Caller(event))
                    ==> spec_action(call.caller, event) == PollActionView::Resolve(
                    FutureResultView::Result(outcome),
                )
            &&& call.pending is Idle ==> enabled(call, Step::Caller(PollEvent::Polled))
                && spec_action(call.caller, PollEvent::<Res>::Polled)
                == PollActionView::<Res>::ReceiveResult
        }),
{
    lemma_call_is_sound(outcome, steps);
    lemma_settled_channel_is_empty(outcome, steps);
}

/// A caller is never left waiting for a worker that is gone: once the worker
/// has ended or panicked, whatever the channels answer to a poll resolves the
/// call, be it the sending of the wake handle or the look into the result
/// channel.
pub proof fn lemma_poll_after_worker_gone_resolves<Res>(
    outcome: Res,
    steps: Seq<Step<Res>>,
    event: PollEvent<Res>,
)
    requires
        is_course(outcome, steps),
        call_after(outcome, steps).worker == WorkerState::Finished,
        !(call_after(outcome, steps).pending is Idle),
        enabled(call_after(outcome, steps), Step::Caller(event)),
    ensures
        spec_action(call_after(outcome, steps).caller, event) is Resolve,
        spec_next_state(call_after(outcome, steps).caller, event) == BridgeState::Settled,
{
    lemma_call_is_sound(outcome, steps);
}

/// The worker does nothing before the caller has polled: the blocking call is
/// made, and the result sent, only after the wake handle has gone over.
pub proof fn lemma_worker_waits_for_first_poll<Res>(outcome: Res, steps: Seq<Step<Res>>)
    requires
        is_course(outcome, steps),
        call_after(outcome, steps).caller == BridgeState::NotStarted,
    ensures
        ({
            let call = call_after(outcome, steps);
            &&& call.worker == WorkerState::Created || call.worker == WorkerState::AwaitingWaker
                || call.worker == WorkerState::Finished
            &&& !call.sent
            &&& call.wakes == 0
            &&& call.resolved.len() == 0
        }),
{
    lemma_call_is_sound(outcome, steps);
}

/// A course goes on with any step that can happen in the state it has led to.
pub proof fn lemma_course_extends<Res>(outcome: Res, steps: Seq<Step<Res>>, step: Step<Res>)
    requires
        is_course(outcome, steps),
        enabled(call_after(outcome, steps), step),
    ensures
        is_course(outcome, steps.push(step)),
        call_after(outcome, steps.push(step)) == next(outcome, call_after(outcome, steps), step),
{
    assert(steps.push(step).drop_last() =~= steps);
}

/// The steps of a call that nothing disturbs: the caller polls and finds no
/// result yet, the worker makes its call, sends the result and wakes the
/// caller, and the caller polls again.
pub open spec fn undisturbed_course<Res>(outcome: Res) -> Seq<Step<Res>> {
    seq![
        Step::Worker(WorkerEvent::Started),
        Step::Caller(PollEvent::Polled),
        Step::Caller(PollEvent::WakerSent),
        Step::Caller(PollEvent::ResultPending),
        Step::Worker(WorkerEvent::WakerReceived),
        Step::Worker(WorkerEvent::CallSucceeded),
        Step::Worker(WorkerEvent::ResultSent),
        Step::Worker(WorkerEvent::Woken),
        Step::Caller(PollEvent::Polled),
        Step::Caller(PollEvent::ResultReceived(outcome)),
    ]
}

/// A call that nothing disturbs can take its course, and at its end the
/// caller has been woken once and told once that the call resolved to the
/// worker's result.
pub proof fn lemma_undisturbed_call_resolves<Res>(outcome: Res)
    ensures
        is_course(outcome, undisturbed_course(outcome)),
        call_after(outcome, undisturbed_course(outcome)).resolved == seq![
            FutureResultView::Result(outcome),
        ],
        call_after(outcome, undisturbed_course(outcome)).caller == BridgeState::Settled,
        call_after(outcome, undisturbed_course(outcome)).worker == WorkerState::Finished,
        call_after(outcome, undisturbed_course(outcome)).wakes == 1,
{
    let all = undisturbed_course(outcome);
    let s0 = Seq::<Step<Res>>::empty();
    let s1 = s0.push(all[0]);
    lemma_course_extends(outcome, s0, all[0]);
    let s2 = s1.push(all[1]);
    lemma_course_extends(outcome, s1, all[1]);
    let s3 = s2.push(all[2]);
    lemma_course_extends(outcome, s2, all[2]);
    let s4 = s3.push(all[3]);
    lemma_course_extends(outcome, s3, all[3]);
    let s5 = s4.push(all[4]);
    lemma_course_extends(outcome, s4, all[4]);
    let s6 = s5.push(all[5]);
    lemma_course_extends(outcome, s5, all[5]);
    let s7 = s6.push(all[6]);
    lemma_course_extends(outcome, s6, all[6]);
    let s8 = s7.push(all[7]);
    lemma_course_extends(outcome, s7, all[7]);
    let s9 = s8.push(all[8]);
    lemma_course_extends(outcome, s8, all[8]);
    let s10 = s9.push(all[9]);
    lemma_course_extends(outcome, s9, all[9]);
    assert(s10 =~= all);
}

} // verus!
