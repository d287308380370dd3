//! The caller's side of a bridged call.
//!
//! A call that runs on a worker thread is awaited through two one-shot
//! channels: one carries the caller's wake handle to the worker, the other
//! carries the worker's result back. This module holds the decisions of the
//! caller's side as a state machine. Whoever drives it performs each action
//! on the real channels and reports what happened as the next event.

use vstd::prelude::*;

use crate::ureq_adapter::error::{UreqError, UreqErrorView};

verus! {

/// How far a bridged call has come, seen from the caller.
#[derive(Clone, Copy, Debug, PartialEq, Eq, Structural)]
pub enum BridgeState {
    /// The wake handle has not been handed to the worker.
    NotStarted,
    /// The worker holds the wake handle; the result is awaited.
    WaiterRegistered,
    /// The call has resolved. Nothing more happens.
    Settled,
}

/// What a bridged call resolves to.
#[derive(Debug)]
pub enum FutureResult<Res> {
    /// The caller and the worker lost each other.
    CommunicationError(String),
    /// What the worker sent.
    Result(Res),
}

/// The mathematical value of a [`FutureResult`].
pub enum FutureResultView<Res> {
    CommunicationError(Seq<char>),
    Result(Res),
}

impl<Res> View for FutureResult<Res> {
    type V = FutureResultView<Res>;

    open spec fn view(&self) -> FutureResultView<Res> {
        match self {
            FutureResult::CommunicationError(text) => FutureResultView::CommunicationError(text@),
            FutureResult::Result(res) => FutureResultView::Result(*res),
        }
    }
}

/// What happened on the caller's side since the last action.
#[derive(Debug)]
pub enum PollEvent<Res> {
    /// The caller asked whether the call has resolved.
    Polled,
    /// The wake handle went into the waker channel.
    WakerSent,
    /// The waker channel was closed: the handle could not be sent.
    WakerChannelClosed,
    /// The result channel held the worker's result.
    ResultReceived(Res),
    /// The result channel was open and empty.
    ResultPending,
    /// The result channel was closed and empty.
    ResultChannelClosed,
}

/// What the caller's side does next.
#[derive(Debug)]
pub enum PollAction<Res> {
    /// Send the caller's wake handle over the waker channel.
    SendWaker,
    /// Look into the result channel without blocking.
    ReceiveResult,
    /// Tell the caller that the call has not resolved yet.
    Suspend,
    /// Tell the caller that the call has resolved, and to what.
    Resolve(FutureResult<Res>),
}

/// The mathematical value of a [`PollAction`].
pub enum PollActionView<Res> {
    SendWaker,
    ReceiveResult,
    Suspend,
    Resolve(FutureResultView<Res>),
}

impl<Res> View for PollAction<Res> {
    type V = PollActionView<Res>;

    open spec fn view(&self) -> PollActionView<Res> {
        match self {
            PollAction::SendWaker => PollActionView::SendWaker,
            PollAction::ReceiveResult => PollActionView::ReceiveResult,
            PollAction::Suspend => PollActionView::Suspend,
            PollAction::Resolve(outcome) => PollActionView::Resolve(outcome@),
        }
    }
}

/// Whether `event` can happen in `state`. Before the wake handle is with the
/// worker, only a poll and the outcome of sending the handle can; after it,
/// only a poll and the outcome of looking for the result; once the call has
/// resolved, nothing can.
pub open spec fn spec_accepts<Res>(state: BridgeState, event: PollEvent<Res>) -> bool {
    match state {
        BridgeState::NotStarted => event is Polled || event is WakerSent
            || event is WakerChannelClosed,
        BridgeState::WaiterRegistered => event is Polled || event is ResultReceived
            || event is ResultPending || event is ResultChannelClosed,
        BridgeState::Settled => false,
    }
}

/// The state that follows `state` on `event`.
pub open spec fn spec_next_state<Res>(state: BridgeState, event: PollEvent<Res>) -> BridgeState {
    match (state, event) {
        (BridgeState::NotStarted, PollEvent::WakerSent) => BridgeState::WaiterRegistered,
        (BridgeState::NotStarted, PollEvent::WakerChannelClosed) => BridgeState::Settled,
        (BridgeState::WaiterRegistered, PollEvent::ResultReceived(_)) => BridgeState::Settled,
        (BridgeState::WaiterRegistered, PollEvent::ResultChannelClosed) => BridgeState::Settled,
        _ => state,
    }
}

/// The action that answers `event` in `state`.
pub open spec fn spec_action<Res>(state: BridgeState, event: PollEvent<Res>) -> PollActionView<
    Res,
> {
    match (state, event) {
        (BridgeState::NotStarted, PollEvent::Polled) => PollActionView::SendWaker,
        (BridgeState::NotStarted, PollEvent::WakerSent) => PollActionView::ReceiveResult,
        (BridgeState::NotStarted, PollEvent::WakerChannelClosed) => PollActionView::Resolve(
            FutureResultView::CommunicationError("Waker send channel is closed"@),
        ),
        (BridgeState::WaiterRegistered, PollEvent::Polled) => PollActionView::ReceiveResult,
        (BridgeState::WaiterRegistered, PollEvent::ResultReceived(res)) => PollActionView::Resolve(
            FutureResultView::Result(res),
        ),
        (BridgeState::WaiterRegistered, PollEvent::ResultChannelClosed) => PollActionView::Resolve(
            FutureResultView::CommunicationError("Result receive channel is closed"@),
        ),
        _ => PollActionView::Suspend,
    }
}

impl BridgeState {
    /// The state of a call that has just been made.
    pub fn new() -> (state: BridgeState)
        ensures
            state == BridgeState::NotStarted,
    {
        BridgeState::NotStarted
    }

    /// Whether the call has resolved.
    pub fn is_settled(self) -> (settled: bool)
        ensures
            settled == (self == BridgeState::Settled),
    {
        match self {
            BridgeState::Settled => true,
            _ => false,
        }
    }
}

/// Whether `event` can happen in `state`.
pub fn accepts<Res>(state: BridgeState, event: &PollEvent<Res>) -> (accepted: bool)
    ensures
        accepted == spec_accepts(state, *event),
{
    match state {
        BridgeState::NotStarted => match event {
            PollEvent::Polled | PollEvent::WakerSent | PollEvent::WakerChannelClosed => true,
            _ => false,
        },
        BridgeState::WaiterRegistered => match event {
            PollEvent::Polled
            | PollEvent::ResultReceived(_)
            | PollEvent::ResultPending
            | PollEvent::ResultChannelClosed => true,
            _ => false,
        },
        BridgeState::Settled => false,
    }
}

/// One step of the caller's side: the state that follows and the action to
/// perform.
///
/// On the first poll the wake handle is sent. Once it is with the worker, the
/// result channel is looked into, on that poll and on every later one. The
/// call resolves to the worker's result when the channel holds it, and to a
/// communication error when either channel turns out closed; it stays
/// suspended while the result channel is open and empty. A call that has
/// resolved takes no further event.
pub fn poll_step<Res>(state: BridgeState, event: PollEvent<Res>) -> (next: (
    BridgeState,
    PollAction<Res>,
))
    requires
        spec_accepts(state, event),
    ensures
        next.0 == spec_next_state(state, event),
        next.1@ == spec_action(state, event),
{
    match state {
        BridgeState::NotStarted => match event {
            PollEvent::Polled => (BridgeState::NotStarted, PollAction::SendWaker),
            PollEvent::WakerSent => (BridgeState::WaiterRegistered, PollAction::ReceiveResult),
            _ => (
                BridgeState::Settled,
                PollAction::Resolve(
                    FutureResult::CommunicationError(
                        String::from_str("Waker send channel is closed"),
                    ),
                ),
            ),
        },
        _ => match event {
            PollEvent::Polled => (BridgeState::WaiterRegistered, PollAction::ReceiveResult),
            PollEvent::ResultReceived(res) => (
                BridgeState::Settled,
                PollAction::Resolve(FutureResult::Result(res)),
            ),
            PollEvent::ResultPending => (BridgeState::WaiterRegistered, PollAction::Suspend),
            _ => (
                BridgeState::Settled,
                PollAction::Resolve(
                    FutureResult::CommunicationError(
                        String::from_str("Result receive channel is closed"),
                    ),
                ),
            ),
        },
    }
}

/// The value of the result of a call.
pub open spec fn call_result_view<T>(result: Result<T, UreqError>) -> Result<T, UreqErrorView> {
    match result {
        Ok(t) => Ok(t),
        Err(e) => Err(e@),
    }
}

/// What the caller gets for what the bridged call resolved to: the worker's
/// own result, or an internal communication error with the bridge's message.
pub open spec fn spec_settle<T>(outcome: FutureResult<Result<T, UreqError>>) -> Result<
    T,
    UreqErrorView,
> {
    match outcome {
        FutureResult::CommunicationError(text) => Err(
            UreqErrorView::InternalCommunicationError(text@),
        ),
        FutureResult::Result(result) => call_result_view(result),
    }
}

/// Turns what a bridged call resolved to into the caller's result. What the
/// worker sent is handed on as it is.
pub fn settle<T>(outcome: FutureResult<Result<T, UreqError>>) -> (result: Result<T, UreqError>)
    ensures
        call_result_view(result) == spec_settle(outcome),
        outcome matches FutureResult::Result(sent) ==> result == sent,
{
    match outcome {
        FutureResult::CommunicationError(text) => Err(
            UreqError::InternalCommunicationError(text),
        ),
        FutureResult::Result(result) => result,
    }
}

} // verus!
