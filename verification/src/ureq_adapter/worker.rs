//! The worker's side of a bridged call.
//!
//! The worker waits for the caller's wake handle before anything else, so
//! that the handle is there when the call ends. Then it makes the blocking
//! call, sends the result, and wakes the caller. This module holds those
//! decisions as a state machine. Whoever drives it performs each action and
//! reports what happened as the next event.

use vstd::prelude::*;

use crate::ureq_adapter::error::{UreqError, UreqErrorView};

verus! {

/// How far the worker of a call has come.
#[derive(Clone, Copy, Debug, PartialEq, Eq, Structural)]
pub enum WorkerState {
    /// The worker's thread has not begun.
    Created,
    /// Waiting for the caller's wake handle.
    AwaitingWaker,
    /// Making the blocking call.
    Calling,
    /// Sending the response of a call that succeeded.
    DeliveringOk,
    /// Sending the error of a call that failed.
    DeliveringErr,
    /// Waking the caller.
    Waking,
    /// The worker has ended.
    Finished,
}

/// What happened on the worker's side since the last action.
#[derive(Clone, Copy, Debug, PartialEq, Eq, Structural)]
pub enum WorkerEvent {
    /// The worker's thread began.
    Started,
    /// The caller's wake handle arrived.
    WakerReceived,
    /// The waker channel was closed before a handle arrived.
    WakerChannelClosed,
    /// The blocking call returned a response.
    CallSucceeded,
    /// The blocking call returned an error.
    CallFailed,
    /// The result went into the result channel.
    ResultSent,
    /// The result channel was closed: the result could not be sent.
    ResultChannelClosed,
    /// The caller was woken.
    Woken,
}

/// What the worker does next.
#[derive(Debug)]
pub enum WorkerAction {
    /// Block until the caller's wake handle arrives.
    ReceiveWaker,
    /// Make the blocking call.
    RunRequest,
    /// Send the result of the call over the result channel.
    SendResult,
    /// Wake the caller.
    Wake,
    /// End the worker with this outcome.
    Finish(Result<(), UreqError>),
}

/// The mathematical value of a [`WorkerAction`].
pub enum WorkerActionView {
    ReceiveWaker,
    RunRequest,
    SendResult,
    Wake,
    Finish(Result<(), UreqErrorView>),
}

impl View for WorkerAction {
    type V = WorkerActionView;

    open spec fn view(&self) -> WorkerActionView {
        match self {
            WorkerAction::ReceiveWaker => WorkerActionView::ReceiveWaker,
            WorkerAction::RunRequest => WorkerActionView::RunRequest,
            WorkerAction::SendResult => WorkerActionView::SendResult,
            WorkerAction::Wake => WorkerActionView::Wake,
            WorkerAction::Finish(outcome) => WorkerActionView::Finish(
                match outcome {
                    Ok(_) => Ok(()),
                    Err(e) => Err(e@),
                },
            ),
        }
    }
}

/// Whether `event` can happen in `state`: each state takes only the outcomes
/// of the action that led to it.
pub open spec fn spec_worker_accepts(state: WorkerState, event: WorkerEvent) -> bool {
    match state {
        WorkerState::Created => event == WorkerEvent::Started,
        WorkerState::AwaitingWaker => event == WorkerEvent::WakerReceived
            || event == WorkerEvent::WakerChannelClosed,
        WorkerState::Calling => event == WorkerEvent::CallSucceeded
            || event == WorkerEvent::CallFailed,
        WorkerState::DeliveringOk => event == WorkerEvent::ResultSent
            || event == WorkerEvent::ResultChannelClosed,
        WorkerState::DeliveringErr => event == WorkerEvent::ResultSent
            || event == WorkerEvent::ResultChannelClosed,
        WorkerState::Waking => event == WorkerEvent::Woken,
        WorkerState::Finished => false,
    }
}

/// The state that follows `state` on `event`.
pub open spec fn spec_worker_next_state(state: WorkerState, event: WorkerEvent) -> WorkerState {
    match (state, event) {
        (WorkerState::Created, WorkerEvent::Started) => WorkerState::AwaitingWaker,
        (WorkerState::AwaitingWaker, WorkerEvent::WakerReceived) => WorkerState::Calling,
        (WorkerState::AwaitingWaker, WorkerEvent::WakerChannelClosed) => WorkerState::Finished,
        (WorkerState::Calling, WorkerEvent::CallSucceeded) => WorkerState::DeliveringOk,
        (WorkerState::Calling, WorkerEvent::CallFailed) => WorkerState::DeliveringErr,
        (WorkerState::DeliveringOk, WorkerEvent::ResultSent) => WorkerState::Waking,
        (WorkerState::DeliveringErr, WorkerEvent::ResultSent) => WorkerState::Waking,
        (WorkerState::DeliveringOk, WorkerEvent::ResultChannelClosed) => WorkerState::Finished,
        (WorkerState::DeliveringErr, WorkerEvent::ResultChannelClosed) => WorkerState::Finished,
        (WorkerState::Waking, WorkerEvent::Woken) => WorkerState::Finished,
        _ => state,
    }
}

/// The action that answers `event` in `state`.
pub open spec fn spec_worker_action(state: WorkerState, event: WorkerEvent) -> WorkerActionView {
    match (state, event) {
        (WorkerState::Created, WorkerEvent::Started) => WorkerActionView::ReceiveWaker,
        (WorkerState::AwaitingWaker, WorkerEvent::WakerReceived) => WorkerActionView::RunRequest,
        (WorkerState::AwaitingWaker, WorkerEvent::WakerChannelClosed) => WorkerActionView::Finish(
            Err(UreqErrorView::InternalCommunicationError("Waker receive channel is closed"@)),
        ),
        (WorkerState::Calling, WorkerEvent::CallSucceeded) => WorkerActionView::SendResult,
        (WorkerState::Calling, WorkerEvent::CallFailed) => WorkerActionView::SendResult,
        (WorkerState::DeliveringOk, WorkerEvent::ResultSent) => WorkerActionView::Wake,
        (WorkerState::DeliveringErr, WorkerEvent::ResultSent) => WorkerActionView::Wake,
        (WorkerState::DeliveringOk, WorkerEvent::ResultChannelClosed) => WorkerActionView::Finish(
            Err(
                UreqErrorView::InternalCommunicationError(
                    "Result send channel is closed for Ok result"@,
                ),
            ),
        ),
        (WorkerState::DeliveringErr, WorkerEvent::ResultChannelClosed) => WorkerActionView::Finish(
            Err(
                UreqErrorView::InternalCommunicationError(
                    "Result send channel is closed for Err result"@,
                ),
            ),
        ),
        _ => WorkerActionView::Finish(Ok(())),
    }
}

impl WorkerState {
    /// The state of a worker whose thread has not begun.
    pub fn new() -> (state: WorkerState)
        ensures
            state == WorkerState::Created,
    {
        WorkerState::Created
    }

    /// Whether the worker has ended.
    pub fn is_finished(self) -> (finished: bool)
        ensures
            finished == (self == WorkerState::Finished),
    {
        match self {
            WorkerState::Finished => true,
            _ => false,
        }
    }
}

/// Whether `event` can happen in `state`.
pub fn worker_accepts(state: WorkerState, event: WorkerEvent) -> (accepted: bool)
    ensures
        accepted == spec_worker_accepts(state, event),
{
    match state {
        WorkerState::Created => match event {
            WorkerEvent::Started => true,
            _ => false,
        },
        WorkerState::AwaitingWaker => match event {
            WorkerEvent::WakerReceived | WorkerEvent::WakerChannelClosed => true,
            _ => false,
        },
        WorkerState::Calling => match event {
            WorkerEvent::CallSucceeded | WorkerEvent::CallFailed => true,
            _ => false,
        },
        WorkerState::DeliveringOk | WorkerState::DeliveringErr => match event {
            WorkerEvent::ResultSent | WorkerEvent::ResultChannelClosed => true,
            _ => false,
        },
        WorkerState::Waking => match event {
            WorkerEvent::Woken => true,
            _ => false,
        },
        WorkerState::Finished => false,
    }
}

/// The internal communication error with the given message.
fn lost(message: &str) -> (action: WorkerAction)
    ensures
        action@ == WorkerActionView::Finish(
            Err(UreqErrorView::InternalCommunicationError(message@)),
        ),
{
    WorkerAction::Finish(Err(UreqError::InternalCommunicationError(String::from_str(message))))
}

/// One step of the worker: the state that follows and the action to perform.
///
/// The worker first waits for the wake handle, then makes the call, then
/// sends the result whether the call succeeded or failed, then wakes the
/// caller and ends well. Where a channel turns out closed it ends at once
/// with an internal communication error that says which channel it was, and
/// the caller is not woken. A worker that has ended takes no further event.
pub fn worker_step(state: WorkerState, event: WorkerEvent) -> (next: (WorkerState, WorkerAction))
    requires
        spec_worker_accepts(state, event),
    ensures
        next.0 == spec_worker_next_state(state, event),
        next.1@ == spec_worker_action(state, event),
{
    match state {
        WorkerState::Created => (WorkerState::AwaitingWaker, WorkerAction::ReceiveWaker),
        WorkerState::AwaitingWaker => match event {
            WorkerEvent::WakerReceived => (WorkerState::Calling, WorkerAction::RunRequest),
            _ => (WorkerState::Finished, lost("Waker receive channel is closed")),
        },
        WorkerState::Calling => match event {
            WorkerEvent::CallSucceeded => (WorkerState::DeliveringOk, WorkerAction::SendResult),
            _ => (WorkerState::DeliveringErr, WorkerAction::SendResult),
        },
        WorkerState::DeliveringOk => match event {
            WorkerEvent::ResultSent => (WorkerState::Waking, WorkerAction::Wake),
            _ => (WorkerState::Finished, lost("Result send channel is closed for Ok result")),
        },
        WorkerState::DeliveringErr => match event {
            WorkerEvent::ResultSent => (WorkerState::Waking, WorkerAction::Wake),
            _ => (WorkerState::Finished, lost("Result send channel is closed for Err result")),
        },
        _ => (WorkerState::Finished, WorkerAction::Finish(Ok(()))),
    }
}

} // verus!
