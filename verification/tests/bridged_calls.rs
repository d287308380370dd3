use std::future::Future;
use std::pin::Pin;
use std::sync::atomic::{AtomicUsize, Ordering};
use std::sync::mpsc::{channel, Receiver, Sender, TryRecvError};
use std::sync::Arc;
use std::task::{Context, Poll, Wake, Waker};

use http_adapter::ureq_adapter::{
    accepts, poll_step, settle, worker_accepts, worker_step, BridgeState, FutureResult,
    PollAction, PollEvent, UreqError, WorkerAction, WorkerEvent, WorkerState,
};

type CallResult = Result<Vec<u8>, UreqError>;

/// The caller's side of a call, driven over real channels.
struct Caller {
    recv_result: Receiver<CallResult>,
    send_waker: Sender<Waker>,
    state: BridgeState,
    wakers_sent: usize,
}

impl Future for Caller {
    type Output = FutureResult<CallResult>;

    fn poll(mut self: Pin<&mut Self>, cx: &mut Context) -> Poll<Self::Output> {
        let mut event = PollEvent::Polled;
        loop {
            assert!(accepts(self.state, &event));
            let (next, action) = poll_step(self.state, event);
            self.state = next;
            event = match action {
                PollAction::SendWaker => {
                    self.wakers_sent += 1;
                    match self.send_waker.send(cx.waker().clone()) {
                        Ok(()) => PollEvent::WakerSent,
                        Err(_) => PollEvent::WakerChannelClosed,
                    }
                }
                PollAction::ReceiveResult => match self.recv_result.try_recv() {
                    Ok(res) => PollEvent::ResultReceived(res),
                    Err(TryRecvError::Empty) => PollEvent::ResultPending,
                    Err(TryRecvError::Disconnected) => PollEvent::ResultChannelClosed,
                },
                PollAction::Suspend => return Poll::Pending,
                PollAction::Resolve(outcome) => return Poll::Ready(outcome),
            };
        }
    }
}

/// The worker of a call, driven over real channels one action at a time.
struct Worker {
    send_result: Sender<CallResult>,
    recv_waker: Receiver<Waker>,
    state: WorkerState,
    action: Option<WorkerAction>,
    waker: Option<Waker>,
    result: Option<CallResult>,
    answer: Option<CallResult>,
    finished: Option<Result<(), UreqError>>,
}

impl Worker {
    fn take(&mut self, event: WorkerEvent) {
        assert!(worker_accepts(self.state, event));
        let (next, action) = worker_step(self.state, event);
        self.state = next;
        match action {
            WorkerAction::Finish(outcome) => {
                assert!(self.state.is_finished());
                self.finished = Some(outcome);
                self.action = None;
            }
            other => self.action = Some(other),
        }
    }

    /// Performs the pending action. Returns whether the worker got further;
    /// it does not while it waits for a wake handle that has not come.
    fn advance(&mut self) -> bool {
        match self.action.take() {
            None => false,
            Some(WorkerAction::ReceiveWaker) => match self.recv_waker.try_recv() {
                Ok(waker) => {
                    self.waker = Some(waker);
                    self.take(WorkerEvent::WakerReceived);
                    true
                }
                Err(TryRecvError::Empty) => {
                    self.action = Some(WorkerAction::ReceiveWaker);
                    false
                }
                Err(TryRecvError::Disconnected) => {
                    self.take(WorkerEvent::WakerChannelClosed);
                    true
                }
            },
            Some(WorkerAction::RunRequest) => {
                let answer = self.answer.take().unwrap();
                let event = match answer {
                    Ok(_) => WorkerEvent::CallSucceeded,
                    Err(_) => WorkerEvent::CallFailed,
                };
                self.result = Some(answer);
                self.take(event);
                true
            }
            Some(WorkerAction::SendResult) => {
                let event = match self.send_result.send(self.result.take().unwrap()) {
                    Ok(()) => WorkerEvent::ResultSent,
                    Err(_) => WorkerEvent::ResultChannelClosed,
                };
                self.take(event);
                true
            }
            Some(WorkerAction::Wake) => {
                self.waker.take().unwrap().wake();
                self.take(WorkerEvent::Woken);
                true
            }
            Some(WorkerAction::Finish(_)) => unreachable!(),
        }
    }

    fn run(&mut self) {
        while self.advance() {}
    }
}

struct CountWakes(AtomicUsize);

impl Wake for CountWakes {
    fn wake(self: Arc<Self>) {
        self.0.fetch_add(1, Ordering::SeqCst);
    }
}

fn call(answer: CallResult) -> (Caller, Worker) {
    let (send_result, recv_result) = channel();
    let (send_waker, recv_waker) = channel();
    let caller = Caller { recv_result, send_waker, state: BridgeState::new(), wakers_sent: 0 };
    let mut worker = Worker {
        send_result,
        recv_waker,
        state: WorkerState::new(),
        action: None,
        waker: None,
        result: None,
        answer: Some(answer),
        finished: None,
    };
    worker.take(WorkerEvent::Started);
    (caller, worker)
}

fn poll(caller: &mut Caller, wakes: &Arc<CountWakes>) -> Poll<FutureResult<CallResult>> {
    let waker = Waker::from(wakes.clone());
    let mut cx = Context::from_waker(&waker);
    Pin::new(caller).poll(&mut cx)
}

#[test]
fn bridged_call_delivers_the_response() {
    let wakes = Arc::new(CountWakes(AtomicUsize::new(0)));
    let (mut caller, mut worker) = call(Ok(b"hello".to_vec()));

    worker.run();
    assert_eq!(worker.state, WorkerState::AwaitingWaker);

    assert!(poll(&mut caller, &wakes).is_pending());
    assert_eq!(caller.state, BridgeState::WaiterRegistered);
    assert!(poll(&mut caller, &wakes).is_pending());
    assert_eq!(caller.wakers_sent, 1);
    assert_eq!(wakes.0.load(Ordering::SeqCst), 0);

    worker.run();
    assert!(worker.state.is_finished());
    assert!(matches!(worker.finished, Some(Ok(()))));
    assert_eq!(wakes.0.load(Ordering::SeqCst), 1);

    match poll(&mut caller, &wakes) {
        Poll::Ready(outcome) => {
            assert!(matches!(settle(outcome), Ok(body) if body == b"hello"));
        }
        Poll::Pending => panic!("the result was there"),
    }
    assert!(caller.state.is_settled());
    assert_eq!(caller.wakers_sent, 1);
    assert_eq!(wakes.0.load(Ordering::SeqCst), 1);
}

#[test]
fn bridged_call_delivers_the_error() {
    let wakes = Arc::new(CountWakes(AtomicUsize::new(0)));
    let (mut caller, mut worker) = call(Err(UreqError::InvalidStatusCode(42)));
    assert!(poll(&mut caller, &wakes).is_pending());
    worker.run();
    assert!(matches!(worker.finished, Some(Ok(()))));
    assert_eq!(wakes.0.load(Ordering::SeqCst), 1);
    match poll(&mut caller, &wakes) {
        Poll::Ready(outcome) => {
            assert!(matches!(settle(outcome), Err(UreqError::InvalidStatusCode(42))));
        }
        Poll::Pending => panic!("the result was there"),
    }
    assert!(caller.state.is_settled());
}

#[test]
fn worker_does_nothing_before_the_first_poll() {
    let (caller, mut worker) = call(Ok(Vec::new()));
    worker.run();
    worker.run();
    assert_eq!(worker.state, WorkerState::AwaitingWaker);
    assert!(worker.answer.is_some());
    assert!(matches!(caller.recv_result.try_recv(), Err(TryRecvError::Empty)));
}

#[test]
fn worker_gone_before_the_first_poll_is_reported() {
    let wakes = Arc::new(CountWakes(AtomicUsize::new(0)));
    let (mut caller, worker) = call(Ok(Vec::new()));
    drop(worker);
    match poll(&mut caller, &wakes) {
        Poll::Ready(outcome) => assert!(matches!(
            settle(outcome),
            Err(UreqError::InternalCommunicationError(text))
                if text == "Waker send channel is closed"
        )),
        Poll::Pending => panic!("the worker is gone"),
    }
    assert!(caller.state.is_settled());
    assert_eq!(wakes.0.load(Ordering::SeqCst), 0);
}

#[test]
fn worker_gone_during_the_call_is_reported() {
    let wakes = Arc::new(CountWakes(AtomicUsize::new(0)));
    let (mut caller, mut worker) = call(Ok(Vec::new()));
    assert!(poll(&mut caller, &wakes).is_pending());
    assert!(worker.advance());
    assert_eq!(worker.state, WorkerState::Calling);
    drop(worker);
    match poll(&mut caller, &wakes) {
        Poll::Ready(outcome) => assert!(matches!(
            settle(outcome),
            Err(UreqError::InternalCommunicationError(text))
                if text == "Result receive channel is closed"
        )),
        Poll::Pending => panic!("the worker is gone"),
    }
    assert!(caller.state.is_settled());
}

#[test]
fn result_outlives_the_worker() {
    let wakes = Arc::new(CountWakes(AtomicUsize::new(0)));
    let (mut caller, mut worker) = call(Ok(b"late".to_vec()));
    assert!(poll(&mut caller, &wakes).is_pending());
    worker.run();
    drop(worker);
    match poll(&mut caller, &wakes) {
        Poll::Ready(outcome) => {
            assert!(matches!(settle(outcome), Ok(body) if body == b"late"));
        }
        Poll::Pending => panic!("the result was there"),
    }
}

#[test]
fn worker_without_a_caller_ends_with_an_error() {
    let (caller, mut worker) = call(Ok(Vec::new()));
    drop(caller);
    worker.run();
    assert!(worker.state.is_finished());
    assert!(matches!(
        &worker.finished,
        Some(Err(UreqError::InternalCommunicationError(text)))
            if text == "Waker receive channel is closed"
    ));
    assert!(worker.answer.is_some());
}

#[test]
fn worker_whose_caller_left_during_the_call_ends_with_an_error() {
    let wakes = Arc::new(CountWakes(AtomicUsize::new(0)));
    let (mut caller, mut worker) = call(Ok(Vec::new()));
    assert!(poll(&mut caller, &wakes).is_pending());
    drop(caller);
    worker.run();
    assert!(matches!(
        &worker.finished,
        Some(Err(UreqError::InternalCommunicationError(text)))
            if text == "Result send channel is closed for Ok result"
    ));
    assert_eq!(wakes.0.load(Ordering::SeqCst), 0);
}

#[test]
fn channels_answer_as_the_protocol_expects() {
    let (send, recv) = channel::<u8>();
    assert!(matches!(recv.try_recv(), Err(TryRecvError::Empty)));
    send.send(7).unwrap();
    drop(send);
    assert!(matches!(recv.try_recv(), Ok(7)));
    assert!(matches!(recv.try_recv(), Err(TryRecvError::Disconnected)));
    let (send, recv) = channel::<u8>();
    drop(recv);
    assert!(send.send(1).is_err());
}
