//! The adapter for ureq, a blocking client: each call runs on a worker thread
//! of its own, and the caller waits for it without blocking.

pub mod body;
pub mod bridge;
pub mod error;
pub mod laws;
pub mod protocol;
pub mod worker;

pub use body::{body_capacity, to_response, DEFAULT_BODY_CAPACITY};
pub use bridge::{accepts, poll_step, settle, BridgeState, FutureResult, PollAction, PollEvent};
pub use error::{UreqError, UreqErrorView};
pub use worker::{worker_accepts, worker_step, WorkerAction, WorkerEvent, WorkerState};
