//! Client-agnostic HTTP request execution.
//!
//! A crate that talks to an HTTP API can be written against one capability,
//! "carry out this request and give me the response", and leave the choice of
//! HTTP client to its users. This library holds what the adapters for such
//! clients have to get right, apart from the calls themselves:
//!
//! - [`schema`]: the neutral request and response that callers speak;
//! - [`surf_adapter`]: the conversions to and from the model of a client that
//!   has method, status and version enumerations of its own and text headers;
//! - [`ureq_adapter`]: the bridge that lets a blocking client be awaited, as
//!   two state machines, one for the caller and one for the worker thread,
//!   with what holds of every call they can make together;
//! - [`text`]: the wording of error messages;
//! - [`external`]: the few calls into outside crates that the conversions
//!   rest on, with the contracts they are assumed to meet.
//!
//! Nothing here touches the network, a thread or a clock. Whoever makes the
//! calls hands this library plain values and acts on what it decides.

pub mod external;
pub mod schema;
pub mod surf_adapter;
pub mod text;
pub mod ureq_adapter;
