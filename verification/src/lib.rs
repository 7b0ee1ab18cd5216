//! Verified core of the NoctiForge function-runner SDK.
//!
//! A function runner receives an `InvokeRequest` (a JSON payload and a map of
//! metadata), decodes the payload, runs the user's handler, and answers with
//! either an `InvokeResult` (the encoded output, or the `Problem` the handler
//! reported) or a gRPC `Status`.  The decisions taken along the way are the
//! state machine in [`invocation`]; the transport, the JSON codec of the
//! user's types and the asynchronous handler itself are driven from outside.

pub mod invocation;
pub mod messages;

pub use invocation::{Action, Event, Invocation};
pub use messages::{Code, Context, InvokeOutcome, InvokeRequest, InvokeResult, Problem, Status, Success};
