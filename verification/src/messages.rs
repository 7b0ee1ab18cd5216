//! The messages that an invocation reads and answers with.

use std::collections::HashMap;
use vstd::prelude::*;

verus! {

/// Unix socket on which the function runner serves its requests.
pub const SOCKET_PATH: &'static str = "/run/app.sock";

/// What a handler sees besides its input: the metadata sent with the request.
pub struct Context {
    pub values: HashMap<String, String>,
}

/// A failure that a handler reports on purpose (an RFC 7807 style problem).
pub struct Problem {
    /// The problem's type, a short identifier such as `"validation_error"`.
    pub problem_type: String,
    /// A human-readable explanation.
    pub detail: String,
}

/// The JSON encoding of a handler's output.
pub struct Success {
    pub output: Vec<u8>,
}

/// The two answers that a completed invocation carries.
pub enum InvokeOutcome {
    Success(Success),
    Problem(Problem),
}

/// The answer to an invocation that did not fail at the transport level.
pub struct InvokeResult {
    pub result: Option<InvokeOutcome>,
}

/// A request to run the function once.
pub struct InvokeRequest {
    /// The handler's input, encoded as JSON.
    pub payload: Vec<u8>,
    /// Key/value metadata that is handed to the handler as its [`Context`].
    pub metadata: HashMap<String, String>,
}

/// The gRPC status codes with which an invocation can fail.
#[derive(PartialEq, Eq, Structural, Clone, Copy, Debug)]
pub enum Code {
    /// The payload was not a valid encoding of the handler's input.
    InvalidArgument,
    /// The handler panicked.
    Internal,
    /// The handler's output could not be encoded.
    DataLoss,
}

/// A failed invocation: a gRPC status code with its message.
pub struct Status {
    pub code: Code,
    pub message: String,
}

impl Status {
    /// A status with code `InvalidArgument` and the given message.
    pub fn invalid_argument(message: String) -> (s: Status)
        ensures
            s.code == Code::InvalidArgument,
            s.message@ == message@,
    {
        Status { code: Code::InvalidArgument, message }
    }

    /// A status with code `Internal` and the given message.
    pub fn internal(message: String) -> (s: Status)
        ensures
            s.code == Code::Internal,
            s.message@ == message@,
    {
        Status { code: Code::Internal, message }
    }

    /// A status with code `DataLoss` and the given message.
    pub fn data_loss(message: String) -> (s: Status)
        ensures
            s.code == Code::DataLoss,
            s.message@ == message@,
    {
        Status { code: Code::DataLoss, message }
    }
}

} // verus!
