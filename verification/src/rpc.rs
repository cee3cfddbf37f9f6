//! Outcomes of the order service's remote procedure calls: a status code
//! (the gRPC codes) and a message.
use vstd::prelude::*;

verus! {

/// The gRPC status codes.
#[derive(Clone, Copy, Debug, PartialEq, Eq, Structural)]
pub enum RpcCode {
    /// The call succeeded (gRPC `OK`).
    Success,
    Cancelled,
    Unknown,
    InvalidArgument,
    DeadlineExceeded,
    NotFound,
    AlreadyExists,
    PermissionDenied,
    ResourceExhausted,
    FailedPrecondition,
    Aborted,
    OutOfRange,
    Unimplemented,
    Internal,
    Unavailable,
    DataLoss,
    Unauthenticated,
}

/// A failed call: its code and its message.
#[derive(Clone, Debug)]
pub struct RpcStatus {
    pub code: RpcCode,
    pub message: String,
}

impl RpcStatus {
    pub fn new(code: RpcCode, message: String) -> (r: RpcStatus)
        ensures
            r.code == code,
            r.message@ == message@,
    {
        RpcStatus { code, message }
    }

    /// A request the service rejects as malformed.
    pub fn invalid_argument(message: String) -> (r: RpcStatus)
        ensures
            r.code == RpcCode::InvalidArgument,
            r.message@ == message@,
    {
        RpcStatus { code: RpcCode::InvalidArgument, message }
    }

    /// Something the request names does not exist.
    pub fn not_found(message: String) -> (r: RpcStatus)
        ensures
            r.code == RpcCode::NotFound,
            r.message@ == message@,
    {
        RpcStatus { code: RpcCode::NotFound, message }
    }

    /// The system is not in a state in which the request can be served.
    pub fn failed_precondition(message: String) -> (r: RpcStatus)
        ensures
            r.code == RpcCode::FailedPrecondition,
            r.message@ == message@,
    {
        RpcStatus { code: RpcCode::FailedPrecondition, message }
    }

    /// The service itself failed.
    pub fn internal(message: String) -> (r: RpcStatus)
        ensures
            r.code == RpcCode::Internal,
            r.message@ == message@,
    {
        RpcStatus { code: RpcCode::Internal, message }
    }
}

} // verus!
