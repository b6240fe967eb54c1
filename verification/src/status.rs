//! Statuses of gRPC calls.

use vstd::prelude::*;

verus! {

/// The status codes of gRPC.
#[derive(Clone, Copy, Debug, PartialEq, Eq, Structural)]
pub enum Code {
    Okay,
    Cancelled,
    Unknown,
    InvalidArgument,
    DeadlineExceeded,
    NotFound,
    AlreadyExists,
    PermissionDenied,
    ResourceExhausted,
    FailedPrecondition,
    Aborted,
    OutOfRange,
    Unimplemented,
    Internal,
    Unavailable,
    DataLoss,
    Unauthenticated,
}

/// The status of a failed call.
#[derive(Debug, PartialEq, Eq)]
pub struct Status {
    pub code: Code,
    pub message: String,
}

/// A status as a mathematical value.
#[verifier::ext_equal]
pub struct StatusView {
    pub code: Code,
    pub message: Seq<char>,
}

impl View for Status {
    type V = StatusView;

    open spec fn view(&self) -> StatusView {
        StatusView { code: self.code, message: self.message@ }
    }
}

impl Status {
    /// A status of that code.
    pub fn new(code: Code, message: String) -> (status: Status)
        ensures
            status@ == (StatusView { code, message: message@ }),
    {
        Status { code, message }
    }

    /// The request cannot be served as it stands.
    pub fn invalid_argument(message: String) -> (status: Status)
        ensures
            status@ == (StatusView { code: Code::InvalidArgument, message: message@ }),
    {
        Status { code: Code::InvalidArgument, message }
    }

    /// What was asked for does not exist.
    pub fn not_found(message: String) -> (status: Status)
        ensures
            status@ == (StatusView { code: Code::NotFound, message: message@ }),
    {
        Status { code: Code::NotFound, message }
    }

    /// The state of the response does not allow the request.
    pub fn failed_precondition(message: String) -> (status: Status)
        ensures
            status@ == (StatusView { code: Code::FailedPrecondition, message: message@ }),
    {
        Status { code: Code::FailedPrecondition, message }
    }

    /// The request cannot be served for now.
    pub fn unavailable(message: String) -> (status: Status)
        ensures
            status@ == (StatusView { code: Code::Unavailable, message: message@ }),
    {
        Status { code: Code::Unavailable, message }
    }

    /// The server failed.
    pub fn internal(message: String) -> (status: Status)
        ensures
            status@ == (StatusView { code: Code::Internal, message: message@ }),
    {
        Status { code: Code::Internal, message }
    }
}

} // verus!
