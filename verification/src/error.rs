//! The failures an operation can end in.

use vstd::prelude::*;

verus! {

/// Why an operation failed.
#[derive(Clone, Copy, Debug, PartialEq, Eq, Structural)]
pub enum ErrorKind {
    /// An identifier was neither supplied nor configured.
    MissingConfiguration,
    /// The backend could not be reached, or did not answer in time.
    UpstreamUnreachable,
    /// The backend answered with a status outside 200-299.
    UpstreamError,
    /// The backend's answer does not have the expected shape.
    MalformedResponse,
    /// The structured payload could not be written as text.
    SerializationFailure,
}

/// JSON-RPC code for a request with invalid parameters.
pub const INVALID_PARAMS: i32 = -32602;

/// JSON-RPC code for an internal error.
pub const INTERNAL_ERROR: i32 = -32603;

impl ErrorKind {
    /// The JSON-RPC error code that reports this kind on the wire.
    pub open spec fn spec_code(self) -> int {
        if self == ErrorKind::MissingConfiguration {
            INVALID_PARAMS as int
        } else {
            INTERNAL_ERROR as int
        }
    }

    /// The JSON-RPC error code that reports this kind on the wire.
    pub fn code(self) -> (c: i32)
        ensures
            c == self.spec_code(),
    {
        match self {
            ErrorKind::MissingConfiguration => INVALID_PARAMS,
            _ => INTERNAL_ERROR,
        }
    }
}

/// A failed operation: its kind and a description that names what went wrong.
#[derive(Clone, Debug, PartialEq, Eq)]
pub struct ServiceError {
    pub kind: ErrorKind,
    pub message: String,
}

/// Mathematical model of a [`ServiceError`].
pub ghost struct Failure {
    pub kind: ErrorKind,
    pub message: Seq<char>,
}

impl View for ServiceError {
    type V = Failure;

    open spec fn view(&self) -> Failure {
        Failure { kind: self.kind, message: self.message@ }
    }
}

impl DeepView for ServiceError {
    type V = Failure;

    open spec fn deep_view(&self) -> Failure {
        self@
    }
}

impl ServiceError {
    /// A failure of the given kind with the given description.
    pub fn new(kind: ErrorKind, message: String) -> (e: ServiceError)
        ensures
            e@ == (Failure { kind, message: message@ }),
    {
        ServiceError { kind, message }
    }

    /// The JSON-RPC error code that reports this failure on the wire.
    pub fn code(&self) -> (c: i32)
        ensures
            c == self@.kind.spec_code(),
    {
        self.kind.code()
    }
}

} // verus!
