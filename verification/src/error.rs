//! The error taxonomy: every failure a call can produce, as one closed
//! set of typed values. Nothing is caught or retried inside the
//! library; each kind is surfaced to the caller.

use vstd::prelude::*;
use vstd::string::StringExecFns;

use crate::json::JsonValue;

verus! {

/// An error returned by the matrix API itself: the remote system
/// rejected the request and said why.
#[derive(Debug)]
pub struct MatrixError {
    /// The machine-readable code, taken unmodified from `errcode`.
    pub code: String,
    /// The human-readable message, taken unmodified from `error`.
    pub message: String,
}

impl MatrixError {
    /// The `"code: message"` rendering used when the error is shown.
    pub fn display_string(&self) -> (r: String)
        ensures
            r@ == self.code@ + ": "@ + self.message@,
    {
        let mut s = self.code.clone();
        s.append(": ");
        s.append(self.message.as_str());
        s
    }
}

/// An error encountered during a Synapse API request.
#[derive(Debug)]
pub enum SynapseError {
    /// The access token cannot be carried in an HTTP header.
    InvalidHeader,
    /// The transport failed; carries the transport's own message.
    Reqwest(String),
    /// The composed endpoint string is not a valid absolute URL.
    Parse,
    /// The request reached the server and the server rejected it.
    Matrix(MatrixError),
    /// The response body matched neither the expected success shape
    /// nor the error shape; carries the body unmodified.
    UnknownResponse(JsonValue),
}

} // verus!
