//! The ways in which a run fails.

use vstd::prelude::*;

verus! {

/// `tungstenite::Error`, handed on as it comes: nothing of it is read.
#[verifier::external_type_specification]
#[verifier::external_body]
pub struct ExTransportError(tungstenite::Error);

/// A failure that ends the run. None of them is retried.
#[derive(Debug)]
pub enum WSError {
    /// A text that is no JSON, or a document that lacks what a request
    /// template must hold.
    SerdeError(serde_json::Error),
    /// The transport failed: while connecting, sending or receiving.
    TungsniteError(tungstenite::Error),
    /// A price that is no floating-point literal.
    ParseFloatError,
    /// A frame of a kind that carries no text.
    UnknownResponse,
    /// The exchange reported an error; the payload is kept as it came.
    SocketResponseError(String),
}

impl WSError {
    /// Whether this is the error that an exchange reported with `payload`.
    pub open spec fn carries(self, payload: Seq<char>) -> bool {
        self matches WSError::SocketResponseError(p) && p@ == payload
    }
}

/// The result of an operation that can end the run.
pub type WSResult<T> = Result<T, WSError>;

} // verus!
