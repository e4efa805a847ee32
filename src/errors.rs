use vstd::prelude::*;
use vstd::string::*;

verus! {

/// Failures surfaced by the client; none is retried internally.
#[derive(Debug, Clone, PartialEq, Eq)]
pub enum TdbError {
    /// The transport handshake failed, or the server refused the session
    /// through its handshake error header.
    ConnFailed(String),
    /// Writing the request frame failed.
    QueryFailed(String),
    /// No connection was available when a query needed one.
    Disconnected,
    /// The inbound stream ended or failed before a reply frame arrived.
    NoResponse,
    /// The reply frame was not text, or not a response envelope.
    DecodeFailed(String),
    /// The endpoint URL could not be parsed.
    InvalidUrl(String),
}

/// The human-readable description of an error.
pub open spec fn error_text(e: TdbError) -> Seq<char> {
    match e {
        TdbError::ConnFailed(reason) => "Connection Failed: "@ + reason@,
        TdbError::QueryFailed(reason) => "Query Failed: "@ + reason@,
        TdbError::Disconnected => "Websocket disconnected"@,
        TdbError::NoResponse => "No response received"@,
        TdbError::DecodeFailed(reason) => "Decode Failed: "@ + reason@,
        TdbError::InvalidUrl(reason) => "Invalid URL: "@ + reason@,
    }
}

impl TdbError {
    /// Describes the error in words, prefixed by its kind.
    pub fn describe(&self) -> (r: String)
        ensures
            r@ == error_text(*self),
    {
        match self {
            TdbError::ConnFailed(reason) => String::from_str("Connection Failed: ").concat(reason.as_str()),
            TdbError::QueryFailed(reason) => String::from_str("Query Failed: ").concat(reason.as_str()),
            TdbError::Disconnected => String::from_str("Websocket disconnected"),
            TdbError::NoResponse => String::from_str("No response received"),
            TdbError::DecodeFailed(reason) => String::from_str("Decode Failed: ").concat(reason.as_str()),
            TdbError::InvalidUrl(reason) => String::from_str("Invalid URL: ").concat(reason.as_str()),
        }
    }
}

} // verus!
