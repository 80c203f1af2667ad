//! The closed error taxonomy of the telemetry core.
use vstd::prelude::*;

verus! {

/// Errors that telemetry operations can report. Each carries a message.
#[derive(Debug)]
pub enum Error {
    /// Textual encoding or decoding failed.
    Json(String),
    /// Binary encoding failed.
    MessagePack(String),
    /// Binary decoding failed.
    MessagePackDecode(String),
    /// A transport (socket) operation failed.
    WebSocket(String),
    /// An I/O operation failed.
    Io(String),
    /// A background task could not be joined.
    Tokio(String),
    /// The wall clock could not be read as epoch time.
    TimestampError(String),
    /// Metrics were requested without sufficient transaction history.
    MissingData(String),
    /// Transaction bookkeeping failed.
    TransactionError(String),
    /// A middleware failed.
    Middleware(String),
    /// Anything else.
    Unknown(String),
}

impl Error {
    /// The message carried by this error.
    pub fn message(&self) -> (r: &String)
        ensures
            match self {
                Error::Json(m) | Error::MessagePack(m) | Error::MessagePackDecode(m)
                | Error::WebSocket(m) | Error::Io(m) | Error::Tokio(m)
                | Error::TimestampError(m) | Error::MissingData(m)
                | Error::TransactionError(m) | Error::Middleware(m)
                | Error::Unknown(m) => r == m,
            },
    {
        match self {
            Error::Json(m) | Error::MessagePack(m) | Error::MessagePackDecode(m)
            | Error::WebSocket(m) | Error::Io(m) | Error::Tokio(m)
            | Error::TimestampError(m) | Error::MissingData(m)
            | Error::TransactionError(m) | Error::Middleware(m)
            | Error::Unknown(m) => m,
        }
    }
}

} // verus!
