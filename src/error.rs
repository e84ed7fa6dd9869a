use vstd::prelude::*;

verus! {

/// Why a payload could not be decoded into an epoch record.
#[derive(Debug, Clone, Copy, PartialEq, Eq, Structural)]
pub enum DecodeError {
    /// The payload is not valid UTF-8.
    Encoding,
    /// The payload is UTF-8 but not a JSON object of the expected shape.
    Schema,
}

/// Errors of a data-availability backend.
#[derive(Debug, Clone)]
pub enum DataAvailabilityError {
    /// The connection string names a scheme other than `ws` or `wss`.
    ProtocolNotSupported(String),
    /// A transport or RPC-level failure.
    NetworkError(String),
    /// Malformed namespace, or a failed bootstrap.
    InitializationError(String),
    /// Retrieval of the blobs at a height failed.
    DataRetrievalError(u64, String),
    /// The sync target could not be accessed: operation and reason.
    SyncTargetError(String, String),
}

/// Errors of the JSON-RPC client.
#[derive(Debug, Clone)]
pub enum Error {
    /// Protocol specified in connection string is not supported.
    ProtocolNotSupported(String),
    /// Error from the underlying transport.
    TransportError(String),
}

} // verus!
