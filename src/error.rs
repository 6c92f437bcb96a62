use vstd::prelude::*;

verus! {

/// Why one attempt to deliver a batch failed. Each variant carries the
/// transport's own description of the failure.
#[derive(Debug)]
pub enum TransportError {
    /// The stream connection to the collector could not be opened.
    Connect(String),
    /// The encrypted session could not be negotiated.
    Handshake(String),
    /// Writing a record's bytes to the stream failed.
    Write(String),
}

impl TransportError {
    /// The description carried by the error.
    pub fn message(&self) -> (r: &String)
        ensures
            r == match self {
                TransportError::Connect(m) => m,
                TransportError::Handshake(m) => m,
                TransportError::Write(m) => m,
            },
    {
        match self {
            TransportError::Connect(m) => m,
            TransportError::Handshake(m) => m,
            TransportError::Write(m) => m,
        }
    }
}

} // verus!
