use vstd::prelude::*;

verus! {

/// Failure taxonomy of the client. Every failed operation surfaces one of
/// these immediately; there are no retries anywhere in the core.
#[derive(Debug, Clone, PartialEq)]
pub enum ClientError {
    /// The login call returned a status other than 200; carries the
    /// server-provided response text as diagnostic.
    Authentication(String),
    /// An execution, poll or stop call returned an unexpected status;
    /// carries the server's response text verbatim, never re-interpreted.
    Service(String),
    /// A response body did not match the expected envelope shape, or the
    /// reported job status was an out-of-range integer: a fatal protocol
    /// mismatch, not a recoverable runtime condition.
    Decode,
    /// A network-level failure from the transport collaborator, propagated
    /// unchanged.
    Transport(String),
}

impl ClientError {
    /// The server- or transport-provided diagnostic text, where the variant
    /// carries one.
    pub fn detail(&self) -> (r: Option<&String>)
        ensures
            match self {
                ClientError::Authentication(t) => r == Some(t),
                ClientError::Service(t) => r == Some(t),
                ClientError::Transport(t) => r == Some(t),
                ClientError::Decode => r is None,
            },
    {
        match self {
            ClientError::Authentication(t) => Some(t),
            ClientError::Service(t) => Some(t),
            ClientError::Transport(t) => Some(t),
            ClientError::Decode => None,
        }
    }
}

} // verus!
