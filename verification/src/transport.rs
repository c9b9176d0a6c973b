//! Why an exchange with a remote agent failed before any answer came back,
//! and how that is reported.

use vstd::prelude::*;

use crate::text::join;

verus! {

/// A failure to reach a remote agent.
#[derive(Debug)]
pub enum TransportError {
    /// The agent took too long to answer.
    Timeout,
    /// No connection to the agent could be made.
    Connect,
    /// Any other failure, with its description.
    Other(String),
}

/// The words that name a transport failure.
pub open spec fn transport_reason(e: TransportError) -> Seq<char> {
    match e {
        TransportError::Timeout => "timeout"@,
        TransportError::Connect => "connection refused"@,
        TransportError::Other(s) => s@,
    }
}

impl TransportError {
    /// The words that name this failure.
    pub fn reason(&self) -> (r: String)
        ensures
            r@ == transport_reason(*self),
    {
        match self {
            TransportError::Timeout => "timeout".to_owned(),
            TransportError::Connect => "connection refused".to_owned(),
            TransportError::Other(s) => s.clone(),
        }
    }
}

/// How a request that got no answer is reported.
pub fn request_failed(e: &TransportError) -> (r: String)
    ensures
        r@ == "Request failed: "@ + transport_reason(*e),
{
    let reason = e.reason();
    join("Request failed: ", reason.as_str())
}

} // verus!
