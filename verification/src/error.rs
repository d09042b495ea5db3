use vstd::prelude::*;

verus! {

/// Why a fetch produced no record.
#[derive(Clone, Copy, Debug, PartialEq, Eq, Structural)]
pub enum FetchError {
    /// The request did not bring back a response body.
    Network,
    /// The body is not JSON, or not of the shape that the service answers with.
    Decode,
    /// The body is well formed and holds no observation.
    Empty,
}

impl FetchError {
    /// A line for the diagnostic log.
    pub fn message(&self) -> (out: &'static str)
        ensures
            out@ == self.spec_message(),
    {
        match self {
            FetchError::Network => "unable to fetch url",
            FetchError::Decode => "failed to deserialize response",
            FetchError::Empty => "empty weather response",
        }
    }

    pub open spec fn spec_message(&self) -> Seq<char> {
        match self {
            FetchError::Network => "unable to fetch url"@,
            FetchError::Decode => "failed to deserialize response"@,
            FetchError::Empty => "empty weather response"@,
        }
    }
}

} // verus!
