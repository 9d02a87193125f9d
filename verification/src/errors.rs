use vstd::prelude::*;
use vstd::string::StringExecFns;

verus! {

/// The failure kinds of the fetch-parse pipeline. The first three follow the
/// stages: the HTTP request itself, reading the response body as text, and
/// decoding the body. A coordinate string that is present but not a valid
/// decimal number gets its own kind instead of aborting the run.
#[derive(Clone, Copy, Debug, PartialEq, Eq, Structural)]
pub enum FetchError {
    RequestFailedError,
    InvalidResponse,
    ParserError,
    InvalidCoordinateFormat,
}

impl FetchError {
    /// The human-readable description of each failure kind.
    pub open spec fn spec_message(self) -> Seq<char> {
        match self {
            FetchError::RequestFailedError => "request was unsuccessful"@,
            FetchError::InvalidResponse => "the received response was not successful"@,
            FetchError::ParserError => "unable to parse the response"@,
            FetchError::InvalidCoordinateFormat => "unable to parse the coordinate values"@,
        }
    }

    pub fn message(&self) -> (r: String)
        ensures
            r@ == self.spec_message(),
    {
        match self {
            FetchError::RequestFailedError => String::from_str("request was unsuccessful"),
            FetchError::InvalidResponse => String::from_str("the received response was not successful"),
            FetchError::ParserError => String::from_str("unable to parse the response"),
            FetchError::InvalidCoordinateFormat => String::from_str("unable to parse the coordinate values"),
        }
    }
}

} // verus!
