//! What can go wrong, and how each failure reads.

use vstd::prelude::*;

verus! {

/// The lead of the message when the configuration could not be loaded.
pub const MISSING_VARIABLES_LEAD: &'static str = "failed to load environment variable: ";

/// The lead of the message when the exchange gave no response.
pub const REQUEST_FAILED_LEAD: &'static str = "request to API failed: ";

/// The whole message of an unexpected condition.
pub const UNKNOWN_MESSAGE: &'static str = "unknown error";

/// A failure of the library. The first two kinds carry the diagnostic of
/// what went wrong underneath.
#[derive(Debug, PartialEq, Eq)]
pub enum Error {
    /// The configuration could not be assembled from the environment.
    MissingVariables(String),
    /// The exchange with the API did not yield a response.
    RequestFailed(String),
    /// An unexpected condition.
    Unknown,
}

impl Error {
    /// The text of the diagnostic: the lead of the kind, then the detail.
    pub open spec fn message_text(self) -> Seq<char> {
        match self {
            Error::MissingVariables(detail) => MISSING_VARIABLES_LEAD@ + detail@,
            Error::RequestFailed(detail) => REQUEST_FAILED_LEAD@ + detail@,
            Error::Unknown => UNKNOWN_MESSAGE@,
        }
    }

    /// Renders the diagnostic for a reader.
    pub fn message(&self) -> (text: String)
        ensures
            text@ == self.message_text(),
    {
        match self {
            Error::MissingVariables(detail) => {
                String::from_str(MISSING_VARIABLES_LEAD).concat(detail.as_str())
            },
            Error::RequestFailed(detail) => {
                String::from_str(REQUEST_FAILED_LEAD).concat(detail.as_str())
            },
            Error::Unknown => String::from_str(UNKNOWN_MESSAGE),
        }
    }
}

} // verus!
