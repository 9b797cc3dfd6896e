use vstd::prelude::*;
use vstd::string::StringExecFns;

verus! {

/// Errors surfaced by the client.
///
/// - `ConfigurationError`: a configuration precondition was unmet (the API
///   key was requested but never set).  Carries a human-readable message.
/// - `RequestError`: the HTTP response status was outside the 2xx range, or
///   no response was received at all.  Carries the status code as text.
/// - `DeserializationError`: the response body did not match the expected
///   JSON shape (including unrecognized enumeration values).
#[derive(Debug)]
pub enum WorkOsError {
    ConfigurationError(String),
    RequestError(String),
    DeserializationError(String),
}

impl WorkOsError {
    /// The text that describes this error.
    pub open spec fn spec_message(&self) -> Seq<char> {
        match self {
            WorkOsError::ConfigurationError(m) => "Invalid input: "@ + m@,
            WorkOsError::RequestError(m) => m@,
            WorkOsError::DeserializationError(m) => m@,
        }
    }

    /// Renders the error as human-readable text.
    pub fn message(&self) -> (m: String)
        ensures
            m@ == self.spec_message(),
    {
        match self {
            WorkOsError::ConfigurationError(m) => {
                String::from_str("Invalid input: ").concat(m.as_str())
            },
            WorkOsError::RequestError(m) => m.clone(),
            WorkOsError::DeserializationError(m) => m.clone(),
        }
    }
}

} // verus!
