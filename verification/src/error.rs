use vstd::prelude::*;
use vstd::string::StringExecFns;

verus! {

/// Returned when the server encounters an error, either in client input or
/// internally.
#[derive(Debug, Clone, PartialEq, Default)]
pub struct PowerDNSResponseError {
    /// A human readable error message
    pub error: String,
    /// Optional array of multiple errors encountered during processing
    pub errors: Option<Vec<String>>,
}

impl PowerDNSResponseError {
    /// A one-line description of the error, for display to a user.
    pub fn message(&self) -> (r: String)
        ensures
            r@ == "error occurred: "@ + self.error@,
    {
        let m = String::from_str("error occurred: ");
        m.concat(self.error.as_str())
    }
}

/// Every way a request can fail, as a distinct, inspectable variant:
/// an error reported by the server, a transport failure, a status code
/// outside the known set, a malformed response body, or a zone name
/// rejected before any request is made.
#[derive(Debug, Clone, PartialEq)]
pub enum Error {
    /// The server answered with a known error status and a structured
    /// error body.
    PowerDNS(PowerDNSResponseError),
    /// The request itself failed (connection, timeout), with the
    /// transport's description of the failure.
    RequestError(String),
    /// The server answered with a status code outside the documented set.
    UnexpectedStatusCode(u16),
    /// A response body did not parse as the expected JSON shape.
    DeserializeError(String),
    /// The zone name given by the caller is not a validly-suffixed domain.
    InvalidDomain,
}

/// How the parse of an error body maps to an [`Error`]: a structured error
/// object becomes a server-reported error, a failed parse a
/// deserialization error.
pub open spec fn response_error(parsed: Result<PowerDNSResponseError, String>) -> Error {
    match parsed {
        Ok(p) => Error::PowerDNS(p),
        Err(m) => Error::DeserializeError(m),
    }
}

/// Whether a status code counts as success for GET and DELETE requests.
pub fn status_is_success(status: u16) -> (b: bool)
    ensures
        b == (200 <= status && status < 300),
{
    200 <= status && status < 300
}

/// The success half of a response: the parsed payload is returned exactly
/// as parsed, and a failed parse surfaces as a deserialization error.
pub fn success_response<T>(parsed: Result<T, String>) -> (r: Result<T, Error>)
    ensures
        parsed matches Ok(v) ==> r == Ok::<T, Error>(v),
        parsed matches Err(m) ==> r == Err::<T, Error>(Error::DeserializeError(m)),
{
    match parsed {
        Ok(v) => Ok(v),
        Err(m) => Err(Error::DeserializeError(m)),
    }
}

/// The error half of a response: the parse of the error body, mapped as
/// [`response_error`] says.
pub fn error_response(parsed: Result<PowerDNSResponseError, String>) -> (e: Error)
    ensures
        e == response_error(parsed),
{
    match parsed {
        Ok(p) => Error::PowerDNS(p),
        Err(m) => Error::DeserializeError(m),
    }
}

} // verus!
