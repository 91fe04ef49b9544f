use vstd::prelude::*;

verus! {

/// Why a response body could not be decoded into a typed value.
#[derive(Debug)]
pub enum DecodeError {
    /// The JSON codec rejected the body; carries the codec's message.
    Json(String),
    /// A Balance record carried a code outside the selected indicator
    /// dictionary; carries the offending code.
    UnknownIndicator(String),
}

/// The closed set of failures surfaced to callers of the endpoint drivers.
#[derive(Debug)]
pub enum ApiError {
    /// The server answered HTTP 503: the service is under maintenance.
    ServiceUnavailable,
    /// The server answered a status other than 200 or 503; carries the body.
    ApiError(String),
    /// The request held no elements, or 500 or more; carries the length.
    InvalidRequestError(usize),
    /// The underlying HTTP transport failed; carries its message.
    TransportError(String),
    /// The response body could not be decoded.
    ParseError(DecodeError),
}

} // verus!
