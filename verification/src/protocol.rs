use vstd::prelude::*;

use crate::error::ApiError;
use crate::error::DecodeError;
use crate::request::ApiRequest;

verus! {

/// The least request length the list endpoints reject.
pub const REQUEST_LIMIT: usize = 500;

/// Law (request validation): a request sequence is accepted exactly when it
/// holds between 1 and 499 elements; a rejected one yields
/// `InvalidRequestError` carrying the length, and the caller issues no
/// transport call for it.
pub fn validate_request(request: &Vec<ApiRequest>) -> (r: Result<(), ApiError>)
    ensures
        r is Ok <==> 1 <= request@.len() < REQUEST_LIMIT,
        r matches Err(e) ==> (e matches ApiError::InvalidRequestError(n) && n == request@.len()),
{
    let n = request.len();
    if n == 0 || n >= REQUEST_LIMIT {
        Err(ApiError::InvalidRequestError(n))
    } else {
        Ok(())
    }
}

/// Law (status dispatch): 200 passes the body on for decoding, 503 is the
/// maintenance signal `ServiceUnavailable`, and every other status surfaces
/// the body as `ApiError`. Every endpoint driver interprets statuses through
/// this one function.
pub fn classify_status(status: u16, body: String) -> (r: Result<String, ApiError>)
    ensures
        status == 200 ==> (r matches Ok(b) && b == body),
        status == 503 ==> (r matches Err(e) && e is ServiceUnavailable),
        status != 200 && status != 503 ==> (r matches Err(e) && (e matches ApiError::ApiError(b)
            && b == body)),
{
    if status == 503 {
        Err(ApiError::ServiceUnavailable)
    } else if status == 200 {
        Ok(body)
    } else {
        Err(ApiError::ApiError(body))
    }
}

/// Wraps the JSON codec's outcome on a 200 body: a decoded value passes
/// through unchanged, a codec failure becomes `ParseError`.
pub fn accept_decoded<T>(outcome: Result<T, String>) -> (r: Result<T, ApiError>)
    ensures
        outcome matches Ok(v) ==> (r matches Ok(w) && w == v),
        outcome matches Err(m) ==> (r matches Err(e) && (e matches ApiError::ParseError(d) && d
            matches DecodeError::Json(s) && s == m)),
{
    match outcome {
        Ok(v) => Ok(v),
        Err(m) => Err(ApiError::ParseError(DecodeError::Json(m))),
    }
}

} // verus!
