use vstd::prelude::*;

verus! {

/// Why a lookup failed. Each kind of failure has its own variant, so a caller can tell an
/// unreachable server from one that refused the request or answered with unexpected data.
pub enum ApiError {
    /// No response arrived: the connection failed, timed out or was cut.
    Transport { message: String },
    /// The server answered with a status outside the 2xx range.
    Status { code: u16, body: String },
    /// The response body does not have the shape of the expected result.
    Decode { message: String },
}

/// Whether `code` is a success status.
pub open spec fn is_success(code: u16) -> bool {
    200 <= code <= 299
}

/// Passes on the body of a response with a success status; any other status becomes a
/// `Status` error that carries the code and the body.
pub fn check_status(code: u16, body: String) -> (r: Result<String, ApiError>)
    ensures
        is_success(code) ==> r == Ok::<String, ApiError>(body),
        !is_success(code) ==> r == Err::<String, ApiError>(
            (ApiError::Status { code: code, body: body }),
        ),
{
    if 200 <= code && code <= 299 {
        Ok(body)
    } else {
        Err(ApiError::Status { code, body })
    }
}

} // verus!
