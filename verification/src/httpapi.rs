use crate::error::AppError;
use vstd::prelude::*;

verus! {

/// The HTTP status that answers `error`.
pub open spec fn error_status(error: AppError) -> u16 {
    match error {
        AppError::URLParseError => 400,
        AppError::NotFound => 404,
        AppError::StorageFailure => 500,
    }
}

/// The message that the body of the answer to `error` carries.
pub open spec fn error_text(error: AppError) -> Seq<char> {
    match error {
        AppError::URLParseError => "Invalid URL"@,
        AppError::NotFound => "Not found"@,
        AppError::StorageFailure => "Storage failure"@,
    }
}

/// The status and the message with which a failed request is answered.
pub fn error_response(error: AppError) -> (response: (u16, String))
    ensures
        response.0 == error_status(error),
        response.1@ == error_text(error),
{
    match error {
        AppError::URLParseError => (400, "Invalid URL".to_owned()),
        AppError::NotFound => (404, "Not found".to_owned()),
        AppError::StorageFailure => (500, "Storage failure".to_owned()),
    }
}

} // verus!
