//! Errors of the library and how an error response of the server maps to
//! one of them.
use vstd::prelude::*;

use crate::text::str_eq;

verus! {

/// `reqwest::Error`: a failure of the HTTP layer, carried through as is.
#[verifier::external_type_specification]
#[verifier::external_body]
pub struct ExHttpError(reqwest::Error);

/// `serde_json::Error`: a failure to encode or decode JSON, carried through
/// as is.
#[verifier::external_type_specification]
#[verifier::external_body]
pub struct ExJsonError(serde_json::Error);

/// Details that the server may attach to an error.
#[derive(Debug, Clone)]
pub struct ErrorDetails {
    pub field: Option<String>,
    pub reason: Option<String>,
}

/// The body of an error response: `{"error": {...}}`.
#[derive(Debug, Clone)]
pub struct ApiErrorResponse {
    pub error: ApiError,
}

/// The error object of an error response.
#[derive(Debug, Clone)]
pub struct ApiError {
    pub code: String,
    pub message: String,
    pub details: Option<ErrorDetails>,
}

/// Every way an operation of the library can fail.
#[derive(Debug)]
pub enum SdkError {
    /// The HTTP request failed.
    Http(reqwest::Error),
    /// A body could not be encoded or decoded as JSON.
    Json(serde_json::Error),
    /// The server answered with an error that has no variant of its own.
    Api { status: u16, code: String, message: String, details: Option<ErrorDetails> },
    /// The API key was refused.
    Authentication(String),
    /// Too many requests were made.
    RateLimited { reset_at: u64 },
    /// The resource does not exist.
    NotFound(String),
    /// The request did not pass validation.
    Validation(String),
    /// The request could not be built.
    Request(String),
}

/// The result of an operation of the library.
pub type Result<T> = std::result::Result<T, SdkError>;

/// The error that an error object of the server stands for: its code picks
/// the variant, and a code without a variant of its own keeps everything.
pub open spec fn api_error_to_error(status: u16, e: ApiError) -> SdkError {
    if e.code@ == "authentication_error"@ {
        SdkError::Authentication(e.message)
    } else if e.code@ == "not_found"@ {
        SdkError::NotFound(e.message)
    } else if e.code@ == "validation_error"@ {
        SdkError::Validation(e.message)
    } else if e.code@ == "rate_limit_exceeded"@ {
        SdkError::RateLimited { reset_at: 0 }
    } else {
        SdkError::Api { status, code: e.code, message: e.message, details: e.details }
    }
}

/// The code of an error object alone picks the error: `authentication_error`
/// (and no other code) gives `Authentication`, `not_found` gives `NotFound`,
/// `validation_error` gives `Validation`, `rate_limit_exceeded` gives
/// `RateLimited` with `reset_at` 0, and any other code gives `Api` with the
/// status, code, message and details unchanged.
pub proof fn lemma_api_error_rule(status: u16, e: ApiError)
    ensures
        (api_error_to_error(status, e) is Authentication) <==> e.code@ == "authentication_error"@,
        (api_error_to_error(status, e) is NotFound) <==> e.code@ == "not_found"@,
        (api_error_to_error(status, e) is Validation) <==> e.code@ == "validation_error"@,
        (api_error_to_error(status, e) is RateLimited) <==> e.code@ == "rate_limit_exceeded"@,
        e.code@ == "authentication_error"@ ==> api_error_to_error(status, e) == SdkError::Authentication(
            e.message,
        ),
        e.code@ == "not_found"@ ==> api_error_to_error(status, e) == SdkError::NotFound(e.message),
        e.code@ == "validation_error"@ ==> api_error_to_error(status, e) == SdkError::Validation(
            e.message,
        ),
        e.code@ == "rate_limit_exceeded"@ ==> api_error_to_error(status, e) == (SdkError::RateLimited {
            reset_at: 0,
        }),
        e.code@ != "authentication_error"@ && e.code@ != "not_found"@ && e.code@
            != "validation_error"@ && e.code@ != "rate_limit_exceeded"@ ==> api_error_to_error(status, e)
            == (SdkError::Api { status, code: e.code, message: e.message, details: e.details }),
{
    reveal_strlit("authentication_error");
    reveal_strlit("not_found");
    reveal_strlit("validation_error");
    reveal_strlit("rate_limit_exceeded");
    assert("authentication_error"@[0] != "not_found"@[0]);
    assert("authentication_error"@[0] != "validation_error"@[0]);
    assert("authentication_error"@[0] != "rate_limit_exceeded"@[0]);
    assert("not_found"@[0] != "validation_error"@[0]);
    assert("not_found"@[0] != "rate_limit_exceeded"@[0]);
    assert("validation_error"@[0] != "rate_limit_exceeded"@[0]);
}

/// The message used for an error status whose body could not be read as
/// an error object.
pub open spec fn status_message(status: u16) -> Seq<char> {
    if status == 400 {
        "Bad request"@
    } else if status == 401 {
        "Unauthorized"@
    } else if status == 403 {
        "Forbidden"@
    } else if status == 404 {
        "Not found"@
    } else if status == 409 {
        "Conflict"@
    } else if status == 422 {
        "Validation error"@
    } else if status == 429 {
        "Rate limited"@
    } else {
        "Unknown error"@
    }
}

/// The error for a failed response whose body was not read as an error
/// object: status, code `unknown`, and the message of the status.
pub open spec fn is_unknown_api_error(e: SdkError, status: u16) -> bool {
    e matches SdkError::Api { status: s, code, message, details }
        && s == status && code@ == "unknown"@ && message@ == status_message(status) && details is None
}

impl SdkError {
    /// The error that the server's error response stands for.
    pub fn from_api_response(status: u16, response: ApiErrorResponse) -> (e: Self)
        ensures
            e == api_error_to_error(status, response.error),
    {
        let ApiError { code, message, details } = response.error;
        if str_eq(code.as_str(), "authentication_error") {
            SdkError::Authentication(message)
        } else if str_eq(code.as_str(), "not_found") {
            SdkError::NotFound(message)
        } else if str_eq(code.as_str(), "validation_error") {
            SdkError::Validation(message)
        } else if str_eq(code.as_str(), "rate_limit_exceeded") {
            SdkError::RateLimited { reset_at: 0 }
        } else {
            SdkError::Api { status, code, message, details }
        }
    }
}

/// The message of an error status without a readable error object.
pub fn status_message_for(status: u16) -> (m: &'static str)
    ensures
        m@ == status_message(status),
{
    if status == 400 {
        "Bad request"
    } else if status == 401 {
        "Unauthorized"
    } else if status == 403 {
        "Forbidden"
    } else if status == 404 {
        "Not found"
    } else if status == 409 {
        "Conflict"
    } else if status == 422 {
        "Validation error"
    } else if status == 429 {
        "Rate limited"
    } else {
        "Unknown error"
    }
}

/// The error for a failed response with status `status`: the server's
/// error object if its body could be read as one, else a generic error
/// with code `unknown` and the message of the status.
pub fn error_for_response(status: u16, body: Option<ApiErrorResponse>) -> (e: SdkError)
    ensures
        body is Some ==> e == api_error_to_error(status, body->0.error),
        body is None ==> is_unknown_api_error(e, status),
{
    match body {
        Some(b) => SdkError::from_api_response(status, b),
        None => SdkError::Api {
            status,
            code: "unknown".to_owned(),
            message: status_message_for(status).to_owned(),
            details: None,
        },
    }
}

} // verus!
