//! Errors of a web framework and of the HTTP types it answers with.

use crate::adapters::{classified, classified_as};
use crate::catalog::StandardErrorMessages;
use crate::error::StandardError;
use crate::foreign::{status_number, web_failure_of};
use crate::locale::LocaleContext;
use vstd::prelude::*;
use vstd::string::to_string_from_display_ensures;

verus! {

/// What went wrong in the framework.
#[derive(Debug, Clone, Copy, PartialEq, Eq, Structural)]
pub enum WebFailure {
    /// The framework's error was caused by an I/O error.
    Io,
    /// The framework's error was caused by the HTTP implementation.
    Hyper,
    /// The framework's error was caused by an HTTP type.
    Http,
    /// The framework's error has another cause, or none.
    Unknown,
    /// A header value was not valid.
    InvalidHeaderValue,
    /// A header name was not valid.
    InvalidHeaderName,
    /// A request or response could not be built.
    HttpError,
}

/// The code of each failure.
pub open spec fn web_code(failure: WebFailure) -> Seq<char> {
    match failure {
        WebFailure::Io => "ER-AXUM-IO"@,
        WebFailure::Hyper => "ER-AXUM-HYPER"@,
        WebFailure::Http => "ER-AXUM-HTTP"@,
        WebFailure::Unknown => "ER-AXUM-UNKNOWN"@,
        WebFailure::InvalidHeaderValue => "ER-AXUM-INVALIDHEADERVALUE"@,
        WebFailure::InvalidHeaderName => "ER-AXUM-INVALIDHEADERNAME"@,
        WebFailure::HttpError => "ER-AXUM-HTTPERROR"@,
    }
}

/// The code of a status that is handed on as an error.
pub open spec fn status_code_of(status: u16) -> Seq<char> {
    if status == 404 {
        "ER-AXUM-NOTFOUND"@
    } else if status == 500 {
        "ER-AXUM-INTERNAL"@
    } else if status == 400 {
        "ER-AXUM-BADREQUEST"@
    } else if status == 403 {
        "ER-AXUM-FORBIDDEN"@
    } else if status == 401 {
        "ER-AXUM-UNAUTHORIZED"@
    } else {
        "ER-AXUM-UNKNOWN"@
    }
}

/// The code of `failure`.
pub fn web_error_code(failure: WebFailure) -> (code: &'static str)
    ensures
        code@ == web_code(failure),
{
    match failure {
        WebFailure::Io => "ER-AXUM-IO",
        WebFailure::Hyper => "ER-AXUM-HYPER",
        WebFailure::Http => "ER-AXUM-HTTP",
        WebFailure::Unknown => "ER-AXUM-UNKNOWN",
        WebFailure::InvalidHeaderValue => "ER-AXUM-INVALIDHEADERVALUE",
        WebFailure::InvalidHeaderName => "ER-AXUM-INVALIDHEADERNAME",
        WebFailure::HttpError => "ER-AXUM-HTTPERROR",
    }
}

/// The code of the status `status`.
pub fn status_error_code(status: u16) -> (code: &'static str)
    ensures
        code@ == status_code_of(status),
{
    if status == 404 {
        "ER-AXUM-NOTFOUND"
    } else if status == 500 {
        "ER-AXUM-INTERNAL"
    } else if status == 400 {
        "ER-AXUM-BADREQUEST"
    } else if status == 403 {
        "ER-AXUM-FORBIDDEN"
    } else if status == 401 {
        "ER-AXUM-UNAUTHORIZED"
    } else {
        "ER-AXUM-UNKNOWN"
    }
}

/// The error for a failure of the framework that describes itself as
/// `description`: its code is that of the failure, whatever the
/// description, and the description is the value of `err`.
pub fn from_web(
    failure: WebFailure,
    description: &str,
    catalog: &StandardErrorMessages,
    context: &LocaleContext,
) -> (error: StandardError)
    ensures
        error@ == classified_as(web_code(failure), description@, catalog@, context@),
        error@.consistent(),
{
    classified(web_error_code(failure), description.to_string(), catalog, context)
}

/// The error for the status `status`, whose status line is `status_line`:
/// its code is that of the number, and the status line is the value of
/// `err`.
pub fn from_status(
    status: u16,
    status_line: &str,
    catalog: &StandardErrorMessages,
    context: &LocaleContext,
) -> (error: StandardError)
    ensures
        error@ == classified_as(status_code_of(status), status_line@, catalog@, context@),
        error@.consistent(),
{
    classified(status_error_code(status), status_line.to_string(), catalog, context)
}

/// The error for `error`: that of the cause of the error, with the text
/// that the error displays as the value of `err`.
pub fn from_axum_error(
    error: &axum::Error,
    catalog: &StandardErrorMessages,
    context: &LocaleContext,
) -> (converted: StandardError)
    ensures
        exists|failure: WebFailure, description: String|
            #![trigger web_code(failure), to_string_from_display_ensures::<axum::Error>(error, description)]
            to_string_from_display_ensures::<axum::Error>(error, description) && converted@
                == classified_as(web_code(failure), description@, catalog@, context@),
        converted@.consistent(),
{
    let description = error.to_string();
    from_web(web_failure_of(error), description.as_str(), catalog, context)
}

/// The error for `status`: that of its number, with the text that the
/// status displays as the value of `err`.
pub fn from_status_code(
    status: &axum::http::StatusCode,
    catalog: &StandardErrorMessages,
    context: &LocaleContext,
) -> (converted: StandardError)
    ensures
        exists|number: u16, line: String|
            #![trigger status_code_of(number), to_string_from_display_ensures::<axum::http::StatusCode>(status, line)]
            to_string_from_display_ensures::<axum::http::StatusCode>(status, line) && converted@
                == classified_as(status_code_of(number), line@, catalog@, context@),
        converted@.consistent(),
{
    let line = status.to_string();
    from_status(status_number(status), line.as_str(), catalog, context)
}

/// Two different failures have different codes.
pub proof fn lemma_web_codes_differ(a: WebFailure, b: WebFailure)
    ensures
        a != b ==> web_code(a) != web_code(b),
{
    reveal_strlit("ER-AXUM-IO");
    reveal_strlit("ER-AXUM-HYPER");
    reveal_strlit("ER-AXUM-HTTP");
    reveal_strlit("ER-AXUM-UNKNOWN");
    reveal_strlit("ER-AXUM-INVALIDHEADERVALUE");
    reveal_strlit("ER-AXUM-INVALIDHEADERNAME");
    reveal_strlit("ER-AXUM-HTTPERROR");
    assert("ER-AXUM-IO"@.len() == 10 && "ER-AXUM-IO"@[0] == 'E');
    assert("ER-AXUM-HYPER"@.len() == 13 && "ER-AXUM-HYPER"@[0] == 'E');
    assert("ER-AXUM-HTTP"@.len() == 12 && "ER-AXUM-HTTP"@[0] == 'E');
    assert("ER-AXUM-UNKNOWN"@.len() == 15 && "ER-AXUM-UNKNOWN"@[0] == 'E');
    assert("ER-AXUM-INVALIDHEADERVALUE"@.len() == 26 && "ER-AXUM-INVALIDHEADERVALUE"@[0] == 'E');
    assert("ER-AXUM-INVALIDHEADERNAME"@.len() == 25 && "ER-AXUM-INVALIDHEADERNAME"@[0] == 'E');
    assert("ER-AXUM-HTTPERROR"@.len() == 17 && "ER-AXUM-HTTPERROR"@[0] == 'E');
}

} // verus!
