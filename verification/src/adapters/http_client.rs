//! Errors of an HTTP client.

use crate::adapters::{classified, classified_as};
use crate::catalog::StandardErrorMessages;
use crate::error::StandardError;
use crate::foreign::http_client_signs;
use crate::locale::LocaleContext;
use vstd::prelude::*;
use vstd::string::to_string_from_display_ensures;

verus! {

/// What went wrong in a request.
#[derive(Debug, Clone, Copy, PartialEq, Eq, Structural)]
pub enum HttpClientFailure {
    /// The request timed out.
    Timeout,
    /// The response had a status that stands for an error.
    Status,
    /// No connection could be made.
    Connect,
    /// The body of the request or of the response failed.
    Body,
    /// The body of the response could not be decoded.
    Decode,
    /// Anything else.
    Unknown,
}

/// What the client's error says of itself. More than one may hold.
#[derive(Debug, Clone, Copy)]
pub struct HttpClientSigns {
    /// It is related to a timeout.
    pub timeout: bool,
    /// It comes from the status of the response.
    pub status: bool,
    /// It is related to connecting.
    pub connect: bool,
    /// It is related to a body.
    pub body: bool,
    /// It is related to decoding the body of the response.
    pub decode: bool,
}

/// The failure that the signs stand for: the first that holds, in the order
/// timeout, status, connect, body, decode.
pub open spec fn failure_of(signs: HttpClientSigns) -> HttpClientFailure {
    if signs.timeout {
        HttpClientFailure::Timeout
    } else if signs.status {
        HttpClientFailure::Status
    } else if signs.connect {
        HttpClientFailure::Connect
    } else if signs.body {
        HttpClientFailure::Body
    } else if signs.decode {
        HttpClientFailure::Decode
    } else {
        HttpClientFailure::Unknown
    }
}

/// The code of each failure.
pub open spec fn http_client_code(failure: HttpClientFailure) -> Seq<char> {
    match failure {
        HttpClientFailure::Timeout => "ER-REQWEST-TIMEOUT"@,
        HttpClientFailure::Status => "ER-REQWEST-STATUS"@,
        HttpClientFailure::Connect => "ER-REQWEST-CONNECT"@,
        HttpClientFailure::Body => "ER-REQWEST-BODY"@,
        HttpClientFailure::Decode => "ER-REQWEST-DECODE"@,
        HttpClientFailure::Unknown => "ER-REQWEST-UNKNOWN"@,
    }
}

/// The failure that `signs` stand for.
pub fn classify_http_client(signs: HttpClientSigns) -> (failure: HttpClientFailure)
    ensures
        failure == failure_of(signs),
{
    if signs.timeout {
        HttpClientFailure::Timeout
    } else if signs.status {
        HttpClientFailure::Status
    } else if signs.connect {
        HttpClientFailure::Connect
    } else if signs.body {
        HttpClientFailure::Body
    } else if signs.decode {
        HttpClientFailure::Decode
    } else {
        HttpClientFailure::Unknown
    }
}

/// The code of `failure`.
pub fn http_client_error_code(failure: HttpClientFailure) -> (code: &'static str)
    ensures
        code@ == http_client_code(failure),
{
    match failure {
        HttpClientFailure::Timeout => "ER-REQWEST-TIMEOUT",
        HttpClientFailure::Status => "ER-REQWEST-STATUS",
        HttpClientFailure::Connect => "ER-REQWEST-CONNECT",
        HttpClientFailure::Body => "ER-REQWEST-BODY",
        HttpClientFailure::Decode => "ER-REQWEST-DECODE",
        HttpClientFailure::Unknown => "ER-REQWEST-UNKNOWN",
    }
}

/// The error for a failed request that describes itself as `description`:
/// its code is that of the failure, whatever the description, and the
/// description is the value of `err`.
pub fn from_http_client(
    failure: HttpClientFailure,
    description: &str,
    catalog: &StandardErrorMessages,
    context: &LocaleContext,
) -> (error: StandardError)
    ensures
        error@ == classified_as(http_client_code(failure), description@, catalog@, context@),
        error@.consistent(),
{
    classified(http_client_error_code(failure), description.to_string(), catalog, context)
}

/// The error for `error`: that of the first sign that the error shows, with
/// the text that the error displays as the value of `err`.
pub fn from_reqwest_error(
    error: &reqwest::Error,
    catalog: &StandardErrorMessages,
    context: &LocaleContext,
) -> (converted: StandardError)
    ensures
        exists|signs: HttpClientSigns, description: String|
            #![trigger failure_of(signs), to_string_from_display_ensures::<reqwest::Error>(error, description)]
            to_string_from_display_ensures::<reqwest::Error>(error, description) && converted@
                == classified_as(
                http_client_code(failure_of(signs)),
                description@,
                catalog@,
                context@,
            ),
        converted@.consistent(),
{
    let description = error.to_string();
    let failure = classify_http_client(http_client_signs(error));
    from_http_client(failure, description.as_str(), catalog, context)
}

/// Two different failures have different codes.
pub proof fn lemma_http_client_codes_differ(a: HttpClientFailure, b: HttpClientFailure)
    ensures
        a != b ==> http_client_code(a) != http_client_code(b),
{
    reveal_strlit("ER-REQWEST-TIMEOUT");
    reveal_strlit("ER-REQWEST-STATUS");
    reveal_strlit("ER-REQWEST-CONNECT");
    reveal_strlit("ER-REQWEST-BODY");
    reveal_strlit("ER-REQWEST-DECODE");
    reveal_strlit("ER-REQWEST-UNKNOWN");
    assert("ER-REQWEST-TIMEOUT"@.len() == 18 && "ER-REQWEST-TIMEOUT"@[11] == 'T');
    assert("ER-REQWEST-STATUS"@.len() == 17 && "ER-REQWEST-STATUS"@[11] == 'S');
    assert("ER-REQWEST-CONNECT"@.len() == 18 && "ER-REQWEST-CONNECT"@[11] == 'C');
    assert("ER-REQWEST-BODY"@.len() == 15 && "ER-REQWEST-BODY"@[11] == 'B');
    assert("ER-REQWEST-DECODE"@.len() == 17 && "ER-REQWEST-DECODE"@[11] == 'D');
    assert("ER-REQWEST-UNKNOWN"@.len() == 18 && "ER-REQWEST-UNKNOWN"@[11] == 'U');
}

} // verus!
