//! What this library takes on trust from the crates it calls.
//!
//! Every item here is believed, not proved: the types of other crates that
//! the library handles, the contracts of their functions, and the names of
//! results that only those crates can compute.

use crate::adapters::database::DatabaseFailure;
use crate::adapters::http_client::HttpClientSigns;
use crate::adapters::web::WebFailure;
use crate::loader::YamlValue;
use vstd::prelude::*;

verus! {

/// `String::push` appends one character to the string.
pub assume_specification[ String::push ](s: &mut String, c: char)
    ensures
        final(s)@ == old(s)@.push(c),
;

/// The error of `std::io`.
#[verifier::external_type_specification]
#[verifier::external_body]
pub struct ExIoError(std::io::Error);

/// The kinds of error of `std::io`; the variants are read from `std`.
#[verifier::external_type_specification]
pub struct ExIoErrorKind(std::io::ErrorKind);

/// `std::io::Error::kind` gives the kind of the error. Nothing is claimed
/// of which kind it is.
pub assume_specification[ std::io::Error::kind ](error: &std::io::Error) -> (kind:
    std::io::ErrorKind)
;

/// The error of `git2`.
#[verifier::external_type_specification]
#[verifier::external_body]
pub struct ExGitError(git2::Error);

/// The error codes of `git2`; the variants are read from `git2`.
#[verifier::external_type_specification]
pub struct ExGitErrorCode(git2::ErrorCode);

/// The code of the error, as `git2::Error::code` gives it. Nothing is
/// claimed of which code it is.
#[verifier::external_body]
pub(crate) fn git_error_code(error: &git2::Error) -> git2::ErrorCode {
    error.code()
}

/// The error of `diesel`.
#[verifier::external_type_specification]
#[verifier::external_body]
pub struct ExDieselError(diesel::result::Error);

/// Tells the variants of `diesel::result::Error` apart, one failure for
/// each of the six that the library knows and `Unknown` for every other.
/// Nothing is claimed of the result.
#[verifier::external_body]
pub(crate) fn database_failure_of(error: &diesel::result::Error) -> DatabaseFailure {
    match error {
        diesel::result::Error::NotFound => DatabaseFailure::NotFound,
        diesel::result::Error::DatabaseError(_, _) => DatabaseFailure::Database,
        diesel::result::Error::QueryBuilderError(_) => DatabaseFailure::QueryBuilder,
        diesel::result::Error::DeserializationError(_) => DatabaseFailure::Deserialization,
        diesel::result::Error::SerializationError(_) => DatabaseFailure::Serialization,
        diesel::result::Error::RollbackTransaction => DatabaseFailure::RollbackTransaction,
        _ => DatabaseFailure::Unknown,
    }
}

/// The error of `reqwest`.
#[verifier::external_type_specification]
#[verifier::external_body]
pub struct ExReqwestError(reqwest::Error);

/// What `error` answers to `is_timeout`, `is_status`, `is_connect`,
/// `is_body` and `is_decode` of `reqwest::Error`. Nothing is claimed of the
/// answers.
#[verifier::external_body]
pub(crate) fn http_client_signs(error: &reqwest::Error) -> HttpClientSigns {
    HttpClientSigns {
        timeout: error.is_timeout(),
        status: error.is_status(),
        connect: error.is_connect(),
        body: error.is_body(),
        decode: error.is_decode(),
    }
}

/// An HTTP status code of the crate `http`, which `axum` hands on.
#[verifier::external_type_specification]
#[verifier::external_body]
pub struct ExStatusCode(axum::http::StatusCode);

/// The number of a status code, as `StatusCode::as_u16` gives it. Nothing
/// is claimed of the number.
#[verifier::external_body]
pub(crate) fn status_number(status: &axum::http::StatusCode) -> u16 {
    status.as_u16()
}

/// The error of `axum`.
#[verifier::external_type_specification]
#[verifier::external_body]
pub struct ExAxumError(axum::Error);

/// Looks at the source of `error`, as `std::error::Error::source` gives it:
/// `Io` where it is an I/O error, `Hyper` where it is an error of `hyper`,
/// `Http` where it is an error of `http`, `Unknown` in every other case.
/// Nothing is claimed of the result.
#[verifier::external_body]
pub(crate) fn web_failure_of(error: &axum::Error) -> WebFailure {
    let source = std::error::Error::source(error);
    if source.and_then(|e| e.downcast_ref::<std::io::Error>()).is_some() {
        WebFailure::Io
    } else if source.and_then(|e| e.downcast_ref::<hyper::Error>()).is_some() {
        WebFailure::Hyper
    } else if source.and_then(|e| e.downcast_ref::<axum::http::Error>()).is_some() {
        WebFailure::Http
    } else {
        WebFailure::Unknown
    }
}

/// The error of the connection pool `r2d2`.
#[verifier::external_type_specification]
#[verifier::external_body]
pub struct ExPoolError(r2d2_postgres::r2d2::Error);

/// The error of `serde_json`.
#[verifier::external_type_specification]
#[verifier::external_body]
pub struct ExJsonError(serde_json::Error);

/// The error of `serde_yaml`.
#[verifier::external_type_specification]
#[verifier::external_body]
pub struct ExYamlError(serde_yaml::Error);

/// The error that the deserializers of `serde::de::value` give.
#[verifier::external_type_specification]
#[verifier::external_body]
pub struct ExSerdeError(serde::de::value::Error);

/// A value of `serde_yaml`.
#[verifier::external_type_specification]
#[verifier::external_body]
pub struct ExYamlValue(serde_yaml::Value);

/// The document that `serde_yaml` reads from `bytes`; `None` where it
/// rejects them.
pub uninterp spec fn yaml_document(bytes: Seq<u8>) -> Option<YamlValue>;

/// Reads `bytes` as one YAML document with `serde_yaml::from_slice`. The
/// outcome depends on the bytes alone: it is the document named by
/// [`yaml_document`], or the parser's error where that is `None`.
#[verifier::external_body]
pub(crate) fn read_document(bytes: &[u8]) -> (read: Result<YamlValue, serde_yaml::Error>)
    ensures
        match read {
            Ok(document) => yaml_document(bytes@) == Some(document),
            Err(_) => yaml_document(bytes@) is None,
        },
{
    match serde_yaml::from_slice::<serde_yaml::Value>(bytes) {
        Ok(value) => Ok(document_of(value)),
        Err(error) => Err(error),
    }
}

/// Turns a `serde_yaml::Value` into a [`YamlValue`], variant by variant. A
/// number loses its value and a tagged value its tag; sequences and mappings
/// keep their order. Nothing is claimed of the result here; what
/// [`read_document`] returns is named as a whole.
#[verifier::external_body]
fn document_of(value: serde_yaml::Value) -> YamlValue {
    match value {
        serde_yaml::Value::Null => YamlValue::Null,
        serde_yaml::Value::Bool(b) => YamlValue::Bool(b),
        serde_yaml::Value::Number(_) => YamlValue::Number,
        serde_yaml::Value::String(s) => YamlValue::Text(s),
        serde_yaml::Value::Sequence(items) => YamlValue::Sequence(
            items.into_iter().map(document_of).collect(),
        ),
        serde_yaml::Value::Mapping(entries) => YamlValue::Mapping(
            entries.into_iter().map(|(k, v)| (document_of(k), document_of(v))).collect(),
        ),
        serde_yaml::Value::Tagged(tagged) => YamlValue::Tagged(Box::new(document_of(tagged.value))),
    }
}

/// The JSON text that `serde_json` writes for the object with the one
/// member `name`, whose value is the string `value`.
pub uninterp spec fn json_object(name: Seq<char>, value: Seq<char>) -> Seq<char>;

/// Builds the object with the one member `name`, whose value is the string
/// `value`, as a `serde_json::Value`, and writes it in compact form with
/// that type's `to_string`. The text depends on the two strings alone; it is
/// the one named by [`json_object`].
#[verifier::external_body]
pub(crate) fn write_json_object(name: &str, value: &str) -> (text: String)
    ensures
        text@ == json_object(name@, value@),
{
    let mut object = serde_json::Map::new();
    object.insert(name.to_string(), serde_json::Value::String(value.to_string()));
    serde_json::Value::Object(object).to_string()
}

} // verus!
