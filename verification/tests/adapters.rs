use r2d2_postgres::r2d2;
use standard_error::adapters::database::{
    database_error_code, from_database, from_diesel_error, from_pool, from_pool_error,
    DatabaseFailure,
};
use standard_error::adapters::git::{from_git, from_git_error, git_error_code_name};
use standard_error::adapters::http_client::{
    classify_http_client, from_http_client, from_reqwest_error, http_client_error_code,
    HttpClientFailure, HttpClientSigns,
};
use standard_error::adapters::io::{from_io, from_io_error, io_error_code};
use standard_error::adapters::serialization::{
    from_json_error, from_serde_error, from_serialization, from_yaml_error, SerializationFormat,
};
use standard_error::adapters::web::{
    from_axum_error, from_status, from_status_code, from_web, status_error_code, web_error_code,
    WebFailure,
};
use standard_error::adapters::classified;
use standard_error::{default_error_messages, LocaleContext, StandardErrorMessages, StringMap};
use git2::ErrorCode;
use std::io::ErrorKind;

fn messages_with(code: &str, template: &str) -> StandardErrorMessages {
    let mut templates = StringMap::new();
    templates.insert("en_US".to_string(), template.to_string());
    let mut messages = StandardErrorMessages::new();
    messages.insert(code.to_string(), templates);
    messages
}

#[test]
fn not_found_in_the_database_has_one_code_and_its_own_detail() {
    let messages = default_error_messages();
    let locale = LocaleContext::default();
    let first = from_database(DatabaseFailure::NotFound, "no user 7", &messages, &locale);
    let second = from_database(DatabaseFailure::NotFound, "no order 12", &messages, &locale);
    assert_eq!(first.err_code(), "ER-DB-NOTFOUND");
    assert_eq!(second.err_code(), first.err_code());
    assert_eq!(first.values().get("err"), Some(&"no user 7".to_string()));
    assert_eq!(second.values().get("err"), Some(&"no order 12".to_string()));
    assert_ne!(first.values().get("err"), second.values().get("err"));
    assert_eq!(first.message(), "Record not found: no user 7");
    assert_eq!(second.message(), "Record not found: no order 12");
    assert_eq!(first.status_code(), 500);
}

#[test]
fn database_failures_have_their_codes() {
    assert_eq!(database_error_code(DatabaseFailure::NotFound), "ER-DB-NOTFOUND");
    assert_eq!(database_error_code(DatabaseFailure::Database), "ER-DB-DATABASE");
    assert_eq!(database_error_code(DatabaseFailure::QueryBuilder), "ER-DB-QUERYBUILDER");
    assert_eq!(database_error_code(DatabaseFailure::Deserialization), "ER-DB-DESERIALIZATION");
    assert_eq!(database_error_code(DatabaseFailure::Serialization), "ER-DB-SERIALIZATION");
    assert_eq!(database_error_code(DatabaseFailure::RollbackTransaction), "ER-DB-ROLLBACK");
    assert_eq!(database_error_code(DatabaseFailure::Unknown), "ER-DB-UNKNOWN");
}

#[test]
fn database_error_detail_is_the_description() {
    let messages = default_error_messages();
    let locale = LocaleContext::default();
    let e = from_database(DatabaseFailure::Database, "duplicate key", &messages, &locale);
    assert_eq!(e.err_code(), "ER-DB-DATABASE");
    assert_eq!(e.values().get("err"), Some(&"duplicate key".to_string()));
    assert_eq!(e.message(), "Database error: duplicate key");
    let e = from_database(DatabaseFailure::Unknown, "what", &messages, &locale);
    assert_eq!(e.message(), "An unknown Diesel error occurred: what");
    let e = from_database(DatabaseFailure::RollbackTransaction, "[err] again", &messages, &locale);
    assert_eq!(e.message(), "Transaction was rolled back: [err] again");
}

#[test]
fn pool_errors_have_one_code() {
    let messages = messages_with("ER-DB-POOL", "Pool: [err]");
    let locale = LocaleContext::default();
    let e = from_pool("timed out waiting for connection", &messages, &locale);
    assert_eq!(e.err_code(), "ER-DB-POOL");
    assert_eq!(e.message(), "Pool: timed out waiting for connection");
}

struct NoDatabase;

impl r2d2::ManageConnection for NoDatabase {
    type Connection = ();
    type Error = std::io::Error;

    fn connect(&self) -> Result<(), std::io::Error> {
        Err(std::io::Error::new(ErrorKind::ConnectionRefused, "nobody listens"))
    }

    fn is_valid(&self, _: &mut ()) -> Result<(), std::io::Error> {
        Ok(())
    }

    fn has_broken(&self, _: &mut ()) -> bool {
        false
    }
}

#[test]
fn pool_error_is_converted_with_its_own_text() {
    let messages = messages_with("ER-DB-POOL", "Pool: [err]");
    let locale = LocaleContext::default();
    let built = r2d2::Pool::builder()
        .max_size(1)
        .connection_timeout(std::time::Duration::from_millis(50))
        .build(NoDatabase);
    let error = match built {
        Ok(_) => panic!("a pool without a database was built"),
        Err(error) => error,
    };
    let e = from_pool_error(&error, &messages, &locale);
    assert_eq!(e.err_code(), "ER-DB-POOL");
    assert_eq!(e.values().get("err"), Some(&error.to_string()));
    assert_eq!(e.message(), format!("Pool: {}", error));
}

#[test]
fn io_kinds_have_their_codes() {
    assert_eq!(io_error_code(ErrorKind::NotFound), "ER-IO-NOTFOUND");
    assert_eq!(io_error_code(ErrorKind::PermissionDenied), "ER-IO-PERMISSION");
    assert_eq!(io_error_code(ErrorKind::ConnectionRefused), "ER-IO-CONNECTION");
    assert_eq!(io_error_code(ErrorKind::ConnectionReset), "ER-IO-RESET");
    assert_eq!(io_error_code(ErrorKind::ConnectionAborted), "ER-IO-ABORTED");
    assert_eq!(io_error_code(ErrorKind::NotConnected), "ER-IO-NOTCONNECTED");
    assert_eq!(io_error_code(ErrorKind::AddrInUse), "ER-IO-ADDRINUSE");
    assert_eq!(io_error_code(ErrorKind::AddrNotAvailable), "ER-IO-ADDRNOTAVAILABLE");
    assert_eq!(io_error_code(ErrorKind::BrokenPipe), "ER-IO-BROKENPIPE");
    assert_eq!(io_error_code(ErrorKind::AlreadyExists), "ER-IO-ALREADYEXISTS");
    assert_eq!(io_error_code(ErrorKind::WouldBlock), "ER-IO-WOULDBLOCK");
    assert_eq!(io_error_code(ErrorKind::TimedOut), "ER-IO-TIMEDOUT");
    assert_eq!(io_error_code(ErrorKind::Interrupted), "ER-IO-INTERRUPTED");
    assert_eq!(io_error_code(ErrorKind::UnexpectedEof), "ER-IO-UNEXPECTEDEOF");
    assert_eq!(io_error_code(ErrorKind::InvalidData), "ER-IO-UNKNOWN");
    assert_eq!(io_error_code(ErrorKind::Other), "ER-IO-UNKNOWN");
}

#[test]
fn io_error_is_converted_with_its_own_text() {
    let messages = default_error_messages();
    let locale = LocaleContext::default();
    let error = std::io::Error::new(ErrorKind::NotFound, "errors.yaml is missing");
    let e = from_io_error(&error, &messages, &locale);
    assert_eq!(e.err_code(), "ER-IO-NOTFOUND");
    assert_eq!(e.message(), "File not found: errors.yaml is missing");
    let error = std::io::Error::new(ErrorKind::InvalidInput, "bad argument");
    let e = from_io_error(&error, &messages, &locale);
    assert_eq!(e.err_code(), "ER-IO-UNKNOWN");
    assert_eq!(e.message(), "An unknown I/O error occurred: bad argument");
    let e = from_io(ErrorKind::TimedOut, "too slow", &messages, &locale);
    assert_eq!(e.err_code(), "ER-IO-TIMEDOUT");
    assert_eq!(e.message(), "Operation timed out: too slow");
}

#[test]
fn git_codes_have_their_codes() {
    assert_eq!(git_error_code_name(ErrorCode::GenericError), "ERR-GIT-GENERIC");
    assert_eq!(git_error_code_name(ErrorCode::NotFound), "ERR-GIT-NOTFOUND");
    assert_eq!(git_error_code_name(ErrorCode::Exists), "ERR-GIT-EXISTS");
    assert_eq!(git_error_code_name(ErrorCode::Ambiguous), "ERR-GIT-AMBIGUOUS");
    assert_eq!(git_error_code_name(ErrorCode::BufSize), "ERR-GIT-BUFSIZE");
    assert_eq!(git_error_code_name(ErrorCode::User), "ERR-GIT-USER");
    assert_eq!(git_error_code_name(ErrorCode::BareRepo), "ERR-GIT-BARE-REPO");
    assert_eq!(git_error_code_name(ErrorCode::UnbornBranch), "ERR-GIT-UNBORN-BRANCH");
    assert_eq!(git_error_code_name(ErrorCode::Unmerged), "ERR-GIT-UNMERGED");
    assert_eq!(git_error_code_name(ErrorCode::NotFastForward), "ERR-GIT-NOT-FAST-FORWARD");
    assert_eq!(git_error_code_name(ErrorCode::InvalidSpec), "ERR-GIT-INVALID-SPEC");
    assert_eq!(git_error_code_name(ErrorCode::Conflict), "ERR-GIT-CONFLICT");
    assert_eq!(git_error_code_name(ErrorCode::Locked), "ERR-GIT-LOCKED");
    assert_eq!(git_error_code_name(ErrorCode::Modified), "ERR-GIT-MODIFIED");
    assert_eq!(git_error_code_name(ErrorCode::Auth), "ERR-GIT-AUTH");
    assert_eq!(git_error_code_name(ErrorCode::Certificate), "ERR-GIT-CERTIFICATE");
    assert_eq!(git_error_code_name(ErrorCode::Applied), "ERR-GIT-APPLIED");
    assert_eq!(git_error_code_name(ErrorCode::Peel), "ERR-GIT-PEEL");
    assert_eq!(git_error_code_name(ErrorCode::Eof), "ERR-GIT-EOF");
    assert_eq!(git_error_code_name(ErrorCode::Invalid), "ERR-GIT-INVALID");
    assert_eq!(git_error_code_name(ErrorCode::Uncommitted), "ERR-GIT-UNCOMMITTED");
    assert_eq!(git_error_code_name(ErrorCode::Directory), "ERR-GIT-DIRECTORY");
    assert_eq!(git_error_code_name(ErrorCode::MergeConflict), "ERR-GIT-MERGE-CONFLICT");
    assert_eq!(git_error_code_name(ErrorCode::HashsumMismatch), "ERR-GIT-HASHSUM-MISMATCH");
    assert_eq!(git_error_code_name(ErrorCode::IndexDirty), "ERR-GIT-INDEX-DIRTY");
    assert_eq!(git_error_code_name(ErrorCode::ApplyFail), "ERR-GIT-APPLY-FAIL");
    assert_eq!(git_error_code_name(ErrorCode::Owner), "ERR-GIT-OWNER");
    assert_eq!(git_error_code_name(ErrorCode::Timeout), "ERR-GIT-UNKNOWN");
}

#[test]
fn git_error_is_converted_with_its_own_text() {
    let messages = default_error_messages();
    let locale = LocaleContext::default();
    let error = git2::Error::new(git2::ErrorCode::NotFound, git2::ErrorClass::None, "no such ref");
    let e = from_git_error(&error, &messages, &locale);
    assert_eq!(e.err_code(), "ERR-GIT-NOTFOUND");
    assert_eq!(e.values().get("err"), Some(&error.to_string()));
    assert_eq!(
        e.message(),
        format!("The requested resource was not found in the Git repository: {}", error)
    );
    let e = from_git(git2::ErrorCode::Auth, "denied", &messages, &locale);
    assert_eq!(e.err_code(), "ERR-GIT-AUTH");
    assert_eq!(e.message(), "Authentication failed during the Git operation: denied");
    let e = from_git(git2::ErrorCode::Timeout, "slow", &messages, &locale);
    assert_eq!(e.err_code(), "ERR-GIT-UNKNOWN");
    assert_eq!(e.message(), "unknown error");
}

#[test]
fn http_client_signs_are_read_in_order() {
    let none = HttpClientSigns { timeout: false, status: false, connect: false, body: false, decode: false };
    assert_eq!(classify_http_client(none), HttpClientFailure::Unknown);
    assert_eq!(
        classify_http_client(HttpClientSigns { timeout: true, connect: true, ..none }),
        HttpClientFailure::Timeout
    );
    assert_eq!(
        classify_http_client(HttpClientSigns { status: true, decode: true, ..none }),
        HttpClientFailure::Status
    );
    assert_eq!(
        classify_http_client(HttpClientSigns { connect: true, body: true, ..none }),
        HttpClientFailure::Connect
    );
    assert_eq!(
        classify_http_client(HttpClientSigns { body: true, decode: true, ..none }),
        HttpClientFailure::Body
    );
    assert_eq!(
        classify_http_client(HttpClientSigns { decode: true, ..none }),
        HttpClientFailure::Decode
    );
}

#[test]
fn http_client_failures_have_their_codes_and_details() {
    assert_eq!(http_client_error_code(HttpClientFailure::Timeout), "ER-REQWEST-TIMEOUT");
    assert_eq!(http_client_error_code(HttpClientFailure::Status), "ER-REQWEST-STATUS");
    assert_eq!(http_client_error_code(HttpClientFailure::Connect), "ER-REQWEST-CONNECT");
    assert_eq!(http_client_error_code(HttpClientFailure::Body), "ER-REQWEST-BODY");
    assert_eq!(http_client_error_code(HttpClientFailure::Decode), "ER-REQWEST-DECODE");
    assert_eq!(http_client_error_code(HttpClientFailure::Unknown), "ER-REQWEST-UNKNOWN");
    let locale = LocaleContext::default();
    let cases = [
        (HttpClientFailure::Timeout, "ER-REQWEST-TIMEOUT"),
        (HttpClientFailure::Status, "ER-REQWEST-STATUS"),
        (HttpClientFailure::Connect, "ER-REQWEST-CONNECT"),
        (HttpClientFailure::Body, "ER-REQWEST-BODY"),
        (HttpClientFailure::Decode, "ER-REQWEST-DECODE"),
        (HttpClientFailure::Unknown, "ER-REQWEST-UNKNOWN"),
    ];
    for (failure, code) in cases {
        let messages = messages_with(code, "<[err]>");
        let e = from_http_client(failure, "what happened", &messages, &locale);
        assert_eq!(e.err_code(), code);
        assert_eq!(e.values().get("err"), Some(&"what happened".to_string()));
        assert_eq!(e.message(), "<what happened>");
    }
}

#[test]
fn serialization_errors_have_their_codes_and_descriptions() {
    let locale = LocaleContext::default();
    let messages = messages_with("ER-SERDE", "<[err]>");
    let e = from_serialization(SerializationFormat::Generic, "bad", &messages, &locale);
    assert_eq!(e.err_code(), "ER-SERDE");
    assert_eq!(e.message(), "<bad>");
    let messages = messages_with("ER-SERDE-JSON", "<[err]>");
    let e = from_serialization(SerializationFormat::Json, "bad", &messages, &locale);
    assert_eq!(e.err_code(), "ER-SERDE-JSON");
    assert_eq!(e.message(), "<bad>");
    let messages = messages_with("ER-SERDE-YAML", "<[err]>");
    let e = from_serialization(SerializationFormat::Yaml, "bad", &messages, &locale);
    assert_eq!(e.err_code(), "ER-SERDE-YAML");
    assert_eq!(e.message(), "<bad>");
}

#[test]
fn serialization_errors_are_converted_with_their_own_text() {
    let locale = LocaleContext::default();
    let messages = messages_with("ER-SERDE-JSON", "[err]");
    let error = serde_json::from_str::<serde_json::Value>("{").unwrap_err();
    let e = from_json_error(&error, &messages, &locale);
    assert_eq!(e.err_code(), "ER-SERDE-JSON");
    assert_eq!(e.message(), error.to_string());
    assert_eq!(e.values().get("err"), Some(&error.to_string()));

    let messages = messages_with("ER-SERDE-YAML", "[err]");
    let error = serde_yaml::from_str::<serde_yaml::Value>("a: [").unwrap_err();
    let e = from_yaml_error(&error, &messages, &locale);
    assert_eq!(e.err_code(), "ER-SERDE-YAML");
    assert_eq!(e.message(), error.to_string());

    let messages = messages_with("ER-SERDE", "[err]");
    let error = <serde::de::value::Error as serde::de::Error>::custom("no such field");
    let e = from_serde_error(&error, &messages, &locale);
    assert_eq!(e.err_code(), "ER-SERDE");
    assert_eq!(e.message(), "no such field");
}

#[test]
fn web_failures_have_their_codes_and_details() {
    let locale = LocaleContext::default();
    let cases = [
        (WebFailure::Io, "ER-AXUM-IO"),
        (WebFailure::Hyper, "ER-AXUM-HYPER"),
        (WebFailure::Http, "ER-AXUM-HTTP"),
        (WebFailure::Unknown, "ER-AXUM-UNKNOWN"),
        (WebFailure::InvalidHeaderValue, "ER-AXUM-INVALIDHEADERVALUE"),
        (WebFailure::InvalidHeaderName, "ER-AXUM-INVALIDHEADERNAME"),
        (WebFailure::HttpError, "ER-AXUM-HTTPERROR"),
    ];
    for (failure, code) in cases {
        let messages = messages_with(code, "<[err]>");
        let e = from_web(failure, "cause", &messages, &locale);
        assert_eq!(e.err_code(), code);
        assert_eq!(web_error_code(failure), code);
        assert_eq!(e.values().get("err"), Some(&"cause".to_string()));
        assert_eq!(e.message(), "<cause>");
    }
}

#[test]
fn statuses_have_their_codes_and_details() {
    let locale = LocaleContext::default();
    let cases = [
        (404, "ER-AXUM-NOTFOUND", "404 Not Found"),
        (500, "ER-AXUM-INTERNAL", "500 Internal Server Error"),
        (400, "ER-AXUM-BADREQUEST", "400 Bad Request"),
        (403, "ER-AXUM-FORBIDDEN", "403 Forbidden"),
        (401, "ER-AXUM-UNAUTHORIZED", "401 Unauthorized"),
        (418, "ER-AXUM-UNKNOWN", "418 I'm a teapot"),
    ];
    for (status, code, detail) in cases {
        let messages = messages_with(code, "[err]");
        let line = http::StatusCode::from_u16(status).unwrap().to_string();
        let e = from_status(status, &line, &messages, &locale);
        assert_eq!(e.err_code(), code);
        assert_eq!(status_error_code(status), code);
        assert_eq!(e.message(), detail);
    }
}

#[test]
fn classified_error_has_code_and_detail() {
    let locale = LocaleContext::default();
    let messages = messages_with("X", "got [err]");
    let e = classified("X", "this".to_string(), &messages, &locale);
    assert_eq!(e.err_code(), "X");
    assert_eq!(e.message(), "got this");
}

#[test]
fn diesel_errors_are_converted_by_variant() {
    let messages = default_error_messages();
    let locale = LocaleContext::default();
    let e = from_diesel_error(&diesel::result::Error::NotFound, &messages, &locale);
    assert_eq!(e.err_code(), "ER-DB-NOTFOUND");
    assert_eq!(e.message(), "Record not found: Record not found");

    let error = diesel::result::Error::DatabaseError(
        diesel::result::DatabaseErrorKind::UniqueViolation,
        Box::new("duplicate key".to_string()),
    );
    let e = from_diesel_error(&error, &messages, &locale);
    assert_eq!(e.err_code(), "ER-DB-DATABASE");
    assert_eq!(e.values().get("err"), Some(&"duplicate key".to_string()));
    assert_eq!(e.message(), "Database error: duplicate key");

    let error = diesel::result::Error::QueryBuilderError("no changes".into());
    let e = from_diesel_error(&error, &messages, &locale);
    assert_eq!(e.err_code(), "ER-DB-QUERYBUILDER");
    assert_eq!(e.message(), "Query builder error: no changes");

    let error = diesel::result::Error::DeserializationError("bad column".into());
    assert_eq!(from_diesel_error(&error, &messages, &locale).err_code(), "ER-DB-DESERIALIZATION");
    let error = diesel::result::Error::SerializationError("bad value".into());
    assert_eq!(from_diesel_error(&error, &messages, &locale).err_code(), "ER-DB-SERIALIZATION");
    let error = diesel::result::Error::RollbackTransaction;
    assert_eq!(from_diesel_error(&error, &messages, &locale).err_code(), "ER-DB-ROLLBACK");
    let error = diesel::result::Error::AlreadyInTransaction;
    let e = from_diesel_error(&error, &messages, &locale);
    assert_eq!(e.err_code(), "ER-DB-UNKNOWN");
    assert_eq!(e.message(), format!("An unknown Diesel error occurred: {}", error));
}

#[test]
fn reqwest_errors_are_converted_by_their_signs() {
    let locale = LocaleContext::default();

    let response = reqwest::Response::from(
        http::Response::builder().status(404).body("gone").unwrap(),
    );
    let error = response.error_for_status().unwrap_err();
    let messages = messages_with("ER-REQWEST-STATUS", "[err]");
    let e = from_reqwest_error(&error, &messages, &locale);
    assert_eq!(e.err_code(), "ER-REQWEST-STATUS");
    assert_eq!(e.message(), error.to_string());
    assert!(e.message().contains("404"));

    let error = reqwest::Client::new().get("no scheme").build().unwrap_err();
    let messages = messages_with("ER-REQWEST-UNKNOWN", "[err]");
    let e = from_reqwest_error(&error, &messages, &locale);
    assert_eq!(e.err_code(), "ER-REQWEST-UNKNOWN");
    assert_eq!(e.message(), error.to_string());
}

#[test]
fn axum_errors_are_converted_by_their_cause() {
    let locale = LocaleContext::default();

    let error = axum::Error::new(std::io::Error::new(ErrorKind::BrokenPipe, "peer left"));
    let messages = messages_with("ER-AXUM-IO", "[err]");
    let e = from_axum_error(&error, &messages, &locale);
    assert_eq!(e.err_code(), "ER-AXUM-IO");
    assert_eq!(e.message(), "peer left");

    let cause = http::Request::builder().header("bad name", "x").body(()).unwrap_err();
    let text = cause.to_string();
    let error = axum::Error::new(cause);
    let messages = messages_with("ER-AXUM-HTTP", "[err]");
    let e = from_axum_error(&error, &messages, &locale);
    assert_eq!(e.err_code(), "ER-AXUM-HTTP");
    assert_eq!(e.message(), text);

    let error = axum::Error::new("something else");
    let messages = messages_with("ER-AXUM-UNKNOWN", "[err]");
    let e = from_axum_error(&error, &messages, &locale);
    assert_eq!(e.err_code(), "ER-AXUM-UNKNOWN");
    assert_eq!(e.message(), "something else");
}

#[test]
fn status_codes_are_converted_by_their_number() {
    let locale = LocaleContext::default();
    let messages = messages_with("ER-AXUM-FORBIDDEN", "[err]");
    let e = from_status_code(&http::StatusCode::FORBIDDEN, &messages, &locale);
    assert_eq!(e.err_code(), "ER-AXUM-FORBIDDEN");
    assert_eq!(e.message(), "403 Forbidden");
    let messages = messages_with("ER-AXUM-UNKNOWN", "[err]");
    let e = from_status_code(&http::StatusCode::IM_A_TEAPOT, &messages, &locale);
    assert_eq!(e.err_code(), "ER-AXUM-UNKNOWN");
    assert_eq!(e.message(), "418 I'm a teapot");
}
