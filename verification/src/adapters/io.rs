//! Errors of the file system and of sockets.

use crate::adapters::{classified, classified_as};
use crate::catalog::StandardErrorMessages;
use crate::error::StandardError;
use crate::locale::LocaleContext;
use std::io::ErrorKind;
use vstd::prelude::*;
use vstd::string::to_string_from_display_ensures;

verus! {

/// The code of each kind of I/O error. A kind that is not listed has the
/// code `ER-IO-UNKNOWN`.
pub open spec fn io_code(kind: ErrorKind) -> Seq<char> {
    match kind {
        ErrorKind::NotFound => "ER-IO-NOTFOUND"@,
        ErrorKind::PermissionDenied => "ER-IO-PERMISSION"@,
        ErrorKind::ConnectionRefused => "ER-IO-CONNECTION"@,
        ErrorKind::ConnectionReset => "ER-IO-RESET"@,
        ErrorKind::ConnectionAborted => "ER-IO-ABORTED"@,
        ErrorKind::NotConnected => "ER-IO-NOTCONNECTED"@,
        ErrorKind::AddrInUse => "ER-IO-ADDRINUSE"@,
        ErrorKind::AddrNotAvailable => "ER-IO-ADDRNOTAVAILABLE"@,
        ErrorKind::BrokenPipe => "ER-IO-BROKENPIPE"@,
        ErrorKind::AlreadyExists => "ER-IO-ALREADYEXISTS"@,
        ErrorKind::WouldBlock => "ER-IO-WOULDBLOCK"@,
        ErrorKind::TimedOut => "ER-IO-TIMEDOUT"@,
        ErrorKind::Interrupted => "ER-IO-INTERRUPTED"@,
        ErrorKind::UnexpectedEof => "ER-IO-UNEXPECTEDEOF"@,
        _ => "ER-IO-UNKNOWN"@,
    }
}

/// The code of an I/O error of kind `kind`.
pub fn io_error_code(kind: ErrorKind) -> (code: &'static str)
    ensures
        code@ == io_code(kind),
{
    match kind {
        ErrorKind::NotFound => "ER-IO-NOTFOUND",
        ErrorKind::PermissionDenied => "ER-IO-PERMISSION",
        ErrorKind::ConnectionRefused => "ER-IO-CONNECTION",
        ErrorKind::ConnectionReset => "ER-IO-RESET",
        ErrorKind::ConnectionAborted => "ER-IO-ABORTED",
        ErrorKind::NotConnected => "ER-IO-NOTCONNECTED",
        ErrorKind::AddrInUse => "ER-IO-ADDRINUSE",
        ErrorKind::AddrNotAvailable => "ER-IO-ADDRNOTAVAILABLE",
        ErrorKind::BrokenPipe => "ER-IO-BROKENPIPE",
        ErrorKind::AlreadyExists => "ER-IO-ALREADYEXISTS",
        ErrorKind::WouldBlock => "ER-IO-WOULDBLOCK",
        ErrorKind::TimedOut => "ER-IO-TIMEDOUT",
        ErrorKind::Interrupted => "ER-IO-INTERRUPTED",
        ErrorKind::UnexpectedEof => "ER-IO-UNEXPECTEDEOF",
        _ => "ER-IO-UNKNOWN",
    }
}

/// The error for an I/O failure of kind `kind` that describes itself as
/// `description`: its code is that of the kind, whatever the description,
/// and the description is the value of `err`.
pub fn from_io(
    kind: ErrorKind,
    description: &str,
    catalog: &StandardErrorMessages,
    context: &LocaleContext,
) -> (error: StandardError)
    ensures
        error@ == classified_as(io_code(kind), description@, catalog@, context@),
        error@.consistent(),
{
    classified(io_error_code(kind), description.to_string(), catalog, context)
}

/// The error for `error`: that of its kind, with the text that the error
/// displays as the value of `err`.
pub fn from_io_error(
    error: &std::io::Error,
    catalog: &StandardErrorMessages,
    context: &LocaleContext,
) -> (converted: StandardError)
    ensures
        exists|kind: ErrorKind, description: String|
            #![trigger io_code(kind), to_string_from_display_ensures::<std::io::Error>(error, description)]
            to_string_from_display_ensures::<std::io::Error>(error, description) && converted@
                == classified_as(io_code(kind), description@, catalog@, context@),
        converted@.consistent(),
{
    let description = error.to_string();
    from_io(error.kind(), description.as_str(), catalog, context)
}

/// Two different kinds of I/O error have different codes, unless both are unlisted
/// and share `ER-IO-UNKNOWN`.
pub proof fn lemma_io_codes_differ(a: ErrorKind, b: ErrorKind)
    ensures
        a != b && io_code(a) == io_code(b) ==> io_code(a) == "ER-IO-UNKNOWN"@,
{
    reveal_strlit("ER-IO-NOTFOUND");
    reveal_strlit("ER-IO-PERMISSION");
    reveal_strlit("ER-IO-CONNECTION");
    reveal_strlit("ER-IO-RESET");
    reveal_strlit("ER-IO-ABORTED");
    reveal_strlit("ER-IO-NOTCONNECTED");
    reveal_strlit("ER-IO-ADDRINUSE");
    reveal_strlit("ER-IO-ADDRNOTAVAILABLE");
    reveal_strlit("ER-IO-BROKENPIPE");
    reveal_strlit("ER-IO-ALREADYEXISTS");
    reveal_strlit("ER-IO-WOULDBLOCK");
    reveal_strlit("ER-IO-TIMEDOUT");
    reveal_strlit("ER-IO-INTERRUPTED");
    reveal_strlit("ER-IO-UNEXPECTEDEOF");
    reveal_strlit("ER-IO-UNKNOWN");
    assert("ER-IO-NOTFOUND"@.len() == 14 && "ER-IO-NOTFOUND"@[6] == 'N');
    assert("ER-IO-PERMISSION"@.len() == 16 && "ER-IO-PERMISSION"@[6] == 'P');
    assert("ER-IO-CONNECTION"@.len() == 16 && "ER-IO-CONNECTION"@[6] == 'C');
    assert("ER-IO-RESET"@.len() == 11 && "ER-IO-RESET"@[6] == 'R');
    assert("ER-IO-ABORTED"@.len() == 13 && "ER-IO-ABORTED"@[6] == 'A');
    assert("ER-IO-NOTCONNECTED"@.len() == 18 && "ER-IO-NOTCONNECTED"@[6] == 'N');
    assert("ER-IO-ADDRINUSE"@.len() == 15 && "ER-IO-ADDRINUSE"@[6] == 'A');
    assert("ER-IO-ADDRNOTAVAILABLE"@.len() == 22 && "ER-IO-ADDRNOTAVAILABLE"@[6] == 'A');
    assert("ER-IO-BROKENPIPE"@.len() == 16 && "ER-IO-BROKENPIPE"@[6] == 'B');
    assert("ER-IO-ALREADYEXISTS"@.len() == 19 && "ER-IO-ALREADYEXISTS"@[6] == 'A');
    assert("ER-IO-WOULDBLOCK"@.len() == 16 && "ER-IO-WOULDBLOCK"@[6] == 'W');
    assert("ER-IO-TIMEDOUT"@.len() == 14 && "ER-IO-TIMEDOUT"@[6] == 'T');
    assert("ER-IO-INTERRUPTED"@.len() == 17 && "ER-IO-INTERRUPTED"@[6] == 'I');
    assert("ER-IO-UNEXPECTEDEOF"@.len() == 19 && "ER-IO-UNEXPECTEDEOF"@[6] == 'U');
    assert("ER-IO-UNKNOWN"@.len() == 13 && "ER-IO-UNKNOWN"@[6] == 'U');
}

} // verus!
