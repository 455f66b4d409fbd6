//! Errors of version control, as `git2` reports them.

use crate::adapters::{classified, classified_as};
use crate::catalog::StandardErrorMessages;
use crate::error::StandardError;
use crate::foreign::git_error_code;
use crate::locale::LocaleContext;
use git2::ErrorCode;
use vstd::prelude::*;
use vstd::string::to_string_from_display_ensures;

verus! {

/// The code of each error code of `git2`. One that is not listed has the
/// code `ERR-GIT-UNKNOWN`.
pub open spec fn git_code(code: ErrorCode) -> Seq<char> {
    match code {
        ErrorCode::GenericError => "ERR-GIT-GENERIC"@,
        ErrorCode::NotFound => "ERR-GIT-NOTFOUND"@,
        ErrorCode::Exists => "ERR-GIT-EXISTS"@,
        ErrorCode::Ambiguous => "ERR-GIT-AMBIGUOUS"@,
        ErrorCode::BufSize => "ERR-GIT-BUFSIZE"@,
        ErrorCode::User => "ERR-GIT-USER"@,
        ErrorCode::BareRepo => "ERR-GIT-BARE-REPO"@,
        ErrorCode::UnbornBranch => "ERR-GIT-UNBORN-BRANCH"@,
        ErrorCode::Unmerged => "ERR-GIT-UNMERGED"@,
        ErrorCode::NotFastForward => "ERR-GIT-NOT-FAST-FORWARD"@,
        ErrorCode::InvalidSpec => "ERR-GIT-INVALID-SPEC"@,
        ErrorCode::Conflict => "ERR-GIT-CONFLICT"@,
        ErrorCode::Locked => "ERR-GIT-LOCKED"@,
        ErrorCode::Modified => "ERR-GIT-MODIFIED"@,
        ErrorCode::Auth => "ERR-GIT-AUTH"@,
        ErrorCode::Certificate => "ERR-GIT-CERTIFICATE"@,
        ErrorCode::Applied => "ERR-GIT-APPLIED"@,
        ErrorCode::Peel => "ERR-GIT-PEEL"@,
        ErrorCode::Eof => "ERR-GIT-EOF"@,
        ErrorCode::Invalid => "ERR-GIT-INVALID"@,
        ErrorCode::Uncommitted => "ERR-GIT-UNCOMMITTED"@,
        ErrorCode::Directory => "ERR-GIT-DIRECTORY"@,
        ErrorCode::MergeConflict => "ERR-GIT-MERGE-CONFLICT"@,
        ErrorCode::HashsumMismatch => "ERR-GIT-HASHSUM-MISMATCH"@,
        ErrorCode::IndexDirty => "ERR-GIT-INDEX-DIRTY"@,
        ErrorCode::ApplyFail => "ERR-GIT-APPLY-FAIL"@,
        ErrorCode::Owner => "ERR-GIT-OWNER"@,
        _ => "ERR-GIT-UNKNOWN"@,
    }
}

/// The code of a version-control error with the code `code`.
pub fn git_error_code_name(code: ErrorCode) -> (name: &'static str)
    ensures
        name@ == git_code(code),
{
    match code {
        ErrorCode::GenericError => "ERR-GIT-GENERIC",
        ErrorCode::NotFound => "ERR-GIT-NOTFOUND",
        ErrorCode::Exists => "ERR-GIT-EXISTS",
        ErrorCode::Ambiguous => "ERR-GIT-AMBIGUOUS",
        ErrorCode::BufSize => "ERR-GIT-BUFSIZE",
        ErrorCode::User => "ERR-GIT-USER",
        ErrorCode::BareRepo => "ERR-GIT-BARE-REPO",
        ErrorCode::UnbornBranch => "ERR-GIT-UNBORN-BRANCH",
        ErrorCode::Unmerged => "ERR-GIT-UNMERGED",
        ErrorCode::NotFastForward => "ERR-GIT-NOT-FAST-FORWARD",
        ErrorCode::InvalidSpec => "ERR-GIT-INVALID-SPEC",
        ErrorCode::Conflict => "ERR-GIT-CONFLICT",
        ErrorCode::Locked => "ERR-GIT-LOCKED",
        ErrorCode::Modified => "ERR-GIT-MODIFIED",
        ErrorCode::Auth => "ERR-GIT-AUTH",
        ErrorCode::Certificate => "ERR-GIT-CERTIFICATE",
        ErrorCode::Applied => "ERR-GIT-APPLIED",
        ErrorCode::Peel => "ERR-GIT-PEEL",
        ErrorCode::Eof => "ERR-GIT-EOF",
        ErrorCode::Invalid => "ERR-GIT-INVALID",
        ErrorCode::Uncommitted => "ERR-GIT-UNCOMMITTED",
        ErrorCode::Directory => "ERR-GIT-DIRECTORY",
        ErrorCode::MergeConflict => "ERR-GIT-MERGE-CONFLICT",
        ErrorCode::HashsumMismatch => "ERR-GIT-HASHSUM-MISMATCH",
        ErrorCode::IndexDirty => "ERR-GIT-INDEX-DIRTY",
        ErrorCode::ApplyFail => "ERR-GIT-APPLY-FAIL",
        ErrorCode::Owner => "ERR-GIT-OWNER",
        _ => "ERR-GIT-UNKNOWN",
    }
}

/// The error for a version-control failure with the code `code` that
/// describes itself as `description`: its code is that of `code`, whatever
/// the description, and the description is the value of `err`.
pub fn from_git(
    code: ErrorCode,
    description: &str,
    catalog: &StandardErrorMessages,
    context: &LocaleContext,
) -> (error: StandardError)
    ensures
        error@ == classified_as(git_code(code), description@, catalog@, context@),
        error@.consistent(),
{
    classified(git_error_code_name(code), description.to_string(), catalog, context)
}

/// The error for `error`: that of its code, with the text that the error
/// displays as the value of `err`.
pub fn from_git_error(
    error: &git2::Error,
    catalog: &StandardErrorMessages,
    context: &LocaleContext,
) -> (converted: StandardError)
    ensures
        exists|code: ErrorCode, description: String|
            #![trigger git_code(code), to_string_from_display_ensures::<git2::Error>(error, description)]
            to_string_from_display_ensures::<git2::Error>(error, description) && converted@
                == classified_as(git_code(code), description@, catalog@, context@),
        converted@.consistent(),
{
    let description = error.to_string();
    from_git(git_error_code(error), description.as_str(), catalog, context)
}

/// Two different error codes of `git2` have different codes, unless both are unlisted
/// and share `ERR-GIT-UNKNOWN`.
pub proof fn lemma_git_codes_differ(a: ErrorCode, b: ErrorCode)
    ensures
        a != b && git_code(a) == git_code(b) ==> git_code(a) == "ERR-GIT-UNKNOWN"@,
{
    reveal_strlit("ERR-GIT-GENERIC");
    reveal_strlit("ERR-GIT-NOTFOUND");
    reveal_strlit("ERR-GIT-EXISTS");
    reveal_strlit("ERR-GIT-AMBIGUOUS");
    reveal_strlit("ERR-GIT-BUFSIZE");
    reveal_strlit("ERR-GIT-USER");
    reveal_strlit("ERR-GIT-BARE-REPO");
    reveal_strlit("ERR-GIT-UNBORN-BRANCH");
    reveal_strlit("ERR-GIT-UNMERGED");
    reveal_strlit("ERR-GIT-NOT-FAST-FORWARD");
    reveal_strlit("ERR-GIT-INVALID-SPEC");
    reveal_strlit("ERR-GIT-CONFLICT");
    reveal_strlit("ERR-GIT-LOCKED");
    reveal_strlit("ERR-GIT-MODIFIED");
    reveal_strlit("ERR-GIT-AUTH");
    reveal_strlit("ERR-GIT-CERTIFICATE");
    reveal_strlit("ERR-GIT-APPLIED");
    reveal_strlit("ERR-GIT-PEEL");
    reveal_strlit("ERR-GIT-EOF");
    reveal_strlit("ERR-GIT-INVALID");
    reveal_strlit("ERR-GIT-UNCOMMITTED");
    reveal_strlit("ERR-GIT-DIRECTORY");
    reveal_strlit("ERR-GIT-MERGE-CONFLICT");
    reveal_strlit("ERR-GIT-HASHSUM-MISMATCH");
    reveal_strlit("ERR-GIT-INDEX-DIRTY");
    reveal_strlit("ERR-GIT-APPLY-FAIL");
    reveal_strlit("ERR-GIT-OWNER");
    reveal_strlit("ERR-GIT-UNKNOWN");
    assert("ERR-GIT-GENERIC"@.len() == 15 && "ERR-GIT-GENERIC"@[8] == 'G');
    assert("ERR-GIT-NOTFOUND"@.len() == 16 && "ERR-GIT-NOTFOUND"@[8] == 'N');
    assert("ERR-GIT-EXISTS"@.len() == 14 && "ERR-GIT-EXISTS"@[8] == 'E');
    assert("ERR-GIT-AMBIGUOUS"@.len() == 17 && "ERR-GIT-AMBIGUOUS"@[8] == 'A');
    assert("ERR-GIT-BUFSIZE"@.len() == 15 && "ERR-GIT-BUFSIZE"@[8] == 'B');
    assert("ERR-GIT-USER"@.len() == 12 && "ERR-GIT-USER"@[8] == 'U');
    assert("ERR-GIT-BARE-REPO"@.len() == 17 && "ERR-GIT-BARE-REPO"@[8] == 'B');
    assert("ERR-GIT-UNBORN-BRANCH"@.len() == 21 && "ERR-GIT-UNBORN-BRANCH"@[8] == 'U');
    assert("ERR-GIT-UNMERGED"@.len() == 16 && "ERR-GIT-UNMERGED"@[8] == 'U');
    assert("ERR-GIT-NOT-FAST-FORWARD"@.len() == 24 && "ERR-GIT-NOT-FAST-FORWARD"@[8] == 'N');
    assert("ERR-GIT-INVALID-SPEC"@.len() == 20 && "ERR-GIT-INVALID-SPEC"@[8] == 'I');
    assert("ERR-GIT-CONFLICT"@.len() == 16 && "ERR-GIT-CONFLICT"@[8] == 'C');
    assert("ERR-GIT-LOCKED"@.len() == 14 && "ERR-GIT-LOCKED"@[8] == 'L');
    assert("ERR-GIT-MODIFIED"@.len() == 16 && "ERR-GIT-MODIFIED"@[8] == 'M');
    assert("ERR-GIT-AUTH"@.len() == 12 && "ERR-GIT-AUTH"@[8] == 'A');
    assert("ERR-GIT-CERTIFICATE"@.len() == 19 && "ERR-GIT-CERTIFICATE"@[8] == 'C');
    assert("ERR-GIT-APPLIED"@.len() == 15 && "ERR-GIT-APPLIED"@[8] == 'A');
    assert("ERR-GIT-PEEL"@.len() == 12 && "ERR-GIT-PEEL"@[8] == 'P');
    assert("ERR-GIT-EOF"@.len() == 11 && "ERR-GIT-EOF"@[8] == 'E');
    assert("ERR-GIT-INVALID"@.len() == 15 && "ERR-GIT-INVALID"@[8] == 'I');
    assert("ERR-GIT-UNCOMMITTED"@.len() == 19 && "ERR-GIT-UNCOMMITTED"@[8] == 'U');
    assert("ERR-GIT-DIRECTORY"@.len() == 17 && "ERR-GIT-DIRECTORY"@[8] == 'D');
    assert("ERR-GIT-MERGE-CONFLICT"@.len() == 22 && "ERR-GIT-MERGE-CONFLICT"@[8] == 'M');
    assert("ERR-GIT-HASHSUM-MISMATCH"@.len() == 24 && "ERR-GIT-HASHSUM-MISMATCH"@[8] == 'H');
    assert("ERR-GIT-INDEX-DIRTY"@.len() == 19 && "ERR-GIT-INDEX-DIRTY"@[8] == 'I');
    assert("ERR-GIT-APPLY-FAIL"@.len() == 18 && "ERR-GIT-APPLY-FAIL"@[8] == 'A');
    assert("ERR-GIT-OWNER"@.len() == 13 && "ERR-GIT-OWNER"@[8] == 'O');
    assert("ERR-GIT-UNKNOWN"@.len() == 15 && "ERR-GIT-UNKNOWN"@[8] == 'U');
}

} // verus!
