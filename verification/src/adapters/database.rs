//! Errors of a relational database client and of its connection pool.

use crate::adapters::{classified, classified_as};
use crate::catalog::StandardErrorMessages;
use crate::error::StandardError;
use crate::foreign::database_failure_of;
use crate::locale::LocaleContext;
use vstd::prelude::*;
use vstd::string::to_string_from_display_ensures;

verus! {

/// What went wrong in the database client.
#[derive(Debug, Clone, Copy, PartialEq, Eq, Structural)]
pub enum DatabaseFailure {
    /// A query that should have returned a record returned none.
    NotFound,
    /// The database reported an error, such as a broken constraint.
    Database,
    /// The query could not be built.
    QueryBuilder,
    /// A value from the database could not be read.
    Deserialization,
    /// A value could not be written for the database.
    Serialization,
    /// The transaction was rolled back on request.
    RollbackTransaction,
    /// Anything else.
    Unknown,
}

/// The code of each failure.
pub open spec fn database_code(failure: DatabaseFailure) -> Seq<char> {
    match failure {
        DatabaseFailure::NotFound => "ER-DB-NOTFOUND"@,
        DatabaseFailure::Database => "ER-DB-DATABASE"@,
        DatabaseFailure::QueryBuilder => "ER-DB-QUERYBUILDER"@,
        DatabaseFailure::Deserialization => "ER-DB-DESERIALIZATION"@,
        DatabaseFailure::Serialization => "ER-DB-SERIALIZATION"@,
        DatabaseFailure::RollbackTransaction => "ER-DB-ROLLBACK"@,
        DatabaseFailure::Unknown => "ER-DB-UNKNOWN"@,
    }
}

/// The code of the connection pool's errors.
pub open spec fn pool_code() -> Seq<char> {
    "ER-DB-POOL"@
}

/// The code of `failure`.
pub fn database_error_code(failure: DatabaseFailure) -> (code: &'static str)
    ensures
        code@ == database_code(failure),
{
    match failure {
        DatabaseFailure::NotFound => "ER-DB-NOTFOUND",
        DatabaseFailure::Database => "ER-DB-DATABASE",
        DatabaseFailure::QueryBuilder => "ER-DB-QUERYBUILDER",
        DatabaseFailure::Deserialization => "ER-DB-DESERIALIZATION",
        DatabaseFailure::Serialization => "ER-DB-SERIALIZATION",
        DatabaseFailure::RollbackTransaction => "ER-DB-ROLLBACK",
        DatabaseFailure::Unknown => "ER-DB-UNKNOWN",
    }
}

/// The error for a database failure that describes itself as
/// `description`: its code is that of the failure, whatever the
/// description, and the description is the value of `err`.
pub fn from_database(
    failure: DatabaseFailure,
    description: &str,
    catalog: &StandardErrorMessages,
    context: &LocaleContext,
) -> (error: StandardError)
    ensures
        error@ == classified_as(database_code(failure), description@, catalog@, context@),
        error@.consistent(),
{
    classified(database_error_code(failure), description.to_string(), catalog, context)
}

/// The error for a failure of the connection pool that describes itself as
/// `description`.
pub fn from_pool(description: &str, catalog: &StandardErrorMessages, context: &LocaleContext) -> (error:
    StandardError)
    ensures
        error@ == classified_as(pool_code(), description@, catalog@, context@),
        error@.consistent(),
{
    classified("ER-DB-POOL", description.to_string(), catalog, context)
}

/// The error for `error`: that of the failure it stands for, with the text
/// that the error displays as the value of `err`.
pub fn from_diesel_error(
    error: &diesel::result::Error,
    catalog: &StandardErrorMessages,
    context: &LocaleContext,
) -> (converted: StandardError)
    ensures
        exists|failure: DatabaseFailure, description: String|
            #![trigger database_code(failure), to_string_from_display_ensures::<diesel::result::Error>(error, description)]
            to_string_from_display_ensures::<diesel::result::Error>(error, description)
                && converted@ == classified_as(
                database_code(failure),
                description@,
                catalog@,
                context@,
            ),
        converted@.consistent(),
{
    let description = error.to_string();
    let failure = database_failure_of(error);
    from_database(failure, description.as_str(), catalog, context)
}

/// The error for `error`, with the text that the error displays as the
/// value of `err`.
pub fn from_pool_error(
    error: &r2d2_postgres::r2d2::Error,
    catalog: &StandardErrorMessages,
    context: &LocaleContext,
) -> (converted: StandardError)
    ensures
        exists|description: String| #[trigger]
            to_string_from_display_ensures::<r2d2_postgres::r2d2::Error>(error, description)
                && converted@ == classified_as(pool_code(), description@, catalog@, context@),
        converted@.consistent(),
{
    let description = error.to_string();
    from_pool(description.as_str(), catalog, context)
}

/// Two different failures have different codes.
pub proof fn lemma_database_codes_differ(a: DatabaseFailure, b: DatabaseFailure)
    ensures
        a != b ==> database_code(a) != database_code(b),
{
    reveal_strlit("ER-DB-NOTFOUND");
    reveal_strlit("ER-DB-DATABASE");
    reveal_strlit("ER-DB-QUERYBUILDER");
    reveal_strlit("ER-DB-DESERIALIZATION");
    reveal_strlit("ER-DB-SERIALIZATION");
    reveal_strlit("ER-DB-ROLLBACK");
    reveal_strlit("ER-DB-UNKNOWN");
    assert("ER-DB-NOTFOUND"@.len() == 14 && "ER-DB-NOTFOUND"@[6] == 'N');
    assert("ER-DB-DATABASE"@.len() == 14 && "ER-DB-DATABASE"@[6] == 'D');
    assert("ER-DB-QUERYBUILDER"@.len() == 18 && "ER-DB-QUERYBUILDER"@[6] == 'Q');
    assert("ER-DB-DESERIALIZATION"@.len() == 21 && "ER-DB-DESERIALIZATION"@[6] == 'D');
    assert("ER-DB-SERIALIZATION"@.len() == 19 && "ER-DB-SERIALIZATION"@[6] == 'S');
    assert("ER-DB-ROLLBACK"@.len() == 14 && "ER-DB-ROLLBACK"@[6] == 'R');
    assert("ER-DB-UNKNOWN"@.len() == 13 && "ER-DB-UNKNOWN"@[6] == 'U');
}

} // verus!
