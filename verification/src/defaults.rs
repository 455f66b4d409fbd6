//! The catalog that the library has of its own: the codes of its adapters,
//! each with its English template.

use crate::adapters::database::{database_code, DatabaseFailure};
use crate::adapters::git::git_code;
use crate::adapters::io::io_code;
use crate::assoc::{assoc_map, distinct_keys, lemma_assoc_index, lemma_assoc_push};
use crate::catalog::{resolve, Catalog, StandardErrorMessages, Templates};
use crate::string_map::StringMap;
use vstd::prelude::*;

verus! {

/// The codes of the default catalog, each with its template.
pub open spec fn default_entries() -> Seq<(Seq<char>, Seq<char>)> {
    seq![
        ("ER-DB-NOTFOUND"@, "Record not found: [err]"@),
        ("ER-DB-DATABASE"@, "Database error: [err]"@),
        ("ER-DB-QUERYBUILDER"@, "Query builder error: [err]"@),
        ("ER-DB-DESERIALIZATION"@, "Deserialization error: [err]"@),
        ("ER-DB-SERIALIZATION"@, "Serialization error: [err]"@),
        ("ER-DB-ROLLBACK"@, "Transaction was rolled back: [err]"@),
        ("ER-DB-UNKNOWN"@, "An unknown Diesel error occurred: [err]"@),
        ("ER-IO-NOTFOUND"@, "File not found: [err]"@),
        ("ER-IO-PERMISSION"@, "Permission denied: [err]"@),
        ("ER-IO-CONNECTION"@, "Connection refused: [err]"@),
        ("ER-IO-RESET"@, "Connection reset: [err]"@),
        ("ER-IO-ABORTED"@, "Connection aborted: [err]"@),
        ("ER-IO-NOTCONNECTED"@, "Not connected: [err]"@),
        ("ER-IO-ADDRINUSE"@, "Address in use: [err]"@),
        ("ER-IO-ADDRNOTAVAILABLE"@, "Address not available: [err]"@),
        ("ER-IO-BROKENPIPE"@, "Broken pipe: [err]"@),
        ("ER-IO-ALREADYEXISTS"@, "Already exists: [err]"@),
        ("ER-IO-WOULDBLOCK"@, "Operation would block: [err]"@),
        ("ER-IO-TIMEDOUT"@, "Operation timed out: [err]"@),
        ("ER-IO-INTERRUPTED"@, "Operation interrupted: [err]"@),
        ("ER-IO-UNEXPECTEDEOF"@, "Unexpected end of file: [err]"@),
        ("ER-IO-UNKNOWN"@, "An unknown I/O error occurred: [err]"@),
        ("ERR-GIT-GENERIC"@, "A generic error occurred in the Git operation: [err]"@),
        ("ERR-GIT-NOTFOUND"@, "The requested resource was not found in the Git repository: [err]"@),
        ("ERR-GIT-EXISTS"@, "The resource already exists in the Git repository: [err]"@),
        ("ERR-GIT-AMBIGUOUS"@, "The Git reference is ambiguous: [err]"@),
        ("ERR-GIT-BUFSIZE"@, "Buffer size is insufficient for the Git operation: [err]"@),
        ("ERR-GIT-USER"@, "User-defined error encountered in the Git operation: [err]"@),
        ("ERR-GIT-BARE-REPO"@, "Operation cannot be performed on a bare Git repository: [err]"@),
        ("ERR-GIT-UNBORN-BRANCH"@, "The branch has not been created yet: [err]"@),
        ("ERR-GIT-UNMERGED"@, "There are unmerged changes in the Git repository: [err]"@),
        ("ERR-GIT-NOT-FAST-FORWARD"@, "The branch is not fast-forwardable: [err]"@),
        ("ERR-GIT-INVALID-SPEC"@, "The Git specification provided is invalid: [err]"@),
        ("ERR-GIT-CONFLICT"@, "A conflict occurred during the Git operation: [err]"@),
        ("ERR-GIT-LOCKED"@, "The Git resource is locked: [err]"@),
        ("ERR-GIT-MODIFIED"@, "The file has been modified: [err]"@),
        ("ERR-GIT-AUTH"@, "Authentication failed during the Git operation: [err]"@),
        ("ERR-GIT-CERTIFICATE"@, "Certificate validation failed during the Git operation: [err]"@),
        ("ERR-GIT-APPLIED"@, "The patch has already been applied: [err]"@),
        ("ERR-GIT-PEEL"@, "Peeling operation failed: [err]"@),
        ("ERR-GIT-EOF"@, "Unexpected end of file encountered: [err]"@),
        ("ERR-GIT-INVALID"@, "An invalid operation was attempted: [err]"@),
        ("ERR-GIT-UNCOMMITTED"@, "There are uncommitted changes: [err]"@),
        ("ERR-GIT-DIRECTORY"@, "The directory is invalid or not found: [err]"@),
        ("ERR-GIT-MERGE-CONFLICT"@, "A merge conflict occurred: [err]"@),
        ("ERR-GIT-HASHSUM-MISMATCH"@, "Hashsum mismatch detected: [err]"@),
        ("ERR-GIT-INDEX-DIRTY"@, "The Git index is dirty: [err]"@),
        ("ERR-GIT-APPLY-FAIL"@, "Failed to apply the patch: [err]"@),
        ("ERR-GIT-OWNER"@, "Invalid owner in the Git operation: [err]"@),
        ("ERR-SERDE"@, "Error from serde: [err]"@),
        ("ERR-SERDE-JSON"@, "Error from serde-json: [err]"@),
        ("ERR-SERDE-YAML"@, "Error from serde-yaml: [err]"@),
    ]
}

/// The locale of the templates of the default catalog.
pub open spec fn seed_locale() -> Seq<char> {
    "en_US"@
}

/// The templates of a code that has `template` in `locale` alone.
pub open spec fn only(locale: Seq<char>, template: Seq<char>) -> Templates {
    Map::empty().insert(locale, template)
}

/// The codes of `entries`, each with its template as the only one, in
/// `locale`.
pub open spec fn seeds(entries: Seq<(Seq<char>, Seq<char>)>, locale: Seq<char>) -> Seq<
    (Seq<char>, Templates),
> {
    entries.map_values(|entry: (Seq<char>, Seq<char>)| (entry.0, only(locale, entry.1)))
}

/// The catalog in which each code of `entries` has the template beside it,
/// in `locale` alone. Of two entries with one code the later one counts.
pub open spec fn seeded(entries: Seq<(Seq<char>, Seq<char>)>, locale: Seq<char>) -> Catalog {
    assoc_map(seeds(entries, locale))
}

/// The default catalog.
pub open spec fn default_catalog() -> Catalog {
    seeded(default_entries(), seed_locale())
}

/// The code has the length `len` and the characters `a`, `b` and, where it
/// is long enough, `c` at three fixed positions. No two of the default codes
/// agree in all of these.
spec fn marked(code: Seq<char>, len: nat, a: char, b: char, c: char) -> bool {
    code.len() == len && code[3] == a && code[8] == b && (len > 10 ==> code[10] == c)
}

/// No code occurs twice among the default entries.
pub proof fn lemma_default_codes_distinct()
    ensures
        default_entries().len() == 52,
        distinct_keys(default_entries()),
{
    reveal_strlit("ER-DB-NOTFOUND");
    reveal_strlit("ER-DB-DATABASE");
    reveal_strlit("ER-DB-QUERYBUILDER");
    reveal_strlit("ER-DB-DESERIALIZATION");
    reveal_strlit("ER-DB-SERIALIZATION");
    reveal_strlit("ER-DB-ROLLBACK");
    reveal_strlit("ER-DB-UNKNOWN");
    reveal_strlit("ER-IO-NOTFOUND");
    reveal_strlit("ER-IO-PERMISSION");
    reveal_strlit("ER-IO-CONNECTION");
    reveal_strlit("ER-IO-RESET");
    reveal_strlit("ER-IO-ABORTED");
    reveal_strlit("ER-IO-NOTCONNECTED");
    reveal_strlit("ER-IO-ADDRINUSE");
    reveal_strlit("ER-IO-ADDRNOTAVAILABLE");
    reveal_strlit("ER-IO-BROKENPIPE");
    reveal_strlit("ER-IO-ALREADYEXISTS");
    reveal_strlit("ER-IO-WOULDBLOCK");
    reveal_strlit("ER-IO-TIMEDOUT");
    reveal_strlit("ER-IO-INTERRUPTED");
    reveal_strlit("ER-IO-UNEXPECTEDEOF");
    reveal_strlit("ER-IO-UNKNOWN");
    reveal_strlit("ERR-GIT-GENERIC");
    reveal_strlit("ERR-GIT-NOTFOUND");
    reveal_strlit("ERR-GIT-EXISTS");
    reveal_strlit("ERR-GIT-AMBIGUOUS");
    reveal_strlit("ERR-GIT-BUFSIZE");
    reveal_strlit("ERR-GIT-USER");
    reveal_strlit("ERR-GIT-BARE-REPO");
    reveal_strlit("ERR-GIT-UNBORN-BRANCH");
    reveal_strlit("ERR-GIT-UNMERGED");
    reveal_strlit("ERR-GIT-NOT-FAST-FORWARD");
    reveal_strlit("ERR-GIT-INVALID-SPEC");
    reveal_strlit("ERR-GIT-CONFLICT");
    reveal_strlit("ERR-GIT-LOCKED");
    reveal_strlit("ERR-GIT-MODIFIED");
    reveal_strlit("ERR-GIT-AUTH");
    reveal_strlit("ERR-GIT-CERTIFICATE");
    reveal_strlit("ERR-GIT-APPLIED");
    reveal_strlit("ERR-GIT-PEEL");
    reveal_strlit("ERR-GIT-EOF");
    reveal_strlit("ERR-GIT-INVALID");
    reveal_strlit("ERR-GIT-UNCOMMITTED");
    reveal_strlit("ERR-GIT-DIRECTORY");
    reveal_strlit("ERR-GIT-MERGE-CONFLICT");
    reveal_strlit("ERR-GIT-HASHSUM-MISMATCH");
    reveal_strlit("ERR-GIT-INDEX-DIRTY");
    reveal_strlit("ERR-GIT-APPLY-FAIL");
    reveal_strlit("ERR-GIT-OWNER");
    reveal_strlit("ERR-SERDE");
    reveal_strlit("ERR-SERDE-JSON");
    reveal_strlit("ERR-SERDE-YAML");
    let entries = default_entries();
    assert(marked(entries[0].0, 14, 'D', 'T', 'O'));
    assert(marked(entries[1].0, 14, 'D', 'T', 'B'));
    assert(marked(entries[2].0, 18, 'D', 'E', 'Y'));
    assert(marked(entries[3].0, 21, 'D', 'S', 'R'));
    assert(marked(entries[4].0, 19, 'D', 'R', 'A'));
    assert(marked(entries[5].0, 14, 'D', 'L', 'B'));
    assert(marked(entries[6].0, 13, 'D', 'K', 'O'));
    assert(marked(entries[7].0, 14, 'I', 'T', 'O'));
    assert(marked(entries[8].0, 16, 'I', 'R', 'I'));
    assert(marked(entries[9].0, 16, 'I', 'N', 'E'));
    assert(marked(entries[10].0, 11, 'I', 'S', 'T'));
    assert(marked(entries[11].0, 13, 'I', 'O', 'T'));
    assert(marked(entries[12].0, 18, 'I', 'T', 'O'));
    assert(marked(entries[13].0, 15, 'I', 'D', 'I'));
    assert(marked(entries[14].0, 22, 'I', 'D', 'N'));
    assert(marked(entries[15].0, 16, 'I', 'O', 'E'));
    assert(marked(entries[16].0, 19, 'I', 'R', 'A'));
    assert(marked(entries[17].0, 16, 'I', 'U', 'D'));
    assert(marked(entries[18].0, 14, 'I', 'M', 'D'));
    assert(marked(entries[19].0, 17, 'I', 'T', 'R'));
    assert(marked(entries[20].0, 19, 'I', 'E', 'P'));
    assert(marked(entries[21].0, 13, 'I', 'K', 'O'));
    assert(marked(entries[22].0, 15, '-', 'G', 'N'));
    assert(marked(entries[23].0, 16, '-', 'N', 'T'));
    assert(marked(entries[24].0, 14, '-', 'E', 'I'));
    assert(marked(entries[25].0, 17, '-', 'A', 'B'));
    assert(marked(entries[26].0, 15, '-', 'B', 'F'));
    assert(marked(entries[27].0, 12, '-', 'U', 'E'));
    assert(marked(entries[28].0, 17, '-', 'B', 'R'));
    assert(marked(entries[29].0, 21, '-', 'U', 'B'));
    assert(marked(entries[30].0, 16, '-', 'U', 'M'));
    assert(marked(entries[31].0, 24, '-', 'N', 'T'));
    assert(marked(entries[32].0, 20, '-', 'I', 'V'));
    assert(marked(entries[33].0, 16, '-', 'C', 'N'));
    assert(marked(entries[34].0, 14, '-', 'L', 'C'));
    assert(marked(entries[35].0, 16, '-', 'M', 'D'));
    assert(marked(entries[36].0, 12, '-', 'A', 'T'));
    assert(marked(entries[37].0, 19, '-', 'C', 'R'));
    assert(marked(entries[38].0, 15, '-', 'A', 'P'));
    assert(marked(entries[39].0, 12, '-', 'P', 'E'));
    assert(marked(entries[40].0, 11, '-', 'E', 'F'));
    assert(marked(entries[41].0, 15, '-', 'I', 'V'));
    assert(marked(entries[42].0, 19, '-', 'U', 'C'));
    assert(marked(entries[43].0, 17, '-', 'D', 'R'));
    assert(marked(entries[44].0, 22, '-', 'M', 'R'));
    assert(marked(entries[45].0, 24, '-', 'H', 'S'));
    assert(marked(entries[46].0, 19, '-', 'I', 'D'));
    assert(marked(entries[47].0, 18, '-', 'A', 'P'));
    assert(marked(entries[48].0, 13, '-', 'O', 'N'));
    assert(marked(entries[49].0, 9, '-', 'E', ' '));
    assert(marked(entries[50].0, 14, '-', 'E', 'J'));
    assert(marked(entries[51].0, 14, '-', 'E', 'Y'));
}

/// In the default catalog each code of the default entries has the template
/// beside it, in `en_US` and in no other locale.
pub proof fn lemma_default_entry(i: int)
    requires
        0 <= i < default_entries().len(),
    ensures
        default_catalog().contains_key(default_entries()[i].0),
        default_catalog()[default_entries()[i].0] == only(seed_locale(), default_entries()[i].1),
        resolve(default_catalog(), default_entries()[i].0, seed_locale())
            == default_entries()[i].1,
        forall|locale: Seq<char>|
            locale != seed_locale() ==> #[trigger] resolve(
                default_catalog(),
                default_entries()[i].0,
                locale,
            ) == crate::catalog::unknown_error(),
{
    lemma_default_codes_distinct();
    let seeds = seeds(default_entries(), seed_locale());
    assert forall|a: int, b: int| 0 <= a < b < seeds.len() implies seeds[a].0 != seeds[b].0 by {
        assert(default_entries()[a].0 != default_entries()[b].0);
    }
    lemma_assoc_index(seeds, i);
}

/// The default catalog has an `en_US` template for the code of every kind
/// of I/O error.
pub proof fn lemma_default_has_io_codes(kind: std::io::ErrorKind)
    ensures
        default_catalog().contains_key(io_code(kind)),
        default_catalog()[io_code(kind)].contains_key(seed_locale()),
{
    lemma_default_entry(7);
    lemma_default_entry(8);
    lemma_default_entry(9);
    lemma_default_entry(10);
    lemma_default_entry(11);
    lemma_default_entry(12);
    lemma_default_entry(13);
    lemma_default_entry(14);
    lemma_default_entry(15);
    lemma_default_entry(16);
    lemma_default_entry(17);
    lemma_default_entry(18);
    lemma_default_entry(19);
    lemma_default_entry(20);
    lemma_default_entry(21);
}

/// The default catalog has an `en_US` template for the code of every
/// database failure.
pub proof fn lemma_default_has_database_codes(failure: DatabaseFailure)
    ensures
        default_catalog().contains_key(database_code(failure)),
        default_catalog()[database_code(failure)].contains_key(seed_locale()),
{
    lemma_default_entry(0);
    lemma_default_entry(1);
    lemma_default_entry(2);
    lemma_default_entry(3);
    lemma_default_entry(4);
    lemma_default_entry(5);
    lemma_default_entry(6);
}

/// The default catalog has an `en_US` template for the code of every
/// version-control error but the unlisted ones.
pub proof fn lemma_default_has_git_codes(code: git2::ErrorCode)
    ensures
        git_code(code) != "ERR-GIT-UNKNOWN"@ ==> default_catalog().contains_key(git_code(code))
            && default_catalog()[git_code(code)].contains_key(seed_locale()),
{
    lemma_default_entry(22);
    lemma_default_entry(23);
    lemma_default_entry(24);
    lemma_default_entry(25);
    lemma_default_entry(26);
    lemma_default_entry(27);
    lemma_default_entry(28);
    lemma_default_entry(29);
    lemma_default_entry(30);
    lemma_default_entry(31);
    lemma_default_entry(32);
    lemma_default_entry(33);
    lemma_default_entry(34);
    lemma_default_entry(35);
    lemma_default_entry(36);
    lemma_default_entry(37);
    lemma_default_entry(38);
    lemma_default_entry(39);
    lemma_default_entry(40);
    lemma_default_entry(41);
    lemma_default_entry(42);
    lemma_default_entry(43);
    lemma_default_entry(44);
    lemma_default_entry(45);
    lemma_default_entry(46);
    lemma_default_entry(47);
    lemma_default_entry(48);
}

/// The codes and templates of `table` as character sequences.
pub open spec fn table_view(table: Seq<(&'static str, &'static str)>) -> Seq<
    (Seq<char>, Seq<char>),
> {
    table.map_values(|row: (&'static str, &'static str)| (row.0@, row.1@))
}

/// The catalog in which each code of `table` has the template beside it, in
/// `locale` alone.
pub fn catalog_of_table(table: &Vec<(&'static str, &'static str)>, locale: &str) -> (catalog:
    StandardErrorMessages)
    ensures
        catalog@ == seeded(table_view(table@), locale@),
{
    let mut catalog = StandardErrorMessages::new();
    let mut i: usize = 0;
    let ghost rows = table_view(table@);
    assert(seeds(rows.take(0), locale@) =~= Seq::empty());
    while i < table.len()
        invariant
            i <= table.len(),
            rows == table_view(table@),
            catalog@ == seeded(rows.take(i as int), locale@),
        decreases table.len() - i,
    {
        let (code, template) = table[i];
        let mut templates = StringMap::new();
        templates.insert(locale.to_string(), template.to_string());
        proof {
            assert(seeds(rows.take(i + 1), locale@) =~= seeds(rows.take(i as int), locale@).push(
                (code@, only(locale@, template@)),
            ));
            lemma_assoc_push(
                seeds(rows.take(i as int), locale@),
                code@,
                only(locale@, template@),
            );
            assert(templates@.contains_key(locale@));
        }
        catalog.insert(code.to_string(), templates);
        i += 1;
    }
    assert(rows.take(table@.len() as int) =~= rows);
    catalog
}

/// The default catalog: the codes of the adapters for database, I/O,
/// version-control and serialization errors, each with its template in
/// `en_US`.
pub fn default_error_messages() -> (catalog: StandardErrorMessages)
    ensures
        catalog@ == default_catalog(),
{
    let table: Vec<(&'static str, &'static str)> = vec![
        ("ER-DB-NOTFOUND", "Record not found: [err]"),
        ("ER-DB-DATABASE", "Database error: [err]"),
        ("ER-DB-QUERYBUILDER", "Query builder error: [err]"),
        ("ER-DB-DESERIALIZATION", "Deserialization error: [err]"),
        ("ER-DB-SERIALIZATION", "Serialization error: [err]"),
        ("ER-DB-ROLLBACK", "Transaction was rolled back: [err]"),
        ("ER-DB-UNKNOWN", "An unknown Diesel error occurred: [err]"),
        ("ER-IO-NOTFOUND", "File not found: [err]"),
        ("ER-IO-PERMISSION", "Permission denied: [err]"),
        ("ER-IO-CONNECTION", "Connection refused: [err]"),
        ("ER-IO-RESET", "Connection reset: [err]"),
        ("ER-IO-ABORTED", "Connection aborted: [err]"),
        ("ER-IO-NOTCONNECTED", "Not connected: [err]"),
        ("ER-IO-ADDRINUSE", "Address in use: [err]"),
        ("ER-IO-ADDRNOTAVAILABLE", "Address not available: [err]"),
        ("ER-IO-BROKENPIPE", "Broken pipe: [err]"),
        ("ER-IO-ALREADYEXISTS", "Already exists: [err]"),
        ("ER-IO-WOULDBLOCK", "Operation would block: [err]"),
        ("ER-IO-TIMEDOUT", "Operation timed out: [err]"),
        ("ER-IO-INTERRUPTED", "Operation interrupted: [err]"),
        ("ER-IO-UNEXPECTEDEOF", "Unexpected end of file: [err]"),
        ("ER-IO-UNKNOWN", "An unknown I/O error occurred: [err]"),
        ("ERR-GIT-GENERIC", "A generic error occurred in the Git operation: [err]"),
        ("ERR-GIT-NOTFOUND", "The requested resource was not found in the Git repository: [err]"),
        ("ERR-GIT-EXISTS", "The resource already exists in the Git repository: [err]"),
        ("ERR-GIT-AMBIGUOUS", "The Git reference is ambiguous: [err]"),
        ("ERR-GIT-BUFSIZE", "Buffer size is insufficient for the Git operation: [err]"),
        ("ERR-GIT-USER", "User-defined error encountered in the Git operation: [err]"),
        ("ERR-GIT-BARE-REPO", "Operation cannot be performed on a bare Git repository: [err]"),
        ("ERR-GIT-UNBORN-BRANCH", "The branch has not been created yet: [err]"),
        ("ERR-GIT-UNMERGED", "There are unmerged changes in the Git repository: [err]"),
        ("ERR-GIT-NOT-FAST-FORWARD", "The branch is not fast-forwardable: [err]"),
        ("ERR-GIT-INVALID-SPEC", "The Git specification provided is invalid: [err]"),
        ("ERR-GIT-CONFLICT", "A conflict occurred during the Git operation: [err]"),
        ("ERR-GIT-LOCKED", "The Git resource is locked: [err]"),
        ("ERR-GIT-MODIFIED", "The file has been modified: [err]"),
        ("ERR-GIT-AUTH", "Authentication failed during the Git operation: [err]"),
        ("ERR-GIT-CERTIFICATE", "Certificate validation failed during the Git operation: [err]"),
        ("ERR-GIT-APPLIED", "The patch has already been applied: [err]"),
        ("ERR-GIT-PEEL", "Peeling operation failed: [err]"),
        ("ERR-GIT-EOF", "Unexpected end of file encountered: [err]"),
        ("ERR-GIT-INVALID", "An invalid operation was attempted: [err]"),
        ("ERR-GIT-UNCOMMITTED", "There are uncommitted changes: [err]"),
        ("ERR-GIT-DIRECTORY", "The directory is invalid or not found: [err]"),
        ("ERR-GIT-MERGE-CONFLICT", "A merge conflict occurred: [err]"),
        ("ERR-GIT-HASHSUM-MISMATCH", "Hashsum mismatch detected: [err]"),
        ("ERR-GIT-INDEX-DIRTY", "The Git index is dirty: [err]"),
        ("ERR-GIT-APPLY-FAIL", "Failed to apply the patch: [err]"),
        ("ERR-GIT-OWNER", "Invalid owner in the Git operation: [err]"),
        ("ERR-SERDE", "Error from serde: [err]"),
        ("ERR-SERDE-JSON", "Error from serde-json: [err]"),
        ("ERR-SERDE-YAML", "Error from serde-yaml: [err]"),
    ];
    assert(table_view(table@) =~= default_entries());
    catalog_of_table(&table, "en_US")
}

} // verus!
