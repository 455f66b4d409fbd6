//! Adapters from the errors of other libraries to [`StandardError`].
//!
//! Each family of foreign errors has one adapter. It maps every variant of
//! the family to a fixed code, with one code for the variants it does not
//! know, and gives the description of the foreign error, as the error
//! itself displays it and with nothing added, as the value of `err`. The
//! message thus both classifies the failure and tells what happened.

pub mod database;
pub mod git;
pub mod http_client;
pub mod io;
pub mod serialization;
pub mod web;

use crate::catalog::{Catalog, StandardErrorMessages};
use crate::catalog::resolve;
use crate::error::{detail_name, ErrorView, Interpolate, StandardError};
use crate::interpolation::{
    bracket_free, lemma_substitute_placeholder, lemma_substitute_text, placeholder, substituted,
};
use crate::locale::LocaleContext;
use vstd::prelude::*;

verus! {

/// The error of `code`, made in `catalog` under `locale`, with `detail` as
/// the value of `err`.
pub open spec fn classified_as(
    code: Seq<char>,
    detail: Seq<char>,
    catalog: Catalog,
    locale: Seq<char>,
) -> ErrorView {
    ErrorView::created(code, catalog, locale).with_detail(detail)
}

/// The error that an adapter makes has the code it was given, the status
/// 500 and the description as its only value, under `err`; its message is
/// the template of the code with that one value in place.
pub proof fn lemma_classified(
    code: Seq<char>,
    detail: Seq<char>,
    catalog: Catalog,
    locale: Seq<char>,
)
    ensures
        classified_as(code, detail, catalog, locale).code == code,
        classified_as(code, detail, catalog, locale).status == 500,
        classified_as(code, detail, catalog, locale).template == resolve(catalog, code, locale),
        classified_as(code, detail, catalog, locale).values == Map::<
            Seq<char>,
            Seq<char>,
        >::empty().insert(detail_name(), detail),
        classified_as(code, detail, catalog, locale).message == substituted(
            resolve(catalog, code, locale),
            Map::<Seq<char>, Seq<char>>::empty().insert(detail_name(), detail),
        ),
        classified_as(code, detail, catalog, locale).consistent(),
{
    let only = Map::<Seq<char>, Seq<char>>::empty().insert(detail_name(), detail);
    assert(Map::<Seq<char>, Seq<char>>::empty().union_prefer_right(only) =~= only);
}

/// In a template with `[err]` between two texts that hold no `[`, the
/// description takes the place of `[err]` as it stands: whatever it holds,
/// placeholders too, it is not read again.
pub proof fn lemma_detail_in_place(before: Seq<char>, after: Seq<char>, detail: Seq<char>)
    requires
        forall|k: int| 0 <= k < before.len() ==> before[k] != '[',
        forall|k: int| 0 <= k < after.len() ==> after[k] != '[',
    ensures
        substituted(
            before + placeholder(detail_name()) + after,
            Map::<Seq<char>, Seq<char>>::empty().insert(detail_name(), detail),
        ) == before + detail + after,
{
    let values = Map::<Seq<char>, Seq<char>>::empty().insert(detail_name(), detail);
    reveal_strlit("err");
    assert(bracket_free(detail_name())) by {
        assert(detail_name().len() == 3);
        assert(detail_name()[0] == 'e' && detail_name()[1] == 'r' && detail_name()[2] == 'r');
    }
    lemma_substitute_text(after, Seq::empty(), values);
    assert(after + Seq::<char>::empty() =~= after);
    assert(substituted(Seq::<char>::empty(), values) =~= Seq::<char>::empty());
    lemma_substitute_placeholder(detail_name(), after, values);
    lemma_substitute_text(before, placeholder(detail_name()) + after, values);
    assert(before + placeholder(detail_name()) + after =~= before + (placeholder(detail_name())
        + after));
    assert(before + (detail + after) =~= before + detail + after);
}

/// Makes the error of `code` and gives it `detail` as the value of `err`.
pub fn classified(
    code: &str,
    detail: String,
    catalog: &StandardErrorMessages,
    context: &LocaleContext,
) -> (error: StandardError)
    ensures
        error@ == classified_as(code@, detail@, catalog@, context@),
        error@.consistent(),
{
    let mut error = StandardError::new(code, catalog, context);
    error.interpolate_err(detail)
}

} // verus!
