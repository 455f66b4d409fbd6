//! The error value: a code, its resolved message, a transport status and
//! the values interpolated into the message.

use crate::catalog::{resolve, Catalog, StandardErrorMessages};
use crate::interpolation::{lemma_substitute_nothing, substitute, substituted};
use crate::locale::{get_current_locale, LocaleContext};
use crate::string_map::StringMap;
use vstd::prelude::*;
use vstd::std_specs::cmp::PartialEqSpecImpl;

verus! {

/// The status of an error whose status was never set.
pub const INTERNAL_SERVER_ERROR: u16 = 500;

/// The name under which the description of a foreign error is interpolated.
pub open spec fn detail_name() -> Seq<char> {
    "err"@
}

/// What an error value is, as mathematical data.
#[verifier::ext_equal]
pub struct ErrorView {
    /// The code, which names the catalog entry.
    pub code: Seq<char>,
    /// The transport status.
    pub status: u16,
    /// The template that the code was resolved to when the error was made.
    pub template: Seq<char>,
    /// The values given so far, by placeholder name.
    pub values: Map<Seq<char>, Seq<char>>,
    /// The message: the template with the values in place.
    pub message: Seq<char>,
}

impl ErrorView {
    /// The error made for `code` while `locale` is current: the code is
    /// resolved in `catalog` at once, the status is 500 and no value is
    /// given.
    pub open spec fn created(code: Seq<char>, catalog: Catalog, locale: Seq<char>) -> ErrorView {
        ErrorView {
            code,
            status: 500,
            template: resolve(catalog, code, locale),
            values: Map::empty(),
            message: resolve(catalog, code, locale),
        }
    }

    /// The same error with the status `status`.
    pub open spec fn with_status(self, status: u16) -> ErrorView {
        ErrorView { status, ..self }
    }

    /// The same error with `more` added to its values. A value of `more`
    /// takes the place of an earlier one of the same name, and the message
    /// is made anew from the template.
    pub open spec fn with_values(self, more: Map<Seq<char>, Seq<char>>) -> ErrorView {
        ErrorView {
            values: self.values.union_prefer_right(more),
            message: substituted(self.template, self.values.union_prefer_right(more)),
            ..self
        }
    }

    /// The same error with `text` as the value of `err`.
    pub open spec fn with_detail(self, text: Seq<char>) -> ErrorView {
        self.with_values(Map::empty().insert(detail_name(), text))
    }

    /// The message is the template with the values in place.
    pub open spec fn consistent(self) -> bool {
        self.message == substituted(self.template, self.values)
    }
}

/// Chained changes compose from left to right. Setting the status and then
/// giving values twice leaves the status that was set and the message of
/// the template with both sets of values in place, the later value where a
/// name is given twice; giving the values in two steps is giving their
/// union in one; and the status and the values do not touch each other.
pub proof fn lemma_chain(
    error: ErrorView,
    status: u16,
    first: Map<Seq<char>, Seq<char>>,
    second: Map<Seq<char>, Seq<char>>,
)
    ensures
        error.with_status(status).with_values(first).with_values(second).status == status,
        error.with_status(status).with_values(first).with_values(second).code == error.code,
        error.with_status(status).with_values(first).with_values(second).template
            == error.template,
        error.with_status(status).with_values(first).with_values(second).values
            == error.values.union_prefer_right(first).union_prefer_right(second),
        error.with_status(status).with_values(first).with_values(second).message == substituted(
            error.template,
            error.values.union_prefer_right(first).union_prefer_right(second),
        ),
        error.with_values(first).with_values(second) == error.with_values(
            first.union_prefer_right(second),
        ),
        error.with_values(first).with_status(status) == error.with_status(status).with_values(
            first,
        ),
        error.with_status(status).with_values(first).with_values(second).consistent(),
{
    assert(error.values.union_prefer_right(first).union_prefer_right(second)
        =~= error.values.union_prefer_right(first.union_prefer_right(second)));
}

/// An error that was just made shows its template as it stands: with no
/// value given, every placeholder remains.
pub proof fn lemma_created(code: Seq<char>, catalog: Catalog, locale: Seq<char>)
    ensures
        ErrorView::created(code, catalog, locale).consistent(),
        ErrorView::created(code, catalog, locale).message == resolve(catalog, code, locale),
{
    lemma_substitute_nothing(resolve(catalog, code, locale));
}

/// The uniform error of this library.
#[derive(Debug)]
pub struct StandardError {
    err_code: String,
    status_code: u16,
    values: StringMap,
    template: String,
    message: String,
}

impl View for StandardError {
    type V = ErrorView;

    closed spec fn view(&self) -> ErrorView {
        ErrorView {
            code: self.err_code@,
            status: self.status_code,
            template: self.template@,
            values: self.values@,
            message: self.message@,
        }
    }
}

impl StandardError {
    #[verifier::type_invariant]
    spec fn well_formed(self) -> bool {
        self.message@ == substituted(self.template@, self.values@)
    }

    /// The error of `code`. Its message is the template that `catalog` holds
    /// for the code in the locale that is current in `context` at this
    /// moment, or `unknown error` where it holds none; a later change of the
    /// locale does not change the message.
    pub fn new(code: &str, catalog: &StandardErrorMessages, context: &LocaleContext) -> (error:
        StandardError)
        ensures
            error@ == ErrorView::created(code@, catalog@, context@),
            error@.consistent(),
    {
        let locale = get_current_locale(context);
        let template = catalog.resolve_template(code, locale.as_str());
        proof {
            lemma_substitute_nothing(template@);
        }
        StandardError {
            err_code: code.to_string(),
            status_code: INTERNAL_SERVER_ERROR,
            values: StringMap::new(),
            message: template.clone(),
            template,
        }
    }

    /// The code.
    pub fn err_code(&self) -> (code: &str)
        ensures
            code@ == self@.code,
    {
        self.err_code.as_str()
    }

    /// The transport status.
    pub fn status_code(&self) -> (status: u16)
        ensures
            status == self@.status,
    {
        self.status_code
    }

    /// The message: the template with the values given so far in place.
    pub fn message(&self) -> (message: &str)
        ensures
            message@ == self@.message,
            message@ == substituted(self@.template, self@.values),
    {
        proof {
            use_type_invariant(self);
        }
        self.message.as_str()
    }

    /// The template that the code was resolved to.
    pub fn template(&self) -> (template: &str)
        ensures
            template@ == self@.template,
    {
        self.template.as_str()
    }

    /// The values given so far.
    pub fn values(&self) -> (values: &StringMap)
        ensures
            values@ == self@.values,
    {
        &self.values
    }

    /// The same error with the status `status`.
    pub fn with_status(self, status: u16) -> (updated: StandardError)
        ensures
            updated@ == self@.with_status(status),
            updated@.consistent(),
    {
        proof {
            use_type_invariant(&self);
        }
        StandardError {
            err_code: self.err_code,
            status_code: status,
            values: self.values,
            template: self.template,
            message: self.message,
        }
    }

    /// The same error with `values` added to its values: a new value takes
    /// the place of an earlier one of the same name. The message is made
    /// anew from the template that the code was resolved to, so that no
    /// value is read for placeholders.
    pub fn with_values(self, values: StringMap) -> (updated: StandardError)
        ensures
            updated@ == self@.with_values(values@),
            updated@.consistent(),
    {
        let mut all = self.values;
        all.extend(&values);
        let message = substitute(self.template.as_str(), &all);
        StandardError {
            err_code: self.err_code,
            status_code: self.status_code,
            values: all,
            template: self.template,
            message,
        }
    }

    /// The same error with `text` as the value of `err`.
    pub fn with_detail(self, text: String) -> (updated: StandardError)
        ensures
            updated@ == self@.with_detail(text@),
            updated@.consistent(),
    {
        let mut values = StringMap::new();
        values.insert("err".to_string(), text);
        self.with_values(values)
    }
}

impl Clone for StandardError {
    fn clone(&self) -> (copy: Self)
        ensures
            copy@ == self@,
    {
        proof {
            use_type_invariant(self);
        }
        StandardError {
            err_code: self.err_code.clone(),
            status_code: self.status_code,
            values: self.values.clone(),
            template: self.template.clone(),
            message: self.message.clone(),
        }
    }
}

impl PartialEq for StandardError {
    /// Two errors are equal where code, status, template, values and
    /// message are.
    fn eq(&self, other: &Self) -> (equal: bool) {
        self.err_code == other.err_code && self.status_code == other.status_code && self.values
            == other.values && self.template == other.template && self.message == other.message
    }
}

impl PartialEqSpecImpl for StandardError {
    open spec fn obeys_eq_spec() -> bool {
        true
    }

    open spec fn eq_spec(&self, other: &Self) -> bool {
        self@ == other@
    }
}

impl Eq for StandardError {

}

/// Setting the transport status of an error.
pub trait Status: Sized {
    /// Gives the error the status `code` and returns it.
    fn code(&mut self, code: u16) -> Self;
}

impl Status for StandardError {
    /// Gives the error the status `code`, as `with_status` would. The error
    /// itself is changed, and an equal error is returned, so that calls can
    /// be chained.
    fn code(&mut self, code: u16) -> (updated: Self)
        ensures
            final(self)@ == old(self)@.with_status(code),
            updated@ == old(self)@.with_status(code),
            updated@.consistent(),
    {
        let updated = self.clone().with_status(code);
        *self = updated.clone();
        updated
    }
}

/// Giving an error the values of its placeholders.
pub trait Interpolate: Sized {
    /// Adds `values` to the values of the error and returns it.
    fn interpolate_values(&mut self, values: StringMap) -> Self;

    /// Adds `e` as the value of `err` and returns the error.
    fn interpolate_err(&mut self, e: String) -> Self;
}

impl Interpolate for StandardError {
    /// Adds `values` to the values of the error, as `with_values` would.
    /// The error itself is changed, and an equal error is returned, so that
    /// calls can be chained.
    fn interpolate_values(&mut self, values: StringMap) -> (updated: Self)
        ensures
            final(self)@ == old(self)@.with_values(values@),
            updated@ == old(self)@.with_values(values@),
            updated@.consistent(),
    {
        let updated = self.clone().with_values(values);
        *self = updated.clone();
        updated
    }

    /// Adds `e` as the value of `err`, as `with_detail` would. The error
    /// itself is changed, and an equal error is returned.
    fn interpolate_err(&mut self, e: String) -> (updated: Self)
        ensures
            final(self)@ == old(self)@.with_detail(e@),
            updated@ == old(self)@.with_detail(e@),
            updated@.consistent(),
    {
        let updated = self.clone().with_detail(e);
        *self = updated.clone();
        updated
    }
}

} // verus!
