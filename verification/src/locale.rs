//! The current locale of one execution context.
//!
//! The locale is held in a value that the caller owns, one for each thread,
//! request or task. Setting the locale of one context changes no other.

use crate::conf::{default_locale, Settings};
use vstd::prelude::*;

verus! {

/// The current locale of one execution context. Its view is the locale.
#[derive(Debug)]
pub struct LocaleContext {
    current: String,
}

impl View for LocaleContext {
    type V = Seq<char>;

    closed spec fn view(&self) -> Seq<char> {
        self.current@
    }
}

impl LocaleContext {
    /// A context whose locale is the default locale of `settings`.
    pub fn new(settings: &Settings) -> (context: LocaleContext)
        ensures
            context@ == settings.default_locale@,
    {
        LocaleContext { current: settings.default_locale.clone() }
    }
}

impl Default for LocaleContext {
    /// A context whose locale is `en_US`.
    fn default() -> (context: Self)
        ensures
            context@ == "en_US"@,
    {
        LocaleContext { current: default_locale() }
    }
}

impl Clone for LocaleContext {
    fn clone(&self) -> (copy: Self)
        ensures
            copy@ == self@,
    {
        LocaleContext { current: self.current.clone() }
    }
}

/// Makes `locale` the current locale of `context`.
pub fn set_current_locale(context: &mut LocaleContext, locale: &str)
    ensures
        final(context)@ == locale@,
{
    context.current = locale.to_string();
}

/// The current locale of `context`.
pub fn get_current_locale(context: &LocaleContext) -> (locale: String)
    ensures
        locale@ == context@,
{
    context.current.clone()
}

} // verus!
