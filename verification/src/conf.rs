//! The settings of the library and their defaults.

use vstd::prelude::*;

verus! {

/// The locale used where none is configured: `en_US`.
pub fn default_locale() -> (locale: String)
    ensures
        locale@ == "en_US"@,
{
    "en_US".to_string()
}

/// The catalog file used where none is configured: `errors.yaml`.
pub fn default_yaml_path() -> (path: String)
    ensures
        path@ == "errors.yaml"@,
{
    "errors.yaml".to_string()
}

/// What the library can be configured with.
#[derive(Debug)]
pub struct Settings {
    /// The locale of a context whose locale was never set.
    pub default_locale: String,
    /// Where the catalog file lies.
    pub error_yaml_file_path: String,
}

impl Settings {
    /// The settings with the given values; an option that is not given has
    /// its default.
    pub fn new(default_locale: Option<String>, error_yaml_file_path: Option<String>) -> (settings:
        Settings)
        ensures
            settings.default_locale@ == (match default_locale {
                Some(locale) => locale@,
                None => "en_US"@,
            }),
            settings.error_yaml_file_path@ == (match error_yaml_file_path {
                Some(path) => path@,
                None => "errors.yaml"@,
            }),
    {
        Settings {
            default_locale: match default_locale {
                Some(locale) => locale,
                None => self::default_locale(),
            },
            error_yaml_file_path: match error_yaml_file_path {
                Some(path) => path,
                None => default_yaml_path(),
            },
        }
    }
}

impl Default for Settings {
    fn default() -> (settings: Self)
        ensures
            settings.default_locale@ == "en_US"@,
            settings.error_yaml_file_path@ == "errors.yaml"@,
    {
        Settings::new(None, None)
    }
}

} // verus!
