//! Errors of structured serialization: of `serde` in general, of JSON and
//! of YAML.

use crate::adapters::{classified, classified_as};
use crate::catalog::StandardErrorMessages;
use crate::error::StandardError;
use crate::locale::LocaleContext;
use vstd::prelude::*;
use vstd::string::to_string_from_display_ensures;

verus! {

/// The format in which serialization failed.
#[derive(Debug, Clone, Copy, PartialEq, Eq, Structural)]
pub enum SerializationFormat {
    /// No format in particular.
    Generic,
    /// JSON.
    Json,
    /// YAML.
    Yaml,
}

/// The code of each format.
pub open spec fn serialization_code(format: SerializationFormat) -> Seq<char> {
    match format {
        SerializationFormat::Generic => "ER-SERDE"@,
        SerializationFormat::Json => "ER-SERDE-JSON"@,
        SerializationFormat::Yaml => "ER-SERDE-YAML"@,
    }
}

/// The error for a serialization failure in `format` that describes itself
/// as `description`: its code is that of the format, whatever the
/// description, and the description is the value of `err`.
pub fn from_serialization(
    format: SerializationFormat,
    description: &str,
    catalog: &StandardErrorMessages,
    context: &LocaleContext,
) -> (error: StandardError)
    ensures
        error@ == classified_as(serialization_code(format), description@, catalog@, context@),
        error@.consistent(),
{
    let code = match format {
        SerializationFormat::Generic => "ER-SERDE",
        SerializationFormat::Json => "ER-SERDE-JSON",
        SerializationFormat::Yaml => "ER-SERDE-YAML",
    };
    classified(code, description.to_string(), catalog, context)
}

/// The error for `error`, with the text that the error displays as the
/// value of `err`.
pub fn from_serde_error(
    error: &serde::de::value::Error,
    catalog: &StandardErrorMessages,
    context: &LocaleContext,
) -> (converted: StandardError)
    ensures
        exists|description: String| #[trigger]
            to_string_from_display_ensures::<serde::de::value::Error>(error, description) && converted@
                == classified_as(
                serialization_code(SerializationFormat::Generic),
                description@,
                catalog@,
                context@,
            ),
        converted@.consistent(),
{
    let description = error.to_string();
    from_serialization(SerializationFormat::Generic, description.as_str(), catalog, context)
}

/// The error for `error`, with the text that the error displays as the
/// value of `err`.
pub fn from_json_error(
    error: &serde_json::Error,
    catalog: &StandardErrorMessages,
    context: &LocaleContext,
) -> (converted: StandardError)
    ensures
        exists|description: String| #[trigger]
            to_string_from_display_ensures::<serde_json::Error>(error, description) && converted@
                == classified_as(
                serialization_code(SerializationFormat::Json),
                description@,
                catalog@,
                context@,
            ),
        converted@.consistent(),
{
    let description = error.to_string();
    from_serialization(SerializationFormat::Json, description.as_str(), catalog, context)
}

/// The error for `error`, with the text that the error displays as the
/// value of `err`.
pub fn from_yaml_error(
    error: &serde_yaml::Error,
    catalog: &StandardErrorMessages,
    context: &LocaleContext,
) -> (converted: StandardError)
    ensures
        exists|description: String| #[trigger]
            to_string_from_display_ensures::<serde_yaml::Error>(error, description) && converted@
                == classified_as(
                serialization_code(SerializationFormat::Yaml),
                description@,
                catalog@,
                context@,
            ),
        converted@.consistent(),
{
    let description = error.to_string();
    from_serialization(SerializationFormat::Yaml, description.as_str(), catalog, context)
}

/// Two different formats have different codes.
pub proof fn lemma_serialization_codes_differ(a: SerializationFormat, b: SerializationFormat)
    ensures
        a != b ==> serialization_code(a) != serialization_code(b),
{
    reveal_strlit("ER-SERDE");
    reveal_strlit("ER-SERDE-JSON");
    reveal_strlit("ER-SERDE-YAML");
    assert("ER-SERDE"@.len() == 8);
    assert("ER-SERDE-JSON"@.len() == 13 && "ER-SERDE-JSON"@[9] == 'J');
    assert("ER-SERDE-YAML"@.len() == 13 && "ER-SERDE-YAML"@[9] == 'Y');
}

} // verus!
