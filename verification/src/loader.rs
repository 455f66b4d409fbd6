//! Loading the message catalog from a YAML document.
//!
//! The document is a mapping with the key `errors`, whose value is a list;
//! a document of another shape is malformed.
//! Each entry of the list is a mapping with a `code` and, for each locale, a
//! key `detail_<locale>` whose value is the template of that locale:
//!
//! ```yaml
//! errors:
//!   - code: ER-0004
//!     detail_en_US: "Should be an integer"
//! ```

use crate::catalog::{with_templates, Catalog, StandardErrorMessages, Templates};
use crate::error::StandardError;
use crate::foreign::{read_document, yaml_document};
use crate::string_map::StringMap;
use crate::text::{has_prefix, same_text, strip_prefix};
use vstd::prelude::*;

verus! {

/// A YAML value, as far as the loader reads it.
#[derive(Debug)]
pub enum YamlValue {
    /// The null value.
    Null,
    /// A boolean.
    Bool(bool),
    /// A number. Its value is not kept.
    Number,
    /// A string.
    Text(String),
    /// A sequence of values.
    Sequence(Vec<YamlValue>),
    /// A mapping: its keys with their values, in the order of the document.
    Mapping(Vec<(YamlValue, YamlValue)>),
    /// A value with a tag in front. The tag itself is not kept.
    Tagged(Box<YamlValue>),
}

/// Why a catalog could not be loaded.
#[derive(Debug, Clone, Copy, PartialEq, Eq, Structural)]
pub enum CatalogError {
    /// The catalog file could not be read.
    CatalogUnreadable,
    /// The catalog file is no YAML document, or the document has no list of
    /// entries under `errors`.
    CatalogMalformed,
}

/// The value without the tags in front of it.
pub open spec fn untagged(value: YamlValue) -> YamlValue
    decreases value,
{
    match value {
        YamlValue::Tagged(inner) => untagged(*inner),
        _ => value,
    }
}

/// The string that the value is, tags aside.
pub open spec fn text_of(value: YamlValue) -> Option<Seq<char>> {
    match untagged(value) {
        YamlValue::Text(s) => Some(s@),
        _ => None,
    }
}

/// The items of the sequence that the value is, tags aside.
pub open spec fn items_of(value: YamlValue) -> Option<Seq<YamlValue>> {
    match untagged(value) {
        YamlValue::Sequence(items) => Some(items@),
        _ => None,
    }
}

/// The entries of the mapping that the value is, tags aside.
pub open spec fn entries_of(value: YamlValue) -> Option<Seq<(YamlValue, YamlValue)>> {
    match untagged(value) {
        YamlValue::Mapping(entries) => Some(entries@),
        _ => None,
    }
}

/// The key is the plain string `name`, with no tag.
pub open spec fn is_key(key: YamlValue, name: Seq<char>) -> bool {
    key matches YamlValue::Text(s) && s@ == name
}

/// The value of the first entry whose key is the plain string `name`.
pub open spec fn field_of(entries: Seq<(YamlValue, YamlValue)>, name: Seq<char>) -> Option<
    YamlValue,
>
    decreases entries.len(),
{
    if entries.len() == 0 {
        None
    } else if is_key(entries[0].0, name) {
        Some(entries[0].1)
    } else {
        field_of(entries.skip(1), name)
    }
}

/// The field `name` of the mapping that the value is, tags aside.
pub open spec fn get_field(value: YamlValue, name: Seq<char>) -> Option<YamlValue> {
    match entries_of(value) {
        Some(entries) => field_of(entries, name),
        None => None,
    }
}

/// What the key of a template begins with; the locale follows it.
pub open spec fn detail_prefix() -> Seq<char> {
    "detail_"@
}

/// The locale and template that one entry of a mapping gives: its key is a
/// string that begins with `detail_` and its value is a string.
pub open spec fn template_of(key: YamlValue, value: YamlValue) -> Option<(Seq<char>, Seq<char>)> {
    match (text_of(key), text_of(value)) {
        (Some(k), Some(template)) => if has_prefix(k, detail_prefix()) {
            Some((k.skip(detail_prefix().len() as int), template))
        } else {
            None
        },
        _ => None,
    }
}

/// The templates that the entries of a mapping give. Where two keys give
/// one locale, the later one counts.
pub open spec fn templates_of(entries: Seq<(YamlValue, YamlValue)>) -> Templates
    decreases entries.len(),
{
    if entries.len() == 0 {
        Map::empty()
    } else {
        let before = templates_of(entries.drop_last());
        match template_of(entries.last().0, entries.last().1) {
            Some((locale, template)) => before.insert(locale, template),
            None => before,
        }
    }
}

/// The code of an entry of the list: the string under its key `code`.
pub open spec fn code_of(item: YamlValue) -> Option<Seq<char>> {
    match get_field(item, "code"@) {
        Some(code) => text_of(code),
        None => None,
    }
}

/// The catalog that a list of entries gives. An entry without a code is
/// passed over. Where two entries have one code, the later one counts.
pub open spec fn catalog_of_items(items: Seq<YamlValue>) -> Catalog
    decreases items.len(),
{
    if items.len() == 0 {
        Map::empty()
    } else {
        let before = catalog_of_items(items.drop_last());
        match code_of(items.last()) {
            Some(code) => with_templates(before, code, templates_of(entries_of(items.last())->0)),
            None => before,
        }
    }
}

/// The list of entries of a document: the sequence under its key `errors`.
/// A document without that key, or with something else than a sequence
/// under it, has not the shape of a catalog.
pub open spec fn error_list_of(document: YamlValue) -> Option<Seq<YamlValue>> {
    match get_field(document, "errors"@) {
        Some(errors) => items_of(errors),
        None => None,
    }
}

/// The catalog that a document gives: that of its list of entries, and
/// none where it has no such list.
pub open spec fn catalog_of_document(document: YamlValue) -> Option<Catalog> {
    match error_list_of(document) {
        Some(items) => Some(catalog_of_items(items)),
        None => None,
    }
}

/// What loading gives for the bytes of a catalog file: the catalog of the
/// document that the bytes hold, and `CatalogMalformed` where they hold no
/// YAML document or one without a list of entries.
pub open spec fn loaded_from(bytes: Seq<u8>) -> Result<Catalog, CatalogError> {
    match yaml_document(bytes) {
        Some(document) => match catalog_of_document(document) {
            Some(catalog) => Ok(catalog),
            None => Err(CatalogError::CatalogMalformed),
        },
        None => Err(CatalogError::CatalogMalformed),
    }
}

impl YamlValue {
    /// The value without the tags in front of it.
    pub fn untag(&self) -> (inner: &YamlValue)
        ensures
            *inner == untagged(*self),
        decreases *self,
    {
        match self {
            YamlValue::Tagged(inner) => inner.untag(),
            _ => self,
        }
    }

    /// The string that the value is, tags aside.
    pub fn as_str(&self) -> (text: Option<&str>)
        ensures
            match text {
                Some(s) => text_of(*self) == Some(s@),
                None => text_of(*self) is None,
            },
    {
        match self.untag() {
            YamlValue::Text(s) => Some(s.as_str()),
            _ => None,
        }
    }

    /// The items of the sequence that the value is, tags aside.
    pub fn as_sequence(&self) -> (items: Option<&Vec<YamlValue>>)
        ensures
            match items {
                Some(v) => items_of(*self) == Some(v@),
                None => items_of(*self) is None,
            },
    {
        match self.untag() {
            YamlValue::Sequence(items) => Some(items),
            _ => None,
        }
    }

    /// The entries of the mapping that the value is, tags aside.
    pub fn as_mapping(&self) -> (entries: Option<&Vec<(YamlValue, YamlValue)>>)
        ensures
            match entries {
                Some(v) => entries_of(*self) == Some(v@),
                None => entries_of(*self) is None,
            },
    {
        match self.untag() {
            YamlValue::Mapping(entries) => Some(entries),
            _ => None,
        }
    }

    /// The field `name` of the mapping that the value is, tags aside.
    pub fn get(&self, name: &str) -> (field: Option<&YamlValue>)
        ensures
            match field {
                Some(v) => get_field(*self, name@) == Some(*v),
                None => get_field(*self, name@) is None,
            },
    {
        match self.as_mapping() {
            Some(entries) => {
                let mut i: usize = 0;
                assert(entries@.skip(0) =~= entries@);
                while i < entries.len()
                    invariant
                        i <= entries.len(),
                        entries_of(*self) == Some(entries@),
                        field_of(entries@, name@) == field_of(entries@.skip(i as int), name@),
                    decreases entries.len() - i,
                {
                    let ghost rest = entries@.skip(i as int);
                    assert(rest[0] == entries@[i as int]);
                    assert(rest.skip(1) =~= entries@.skip(i + 1));
                    match &entries[i].0 {
                        YamlValue::Text(key) => {
                            if same_text(key.as_str(), name) {
                                return Some(&entries[i].1);
                            }
                        },
                        _ => {},
                    }
                    i += 1;
                }
                None
            },
            None => None,
        }
    }
}

/// The templates that the entries of one mapping give.
fn templates_from_entries(entries: &Vec<(YamlValue, YamlValue)>) -> (templates: StringMap)
    ensures
        templates@ == templates_of(entries@),
{
    let mut templates = StringMap::new();
    let mut i: usize = 0;
    assert(entries@.take(0) =~= Seq::empty());
    while i < entries.len()
        invariant
            i <= entries.len(),
            templates@ == templates_of(entries@.take(i as int)),
        decreases entries.len() - i,
    {
        proof {
            assert(entries@.take(i + 1).drop_last() =~= entries@.take(i as int));
            assert(entries@.take(i + 1).last() == entries@[i as int]);
        }
        match entries[i].0.as_str() {
            Some(key) => match strip_prefix(key, "detail_") {
                Some(locale) => match entries[i].1.as_str() {
                    Some(template) => {
                        templates.insert(locale, template.to_string());
                    },
                    None => {},
                },
                None => {},
            },
            None => {},
        }
        i += 1;
    }
    assert(entries@.take(entries@.len() as int) =~= entries@);
    templates
}

/// The catalog that a list of entries gives.
fn catalog_from_items(items: &Vec<YamlValue>) -> (catalog: StandardErrorMessages)
    ensures
        catalog@ == catalog_of_items(items@),
{
    let mut catalog = StandardErrorMessages::new();
    let mut i: usize = 0;
    assert(items@.take(0) =~= Seq::empty());
    while i < items.len()
        invariant
            i <= items.len(),
            catalog@ == catalog_of_items(items@.take(i as int)),
        decreases items.len() - i,
    {
        proof {
            assert(items@.take(i + 1).drop_last() =~= items@.take(i as int));
            assert(items@.take(i + 1).last() == items@[i as int]);
        }
        let item = &items[i];
        match item.get("code") {
            Some(field) => match field.as_str() {
                Some(code) => match item.as_mapping() {
                    Some(entries) => {
                        let templates = templates_from_entries(entries);
                        catalog.insert(code.to_string(), templates);
                    },
                    None => {},
                },
                None => {},
            },
            None => {},
        }
        i += 1;
    }
    assert(items@.take(items@.len() as int) =~= items@);
    catalog
}

/// Builds the catalog that `document` describes. A document without a list
/// under its key `errors` is malformed; an empty list gives an empty
/// catalog. Within the list, an entry without the string `code` is passed
/// over; so is a key that does not begin with `detail_`, or whose value is
/// no string.
pub fn catalog_from_document(document: &YamlValue) -> (built: Result<
    StandardErrorMessages,
    CatalogError,
>)
    ensures
        match built {
            Ok(catalog) => catalog_of_document(*document) == Some(catalog@),
            Err(error) => catalog_of_document(*document) is None && error
                == CatalogError::CatalogMalformed,
        },
{
    match document.get("errors") {
        Some(errors) => match errors.as_sequence() {
            Some(items) => Ok(catalog_from_items(items)),
            None => Err(CatalogError::CatalogMalformed),
        },
        None => Err(CatalogError::CatalogMalformed),
    }
}

impl StandardError {
    /// Loads the catalog from what reading the catalog file gave: its bytes,
    /// or the error of the attempt. Fails with `CatalogUnreadable` where the
    /// file could not be read, and with `CatalogMalformed` where its bytes
    /// are no YAML document or the document has no list under `errors`.
    pub fn load_error_messages(source: Result<Vec<u8>, std::io::Error>) -> (loaded: Result<
        StandardErrorMessages,
        CatalogError,
    >)
        ensures
            match source {
                Err(_) => loaded == Err::<StandardErrorMessages, CatalogError>(
                    CatalogError::CatalogUnreadable,
                ),
                Ok(bytes) => match loaded {
                    Ok(catalog) => loaded_from(bytes@) == Ok::<Catalog, CatalogError>(catalog@),
                    Err(error) => loaded_from(bytes@) == Err::<Catalog, CatalogError>(error),
                },
            },
            source matches Ok(bytes) ==> (loaded is Err <==> yaml_document(bytes@) is None
                || error_list_of(yaml_document(bytes@)->0) is None),
            source matches Ok(bytes) ==> (loaded matches Err(error) ==> error
                == CatalogError::CatalogMalformed),
    {
        match source {
            Err(_) => Err(CatalogError::CatalogUnreadable),
            Ok(bytes) => match read_document(bytes.as_slice()) {
                Err(_) => Err(CatalogError::CatalogMalformed),
                Ok(document) => catalog_from_document(&document),
            },
        }
    }
}

} // verus!
