use standard_error::loader::{catalog_from_document, CatalogError, YamlValue};
use standard_error::StandardError;

fn load(text: &str) -> Result<standard_error::StandardErrorMessages, CatalogError> {
    StandardError::load_error_messages(Ok(text.as_bytes().to_vec()))
}

fn text(s: &str) -> YamlValue {
    YamlValue::Text(s.to_string())
}

#[test]
fn every_detail_field_is_a_locale() {
    let messages = load(
        "errors:\n  - code: ER-1\n    detail_en_US: Hello [name]\n    detail_fr_FR: Bonjour [name]\n    note: ignored\n",
    )
    .unwrap();
    assert_eq!(messages.len(), 1);
    assert_eq!(messages.resolve_template("ER-1", "en_US"), "Hello [name]");
    assert_eq!(messages.resolve_template("ER-1", "fr_FR"), "Bonjour [name]");
    assert_eq!(messages.resolve_template("ER-1", "note"), "unknown error");
    assert_eq!(messages.get("ER-1").unwrap().len(), 2);
}

#[test]
fn entry_without_code_is_skipped() {
    let messages = load(
        "errors:\n  - detail_en_US: orphan\n  - code: ER-2\n    detail_en_US: kept\n  - code: 17\n    detail_en_US: number\n  - just a string\n",
    )
    .unwrap();
    assert_eq!(messages.len(), 1);
    assert_eq!(messages.resolve_template("ER-2", "en_US"), "kept");
    assert_eq!(messages.resolve_template("17", "en_US"), "unknown error");
}

#[test]
fn later_entry_of_a_code_replaces_the_earlier() {
    let messages = load(
        "errors:\n  - code: ER-3\n    detail_en_US: first\n    detail_fr_FR: premier\n  - code: ER-3\n    detail_en_US: second\n",
    )
    .unwrap();
    assert_eq!(messages.len(), 1);
    assert_eq!(messages.resolve_template("ER-3", "en_US"), "second");
    assert_eq!(messages.resolve_template("ER-3", "fr_FR"), "unknown error");
}

#[test]
fn details_that_are_no_strings_are_skipped() {
    let messages = load(
        "errors:\n  - code: ER-4\n    detail_en_US: 12\n    detail_fr_FR: [a, b]\n    detail_de_DE: gut\n",
    )
    .unwrap();
    assert_eq!(messages.resolve_template("ER-4", "en_US"), "unknown error");
    assert_eq!(messages.resolve_template("ER-4", "fr_FR"), "unknown error");
    assert_eq!(messages.resolve_template("ER-4", "de_DE"), "gut");
}

#[test]
fn code_without_templates_resolves_to_unknown_error() {
    let messages = load("errors:\n  - code: ER-5\n  - code: ER-6\n    detail_en_US: six\n").unwrap();
    assert_eq!(messages.len(), 1);
    assert!(!messages.contains_key("ER-5"));
    assert_eq!(messages.resolve_template("ER-5", "en_US"), "unknown error");
    assert_eq!(messages.resolve_template("ER-6", "en_US"), "six");
}

#[test]
fn document_without_error_list_is_malformed() {
    assert_eq!(load("other: 1\n").unwrap_err(), CatalogError::CatalogMalformed);
    assert_eq!(load("errors: none\n").unwrap_err(), CatalogError::CatalogMalformed);
    assert_eq!(load("errors:\n  code: ER-1\n").unwrap_err(), CatalogError::CatalogMalformed);
    assert_eq!(load("- a\n- b\n").unwrap_err(), CatalogError::CatalogMalformed);
    assert_eq!(load("just a string\n").unwrap_err(), CatalogError::CatalogMalformed);
    assert_eq!(load("").unwrap_err(), CatalogError::CatalogMalformed);
    assert_eq!(load("!tagged errors\n").unwrap_err(), CatalogError::CatalogMalformed);
}

#[test]
fn empty_error_list_gives_an_empty_catalog() {
    let messages = load("errors: []\n").unwrap();
    assert_eq!(messages.len(), 0);
    assert!(messages.is_empty());
    let messages = load("version: 2\nerrors: []\n").unwrap();
    assert_eq!(messages.len(), 0);
    let messages = load("errors:\n  - note: no code here\n").unwrap();
    assert_eq!(messages.len(), 0);
}

#[test]
fn tags_are_looked_through() {
    let messages = load(
        "errors: !list\n  - !entry\n    code: !c ER-7\n    detail_en_US: !t tagged\n",
    )
    .unwrap();
    assert_eq!(messages.resolve_template("ER-7", "en_US"), "tagged");
}

#[test]
fn locale_is_what_follows_the_first_prefix() {
    let messages =
        load("errors:\n  - code: ER-8\n    detail_detail_x: inner\n    detail_: empty\n").unwrap();
    assert_eq!(messages.resolve_template("ER-8", "detail_x"), "inner");
    assert_eq!(messages.resolve_template("ER-8", ""), "empty");
    assert_eq!(messages.resolve_template("ER-8", "x"), "unknown error");
}

#[test]
fn bytes_that_are_no_yaml_are_malformed() {
    assert_eq!(load("errors: [unclosed").unwrap_err(), CatalogError::CatalogMalformed);
    assert_eq!(load("a: b: c: d").unwrap_err(), CatalogError::CatalogMalformed);
    let not_utf8 = StandardError::load_error_messages(Ok(vec![0xff, 0xfe, 0x00]));
    assert_eq!(not_utf8.unwrap_err(), CatalogError::CatalogMalformed);
}

#[test]
fn file_that_cannot_be_read_is_unreadable() {
    let missing = std::io::Error::new(std::io::ErrorKind::NotFound, "no such file");
    let loaded = StandardError::load_error_messages(Err(missing));
    assert_eq!(loaded.unwrap_err(), CatalogError::CatalogUnreadable);
}

#[test]
fn catalog_from_a_document_built_by_hand() {
    let entry = YamlValue::Mapping(vec![
        (text("code"), text("ER-9")),
        (text("detail_en_US"), text("nine")),
        (YamlValue::Tagged(Box::new(text("detail_fr_FR"))), text("neuf")),
        (text("detail_de_DE"), YamlValue::Number),
        (YamlValue::Null, text("detail_xx")),
        (text("other"), YamlValue::Bool(true)),
    ]);
    let tagged_code = YamlValue::Mapping(vec![
        (YamlValue::Tagged(Box::new(text("code"))), text("ER-10")),
        (text("detail_en_US"), text("ten")),
    ]);
    let document = YamlValue::Mapping(vec![
        (text("version"), YamlValue::Number),
        (text("errors"), YamlValue::Sequence(vec![entry, tagged_code, YamlValue::Null])),
    ]);
    let messages = catalog_from_document(&document).unwrap();
    assert_eq!(messages.len(), 1);
    assert_eq!(messages.resolve_template("ER-9", "en_US"), "nine");
    assert_eq!(messages.resolve_template("ER-9", "fr_FR"), "neuf");
    assert_eq!(messages.resolve_template("ER-9", "de_DE"), "unknown error");
    assert_eq!(messages.resolve_template("ER-10", "en_US"), "unknown error");
}

#[test]
fn yaml_value_accessors() {
    let value = YamlValue::Tagged(Box::new(YamlValue::Tagged(Box::new(text("deep")))));
    assert_eq!(value.as_str(), Some("deep"));
    assert!(value.as_sequence().is_none());
    assert!(value.as_mapping().is_none());
    assert!(value.get("deep").is_none());
    assert!(matches!(value.untag(), YamlValue::Text(_)));
    let sequence = YamlValue::Sequence(vec![text("a"), YamlValue::Null]);
    assert_eq!(sequence.as_sequence().unwrap().len(), 2);
    assert_eq!(sequence.as_str(), None);
    let mapping = YamlValue::Mapping(vec![(text("k"), text("v")), (text("k"), text("w"))]);
    assert_eq!(mapping.get("k").unwrap().as_str(), Some("v"));
    assert!(mapping.get("missing").is_none());
    assert_eq!(mapping.as_mapping().unwrap().len(), 2);
}

#[test]
fn document_built_by_hand_without_a_list_is_malformed() {
    let no_key = YamlValue::Mapping(vec![(text("version"), YamlValue::Number)]);
    assert_eq!(catalog_from_document(&no_key).unwrap_err(), CatalogError::CatalogMalformed);
    let no_list = YamlValue::Mapping(vec![(text("errors"), text("none"))]);
    assert_eq!(catalog_from_document(&no_list).unwrap_err(), CatalogError::CatalogMalformed);
    let tagged_key = YamlValue::Mapping(vec![(
        YamlValue::Tagged(Box::new(text("errors"))),
        YamlValue::Sequence(vec![]),
    )]);
    assert_eq!(catalog_from_document(&tagged_key).unwrap_err(), CatalogError::CatalogMalformed);
    assert_eq!(catalog_from_document(&YamlValue::Null).unwrap_err(), CatalogError::CatalogMalformed);
    let empty = YamlValue::Mapping(vec![(text("errors"), YamlValue::Sequence(vec![]))]);
    assert_eq!(catalog_from_document(&empty).unwrap().len(), 0);
    let tagged_list = YamlValue::Tagged(Box::new(YamlValue::Mapping(vec![(
        text("errors"),
        YamlValue::Tagged(Box::new(YamlValue::Sequence(vec![]))),
    )])));
    assert_eq!(catalog_from_document(&tagged_list).unwrap().len(), 0);
}
