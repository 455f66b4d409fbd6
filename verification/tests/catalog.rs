use standard_error::conf::{default_locale, default_yaml_path};
use standard_error::{
    default_error_messages, get_current_locale, set_current_locale, LocaleContext, Settings,
    StandardErrorMessages, StringMap,
};

fn one(locale: &str, template: &str) -> StringMap {
    let mut map = StringMap::new();
    map.insert(locale.to_string(), template.to_string());
    map
}

#[test]
fn string_map_insert_get_and_replace() {
    let mut map = StringMap::new();
    assert!(map.is_empty());
    assert_eq!(map.len(), 0);
    map.insert("a".to_string(), "1".to_string());
    map.insert("b".to_string(), "2".to_string());
    assert_eq!(map.len(), 2);
    assert_eq!(map.get("a"), Some(&"1".to_string()));
    assert_eq!(map.get("b"), Some(&"2".to_string()));
    assert_eq!(map.get("c"), None);
    map.insert("a".to_string(), "3".to_string());
    assert_eq!(map.len(), 2);
    assert_eq!(map.get("a"), Some(&"3".to_string()));
    assert!(map.contains_key("b"));
    assert!(!map.contains_key("B"));
    assert!(!map.is_empty());
}

#[test]
fn string_map_extend_prefers_the_new_values() {
    let mut left = StringMap::new();
    left.insert("a".to_string(), "1".to_string());
    left.insert("b".to_string(), "2".to_string());
    let mut right = StringMap::new();
    right.insert("b".to_string(), "20".to_string());
    right.insert("c".to_string(), "30".to_string());
    left.extend(&right);
    assert_eq!(left.len(), 3);
    assert_eq!(left.get("a"), Some(&"1".to_string()));
    assert_eq!(left.get("b"), Some(&"20".to_string()));
    assert_eq!(left.get("c"), Some(&"30".to_string()));
    let copy = left.clone();
    assert_eq!(copy.len(), 3);
    assert_eq!(copy.get("b"), Some(&"20".to_string()));
    assert!(StringMap::default().is_empty());
}

#[test]
fn resolve_returns_the_stored_template() {
    let mut messages = StandardErrorMessages::new();
    let mut templates = one("en_US", "Should be an integer");
    templates.insert("fr_FR".to_string(), "Doit être un entier".to_string());
    messages.insert("ER-0004".to_string(), templates);
    assert_eq!(messages.resolve_template("ER-0004", "en_US"), "Should be an integer");
    assert_eq!(messages.resolve_template("ER-0004", "fr_FR"), "Doit être un entier");
}

#[test]
fn resolve_misses_give_unknown_error() {
    let mut messages = StandardErrorMessages::new();
    messages.insert("ER-0004".to_string(), one("en_US", "Should be an integer"));
    assert_eq!(messages.resolve_template("ER-0005", "en_US"), "unknown error");
    assert_eq!(messages.resolve_template("ER-0004", "fr_FR"), "unknown error");
    assert_eq!(messages.resolve_template("", ""), "unknown error");
    assert_eq!(StandardErrorMessages::new().resolve_template("ER-0004", "en_US"), "unknown error");
}

#[test]
fn insert_replaces_the_templates_of_a_code() {
    let mut messages = StandardErrorMessages::new();
    assert!(messages.is_empty());
    messages.insert("A".to_string(), one("en_US", "first"));
    messages.insert("B".to_string(), one("en_US", "other"));
    messages.insert("A".to_string(), one("fr_FR", "second"));
    assert_eq!(messages.len(), 2);
    assert_eq!(messages.resolve_template("A", "en_US"), "unknown error");
    assert_eq!(messages.resolve_template("A", "fr_FR"), "second");
    assert_eq!(messages.resolve_template("B", "en_US"), "other");
    assert!(messages.contains_key("A"));
    assert_eq!(messages.get("A").unwrap().len(), 1);
    assert!(messages.get("C").is_none());
}

#[test]
fn a_code_without_templates_is_not_kept() {
    let mut messages = StandardErrorMessages::new();
    messages.insert("A".to_string(), StringMap::new());
    assert_eq!(messages.len(), 0);
    assert!(!messages.contains_key("A"));
    messages.insert("A".to_string(), one("en_US", "first"));
    messages.insert("B".to_string(), one("en_US", "other"));
    messages.insert("A".to_string(), StringMap::new());
    assert_eq!(messages.len(), 1);
    assert!(!messages.contains_key("A"));
    assert_eq!(messages.resolve_template("A", "en_US"), "unknown error");
    assert_eq!(messages.resolve_template("B", "en_US"), "other");
    assert!(StandardErrorMessages::default().is_empty());
}

#[test]
fn default_catalog_has_the_codes_of_the_adapters() {
    let messages = default_error_messages();
    assert_eq!(messages.len(), 52);
    assert_eq!(messages.resolve_template("ER-DB-NOTFOUND", "en_US"), "Record not found: [err]");
    assert_eq!(messages.resolve_template("ER-IO-NOTFOUND", "en_US"), "File not found: [err]");
    assert_eq!(
        messages.resolve_template("ER-IO-UNKNOWN", "en_US"),
        "An unknown I/O error occurred: [err]"
    );
    assert_eq!(
        messages.resolve_template("ERR-GIT-OWNER", "en_US"),
        "Invalid owner in the Git operation: [err]"
    );
    assert_eq!(messages.resolve_template("ERR-SERDE-YAML", "en_US"), "Error from serde-yaml: [err]");
    assert_eq!(messages.resolve_template("ERR-SERDE-YAML", "fr_FR"), "unknown error");
    assert_eq!(messages.resolve_template("ER-0004", "en_US"), "unknown error");
    assert_eq!(messages.get("ER-DB-ROLLBACK").unwrap().len(), 1);
}

#[test]
fn settings_have_defaults() {
    assert_eq!(default_locale(), "en_US");
    assert_eq!(default_yaml_path(), "errors.yaml");
    let settings = Settings::new(None, None);
    assert_eq!(settings.default_locale, "en_US");
    assert_eq!(settings.error_yaml_file_path, "errors.yaml");
    let settings = Settings::new(Some("fr_FR".to_string()), None);
    assert_eq!(settings.default_locale, "fr_FR");
    assert_eq!(settings.error_yaml_file_path, "errors.yaml");
    let settings = Settings::new(None, Some("/etc/errors.yaml".to_string()));
    assert_eq!(settings.default_locale, "en_US");
    assert_eq!(settings.error_yaml_file_path, "/etc/errors.yaml");
    let settings = Settings::default();
    assert_eq!(settings.default_locale, "en_US");
}

#[test]
fn locale_is_set_per_context() {
    let mut first = LocaleContext::default();
    let second = LocaleContext::new(&Settings::new(Some("de_DE".to_string()), None));
    assert_eq!(get_current_locale(&first), "en_US");
    assert_eq!(get_current_locale(&second), "de_DE");
    set_current_locale(&mut first, "fr_FR");
    assert_eq!(get_current_locale(&first), "fr_FR");
    assert_eq!(get_current_locale(&second), "de_DE");
    let copy = first.clone();
    set_current_locale(&mut first, "it_IT");
    assert_eq!(get_current_locale(&copy), "fr_FR");
    assert_eq!(get_current_locale(&first), "it_IT");
}
