use ftui::catalog::{interpolate, I18nError, LocaleStrings, StringCatalog, StringEntry};
use ftui::plural::{PluralForms, PluralRule};

fn english_catalog() -> StringCatalog {
    let mut catalog = StringCatalog::new();
    let mut en = LocaleStrings::new();
    en.insert("greeting", "Hello");
    en.insert("welcome", "Welcome, {name}!");
    en.insert("farewell", "Goodbye, {name}. See you {when}.");
    en.insert_plural(
        "items",
        PluralForms {
            one: "{count} item".into(),
            other: "{count} items".into(),
            ..Default::default()
        },
    );
    catalog.add_locale("en", en);
    catalog.set_fallback_chain(vec!["en".into()]);
    catalog
}

#[test]
fn simple_lookup() {
    let catalog = english_catalog();
    assert_eq!(catalog.get("en", "greeting"), Some("Hello"));
}

#[test]
fn missing_key_returns_none() {
    let catalog = english_catalog();
    assert_eq!(catalog.get("en", "nonexistent"), None);
}

#[test]
fn missing_locale_falls_back() {
    let catalog = english_catalog();
    assert_eq!(catalog.get("fr", "greeting"), Some("Hello"));
}

#[test]
fn fallback_chain_order() {
    let mut catalog = StringCatalog::new();

    let mut en = LocaleStrings::new();
    en.insert("greeting", "Hello");
    en.insert("color", "Color");

    let mut es = LocaleStrings::new();
    es.insert("greeting", "Hola");

    let mut es_mx = LocaleStrings::new();
    es_mx.insert("greeting", "Qué onda");

    catalog.add_locale("en", en);
    catalog.add_locale("es", es);
    catalog.add_locale("es-MX", es_mx);
    catalog.set_fallback_chain(vec!["es-MX".into(), "es".into(), "en".into()]);

    assert_eq!(catalog.get("es-MX", "greeting"), Some("Qué onda"));
    assert_eq!(catalog.get("es-MX", "color"), Some("Color"));
}

#[test]
fn plural_english_singular() {
    let catalog = english_catalog();
    assert_eq!(catalog.get_plural("en", "items", 1), Some("{count} item"));
}

#[test]
fn plural_english_plural() {
    let catalog = english_catalog();
    assert_eq!(catalog.get_plural("en", "items", 0), Some("{count} items"));
    assert_eq!(catalog.get_plural("en", "items", 2), Some("{count} items"));
    assert_eq!(
        catalog.get_plural("en", "items", 100),
        Some("{count} items")
    );
}

#[test]
fn plural_russian() {
    let mut catalog = StringCatalog::new();
    let mut ru = LocaleStrings::new();
    ru.insert_plural(
        "files",
        PluralForms {
            one: "{count} файл".into(),
            few: Some("{count} файла".into()),
            many: Some("{count} файлов".into()),
            other: "{count} файлов".into(),
            ..Default::default()
        },
    );
    catalog.add_locale("ru", ru);

    assert_eq!(catalog.get_plural("ru", "files", 1), Some("{count} файл"));
    assert_eq!(catalog.get_plural("ru", "files", 3), Some("{count} файла"));
    assert_eq!(catalog.get_plural("ru", "files", 5), Some("{count} файлов"));
    assert_eq!(catalog.get_plural("ru", "files", 21), Some("{count} файл"));
}

#[test]
fn interpolation_single_arg() {
    let catalog = english_catalog();
    assert_eq!(
        catalog.format("en", "welcome", &[("name", "Alice")]),
        Some("Welcome, Alice!".into())
    );
}

#[test]
fn interpolation_multiple_args() {
    let catalog = english_catalog();
    assert_eq!(
        catalog.format("en", "farewell", &[("name", "Bob"), ("when", "tomorrow")]),
        Some("Goodbye, Bob. See you tomorrow.".into())
    );
}

#[test]
fn interpolation_missing_arg_left_as_is() {
    let catalog = english_catalog();
    assert_eq!(
        catalog.format("en", "welcome", &[]),
        Some("Welcome, {name}!".into())
    );
}

#[test]
fn format_plural_auto_count() {
    let catalog = english_catalog();
    assert_eq!(
        catalog.format_plural("en", "items", 1, &[]),
        Some("1 item".into())
    );
    assert_eq!(
        catalog.format_plural("en", "items", 42, &[]),
        Some("42 items".into())
    );
}

#[test]
fn interpolation_edge_cases() {
    assert_eq!(interpolate("Hello {world", &[]), "Hello {world");
    assert_eq!(interpolate("Hello {}", &[]), "Hello {}");
    assert_eq!(interpolate("Hello World", &[]), "Hello World");
    assert_eq!(interpolate("{x} and {x}", &[("x", "A")]), "A and A");
}

#[test]
fn empty_catalog() {
    let catalog = StringCatalog::new();
    assert_eq!(catalog.get("en", "anything"), None);
    assert_eq!(catalog.get_plural("en", "anything", 1), None);
    assert!(catalog.locales().is_empty());
}

#[test]
fn locale_listing() {
    let catalog = english_catalog();
    let locales = catalog.locales();
    assert_eq!(locales.len(), 1);
    assert!(locales.contains(&"en"));
}

#[test]
fn locale_strings_len() {
    let catalog = english_catalog();
    let en = catalog.locale("en").unwrap();
    assert_eq!(en.len(), 4);
    assert!(!en.is_empty());
}

#[test]
fn simple_entry_from_plural_lookup() {
    let catalog = english_catalog();
    assert_eq!(catalog.get_plural("en", "greeting", 1), Some("Hello"));
}

#[test]
fn interpolation_is_single_pass() {
    assert_eq!(interpolate("{a}", &[("a", "{b}"), ("b", "X")]), "{b}");
    assert_eq!(interpolate("{a{b}", &[("b", "X"), ("a{b", "Y")]), "Y");
    assert_eq!(interpolate("}{", &[]), "}{");
    assert_eq!(interpolate("{x}{y}", &[("y", "2"), ("x", "1"), ("x", "3")]), "12");
    assert_eq!(interpolate("", &[("x", "1")]), "");
}

#[test]
fn insert_replaces_existing_key() {
    let mut en = LocaleStrings::new();
    assert!(en.is_empty());
    en.insert("k", "one");
    en.insert("k", "two");
    assert_eq!(en.len(), 1);
    assert!(matches!(en.get("k"), Some(StringEntry::Simple(s)) if s == "two"));
    assert!(en.get("other").is_none());
}

#[test]
fn plural_rule_override_and_negative_count() {
    let mut catalog = english_catalog();
    catalog.set_plural_rule("en", PluralRule::French);
    assert_eq!(catalog.get_plural("en", "items", 0), Some("{count} item"));
    assert_eq!(
        catalog.format_plural("en", "items", -5, &[("count", "ignored")]),
        Some("-5 items".into())
    );
    assert_eq!(catalog.format_plural("en", "missing", 1, &[]), None);
}

#[test]
fn fallback_uses_rule_of_fallback_locale() {
    let mut catalog = StringCatalog::new();
    let mut ru = LocaleStrings::new();
    ru.insert_plural(
        "files",
        PluralForms {
            one: "one".into(),
            few: Some("few".into()),
            other: "other".into(),
            ..Default::default()
        },
    );
    catalog.add_locale("ru", ru);
    catalog.add_locale("en", LocaleStrings::new());
    catalog.set_fallback_chain(vec!["en".into(), "ru".into()]);
    assert_eq!(catalog.get_plural("en", "files", 3), Some("few"));
    assert_eq!(catalog.get("en", "files"), Some("other"));
}

#[test]
fn error_messages() {
    assert_eq!(
        I18nError::InvalidLocale("x!".into()).to_string(),
        "invalid locale: x!"
    );
    assert_eq!(
        I18nError::ParseError("bad".into()).to_string(),
        "parse error: bad"
    );
    assert_eq!(
        I18nError::DuplicateKey {
            locale: "en".into(),
            key: "k".into()
        }
        .to_string(),
        "duplicate key 'k' in locale 'en'"
    );
}
