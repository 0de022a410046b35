use ftui::plural::{PluralCategory, PluralForms, PluralRule};

#[test]
fn english_singular_plural() {
    let rule = PluralRule::English;
    assert_eq!(rule.categorize(0), PluralCategory::Other);
    assert_eq!(rule.categorize(1), PluralCategory::One);
    assert_eq!(rule.categorize(2), PluralCategory::Other);
    assert_eq!(rule.categorize(100), PluralCategory::Other);
}

#[test]
fn french_zero_is_singular() {
    let rule = PluralRule::French;
    assert_eq!(rule.categorize(0), PluralCategory::One);
    assert_eq!(rule.categorize(1), PluralCategory::One);
    assert_eq!(rule.categorize(2), PluralCategory::Other);
}

#[test]
fn russian_complex_rules() {
    let rule = PluralRule::Russian;
    assert_eq!(rule.categorize(1), PluralCategory::One);
    assert_eq!(rule.categorize(2), PluralCategory::Few);
    assert_eq!(rule.categorize(3), PluralCategory::Few);
    assert_eq!(rule.categorize(4), PluralCategory::Few);
    assert_eq!(rule.categorize(5), PluralCategory::Many);
    assert_eq!(rule.categorize(11), PluralCategory::Many);
    assert_eq!(rule.categorize(12), PluralCategory::Many);
    assert_eq!(rule.categorize(21), PluralCategory::One);
    assert_eq!(rule.categorize(22), PluralCategory::Few);
    assert_eq!(rule.categorize(25), PluralCategory::Many);
}

#[test]
fn arabic_full_categories() {
    let rule = PluralRule::Arabic;
    assert_eq!(rule.categorize(0), PluralCategory::Zero);
    assert_eq!(rule.categorize(1), PluralCategory::One);
    assert_eq!(rule.categorize(2), PluralCategory::Two);
    assert_eq!(rule.categorize(5), PluralCategory::Few);
    assert_eq!(rule.categorize(11), PluralCategory::Many);
    assert_eq!(rule.categorize(100), PluralCategory::Other);
}

#[test]
fn cjk_always_other() {
    let rule = PluralRule::CJK;
    for n in [0, 1, 2, 5, 100, 1000] {
        assert_eq!(rule.categorize(n), PluralCategory::Other);
    }
}

#[test]
fn polish_rules() {
    let rule = PluralRule::Polish;
    assert_eq!(rule.categorize(1), PluralCategory::One);
    assert_eq!(rule.categorize(2), PluralCategory::Few);
    assert_eq!(rule.categorize(3), PluralCategory::Few);
    assert_eq!(rule.categorize(4), PluralCategory::Few);
    assert_eq!(rule.categorize(5), PluralCategory::Many);
    assert_eq!(rule.categorize(12), PluralCategory::Many);
    assert_eq!(rule.categorize(22), PluralCategory::Few);
}

#[test]
fn locale_detection() {
    assert!(matches!(PluralRule::for_locale("en"), PluralRule::English));
    assert!(matches!(
        PluralRule::for_locale("en-US"),
        PluralRule::English
    ));
    assert!(matches!(PluralRule::for_locale("ru"), PluralRule::Russian));
    assert!(matches!(PluralRule::for_locale("fr"), PluralRule::French));
    assert!(matches!(PluralRule::for_locale("ar"), PluralRule::Arabic));
    assert!(matches!(PluralRule::for_locale("zh"), PluralRule::CJK));
    assert!(matches!(PluralRule::for_locale("ja"), PluralRule::CJK));
    assert!(matches!(
        PluralRule::for_locale("unknown"),
        PluralRule::English
    ));
}

#[test]
fn plural_forms_select() {
    let forms = PluralForms {
        zero: Some("no items".into()),
        one: "1 item".into(),
        two: None,
        few: Some("a few items".into()),
        many: None,
        other: "many items".into(),
    };

    assert_eq!(forms.select(PluralCategory::Zero), "no items");
    assert_eq!(forms.select(PluralCategory::One), "1 item");
    assert_eq!(forms.select(PluralCategory::Two), "many items");
    assert_eq!(forms.select(PluralCategory::Few), "a few items");
    assert_eq!(forms.select(PluralCategory::Many), "many items");
    assert_eq!(forms.select(PluralCategory::Other), "many items");
}

#[test]
fn negative_counts() {
    let rule = PluralRule::English;
    assert_eq!(rule.categorize(-1), PluralCategory::One);
    assert_eq!(rule.categorize(-2), PluralCategory::Other);
}

#[test]
fn plural_category_display() {
    assert_eq!(PluralCategory::Zero.to_string(), "zero");
    assert_eq!(PluralCategory::One.to_string(), "one");
    assert_eq!(PluralCategory::Other.to_string(), "other");
}

#[test]
fn locale_tags_with_region_and_case() {
    assert!(matches!(PluralRule::for_locale("RU_ru"), PluralRule::Russian));
    assert!(matches!(PluralRule::for_locale("pl-PL"), PluralRule::Polish));
    assert!(matches!(PluralRule::for_locale("Fr"), PluralRule::French));
    assert!(matches!(PluralRule::for_locale(""), PluralRule::English));
    assert!(matches!(PluralRule::for_locale("-ru"), PluralRule::English));
}

#[test]
fn categorize_extreme_counts() {
    assert_eq!(PluralRule::English.categorize(i64::MIN), PluralCategory::Other);
    assert_eq!(PluralRule::Russian.categorize(i64::MIN), PluralCategory::Many);
    assert_eq!(PluralRule::Russian.categorize(i64::MAX), PluralCategory::Many);
    assert_eq!(PluralRule::Russian.categorize(111), PluralCategory::Many);
    assert_eq!(PluralRule::Polish.categorize(21), PluralCategory::Many);
    assert_eq!(PluralRule::Arabic.categorize(103), PluralCategory::Few);
    assert_eq!(PluralRule::Arabic.categorize(200), PluralCategory::Other);
}
