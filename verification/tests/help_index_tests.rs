use ftui::help_index::{HelpIndex, MatchedField};
use ftui::help_registry::{HelpContent, HelpId, HelpRegistry, Keybinding};

fn sample_registry() -> HelpRegistry {
    let mut reg = HelpRegistry::new();
    reg.register(
        HelpId(1),
        HelpContent {
            short: "Save the current file".into(),
            long: Some("Writes the buffer contents to disk, creating the file if needed.".into()),
            keybindings: vec![Keybinding::new("Ctrl+S", "Save file to disk")],
            see_also: vec![],
        },
    );
    reg.register(
        HelpId(2),
        HelpContent {
            short: "Open file picker".into(),
            long: Some("Opens a file browser to select files.".into()),
            keybindings: vec![Keybinding::new("Ctrl+O", "Open file")],
            see_also: vec![],
        },
    );
    reg.register(
        HelpId(3),
        HelpContent {
            short: "Undo last action".into(),
            long: None,
            keybindings: vec![Keybinding::new("Ctrl+Z", "Undo")],
            see_also: vec![],
        },
    );
    reg.register(
        HelpId(4),
        HelpContent {
            short: "Navigate to definition".into(),
            long: Some("Jump to the definition of the symbol under cursor.".into()),
            keybindings: vec![
                Keybinding::new("F12", "Go to definition"),
                Keybinding::new("Ctrl+Click", "Navigate to symbol"),
            ],
            see_also: vec![HelpId(5)],
        },
    );
    reg.register(
        HelpId(5),
        HelpContent {
            short: "Find references".into(),
            long: Some("Find all references to the symbol under cursor.".into()),
            keybindings: vec![Keybinding::new("Shift+F12", "Find all references")],
            see_also: vec![HelpId(4)],
        },
    );
    reg
}

#[test]
fn build_indexes_all_loaded() {
    let reg = sample_registry();
    let index = HelpIndex::build(&reg);

    assert_eq!(index.len(), 5);
    assert!(!index.is_empty());
    assert!(index.token_count() > 0);
}

#[test]
fn ids_returns_all_indexed() {
    let reg = sample_registry();
    let index = HelpIndex::build(&reg);

    let ids: Vec<_> = index.ids().into_iter().collect();
    assert_eq!(ids.len(), 5);
}

#[test]
fn empty_registry_produces_empty_index() {
    let reg = HelpRegistry::new();
    let index = HelpIndex::build(&reg);

    assert!(index.is_empty());
    assert_eq!(index.len(), 0);
    assert_eq!(index.token_count(), 0);
}

#[test]
fn levenshtein_exact() {
    assert_eq!(HelpIndex::levenshtein_bounded("abc", "abc", 2), Some(0));
}

#[test]
fn levenshtein_one_edit() {
    assert_eq!(HelpIndex::levenshtein_bounded("abc", "abd", 2), Some(1));
    assert_eq!(HelpIndex::levenshtein_bounded("abc", "ab", 2), Some(1));
    assert_eq!(HelpIndex::levenshtein_bounded("abc", "abcd", 2), Some(1));
}

#[test]
fn levenshtein_exceeds_max() {
    assert_eq!(HelpIndex::levenshtein_bounded("abc", "xyz", 1), None);
}

#[test]
fn levenshtein_empty_strings() {
    assert_eq!(HelpIndex::levenshtein_bounded("", "", 2), Some(0));
    assert_eq!(HelpIndex::levenshtein_bounded("abc", "", 3), Some(3));
    assert_eq!(HelpIndex::levenshtein_bounded("", "abc", 3), Some(3));
    assert_eq!(HelpIndex::levenshtein_bounded("abc", "", 2), None);
}

#[test]
fn matched_field_display() {
    assert_eq!(format!("{}", MatchedField::Short.to_string()), "description");
    assert_eq!(format!("{}", MatchedField::Long.to_string()), "details");
    assert_eq!(
        format!("{}", MatchedField::KeybindingAction.to_string()),
        "keybinding"
    );
    assert_eq!(format!("{}", MatchedField::KeybindingKey.to_string()), "key");
}

#[test]
fn levenshtein_known_distances() {
    assert_eq!(HelpIndex::levenshtein_bounded("kitten", "sitting", 3), Some(3));
    assert_eq!(HelpIndex::levenshtein_bounded("kitten", "sitting", 2), None);
    assert_eq!(HelpIndex::levenshtein_bounded("definiton", "definition", 4), Some(1));
    assert_eq!(HelpIndex::levenshtein_bounded("flaw", "lawn", 2), Some(2));
    assert_eq!(HelpIndex::levenshtein_bounded("abcdef", "uvwxyz", 5), None);
    assert_eq!(HelpIndex::levenshtein_bounded("abcdef", "uvwxyz", 6), Some(6));
    assert_eq!(HelpIndex::levenshtein_bounded("é", "e", 1), Some(1));
    assert_eq!(HelpIndex::levenshtein_bounded("a", "b", 0), None);
    assert_eq!(HelpIndex::levenshtein_bounded("a", "a", 0), Some(0));
}

#[test]
fn tokenize_splits_on_other_characters() {
    assert_eq!(
        HelpIndex::tokenize("Save the  current_file, now-ish!"),
        vec!["Save", "the", "current_file", "now-ish"]
    );
    assert_eq!(HelpIndex::tokenize("Ctrl+S"), vec!["Ctrl", "S"]);
    assert!(HelpIndex::tokenize("  +  ").is_empty());
    assert!(HelpIndex::tokenize("").is_empty());
    assert_eq!(HelpIndex::tokenize("über1"), vec!["über1"]);
}

#[test]
fn index_holds_lowercase_tokens_with_positions() {
    let reg = sample_registry();
    let index = HelpIndex::build(&reg);
    assert_eq!(index.ids(), vec![HelpId(1), HelpId(2), HelpId(3), HelpId(4), HelpId(5)]);
    assert_eq!(index.token_at(0), "save");
    let save = index.occurrences("save").unwrap();
    assert_eq!(save.len(), 2);
    assert_eq!(save[0].id, HelpId(1));
    assert_eq!(save[0].field, MatchedField::Short);
    assert_eq!(save[0].position, 0);
    assert_eq!(save[0].field_text, "Save the current file");
    assert_eq!(save[1].field, MatchedField::KeybindingAction);
    assert!(index.occurrences("Save").is_none());
    let file = index.occurrences("file").unwrap();
    assert_eq!(file.len(), 6);
    assert_eq!(file[0].position, 3);
    let ctrl = index.occurrences("ctrl").unwrap();
    assert_eq!(ctrl.len(), 4);
    assert!(ctrl.iter().all(|o| o.field == MatchedField::KeybindingKey));
    assert_eq!(index.occurrences_at(0).len(), 2);
}

#[test]
fn registry_replaces_and_peeks() {
    let mut reg = HelpRegistry::new();
    assert!(reg.is_empty());
    reg.register(HelpId(7), HelpContent::short("one"));
    reg.register(HelpId(8), HelpContent::short("two"));
    reg.register(HelpId(7), HelpContent::short("three"));
    assert_eq!(reg.len(), 2);
    assert_eq!(reg.ids(), vec![HelpId(7), HelpId(8)]);
    assert_eq!(reg.peek(HelpId(7)).unwrap().short, "three");
    assert!(reg.peek(HelpId(9)).is_none());
    let index = HelpIndex::build(&reg);
    assert_eq!(index.token_count(), 2);
    assert!(index.occurrences("one").is_none());
}
