use ftui::stateful::{StateKey, Stateful, VersionedState};
use std::collections::hash_map::DefaultHasher;
use std::hash::{Hash, Hasher};

#[derive(Default)]
struct TestScrollView {
    id: String,
    offset: u16,
    max: u16,
}

#[derive(Clone, Debug, Default, PartialEq)]
struct ScrollState {
    scroll_offset: u16,
}

impl Stateful for TestScrollView {
    type State = ScrollState;

    fn state_key(&self) -> StateKey {
        StateKey::new("ScrollView", &self.id)
    }

    fn save_state(&self) -> ScrollState {
        ScrollState {
            scroll_offset: self.offset,
        }
    }

    fn restore_state(&mut self, state: ScrollState) {
        self.offset = state.scroll_offset.min(self.max);
    }
}

#[derive(Default)]
struct TestTreeView {
    id: String,
    expanded: Vec<u32>,
}

#[derive(Clone, Debug, Default, PartialEq)]
struct TreeState {
    expanded_nodes: Vec<u32>,
    collapse_all_on_blur: bool,
}

impl Stateful for TestTreeView {
    type State = TreeState;

    fn state_key(&self) -> StateKey {
        StateKey::new("TreeView", &self.id)
    }

    fn save_state(&self) -> TreeState {
        TreeState {
            expanded_nodes: self.expanded.clone(),
            collapse_all_on_blur: false,
        }
    }

    fn restore_state(&mut self, state: TreeState) {
        self.expanded = state.expanded_nodes;
    }

    fn state_version() -> u32 {
        2
    }
}

#[test]
fn state_key_new() {
    let key = StateKey::new("ScrollView", "main");
    assert_eq!(key.widget_type, "ScrollView");
    assert_eq!(key.instance_id, "main");
}

#[test]
fn state_key_from_path() {
    let key = StateKey::from_path(&["app", "sidebar", "tree"]);
    assert_eq!(key.instance_id, "app/sidebar/tree");
    assert_eq!(key.widget_type, "tree");
}

#[test]
fn state_key_uniqueness() {
    let a = StateKey::new("ScrollView", "main");
    let b = StateKey::new("ScrollView", "sidebar");
    let c = StateKey::new("TreeView", "main");
    assert_ne!(a, b);
    assert_ne!(a, c);
    assert_ne!(b, c);
}

#[test]
fn state_key_equality() {
    let a = StateKey::new("ScrollView", "main");
    let b = StateKey::new("ScrollView", "main");
    assert_eq!(a, b);
}

#[test]
fn state_key_hash_consistency() {
    let a = StateKey::new("ScrollView", "main");
    let b = StateKey::new("ScrollView", "main");

    let hash = |key: &StateKey| {
        let mut h = DefaultHasher::new();
        key.hash(&mut h);
        h.finish()
    };
    assert_eq!(hash(&a), hash(&b));
}

#[test]
fn state_key_display() {
    let key = StateKey::new("ScrollView", "main");
    assert_eq!(key.to_string(), "ScrollView::main");
}

#[test]
fn state_key_canonical() {
    let key = StateKey::new("ScrollView", "main");
    assert_eq!(key.canonical(), "ScrollView::main");
}

#[test]
fn save_restore_round_trip() {
    let mut widget = TestScrollView {
        id: "content".into(),
        offset: 42,
        max: 100,
    };

    let saved = widget.save_state();
    assert_eq!(saved.scroll_offset, 42);

    widget.offset = 0;
    widget.restore_state(saved);
    assert_eq!(widget.offset, 42);
}

#[test]
fn restore_clamps_to_valid_range() {
    let mut widget = TestScrollView {
        id: "content".into(),
        offset: 0,
        max: 10,
    };

    widget.restore_state(ScrollState { scroll_offset: 999 });
    assert_eq!(widget.offset, 10);
}

#[test]
fn default_state_on_missing() {
    let mut widget = TestScrollView {
        id: "new".into(),
        offset: 5,
        max: 100,
    };

    widget.restore_state(ScrollState::default());
    assert_eq!(widget.offset, 0);
}

#[test]
fn default_state_version_is_one() {
    assert_eq!(TestScrollView::state_version(), 1);
}

#[test]
fn custom_state_version() {
    assert_eq!(TestTreeView::state_version(), 2);
}

#[test]
fn versioned_state_pack_unpack() {
    let widget = TestScrollView {
        id: "main".into(),
        offset: 77,
        max: 100,
    };

    let packed = VersionedState::pack(&widget);
    assert_eq!(packed.version, 1);
    assert_eq!(packed.data.scroll_offset, 77);

    let unpacked = packed.unpack::<TestScrollView>();
    assert!(unpacked.is_some());
    assert_eq!(unpacked.unwrap().scroll_offset, 77);
}

#[test]
fn versioned_state_version_mismatch_returns_none() {
    let stored = VersionedState::<TreeState> {
        version: 1,
        data: TreeState::default(),
    };

    let result = stored.unpack::<TestTreeView>();
    assert!(result.is_none());
}

#[test]
fn versioned_state_unpack_or_default_on_mismatch() {
    let stored = VersionedState::<TreeState> {
        version: 1,
        data: TreeState {
            expanded_nodes: vec![1, 2, 3],
            collapse_all_on_blur: true,
        },
    };

    let result = stored.unpack_or_default::<TestTreeView>();
    assert_eq!(result, TreeState::default());
}

#[test]
fn versioned_state_unpack_or_default_on_match() {
    let stored = VersionedState::<ScrollState> {
        version: 1,
        data: ScrollState { scroll_offset: 55 },
    };

    let result = stored.unpack_or_default::<TestScrollView>();
    assert_eq!(result.scroll_offset, 55);
}

#[test]
fn versioned_state_default() {
    let vs = VersionedState::<ScrollState>::default();
    assert_eq!(vs.version, 1);
    assert_eq!(vs.data, ScrollState::default());
}

#[test]
fn state_key_from_single_segment_and_keys_of_widgets() {
    let key = StateKey::from_path(&["root"]);
    assert_eq!(key.widget_type, "root");
    assert_eq!(key.instance_id, "root");
    let view = TestTreeView {
        id: "files".into(),
        expanded: vec![4],
    };
    assert_eq!(view.state_key().canonical(), "TreeView::files");
}

#[test]
fn unpack_as_checks_version_only() {
    assert_eq!(VersionedState::new(3, 9u8).unpack_as(3), Some(9));
    assert_eq!(VersionedState::new(3, 9u8).unpack_as(4), None);
    assert_eq!(VersionedState::new(3, 9u8).unpack_as_or(3, 1), 9);
    assert_eq!(VersionedState::new(3, 9u8).unpack_as_or(2, 1), 1);
}
