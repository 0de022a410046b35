use ftui::event::{
    Event, Hit, HitId, HitRegion, KeyCode, KeyEvent, KeyEventKind, Modifiers, MouseButton,
    MouseEvent, MouseEventKind,
};
use ftui::geometry::{Rect, Size};
use ftui::modal::container::{
    modal_hit_backdrop, modal_hit_content, ModalAction, ModalConfig, ModalPosition,
    ModalSizeConstraints, ModalState,
};
use ftui::modal::dialog::{
    dialog_hit_button, Dialog, DialogButton, DialogKind, DialogResult, DialogState,
};
use ftui::modal::stack::{ModalId, ModalIdSource, ModalResult, ModalResultData};

fn key(code: KeyCode) -> Event {
    Event::Key(KeyEvent {
        code,
        modifiers: Modifiers::empty(),
        kind: KeyEventKind::Press,
    })
}

fn fixed(width: u16, height: u16) -> ModalSizeConstraints {
    ModalSizeConstraints::new()
        .min_width(width)
        .max_width(width)
        .min_height(height)
        .max_height(height)
}

#[test]
fn dialog_state_starts_open() {
    let state = DialogState::new();
    assert!(state.is_open());
    assert!(state.result.is_none());
}

#[test]
fn dialog_state_close_sets_result() {
    let mut state = DialogState::new();
    state.close(DialogResult::Accepted);
    assert!(!state.is_open());
    assert_eq!(state.result, Some(DialogResult::Accepted));
}

#[test]
fn button_display_width() {
    let button = DialogButton::new("OK", "ok");
    assert_eq!(button.display_width(), 6);
}

#[test]
fn center_positioning() {
    let config = ModalConfig::default().size(fixed(10, 4));
    let area = Rect::new(0, 0, 40, 20);
    assert_eq!(config.content_rect(area), Rect::new(15, 8, 10, 4));
}

#[test]
fn offset_positioning() {
    let config = ModalConfig::default()
        .size(fixed(10, 4))
        .position(ModalPosition::CenterOffset { x: -2, y: 3 });
    let area = Rect::new(0, 0, 40, 20);
    assert_eq!(config.content_rect(area), Rect::new(13, 11, 10, 4));
}

#[test]
fn size_constraints_respect_available() {
    let config = ModalConfig::default().size(
        ModalSizeConstraints::new()
            .min_width(10)
            .max_width(30)
            .min_height(6)
            .max_height(20),
    );
    let rect = config.content_rect(Rect::new(0, 0, 8, 4));
    assert_eq!(rect.width, 8);
    assert_eq!(rect.height, 4);
}

#[test]
fn backdrop_click_triggers_close() {
    let mut state = ModalState::default();
    let config = ModalConfig::default().hit_id(HitId::new(9));
    let hit = Some(Hit::new(HitId::new(9), modal_hit_backdrop(), 0));
    let event = Event::Mouse(MouseEvent::new(
        MouseEventKind::Down(MouseButton::Left),
        0,
        0,
    ));

    let action = state.handle_event(&event, hit, &config);
    assert_eq!(action, Some(ModalAction::BackdropClicked));
    assert!(!state.is_open());
}

#[test]
fn content_rect_within_bounds_for_positions() {
    let base_constraints = ModalSizeConstraints::new()
        .min_width(2)
        .min_height(2)
        .max_width(30)
        .max_height(10);
    let positions = [
        ModalPosition::Center,
        ModalPosition::CenterOffset { x: 3, y: -2 },
        ModalPosition::TopCenter { margin: 1 },
        ModalPosition::Custom { x: 100, y: 100 },
    ];
    let areas = [
        Rect::new(0, 0, 10, 6),
        Rect::new(2, 3, 40, 20),
        Rect::new(5, 1, 8, 4),
    ];

    for area in areas {
        for &position in &positions {
            let config = ModalConfig::default()
                .size(base_constraints)
                .position(position);
            let rect = config.content_rect(area);
            if rect.is_empty() {
                continue;
            }
            assert!(rect.x >= area.x);
            assert!(rect.y >= area.y);
            assert!(rect.right() <= area.right());
            assert!(rect.bottom() <= area.bottom());
        }
    }
}

#[test]
fn modal_state_reacts_to_escape_and_ignores_the_rest() {
    let config = ModalConfig::default().hit_id(HitId::new(1));
    let mut state = ModalState::default();
    assert_eq!(state.handle_event(&key(KeyCode::Enter), None, &config), None);
    let content_hit = Some(Hit::new(HitId::new(1), modal_hit_content(), 0));
    let click = Event::Mouse(MouseEvent::new(MouseEventKind::Down(MouseButton::Left), 1, 1));
    assert_eq!(state.handle_event(&click, content_hit, &config), None);
    let other = Some(Hit::new(HitId::new(2), modal_hit_backdrop(), 0));
    assert_eq!(state.handle_event(&click, other, &config), None);
    let release = Event::Key(KeyEvent {
        code: KeyCode::Escape,
        modifiers: Modifiers::empty(),
        kind: KeyEventKind::Release,
    });
    assert_eq!(state.handle_event(&release, None, &config), None);
    assert!(state.is_open());
    assert_eq!(
        state.handle_event(&key(KeyCode::Escape), None, &config),
        Some(ModalAction::EscapePressed)
    );
    assert!(!state.is_open());
    assert_eq!(state.handle_event(&key(KeyCode::Escape), None, &config), None);
    state.open();
    let stubborn = config.close_on_escape(false).close_on_backdrop(false);
    assert_eq!(state.handle_event(&key(KeyCode::Escape), None, &stubborn), None);
    let backdrop = Some(Hit::new(HitId::new(1), modal_hit_backdrop(), 0));
    assert_eq!(state.handle_event(&click, backdrop, &stubborn), None);
    state.close();
    assert!(!state.is_open());
}

#[test]
fn size_clamp_and_positions_exact() {
    let c = ModalSizeConstraints::new().min_width(20).max_width(10);
    assert_eq!(c.clamp(Size::new(30, 7)), Size::new(20, 7));
    assert_eq!(c.clamp(Size::new(15, 7)), Size::new(15, 7));
    assert_eq!(ModalSizeConstraints::default().clamp(Size::new(3, 4)), Size::new(3, 4));
    let area = Rect::new(10, 5, 20, 10);
    let size = Size::new(4, 2);
    assert_eq!(ModalPosition::Center.resolve(area, size), Rect::new(18, 9, 4, 2));
    assert_eq!(
        ModalPosition::TopCenter { margin: 1 }.resolve(area, size),
        Rect::new(18, 6, 4, 2)
    );
    assert_eq!(
        ModalPosition::TopCenter { margin: 100 }.resolve(area, size),
        Rect::new(18, 13, 4, 2)
    );
    assert_eq!(
        ModalPosition::Custom { x: 0, y: 0 }.resolve(area, size),
        Rect::new(10, 5, 4, 2)
    );
    assert_eq!(
        ModalPosition::CenterOffset { x: -100, y: 100 }.resolve(area, size),
        Rect::new(10, 13, 4, 2)
    );
    let empty = ModalConfig::default().size(ModalSizeConstraints::new().max_width(0));
    assert_eq!(empty.content_rect(area), Rect::new(10, 5, 0, 0));
    assert_eq!(ModalPosition::default(), ModalPosition::Center);
}

#[test]
fn alert_dialog_single_button() {
    let dialog = Dialog::alert("Title", "Message");
    assert_eq!(dialog.buttons.len(), 1);
    assert_eq!(dialog.buttons[0].label, "OK");
    assert!(dialog.buttons[0].primary);
}

#[test]
fn confirm_dialog_two_buttons() {
    let dialog = Dialog::confirm("Title", "Message");
    assert_eq!(dialog.buttons.len(), 2);
    assert_eq!(dialog.buttons[0].label, "OK");
    assert_eq!(dialog.buttons[1].label, "Cancel");
}

#[test]
fn prompt_dialog_has_input() {
    let dialog = Dialog::prompt("Title", "Message");
    assert_eq!(dialog.config.kind, DialogKind::Prompt);
    assert_eq!(dialog.buttons.len(), 2);
}

#[test]
fn custom_dialog_builder() {
    let dialog = Dialog::custom("Custom", "Message")
        .ok_button()
        .cancel_button()
        .custom_button("Help", "help")
        .build();
    assert_eq!(dialog.buttons.len(), 3);
}

#[test]
fn dialog_escape_closes() {
    let dialog = Dialog::alert("Test", "Msg");
    let mut state = DialogState::new();
    let result = dialog.handle_event(&key(KeyCode::Escape), &mut state, None);
    assert_eq!(result, Some(DialogResult::Dismissed));
    assert!(!state.is_open());
}

#[test]
fn dialog_enter_activates_primary() {
    let dialog = Dialog::alert("Test", "Msg");
    let mut state = DialogState::new();
    state.input_focused = false;
    let result = dialog.handle_event(&key(KeyCode::Enter), &mut state, None);
    assert_eq!(result, Some(DialogResult::Accepted));
}

#[test]
fn dialog_tab_cycles_focus() {
    let dialog = Dialog::confirm("Test", "Msg");
    let mut state = DialogState::new();
    state.input_focused = false;
    state.focused_button = Some(0);

    dialog.handle_event(&key(KeyCode::Tab), &mut state, None);
    assert_eq!(state.focused_button, Some(1));

    dialog.handle_event(&key(KeyCode::Tab), &mut state, None);
    assert_eq!(state.focused_button, Some(0));
}

#[test]
fn prompt_enter_returns_input() {
    let dialog = Dialog::prompt("Test", "Enter:");
    let mut state = DialogState::new();
    state.input_value = "hello".to_string();
    state.input_focused = false;
    state.focused_button = Some(0);

    let result = dialog.handle_event(&key(KeyCode::Enter), &mut state, None);
    assert_eq!(result, Some(DialogResult::Input("hello".to_string())));
}

#[test]
fn custom_dialog_empty_buttons_gets_default() {
    let dialog = Dialog::custom("Custom", "No buttons").build();
    assert_eq!(dialog.buttons.len(), 1);
    assert_eq!(dialog.buttons[0].label, "OK");
}

#[test]
fn prompt_focus_cycle_and_typing() {
    let dialog = Dialog::prompt("P", "M");
    let mut state = DialogState::new();
    for c in ['h', 'i', '!'] {
        dialog.handle_event(&key(KeyCode::Char(c)), &mut state, None);
    }
    dialog.handle_event(&key(KeyCode::Backspace), &mut state, None);
    assert_eq!(state.input_value, "hi");
    dialog.handle_event(&key(KeyCode::Left), &mut state, None);
    assert_eq!(state.focused_button, None);
    dialog.handle_event(&key(KeyCode::Tab), &mut state, None);
    assert_eq!((state.input_focused, state.focused_button), (false, Some(0)));
    dialog.handle_event(&key(KeyCode::Char('x')), &mut state, None);
    assert_eq!(state.input_value, "hi");
    dialog.handle_event(&key(KeyCode::Tab), &mut state, None);
    assert_eq!(state.focused_button, Some(1));
    dialog.handle_event(&key(KeyCode::Tab), &mut state, None);
    assert_eq!((state.input_focused, state.focused_button), (true, None));
    let shift_tab = Event::Key(KeyEvent {
        code: KeyCode::Tab,
        modifiers: Modifiers::shift(),
        kind: KeyEventKind::Press,
    });
    dialog.handle_event(&shift_tab, &mut state, None);
    assert_eq!((state.input_focused, state.focused_button), (false, Some(1)));
    dialog.handle_event(&key(KeyCode::Right), &mut state, None);
    assert_eq!(state.focused_button, Some(0));
    dialog.handle_event(&key(KeyCode::Left), &mut state, None);
    assert_eq!(state.focused_button, Some(1));
    let result = dialog.handle_event(&key(KeyCode::Enter), &mut state, None);
    assert_eq!(result, Some(DialogResult::Cancel));
    assert_eq!(state.take_result(), Some(DialogResult::Cancel));
    assert_eq!(state.take_result(), None);
    assert_eq!(dialog.handle_event(&key(KeyCode::Enter), &mut state, None), None);
    state.reset();
    assert!(state.is_open() && state.input_focused);
    assert_eq!(state.input_value, "");
    dialog.handle_event(&key(KeyCode::Char('a')), &mut state, None);
    dialog.handle_event(&key(KeyCode::Delete), &mut state, None);
    assert_eq!(state.input_value, "");
    assert_eq!(dialog.content_height(), 8);
    assert_eq!(Dialog::alert("", "m").content_height(), 5);
}

#[test]
fn custom_buttons_and_clicks() {
    let dialog = Dialog::custom("C", "M")
        .custom_button("Help", "help")
        .ok_button()
        .hit_id(HitId::new(5))
        .build();
    assert_eq!(dialog.primary_index(), Some(1));
    let click = Event::Mouse(MouseEvent::new(MouseEventKind::Down(MouseButton::Left), 0, 0));
    let mut state = DialogState::new();
    let wrong = Some(Hit::new(HitId::new(6), dialog_hit_button(), 0));
    assert_eq!(dialog.handle_event(&click, &mut state, wrong), None);
    let past = Some(Hit::new(HitId::new(5), dialog_hit_button(), 2));
    assert_eq!(dialog.handle_event(&click, &mut state, past), None);
    let region = Some(Hit::new(HitId::new(5), HitRegion::Content, 0));
    assert_eq!(dialog.handle_event(&click, &mut state, region), None);
    assert!(state.is_open());
    let help = Some(Hit::new(HitId::new(5), dialog_hit_button(), 0));
    assert_eq!(
        dialog.handle_event(&click, &mut state, help),
        Some(DialogResult::Custom("help".to_string()))
    );
    assert_eq!(state.focused_button, Some(0));
    assert!(!state.is_open());

    let no_primary = Dialog::custom("C", "M").cancel_button().build();
    let mut state = DialogState::new();
    assert_eq!(no_primary.handle_event(&key(KeyCode::Enter), &mut state, None), None);
    assert!(state.is_open());
    state.focused_button = Some(9);
    assert_eq!(no_primary.handle_event(&key(KeyCode::Enter), &mut state, None), None);
    let with_hit = Dialog::alert("a", "b").hit_id(HitId::new(3));
    assert_eq!(with_hit.config.modal_config.hit_id, Some(HitId::new(3)));
    let stubborn = Dialog::alert("a", "b")
        .modal_config(ModalConfig::default().close_on_escape(false));
    let mut state = DialogState::new();
    assert_eq!(stubborn.handle_event(&key(KeyCode::Escape), &mut state, None), None);
}

#[test]
fn modal_ids_are_given_once() {
    let mut source = ModalIdSource::new();
    let a = source.next_id();
    let b = source.next_id();
    assert_eq!(a.id(), 1);
    assert_eq!(b.id(), 2);
    assert_ne!(a, b);
    assert_eq!(ModalId::from_raw(7).id(), 7);
    let result = ModalResult {
        id: a,
        data: Some(ModalResultData::Custom("x".into())),
        focus_group_id: None,
    };
    assert!(matches!(result.data, Some(ModalResultData::Custom(ref s)) if s == "x"));
}
