use ftui::buffer::DegradationLevel;
use ftui::cell::{Cell, CellContent, PackedRgba, StyleFlags, FLAG_BOLD, FLAG_REVERSE};
use ftui::event::{Hit, HitId, HitRegion};
use ftui::frame::Frame;
use ftui::geometry::Rect;
use ftui::modal::container::{
    lay_backdrop, modal_hit_backdrop, modal_hit_content, register_modal_hits, Modal, ModalConfig,
    ModalSizeConstraints,
};
use ftui::modal::dialog::{dialog_hit_button, Dialog, DialogButton, DialogState};
use ftui::style::Style;
use ftui::widgets::{Blank, StatefulWidget, Widget};

struct Stub;

impl Widget for Stub {
    fn render(&self, _area: Rect, _frame: &mut Frame) {}
}

struct Marker(char);

impl Widget for Marker {
    fn render(&self, area: Rect, frame: &mut Frame) {
        frame.buffer.set(area.x, area.y, Cell::from_char(self.0));
    }
}

fn text_of(frame: &Frame, y: u16, from: u16, to: u16) -> String {
    let mut out = String::new();
    for x in from..to {
        match frame.buffer.get(x, y).unwrap().content {
            CellContent::Char(c) => out.push(c),
            CellContent::Grapheme { id, .. } => out.push_str(frame.pool.get(id).unwrap()),
            CellContent::Empty => out.push(' '),
            CellContent::Continuation => {}
        }
    }
    out
}

fn backdrop() -> PackedRgba {
    PackedRgba::rgba(0, 0, 0, 153)
}

#[test]
fn hit_regions_registered() {
    let modal = Modal::new(Stub)
        .size(ModalSizeConstraints::new().min_width(6).max_width(6).min_height(3).max_height(3))
        .hit_id(HitId::new(7));

    let mut frame = Frame::with_hit_grid(20, 10);
    let area = Rect::new(0, 0, 20, 10);
    modal.render(area, &mut frame);

    let backdrop_hit = frame.hit_test(0, 0);
    assert_eq!(backdrop_hit, Some(Hit::new(HitId::new(7), modal_hit_backdrop(), 0)));

    let content = modal.content_rect(area);
    assert_eq!(content, Rect::new(7, 3, 6, 3));
    let cx = content.x + 1;
    let cy = content.y + 1;
    let content_hit = frame.hit_test(cx, cy);
    assert_eq!(content_hit, Some(Hit::new(HitId::new(7), modal_hit_content(), 0)));
}

#[test]
fn modal_draws_backdrop_then_content() {
    let modal = Modal::new(Marker('#')).size(
        ModalSizeConstraints::new().min_width(4).max_width(4).min_height(2).max_height(2),
    );
    let mut frame = Frame::new(10, 6);
    modal.render(Rect::new(0, 0, 10, 6), &mut frame);
    assert_eq!(frame.buffer.get(0, 0).unwrap().bg, backdrop());
    assert_eq!(frame.buffer.get(9, 5).unwrap().bg, backdrop());
    assert_eq!(frame.buffer.get(3, 2).unwrap().content, CellContent::Char('#'));
    assert_eq!(frame.hit_test(0, 0), None);
}

#[test]
fn modal_without_backdrop_or_area_leaves_cells_alone() {
    let mut frame = Frame::with_hit_grid(10, 6);
    let modal = Modal::new(Blank).backdrop(None).hit_id(HitId::new(3));
    modal.render(Rect::new(0, 0, 0, 6), &mut frame);
    assert_eq!(frame.hit_test(0, 0), None);
    modal.render(Rect::new(2, 1, 4, 3), &mut frame);
    assert_eq!(*frame.buffer.get(3, 2).unwrap(), Cell::default());
    assert_eq!(frame.hit_test(1, 1), None);
    assert_eq!(frame.hit_test(2, 1), Some(Hit::new(HitId::new(3), modal_hit_content(), 0)));
}

#[test]
fn modal_with_empty_content_registers_backdrop_only() {
    let mut frame = Frame::with_hit_grid(10, 6);
    let modal = Modal::new(Marker('#'))
        .size(ModalSizeConstraints::new().max_width(0))
        .backdrop(Some(PackedRgba::rgb(1, 2, 3)))
        .hit_id(HitId::new(4));
    modal.render(Rect::new(0, 0, 10, 6), &mut frame);
    for y in 0..6 {
        for x in 0..10 {
            let cell = frame.buffer.get(x, y).unwrap();
            assert_eq!(cell.bg, PackedRgba::rgb(1, 2, 3));
            assert_eq!(cell.content, CellContent::Empty);
            assert_eq!(frame.hit_test(x, y), Some(Hit::new(HitId::new(4), modal_hit_backdrop(), 0)));
        }
    }
}

#[test]
fn backdrop_and_hits_by_hand() {
    let mut frame = Frame::with_hit_grid(6, 3);
    lay_backdrop(&mut frame, Rect::new(1, 1, 2, 1), Some(PackedRgba::rgb(9, 9, 9)));
    assert_eq!(frame.buffer.get(1, 1).unwrap().bg, PackedRgba::rgb(9, 9, 9));
    assert_eq!(frame.buffer.get(2, 1).unwrap().bg, PackedRgba::rgb(9, 9, 9));
    assert_eq!(frame.buffer.get(3, 1).unwrap().bg, Cell::default().bg);
    lay_backdrop(&mut frame, Rect::new(0, 0, 6, 3), None);
    assert_eq!(frame.buffer.get(0, 0).unwrap().bg, Cell::default().bg);

    register_modal_hits(&mut frame, Rect::new(0, 0, 6, 3), Rect::new(2, 1, 2, 1), None);
    assert_eq!(frame.hit_test(2, 1), None);
    register_modal_hits(&mut frame, Rect::new(0, 0, 6, 3), Rect::new(2, 1, 2, 1), Some(HitId::new(1)));
    assert_eq!(frame.hit_test(1, 1), Some(Hit::new(HitId::new(1), HitRegion::Custom(1), 0)));
    assert_eq!(frame.hit_test(2, 1), Some(Hit::new(HitId::new(1), HitRegion::Custom(2), 0)));
    assert_eq!(frame.hit_test(3, 1), Some(Hit::new(HitId::new(1), HitRegion::Custom(2), 0)));
    assert_eq!(frame.hit_test(4, 1), Some(Hit::new(HitId::new(1), HitRegion::Custom(1), 0)));
}

#[test]
fn hit_grid_keeps_the_last_registration() {
    let mut frame = Frame::with_hit_grid(4, 2);
    assert_eq!(frame.hit_test(0, 0), None);
    frame.register_hit(Rect::new(0, 0, 3, 2), HitId::new(1), HitRegion::Content, 5);
    frame.register_hit(Rect::new(2, 1, 9, 9), HitId::new(2), HitRegion::Button, 6);
    assert_eq!(frame.hit_test(0, 0), Some(Hit::new(HitId::new(1), HitRegion::Content, 5)));
    assert_eq!(frame.hit_test(2, 0), Some(Hit::new(HitId::new(1), HitRegion::Content, 5)));
    assert_eq!(frame.hit_test(3, 0), None);
    assert_eq!(frame.hit_test(2, 1), Some(Hit::new(HitId::new(2), HitRegion::Button, 6)));
    assert_eq!(frame.hit_test(3, 1), Some(Hit::new(HitId::new(2), HitRegion::Button, 6)));
    assert_eq!(frame.hit_test(4, 1), None);
    assert_eq!(frame.hit_test(0, 2), None);

    let mut plain = Frame::new(4, 2);
    plain.register_hit(Rect::new(0, 0, 4, 2), HitId::new(1), HitRegion::Content, 0);
    assert_eq!(plain.hit_test(0, 0), None);
}

#[test]
fn render_alert_does_not_panic() {
    let dialog = Dialog::alert("Alert", "This is an alert message.");
    let mut state = DialogState::new();
    let mut frame = Frame::new(80, 24);
    dialog.render(Rect::new(0, 0, 80, 24), &mut frame, &mut state);

    // 60 columns and 10 rows in the middle of the screen.
    assert_eq!(text_of(&frame, 7, 10, 11), "┌");
    assert_eq!(text_of(&frame, 7, 69, 70), "┐");
    assert_eq!(text_of(&frame, 16, 10, 11), "└");
    assert_eq!(text_of(&frame, 16, 69, 70), "┘");
    assert_eq!(text_of(&frame, 7, 36, 43), "─Alert─");
    assert_eq!(text_of(&frame, 8, 26, 53), " This is an alert message. ");
    assert_eq!(text_of(&frame, 9, 11, 69), " ".repeat(58));
    assert_eq!(text_of(&frame, 10, 36, 44), " [ OK ] ");
    assert_eq!(frame.buffer.get(37, 10).unwrap().attrs, StyleFlags(FLAG_BOLD));
    assert_eq!(frame.buffer.get(0, 0).unwrap().bg, backdrop());
    assert_eq!(frame.buffer.get(12, 9).unwrap().bg, backdrop());
    assert_eq!(frame.cursor_position, None);
    assert!(state.open);
}

#[test]
fn render_confirm_does_not_panic() {
    let dialog = Dialog::confirm("Confirm", "Are you sure?");
    let mut state = DialogState::new();
    state.focused_button = Some(1);
    let mut frame = Frame::new(80, 24);
    dialog.render(Rect::new(0, 0, 80, 24), &mut frame, &mut state);

    // Two buttons of 6 and 10 columns, two columns apart, in 58 columns.
    assert_eq!(text_of(&frame, 10, 30, 50), " [ OK ]  [ Cancel ] ");
    assert_eq!(frame.buffer.get(31, 10).unwrap().attrs, StyleFlags(FLAG_BOLD));
    assert_eq!(frame.buffer.get(39, 10).unwrap().attrs, StyleFlags(FLAG_REVERSE));
    assert_eq!(frame.buffer.get(48, 10).unwrap().attrs, StyleFlags(FLAG_REVERSE));
    assert_eq!(frame.buffer.get(49, 10).unwrap().attrs, StyleFlags(0));
    assert_eq!(state.focused_button, Some(1));
}

#[test]
fn render_prompt_does_not_panic() {
    let dialog = Dialog::prompt("Prompt", "Enter your name:");
    let mut state = DialogState::new();
    state.input_value = "Test User".to_string();
    let mut frame = Frame::new(80, 24);
    dialog.render(Rect::new(0, 0, 80, 24), &mut frame, &mut state);

    // 12 rows from row 6 on: message, spacing, input, spacing, buttons.
    assert_eq!(text_of(&frame, 6, 10, 11), "┌");
    assert_eq!(text_of(&frame, 17, 10, 11), "└");
    assert_eq!(text_of(&frame, 7, 32, 48), "Enter your name:");
    assert_eq!(text_of(&frame, 9, 11, 22), " Test User ");
    assert_eq!(text_of(&frame, 11, 30, 50), " [ OK ]  [ Cancel ] ");
    assert_eq!(frame.cursor_position, Some((21, 9)));
    assert!(frame.cursor_visible);
    assert_eq!(state.input_value, "Test User");
}

#[test]
fn render_tiny_area_does_not_panic() {
    let dialog = Dialog::alert("T", "M");
    let mut state = DialogState::new();
    let mut frame = Frame::new(10, 5);
    dialog.render(Rect::new(0, 0, 10, 5), &mut frame, &mut state);

    assert_eq!(text_of(&frame, 0, 0, 10), "┌───T────┐");
    assert_eq!(text_of(&frame, 1, 0, 10), "│   M    │");
    assert_eq!(text_of(&frame, 2, 0, 10), "│        │");
    assert_eq!(text_of(&frame, 3, 0, 10), "│ [ OK ] │");
    assert_eq!(text_of(&frame, 4, 0, 10), "└────────┘");
}

#[test]
fn closed_dialog_and_empty_area_draw_nothing() {
    let dialog = Dialog::alert("T", "M");
    let mut frame = Frame::new(10, 5);
    let mut closed = DialogState::new();
    closed.open = false;
    dialog.render(Rect::new(0, 0, 10, 5), &mut frame, &mut closed);
    let mut open = DialogState::new();
    dialog.render(Rect::new(0, 0, 10, 0), &mut frame, &mut open);
    for y in 0..5 {
        for x in 0..10 {
            assert_eq!(*frame.buffer.get(x, y).unwrap(), Cell::default());
        }
    }
}

#[test]
fn dialog_rows_stop_where_the_inside_ends() {
    let dialog = Dialog::prompt("P", "Say");
    let state = DialogState::new();
    let mut frame = Frame::new(12, 4);
    dialog.render_content(Rect::new(0, 0, 12, 4), &mut frame, &state);
    // Two rows inside: the message and the spacing; no input, no buttons.
    assert_eq!(text_of(&frame, 0, 0, 12), "┌────P─────┐");
    assert_eq!(text_of(&frame, 1, 0, 12), "│   Say    │");
    assert_eq!(text_of(&frame, 2, 0, 12), "│          │");
    assert_eq!(text_of(&frame, 3, 0, 12), "└──────────┘");
    assert_eq!(frame.cursor_position, None);

    let mut flat = Frame::new(12, 2);
    dialog.render_content(Rect::new(0, 0, 12, 2), &mut flat, &state);
    assert_eq!(text_of(&flat, 0, 0, 12), "┌────P─────┐");
    assert_eq!(text_of(&flat, 1, 0, 12), "└──────────┘");
}

#[test]
fn dialog_degrades_with_the_frame() {
    let dialog = Dialog::alert("T", "M");
    let state = DialogState::new();
    let mut frame = Frame::new(10, 5);
    frame.buffer.set_degradation(DegradationLevel::SimpleBorders);
    dialog.render_content(Rect::new(0, 0, 10, 5), &mut frame, &state);
    assert_eq!(text_of(&frame, 0, 0, 10), "+---T----+");
    assert_eq!(text_of(&frame, 3, 0, 10), "| [ OK ] |");
}

#[test]
fn centered_text_goes_by_bytes_and_keeps_to_its_columns() {
    let dialog = Dialog::alert("", "");
    let mut frame = Frame::new(12, 3);
    let style = Style::new().fg(PackedRgba::rgb(1, 1, 1)).bg(PackedRgba::rgb(2, 2, 2)).bold();
    dialog.draw_centered_text(&mut frame, 1, 0, 10, "abcd", style);
    assert_eq!(text_of(&frame, 0, 0, 12), "    abcd    ");
    let cell = *frame.buffer.get(4, 0).unwrap();
    assert_eq!(cell.fg, PackedRgba::rgb(1, 1, 1));
    assert_eq!(cell.bg, PackedRgba::rgb(2, 2, 2));
    assert_eq!(cell.attrs, StyleFlags(0));

    // Two characters of two bytes each are placed as four columns.
    dialog.draw_centered_text(&mut frame, 1, 1, 10, "éé", Style::new());
    assert_eq!(text_of(&frame, 1, 0, 12), "    éé      ");

    // A text longer than the width starts at the left and is cut.
    dialog.draw_centered_text(&mut frame, 2, 2, 5, "0123456789", Style::new());
    assert_eq!(text_of(&frame, 2, 0, 12), "  01234     ");
}

#[test]
fn input_field_shows_what_was_typed_and_the_cursor() {
    let dialog = Dialog::prompt("P", "M")
        .modal_config(ModalConfig::default());
    let mut frame = Frame::new(12, 2);
    let mut state = DialogState::new();
    state.input_value = "abc".to_string();
    dialog.render_input(&mut frame, 0, 1, 12, &state);
    assert_eq!(text_of(&frame, 1, 0, 12), " abc        ");
    assert_eq!(frame.cursor_position, Some((4, 1)));
    assert!(frame.cursor_visible);

    // What does not fit is cut, and the cursor is left out where it does
    // not fit either.
    let mut narrow = Frame::new(12, 2);
    state.input_value = "abcdefgh".to_string();
    dialog.render_input(&mut narrow, 2, 0, 6, &state);
    assert_eq!(text_of(&narrow, 0, 0, 12), "   abcd     ");
    assert_eq!(narrow.cursor_position, None);
    assert!(!narrow.cursor_visible);

    // Without focus there is no cursor; an empty field holds a blank.
    let mut idle = Frame::new(12, 2);
    state.input_value = String::new();
    state.input_focused = false;
    dialog.render_input(&mut idle, 0, 0, 12, &state);
    assert_eq!(idle.buffer.get(1, 0).unwrap().content, CellContent::Char(' '));
    assert_eq!(idle.buffer.get(2, 0).unwrap().content, CellContent::Empty);
    assert_eq!(idle.cursor_position, None);
}

#[test]
fn buttons_register_their_hit_areas() {
    let dialog = Dialog::custom("T", "M")
        .button(DialogButton::new("A", "a"))
        .button(DialogButton::new("BC", "bc").primary())
        .hit_id(HitId::new(5))
        .build();
    let mut state = DialogState::new();
    state.focused_button = Some(0);
    let mut frame = Frame::with_hit_grid(30, 2);
    dialog.render_buttons(&mut frame, 2, 1, 20, &state);

    // 5 and 6 columns with two between: 13 of 20, so three columns in.
    assert_eq!(dialog.buttons_total_width(20), 13);
    assert_eq!(dialog.buttons_total_width(9), 9);
    assert_eq!(text_of(&frame, 1, 0, 30), "     [ A ]  [ BC ]            ");
    assert_eq!(frame.buffer.get(5, 1).unwrap().attrs, StyleFlags(FLAG_REVERSE));
    assert_eq!(frame.buffer.get(12, 1).unwrap().attrs, StyleFlags(FLAG_BOLD));
    assert_eq!(frame.hit_test(4, 1), None);
    for x in 5..10 {
        assert_eq!(frame.hit_test(x, 1), Some(Hit::new(HitId::new(5), dialog_hit_button(), 0)));
    }
    assert_eq!(frame.hit_test(10, 1), None);
    assert_eq!(frame.hit_test(11, 1), None);
    for x in 12..18 {
        assert_eq!(frame.hit_test(x, 1), Some(Hit::new(HitId::new(5), dialog_hit_button(), 1)));
    }
    assert_eq!(frame.hit_test(18, 1), None);
    assert_eq!(frame.hit_test(5, 0), None);
}

#[test]
fn buttons_are_cut_at_the_end_of_their_columns() {
    let dialog = Dialog::custom("T", "M")
        .button(DialogButton::new("Long", "a"))
        .button(DialogButton::new("Other", "b"))
        .build();
    let state = DialogState::new();
    let mut frame = Frame::new(20, 1);
    dialog.render_buttons(&mut frame, 1, 0, 10, &state);
    // 8 + 2 + 9 columns do not fit 10: drawn from the left, cut at column 11.
    assert_eq!(text_of(&frame, 0, 0, 20), " [ Long ]           ");
    assert_eq!(Dialog::button_chars("Long"), vec!['[', ' ', 'L', 'o', 'n', 'g', ' ', ']']);
}

#[test]
fn focused_button_is_reversed_once() {
    let plain = Dialog::alert("T", "M");
    assert_eq!(plain.style_of_button(true, false), Style::new().bold());
    assert_eq!(plain.style_of_button(false, false), Style::new());
    assert_eq!(plain.style_of_button(true, true), Style::new().reverse());
    let loud = Dialog::alert("T", "M").focused_button_style(Style::new().bold());
    assert_eq!(
        loud.style_of_button(false, true).attrs,
        Some(StyleFlags(FLAG_BOLD | FLAG_REVERSE))
    );
}

#[test]
fn modal_hit_areas_cover_the_buttons_of_a_dialog() {
    let dialog = Dialog::alert("T", "M").hit_id(HitId::new(8));
    let mut state = DialogState::new();
    let mut frame = Frame::with_hit_grid(10, 5);
    dialog.render(Rect::new(0, 0, 10, 5), &mut frame, &mut state);
    assert_eq!(text_of(&frame, 3, 0, 10), "│ [ OK ] │");
    assert_eq!(frame.hit_test(3, 3), Some(Hit::new(HitId::new(8), modal_hit_content(), 0)));
}
