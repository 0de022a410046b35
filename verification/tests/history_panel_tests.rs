use ftui::cell::{CellContent, PackedRgba};
use ftui::frame::Frame;
use ftui::geometry::Rect;
use ftui::history_panel::{hidden_text, HistoryEntry, HistoryPanel, HistoryPanelMode};
use ftui::style::Style;
use ftui::widgets::Widget;

fn row_text(frame: &Frame, y: u16, width: u16) -> String {
    let mut out = String::new();
    for x in 0..width {
        let cell = frame.buffer.get(x, y).unwrap();
        match cell.content {
            CellContent::Char(c) => out.push(c),
            CellContent::Grapheme { id, .. } => out.push_str(frame.pool.get(id).unwrap()),
            CellContent::Empty => out.push(' '),
            CellContent::Continuation => {}
        }
    }
    out.trim_end().to_string()
}

#[test]
fn new_panel_is_empty() {
    let panel = HistoryPanel::new();
    assert!(panel.is_empty());
    assert_eq!(panel.len(), 0);
}

#[test]
fn with_undo_items() {
    let panel = HistoryPanel::new().with_undo_items(&["Insert text", "Delete word"]);
    assert_eq!(panel.undo_items().len(), 2);
    assert_eq!(panel.undo_items()[0], "Insert text");
    assert_eq!(panel.len(), 2);
}

#[test]
fn with_redo_items() {
    let panel = HistoryPanel::new().with_redo_items(&["Paste"]);
    assert_eq!(panel.redo_items().len(), 1);
    assert_eq!(panel.len(), 1);
}

#[test]
fn with_both_stacks() {
    let panel = HistoryPanel::new()
        .with_undo_items(&["A", "B"])
        .with_redo_items(&["C"]);
    assert!(!panel.is_empty());
    assert_eq!(panel.len(), 3);
}

#[test]
fn with_title() {
    let panel = HistoryPanel::new().with_title("My History");
    assert_eq!(panel.title, "My History");
}

#[test]
fn with_mode() {
    let panel = HistoryPanel::new().with_mode(HistoryPanelMode::Full);
    assert_eq!(panel.mode, HistoryPanelMode::Full);
}

#[test]
fn render_empty() {
    let panel = HistoryPanel::new();
    let mut frame = Frame::new(30, 10);
    let area = Rect::new(0, 0, 30, 10);
    panel.render(area, &mut frame);
}

#[test]
fn render_with_items() {
    let panel = HistoryPanel::new()
        .with_undo_items(&["Insert text"])
        .with_redo_items(&["Delete word"]);

    let mut frame = Frame::new(30, 10);
    let area = Rect::new(0, 0, 30, 10);
    panel.render(area, &mut frame);

    let cell = frame.buffer.get(0, 0).unwrap();
    assert_eq!(cell.content.as_char(), Some('H'));
}

#[test]
fn render_zero_area() {
    let panel = HistoryPanel::new().with_undo_items(&["Test"]);
    let mut frame = Frame::new(30, 10);
    let area = Rect::new(0, 0, 0, 0);
    panel.render(area, &mut frame);
}

#[test]
fn compact_limit() {
    let items: Vec<_> = (0..10).map(|i| format!("Item {}", i)).collect();
    let panel = HistoryPanel::new()
        .with_mode(HistoryPanelMode::Compact)
        .with_compact_limit(4)
        .with_undo_items(&items);

    let mut frame = Frame::new(30, 20);
    let area = Rect::new(0, 0, 30, 20);
    panel.render(area, &mut frame);
}

#[test]
fn is_not_essential() {
    let panel = HistoryPanel::new();
    assert!(!panel.is_essential());
}

#[test]
fn default_impl() {
    let panel = HistoryPanel::default();
    assert!(panel.is_empty());
}

#[test]
fn with_icons() {
    let panel = HistoryPanel::new()
        .with_undo_icon("<< ")
        .with_redo_icon(">> ");
    assert_eq!(panel.undo_icon, "<< ");
    assert_eq!(panel.redo_icon, ">> ");
}

#[test]
fn with_marker_text() {
    let panel = HistoryPanel::new().with_marker_text("=== NOW ===");
    assert_eq!(panel.marker_text, "=== NOW ===");
}

#[test]
fn defaults_and_builders_keep_other_fields() {
    let panel = HistoryPanel::new();
    assert_eq!(panel.title, "History");
    assert_eq!(panel.mode, HistoryPanelMode::Compact);
    assert_eq!(panel.compact_limit, 5);
    assert_eq!(panel.marker_text, "─── current ───");
    assert_eq!(panel.undo_icon, "↶ ");
    assert_eq!(panel.redo_icon, "↷ ");
    assert_eq!(panel.title_style, Style::new().bold());
    assert_eq!(panel.redo_style, Style::new().dim());
    let red = Style::new().fg(PackedRgba::rgb(255, 0, 0));
    let panel = panel
        .with_title_style(red)
        .with_undo_style(red)
        .with_redo_style(red)
        .with_marker_style(red)
        .with_bg_style(red);
    assert_eq!(panel.title_style, red);
    assert_eq!(panel.undo_style, red);
    assert_eq!(panel.redo_style, red);
    assert_eq!(panel.marker_style, red);
    assert_eq!(panel.bg_style, red);
    assert_eq!(panel.title, "History");
    let entry = HistoryEntry::new("Paste", true);
    assert_eq!(entry.description, "Paste");
    assert!(entry.is_redo);
}

#[test]
fn compact_window_shows_entries_nearest_to_marker() {
    let items: Vec<String> = (0..10).map(|i| format!("Item {}", i)).collect();
    let panel = HistoryPanel::new()
        .with_compact_limit(4)
        .with_undo_items(&items)
        .with_redo_items(&["R0", "R1", "R2"])
        .with_undo_icon("u ")
        .with_redo_icon("r ")
        .with_marker_text("--");
    assert_eq!(panel.visible_undo_start(), 8);
    assert_eq!(panel.visible_redo_end(), 2);
    assert_eq!(panel.marker_column(Rect::new(3, 0, 10, 1)), 7);
    assert_eq!(panel.marker_column(Rect::new(3, 0, 1, 1)), 3);
    let full = panel.clone().with_mode(HistoryPanelMode::Full);
    assert_eq!(full.visible_undo_start(), 0);
    assert_eq!(full.visible_redo_end(), 3);
    assert_eq!(hidden_text(8), "... (8 more)");

    let mut frame = Frame::new(20, 10);
    panel.render(Rect::new(0, 0, 20, 10), &mut frame);
    assert_eq!(row_text(&frame, 0, 20), "History");
    assert_eq!(row_text(&frame, 1, 20), "");
    assert_eq!(row_text(&frame, 2, 20), "... (8 more)");
    assert_eq!(row_text(&frame, 3, 20), "u Item 8");
    assert_eq!(row_text(&frame, 4, 20), "u Item 9");
    assert_eq!(row_text(&frame, 5, 20), "         --");
    assert_eq!(row_text(&frame, 6, 20), "r R0");
    assert_eq!(row_text(&frame, 7, 20), "r R1");
    assert_eq!(row_text(&frame, 8, 20), "... (1 more)");
}

#[test]
fn background_style_fills_area_only() {
    let bg = PackedRgba::rgb(1, 2, 3);
    let panel = HistoryPanel::new().with_bg_style(Style::new().bg(bg));
    let mut frame = Frame::new(6, 4);
    panel.render(Rect::new(1, 1, 3, 2), &mut frame);
    assert_eq!(frame.buffer.get(1, 2).unwrap().bg, bg);
    assert_eq!(frame.buffer.get(3, 2).unwrap().bg, bg);
    assert_ne!(frame.buffer.get(1, 1).unwrap().bg, bg);
    assert_ne!(frame.buffer.get(0, 0).unwrap().bg, bg);
    assert_ne!(frame.buffer.get(4, 1).unwrap().bg, bg);
    assert_eq!(row_text(&frame, 1, 6), " His");
}
