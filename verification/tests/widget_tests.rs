use ftui::borders::{Alignment, BorderType, Borders};
use ftui::buffer::{Buffer, DegradationLevel};
use ftui::cell::{Cell, CellContent, PackedRgba, StyleFlags, FLAG_BOLD, FLAG_DIM};
use ftui::frame::{Frame, GraphemePool};
use ftui::geometry::{Rect, Sides, Size};
use ftui::panel::Panel;
use ftui::style::{apply_style, Style};
use ftui::widgets::{draw_text_span, set_style_area, Widget};

struct Filler(char);

impl Widget for Filler {
    fn render(&self, area: Rect, frame: &mut Frame) {
        for y in area.y..area.bottom().saturating_add(2) {
            for x in area.x.saturating_sub(2)..area.right().saturating_add(2) {
                frame.buffer.set(x, y, Cell::from_char(self.0));
            }
        }
    }

    fn is_essential(&self) -> bool {
        true
    }
}

fn row_text(frame: &Frame, y: u16) -> String {
    let mut out = String::new();
    for x in 0..frame.buffer.width() {
        let cell = frame.buffer.get(x, y).unwrap();
        match cell.content {
            CellContent::Char(c) => out.push(c),
            CellContent::Grapheme { id, .. } => out.push_str(frame.pool.get(id).unwrap()),
            CellContent::Empty => out.push(' '),
            CellContent::Continuation => {}
        }
    }
    out
}

#[test]
fn apply_style_sets_fg() {
    let mut cell = Cell::default();
    let style = Style::new().fg(PackedRgba::rgb(255, 0, 0));
    apply_style(&mut cell, style);
    assert_eq!(cell.fg, PackedRgba::rgb(255, 0, 0));
}

#[test]
fn apply_style_sets_bg() {
    let mut cell = Cell::default();
    let style = Style::new().bg(PackedRgba::rgb(0, 255, 0));
    apply_style(&mut cell, style);
    assert_eq!(cell.bg, PackedRgba::rgb(0, 255, 0));
}

#[test]
fn apply_style_preserves_content() {
    let mut cell = Cell::from_char('Z');
    let style = Style::new().fg(PackedRgba::rgb(1, 2, 3));
    apply_style(&mut cell, style);
    assert_eq!(cell.content.as_char(), Some('Z'));
}

#[test]
fn apply_style_empty_is_noop() {
    let before = Cell::default();
    let mut cell = Cell::default();
    apply_style(&mut cell, Style::default());
    assert_eq!(cell.fg, before.fg);
    assert_eq!(cell.bg, before.bg);
}

#[test]
fn set_style_area_applies_to_all_cells() {
    let mut buf = Buffer::new(3, 2);
    let area = Rect::new(0, 0, 3, 2);
    let style = Style::new().bg(PackedRgba::rgb(10, 20, 30));
    set_style_area(&mut buf, area, style);

    for y in 0..2 {
        for x in 0..3 {
            assert_eq!(
                buf.get(x, y).unwrap().bg,
                PackedRgba::rgb(10, 20, 30),
                "cell ({x},{y}) should have style applied"
            );
        }
    }
}

#[test]
fn set_style_area_partial_rect() {
    let mut buf = Buffer::new(5, 5);
    let area = Rect::new(1, 1, 2, 2);
    let style = Style::new().fg(PackedRgba::rgb(99, 99, 99));
    set_style_area(&mut buf, area, style);

    assert_eq!(buf.get(1, 1).unwrap().fg, PackedRgba::rgb(99, 99, 99));
    assert_eq!(buf.get(2, 2).unwrap().fg, PackedRgba::rgb(99, 99, 99));

    assert_ne!(buf.get(0, 0).unwrap().fg, PackedRgba::rgb(99, 99, 99));
}

#[test]
fn set_style_area_empty_style_is_noop() {
    let mut buf = Buffer::new(3, 3);
    buf.set(0, 0, Cell::from_char('A'));
    let fg_before = buf.get(0, 0).unwrap().fg;

    set_style_area(&mut buf, Rect::new(0, 0, 3, 3), Style::default());

    assert_eq!(buf.get(0, 0).unwrap().fg, fg_before);
    assert_eq!(buf.get(0, 0).unwrap().content.as_char(), Some('A'));
}

#[test]
fn draw_text_span_basic() {
    let mut frame = Frame::new(10, 1);
    let end_x = draw_text_span(&mut frame, 0, 0, "ABC", Style::default(), 10);

    assert_eq!(end_x, 3);
    assert_eq!(frame.buffer.get(0, 0).unwrap().content.as_char(), Some('A'));
    assert_eq!(frame.buffer.get(1, 0).unwrap().content.as_char(), Some('B'));
    assert_eq!(frame.buffer.get(2, 0).unwrap().content.as_char(), Some('C'));
}

#[test]
fn draw_text_span_clipped_at_max_x() {
    let mut frame = Frame::new(10, 1);
    let end_x = draw_text_span(&mut frame, 0, 0, "ABCDEF", Style::default(), 3);

    assert_eq!(end_x, 3);
    assert_eq!(frame.buffer.get(0, 0).unwrap().content.as_char(), Some('A'));
    assert_eq!(frame.buffer.get(2, 0).unwrap().content.as_char(), Some('C'));
    assert!(frame.buffer.get(3, 0).unwrap().is_empty());
}

#[test]
fn draw_text_span_starts_at_offset() {
    let mut frame = Frame::new(10, 1);
    let end_x = draw_text_span(&mut frame, 5, 0, "XY", Style::default(), 10);

    assert_eq!(end_x, 7);
    assert_eq!(frame.buffer.get(5, 0).unwrap().content.as_char(), Some('X'));
    assert_eq!(frame.buffer.get(6, 0).unwrap().content.as_char(), Some('Y'));
    assert!(frame.buffer.get(4, 0).unwrap().is_empty());
}

#[test]
fn draw_text_span_empty_string() {
    let mut frame = Frame::new(5, 1);
    let end_x = draw_text_span(&mut frame, 0, 0, "", Style::default(), 5);
    assert_eq!(end_x, 0);
}

#[test]
fn draw_text_span_applies_style() {
    let mut frame = Frame::new(5, 1);
    let style = Style::new().fg(PackedRgba::rgb(255, 128, 0));
    draw_text_span(&mut frame, 0, 0, "A", style, 5);

    assert_eq!(
        frame.buffer.get(0, 0).unwrap().fg,
        PackedRgba::rgb(255, 128, 0)
    );
}

#[test]
fn draw_text_span_max_x_at_start_draws_nothing() {
    let mut frame = Frame::new(5, 1);
    let end_x = draw_text_span(&mut frame, 3, 0, "ABC", Style::default(), 3);
    assert_eq!(end_x, 3);
    assert!(frame.buffer.get(3, 0).unwrap().is_empty());
}

#[test]
fn draw_text_span_wide_and_combined_clusters() {
    let mut frame = Frame::new(8, 1);
    let end_x = draw_text_span(&mut frame, 0, 0, "a中e\u{301}b", Style::default(), 8);
    assert_eq!(end_x, 5);
    assert_eq!(frame.buffer.get(0, 0).unwrap().content.as_char(), Some('a'));
    assert_eq!(
        frame.buffer.get(1, 0).unwrap().content,
        CellContent::Grapheme { id: 0, width: 2 }
    );
    assert!(frame.buffer.get(2, 0).unwrap().is_continuation());
    assert_eq!(
        frame.buffer.get(3, 0).unwrap().content,
        CellContent::Grapheme { id: 1, width: 1 }
    );
    assert_eq!(frame.buffer.get(4, 0).unwrap().content.as_char(), Some('b'));
    assert_eq!(frame.pool.get(0), Some("中"));
    assert_eq!(frame.pool.get(1), Some("e\u{301}"));
    assert_eq!(frame.pool.len(), 2);

    let end_x = draw_text_span(&mut frame, 5, 0, "中中", Style::default(), 8);
    assert_eq!(end_x, 7);
    assert_eq!(frame.pool.len(), 2);
    assert!(frame.buffer.get(7, 0).unwrap().is_empty());
}

#[test]
fn grapheme_pool_interns_once() {
    let mut pool = GraphemePool::new();
    assert!(pool.is_empty());
    assert_eq!(pool.intern("ab"), Some(0));
    assert_eq!(pool.intern("cd"), Some(1));
    assert_eq!(pool.intern("ab"), Some(0));
    assert_eq!(pool.len(), 2);
    assert_eq!(pool.get(1), Some("cd"));
    assert_eq!(pool.get(2), None);
}

#[test]
fn style_merge_and_flags() {
    let a = Style::new().fg(PackedRgba::rgb(1, 1, 1)).bold();
    let b = Style::new()
        .fg(PackedRgba::rgb(2, 2, 2))
        .bg(PackedRgba::rgb(3, 3, 3))
        .dim();
    let m = a.merge(&b);
    assert_eq!(m.fg, Some(PackedRgba::rgb(1, 1, 1)));
    assert_eq!(m.bg, Some(PackedRgba::rgb(3, 3, 3)));
    assert_eq!(m.attrs, Some(StyleFlags(FLAG_BOLD | FLAG_DIM)));
    assert!(m.has_attrs(StyleFlags(FLAG_BOLD)));
    assert!(!Style::new().has_attrs(StyleFlags(FLAG_BOLD)));
    assert!(Style::new().is_empty());
    assert!(!a.is_empty());
    assert_eq!(Style::new().merge(&b), b);
    let mut cell = Cell::from_char('x').with_attrs(StyleFlags(FLAG_DIM));
    apply_style(&mut cell, a);
    assert_eq!(cell.attrs, StyleFlags(FLAG_BOLD | FLAG_DIM));
    assert!(StyleFlags(3).contains(StyleFlags(1)));
    assert_eq!(StyleFlags(3).without_flags(StyleFlags(1)), StyleFlags(2));
}

#[test]
fn geometry_rect_operations() {
    let r = Rect::new(2, 3, 4, 5);
    assert_eq!(r.right(), 6);
    assert_eq!(r.bottom(), 8);
    assert!(r.contains(2, 3));
    assert!(r.contains(5, 7));
    assert!(!r.contains(6, 7));
    assert!(!r.contains(5, 8));
    assert!(!r.is_empty());
    assert!(Rect::new(0, 0, 0, 5).is_empty());
    assert_eq!(
        r.intersection(&Rect::new(4, 0, 10, 5)),
        Rect::new(4, 3, 2, 2)
    );
    assert_eq!(
        r.intersection(&Rect::new(6, 3, 2, 2)),
        Rect::new(0, 0, 0, 0)
    );
    assert_eq!(r.inner(Sides::all(1)), Rect::new(3, 4, 2, 3));
    assert_eq!(r.inner(Sides::new(0, 9, 0, 0)), Rect::new(2, 3, 0, 5));
    assert_eq!(Rect::new(65535, 0, 10, 1).right(), 65535);
    assert_eq!(Size::new(3, 4).width, 3);
    assert_eq!(Sides::default(), Sides::all(0));
}

#[test]
fn panel_inner_by_borders() {
    let area = Rect::new(1, 1, 10, 5);
    let panel = Panel::new(Filler('x'));
    assert_eq!(panel.inner(area), Rect::new(2, 2, 8, 3));
    let panel = panel.borders(Borders::top().union(Borders::left()));
    assert_eq!(panel.inner(area), Rect::new(2, 2, 9, 4));
    let panel = panel.borders(Borders::none());
    assert_eq!(panel.inner(area), area);
    let panel = panel.borders(Borders::all()).padding(Sides::all(1));
    assert_eq!(panel.content_area(area), Rect::new(3, 3, 6, 1));
    assert_eq!(
        Panel::new(Filler('x')).inner(Rect::new(0, 0, 1, 1)),
        Rect::new(1, 1, 0, 0)
    );
    assert!(panel.is_essential());
}

#[test]
fn ellipsize_short_is_borrowed() {
    let panel = Panel::new(Filler('x'));
    let out = panel.ellipsize("abc", 3);
    assert_eq!(out, "abc");
}

#[test]
fn ellipsize_truncates_with_ellipsis() {
    let panel = Panel::new(Filler('x'));
    let out = panel.ellipsize("abcdef", 4);
    assert_eq!(out, "abc…");
}

#[test]
fn ellipsize_edges() {
    let panel = Panel::new(Filler('x'));
    assert_eq!(panel.ellipsize("abcdef", 0), "");
    assert_eq!(panel.ellipsize("abcdef", 1), "…");
    assert_eq!(panel.ellipsize("abcdef", 2), "a…");
    assert_eq!(panel.ellipsize("中中中", 4), "中…");
    assert_eq!(panel.ellipsize("中中中", 5), "中中…");
    assert_eq!(panel.ellipsize("", 0), "");
}

#[test]
fn panel_renders_border_title_and_clipped_child() {
    let panel = Panel::new(Filler('x'))
        .title("Hi")
        .subtitle("long subtitle")
        .subtitle_alignment(Alignment::Right)
        .border_type(BorderType::Square);
    let mut frame = Frame::new(8, 4);
    panel.render(Rect::new(0, 0, 8, 4), &mut frame);
    assert_eq!(row_text(&frame, 0), "┌Hi────┐");
    assert_eq!(row_text(&frame, 1), "│xxxxxx│");
    assert_eq!(row_text(&frame, 2), "│xxxxxx│");
    assert_eq!(row_text(&frame, 3), "└long …┘");
    assert_eq!(frame.buffer.scissor_depth(), 0);

    let centred = Panel::new(Filler('y'))
        .title("ab")
        .title_alignment(Alignment::Center)
        .border_type(BorderType::Double);
    let mut frame = Frame::new(8, 3);
    centred.render(Rect::new(0, 0, 8, 3), &mut frame);
    assert_eq!(row_text(&frame, 0), "╔══ab══╗");
    assert_eq!(row_text(&frame, 1), "║yyyyyy║");
    assert_eq!(row_text(&frame, 2), "╚══════╝");
}

#[test]
fn panel_degrades() {
    let bg = PackedRgba::rgb(9, 9, 9);
    let panel = Panel::new(Filler('x')).title("T").style(Style::new().bg(bg));
    let mut frame = Frame::new(5, 3);
    frame.buffer.set_degradation(DegradationLevel::SimpleBorders);
    panel.render(Rect::new(0, 0, 5, 3), &mut frame);
    assert_eq!(row_text(&frame, 0), "+T--+");
    assert_eq!(row_text(&frame, 1), "|xxx|");

    let padded = Panel::new(Filler('x'))
        .borders(Borders::none())
        .padding(Sides::all(1))
        .style(Style::new().bg(bg));
    let mut frame = Frame::new(5, 3);
    padded.render(Rect::new(0, 0, 5, 3), &mut frame);
    assert_eq!(row_text(&frame, 1), " xxx ");
    assert_eq!(frame.buffer.get(0, 0).unwrap().bg, bg);
    assert_eq!(frame.buffer.get(4, 2).unwrap().bg, bg);

    let mut frame = Frame::new(5, 3);
    frame.buffer.set_degradation(DegradationLevel::NoStyling);
    padded.render(Rect::new(0, 0, 5, 3), &mut frame);
    assert_eq!(row_text(&frame, 1), " xxx ");
    assert_ne!(frame.buffer.get(0, 0).unwrap().bg, bg);
    panel.render(Rect::new(0, 0, 5, 3), &mut frame);
    assert_eq!(row_text(&frame, 0), "+T--+");

    let mut frame = Frame::new(5, 3);
    frame.buffer.set_degradation(DegradationLevel::EssentialOnly);
    panel.render(Rect::new(0, 0, 5, 3), &mut frame);
    assert_eq!(row_text(&frame, 0), "     ");
    assert_eq!(row_text(&frame, 1), " xxx ");

    let mut frame = Frame::new(5, 3);
    frame.buffer.set(1, 1, Cell::from_char('q'));
    frame.buffer.set_degradation(DegradationLevel::Skeleton);
    panel.render(Rect::new(0, 0, 5, 3), &mut frame);
    assert_eq!(row_text(&frame, 1), "     ");
    assert_eq!(DegradationLevel::SkipFrame.level(), 5);
}
