use ftui::buffer::{rows_equal, Buffer, DegradationLevel};
use ftui::cell::{Cell, CellContent, PackedRgba, StyleFlags};
use ftui::geometry::Rect;

fn wide(id: u32, width: u8) -> Cell {
    Cell::new(CellContent::from_grapheme(id, width))
}

fn contents(buf: &Buffer, y: u16) -> Vec<CellContent> {
    buf.row(y).iter().map(|c| c.content).collect()
}

#[test]
fn new_buffer_is_blank() {
    let buf = Buffer::new(4, 3);
    assert_eq!(buf.width(), 4);
    assert_eq!(buf.height(), 3);
    assert_eq!(buf.len(), 12);
    assert!(!buf.is_empty());
    assert!(Buffer::new(0, 7).is_empty());
    assert_eq!(buf.degradation(), DegradationLevel::Full);
    assert_eq!(buf.current_scissor(), Rect::new(0, 0, 4, 3));
    for y in 0..3 {
        for x in 0..4 {
            assert_eq!(*buf.get(x, y).unwrap(), Cell::default());
        }
    }
    assert_eq!(Cell::default().fg, PackedRgba::white());
    assert_eq!(Cell::default().bg, PackedRgba::transparent());
    assert_eq!(Cell::default().attrs, StyleFlags::empty());
}

#[test]
fn access_out_of_bounds_is_none() {
    let mut buf = Buffer::new(4, 3);
    assert!(buf.get(4, 0).is_none());
    assert!(buf.get(0, 3).is_none());
    assert!(buf.get_mut(4, 2).is_none());
    assert!(buf.get(3, 2).is_some());
    assert_eq!(buf.index(3, 2), Some(11));
    assert_eq!(buf.index(4, 2), None);
    assert!(buf.in_bounds(3, 2));
    assert!(!buf.in_bounds(0, 3));
    buf.set(9, 9, Cell::from_char('x'));
    assert_eq!(buf.len(), 12);
}

#[test]
fn get_mut_changes_one_cell() {
    let mut buf = Buffer::new(3, 2);
    buf.get_mut(1, 1).unwrap().bg = PackedRgba::rgb(1, 2, 3);
    assert_eq!(buf.get(1, 1).unwrap().bg, PackedRgba::rgb(1, 2, 3));
    assert_eq!(*buf.get(0, 1).unwrap(), Cell::default());
    assert_eq!(*buf.get(1, 0).unwrap(), Cell::default());
}

#[test]
fn wide_glyph_writes_continuations() {
    let mut buf = Buffer::new(6, 1);
    buf.set(1, 0, wide(7, 3));
    assert_eq!(
        contents(&buf, 0),
        vec![
            CellContent::Empty,
            CellContent::Grapheme { id: 7, width: 3 },
            CellContent::Continuation,
            CellContent::Continuation,
            CellContent::Empty,
            CellContent::Empty,
        ]
    );
    assert_eq!(wide(7, 3).width(), 3);
    assert_eq!(Cell::continuation().width(), 0);
}

#[test]
fn writing_into_continuation_blanks_owner() {
    let mut buf = Buffer::new(6, 1);
    buf.set(1, 0, wide(7, 3));
    buf.set(2, 0, Cell::from_char('x'));
    assert_eq!(
        contents(&buf, 0),
        vec![
            CellContent::Empty,
            CellContent::Empty,
            CellContent::Char('x'),
            CellContent::Empty,
            CellContent::Empty,
            CellContent::Empty,
        ]
    );
}

#[test]
fn overwriting_head_blanks_continuations() {
    let mut buf = Buffer::new(6, 1);
    buf.set(1, 0, wide(7, 3));
    buf.set(1, 0, Cell::from_char('h'));
    assert_eq!(
        contents(&buf, 0),
        vec![
            CellContent::Empty,
            CellContent::Char('h'),
            CellContent::Empty,
            CellContent::Empty,
            CellContent::Empty,
            CellContent::Empty,
        ]
    );
}

#[test]
fn wide_over_wide_leaves_no_half_glyph() {
    let mut buf = Buffer::new(8, 1);
    buf.set(0, 0, wide(1, 2));
    buf.set(4, 0, wide(2, 3));
    buf.set(1, 0, wide(3, 4));
    assert_eq!(
        contents(&buf, 0),
        vec![
            CellContent::Empty,
            CellContent::Grapheme { id: 3, width: 4 },
            CellContent::Continuation,
            CellContent::Continuation,
            CellContent::Continuation,
            CellContent::Empty,
            CellContent::Empty,
            CellContent::Empty,
        ]
    );
}

#[test]
fn wide_glyph_is_all_or_nothing() {
    let mut buf = Buffer::new(4, 1);
    buf.set(3, 0, wide(1, 2));
    assert_eq!(contents(&buf, 0), vec![CellContent::Empty; 4]);
    buf.push_scissor(Rect::new(0, 0, 2, 1));
    buf.set(1, 0, wide(1, 2));
    assert_eq!(contents(&buf, 0), vec![CellContent::Empty; 4]);
    buf.set(0, 0, wide(1, 2));
    assert_eq!(buf.get(0, 0).unwrap().content, CellContent::Grapheme { id: 1, width: 2 });
    buf.pop_scissor();
    buf.set(0, 0, Cell::continuation());
    assert_eq!(buf.get(0, 0).unwrap().content, CellContent::Grapheme { id: 1, width: 2 });
}

#[test]
fn scissor_stack_clips_to_intersection() {
    let mut buf = Buffer::new(6, 4);
    buf.push_scissor(Rect::new(1, 1, 4, 3));
    buf.push_scissor(Rect::new(0, 0, 3, 2));
    assert_eq!(buf.current_scissor(), Rect::new(1, 1, 2, 1));
    assert_eq!(buf.scissor_depth(), 2);
    for y in 0..4 {
        for x in 0..6 {
            buf.set(x, y, Cell::from_char('#'));
        }
    }
    for y in 0..4u16 {
        for x in 0..6u16 {
            let inside = (1..3).contains(&x) && y == 1;
            assert_eq!(buf.get(x, y).unwrap().content.as_char().is_some(), inside);
        }
    }
    buf.pop_scissor();
    assert_eq!(buf.current_scissor(), Rect::new(1, 1, 4, 3));
    buf.pop_scissor();
    buf.pop_scissor();
    assert_eq!(buf.scissor_depth(), 0);
    assert_eq!(buf.current_scissor(), Rect::new(0, 0, 6, 4));
    buf.push_scissor(Rect::new(10, 10, 2, 2));
    buf.set(0, 0, Cell::from_char('z'));
    assert!(buf.get(0, 0).unwrap().is_empty());
}

#[test]
fn fill_clips_and_blanks_cut_glyphs() {
    let mut buf = Buffer::new(6, 3);
    buf.set(0, 1, wide(1, 2));
    buf.set(3, 1, wide(2, 3));
    buf.fill(Rect::new(1, 0, 3, 2), Cell::from_char('f'));
    assert_eq!(
        contents(&buf, 0),
        vec![
            CellContent::Empty,
            CellContent::Char('f'),
            CellContent::Char('f'),
            CellContent::Char('f'),
            CellContent::Empty,
            CellContent::Empty,
        ]
    );
    assert_eq!(
        contents(&buf, 1),
        vec![
            CellContent::Empty,
            CellContent::Char('f'),
            CellContent::Char('f'),
            CellContent::Char('f'),
            CellContent::Empty,
            CellContent::Empty,
        ]
    );
    assert_eq!(contents(&buf, 2), vec![CellContent::Empty; 6]);
    buf.fill(Rect::new(0, 0, 6, 3), wide(9, 2));
    assert_eq!(buf.get(1, 0).unwrap().content.as_char(), Some('f'));
    buf.push_scissor(Rect::new(5, 2, 1, 1));
    buf.fill(Rect::new(0, 0, 60, 30), Cell::from_char('g'));
    buf.pop_scissor();
    assert_eq!(buf.get(5, 2).unwrap().content.as_char(), Some('g'));
    assert!(buf.get(4, 2).unwrap().is_empty());
    buf.clear();
    for y in 0..3 {
        assert_eq!(contents(&buf, y), vec![CellContent::Empty; 6]);
    }
}

#[test]
fn whole_cell_equality() {
    let a = Cell::from_char('a');
    assert!(a.bits_eq(&Cell::from_char('a')));
    assert!(!a.bits_eq(&Cell::from_char('b')));
    assert!(!a.bits_eq(&a.with_fg(PackedRgba::rgb(0, 0, 0))));
    assert!(!a.bits_eq(&a.with_bg(PackedRgba::rgb(0, 0, 0))));
    assert!(!a.bits_eq(&a.with_attrs(StyleFlags::from_bits(1))));
    assert!(!a.bits_eq(&a.with_underline(Some(PackedRgba::rgb(0, 0, 0)))));
    assert_eq!(CellContent::from_char('q').as_char(), Some('q'));
    assert_eq!(CellContent::from_grapheme(4, 2).grapheme_id(), Some(4));
    assert_eq!(CellContent::Empty.grapheme_id(), None);
    assert!(CellContent::Empty.is_empty());
    assert!(CellContent::Continuation.is_continuation());
    let mut x = Buffer::new(3, 2);
    let y = Buffer::new(3, 2);
    assert!(rows_equal(x.row(1), y.row(1)));
    x.set(2, 1, Cell::from_char('!'));
    assert!(!rows_equal(x.row(1), y.row(1)));
    assert!(rows_equal(x.row(0), y.row(0)));
}
