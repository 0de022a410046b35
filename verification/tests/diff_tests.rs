use ftui::buffer::Buffer;
use ftui::cell::{Cell, CellContent, PackedRgba};
use ftui::diff::{Diff, Span};

fn sample_pair() -> (Buffer, Buffer) {
    let old = Buffer::new(6, 4);
    let mut new = Buffer::new(6, 4);
    new.set(0, 0, Cell::from_char('a'));
    new.set(1, 0, Cell::from_char('b'));
    new.set(3, 0, Cell::from_char('c'));
    new.set(5, 0, Cell::from_char('d'));
    new.set(0, 1, Cell::from_char('e'));
    new.set(2, 3, Cell::new(CellContent::from_grapheme(0, 3)));
    (old, new)
}

#[test]
fn identical_buffers_have_no_changes() {
    let a = Buffer::new(4, 3);
    let b = Buffer::new(4, 3);
    let d = Diff::compute(&a, &b);
    assert!(d.is_empty());
    assert_eq!(d.len(), 0);
    assert_eq!(d.runs().len(), 0);
    let (_, new) = sample_pair();
    let (_, copy) = sample_pair();
    assert!(Diff::compute(&new, &copy).is_empty());
    assert!(Diff::compute_dirty(&new, &copy, &[true; 4]).is_empty());
    assert!(Diff::new().is_empty());
}

#[test]
fn full_scan_reports_changes_in_row_major_order() {
    let (old, new) = sample_pair();
    let d = Diff::compute(&old, &new);
    assert_eq!(
        d.changes(),
        &[(0, 0), (1, 0), (3, 0), (5, 0), (0, 1), (2, 3), (3, 3), (4, 3)]
    );
    assert_eq!(d.len(), 8);
}

#[test]
fn dirty_scan_with_all_rows_matches_full_scan() {
    let (old, new) = sample_pair();
    let full = Diff::compute(&old, &new);
    let dirty = Diff::compute_dirty(&old, &new, &[true, true, true, true]);
    assert_eq!(full.changes(), dirty.changes());
    let covering = Diff::compute_dirty(&old, &new, &[true, true, false, true]);
    assert_eq!(full.changes(), covering.changes());
}

#[test]
fn dirty_scan_skips_unmarked_rows() {
    let (old, new) = sample_pair();
    let d = Diff::compute_dirty(&old, &new, &[false, true, true, true]);
    assert_eq!(d.changes(), &[(0, 1), (2, 3), (3, 3), (4, 3)]);
    let short = Diff::compute_dirty(&old, &new, &[true]);
    assert_eq!(short.changes(), &[(0, 0), (1, 0), (3, 0), (5, 0)]);
    let none = Diff::compute_dirty(&old, &new, &[]);
    assert!(none.is_empty());
}

#[test]
fn runs_are_maximal() {
    let (old, new) = sample_pair();
    let runs = Diff::compute(&old, &new).runs();
    assert_eq!(
        runs,
        vec![
            Span { row: 0, start: 0, len: 2 },
            Span { row: 0, start: 3, len: 1 },
            Span { row: 0, start: 5, len: 1 },
            Span { row: 1, start: 0, len: 1 },
            Span { row: 3, start: 2, len: 3 },
        ]
    );
    for pair in runs.windows(2) {
        if pair[0].row == pair[1].row {
            assert!(pair[0].start + pair[0].len < pair[1].start);
        }
    }
}

#[test]
fn runs_do_not_join_across_rows() {
    let old = Buffer::new(3, 2);
    let mut new = Buffer::new(3, 2);
    new.fill(ftui::geometry::Rect::new(0, 0, 3, 2), Cell::from_char('x'));
    let runs = Diff::compute(&old, &new).runs();
    assert_eq!(
        runs,
        vec![
            Span { row: 0, start: 0, len: 3 },
            Span { row: 1, start: 0, len: 3 },
        ]
    );
}

#[test]
fn style_only_change_is_a_change() {
    let old = Buffer::new(3, 1);
    let mut new = Buffer::new(3, 1);
    new.get_mut(1, 0).unwrap().bg = PackedRgba::rgb(1, 1, 1);
    assert_eq!(Diff::compute(&old, &new).changes(), &[(1, 0)]);
    let empty_old = Buffer::new(0, 5);
    let empty_new = Buffer::new(0, 5);
    assert!(Diff::compute(&empty_old, &empty_new).is_empty());
}
