//! The diff engine: which cells differ between two frames, found by a full
//! scan or by a scan of the rows marked dirty, and the changed cells joined
//! into maximal same-row runs.

use crate::buffer::{lemma_index_bounds, lemma_row_bounds, rows_equal, Buffer};
use crate::cell::Cell;
use vstd::prelude::*;

verus! {

/// The position `(column, row)` of the cell with row-major index `i`.
pub open spec fn coord_of(width: int, i: int) -> (u16, u16) {
    ((i % width) as u16, (i / width) as u16)
}

/// The positions among the first `n` cells at which `old` and `new` differ,
/// in row-major order.
pub open spec fn changes_upto(old: Seq<Cell>, new: Seq<Cell>, width: int, n: int) -> Seq<
    (u16, u16),
>
    decreases n,
{
    if n <= 0 {
        Seq::empty()
    } else {
        let rest = changes_upto(old, new, width, n - 1);
        if old[n - 1] != new[n - 1] {
            rest.push(coord_of(width, n - 1))
        } else {
            rest
        }
    }
}

/// Whether row `y` is marked dirty. A row beyond the end of the flags is not.
pub open spec fn row_is_dirty(dirty: Seq<bool>, y: int) -> bool {
    0 <= y < dirty.len() && dirty[y]
}

/// The new frame as a dirty-row scan sees it: the rows marked dirty as they
/// are, every other row taken to be unchanged.
pub open spec fn masked(old: Seq<Cell>, new: Seq<Cell>, width: int, dirty: Seq<bool>) -> Seq<
    Cell,
> {
    Seq::new(
        new.len(),
        |i: int|
            if row_is_dirty(dirty, i / width) {
                new[i]
            } else {
                old[i]
            },
    )
}

/// Whether `a` comes before `b` in row-major order.
pub open spec fn row_major_lt(a: (u16, u16), b: (u16, u16)) -> bool {
    a.1 < b.1 || (a.1 == b.1 && a.0 < b.0)
}

/// Whether the positions stand in strictly increasing row-major order.
pub open spec fn strictly_ordered(s: Seq<(u16, u16)>) -> bool {
    forall|i: int, j: int| 0 <= i < j < s.len() ==> row_major_lt(#[trigger] s[i], #[trigger] s[j])
}

/// Whether two frames have the same extent.
pub open spec fn same_size(a: &Buffer, b: &Buffer) -> bool {
    a.spec_width() == b.spec_width() && a.spec_height() == b.spec_height()
}

/// Every changed position between two frames of one size, in row-major order.
pub open spec fn full_changes(old: &Buffer, new: &Buffer) -> Seq<(u16, u16)> {
    changes_upto(old@, new@, old.spec_width(), old@.len() as int)
}

/// The changed positions in the rows marked dirty, in row-major order.
pub open spec fn dirty_changes(old: &Buffer, new: &Buffer, dirty: Seq<bool>) -> Seq<(u16, u16)> {
    changes_upto(
        old@,
        masked(old@, new@, old.spec_width(), dirty),
        old.spec_width(),
        old@.len() as int,
    )
}

/// Whether every row in which the frames differ is marked dirty.
pub open spec fn covers_changes(old: &Buffer, new: &Buffer, dirty: Seq<bool>) -> bool {
    forall|i: int|
        0 <= i < old@.len() && old@[i] != new@[i] ==> row_is_dirty(
            dirty,
            #[trigger] (i / old.spec_width()),
        )
}

/// Cells that agree from index `a` up to `b` add no change.
pub proof fn lemma_equal_range_adds_nothing(
    old: Seq<Cell>,
    new: Seq<Cell>,
    width: int,
    a: int,
    b: int,
)
    requires
        0 <= a <= b,
        forall|k: int| a <= k < b ==> old[k] == new[k],
    ensures
        changes_upto(old, new, width, b) == changes_upto(old, new, width, a),
    decreases b - a,
{
    if a < b {
        lemma_equal_range_adds_nothing(old, new, width, a, b - 1);
    }
}

/// Two scans agree as far as the new frames they look at agree.
pub proof fn lemma_changes_depend_on_prefix(
    old: Seq<Cell>,
    new1: Seq<Cell>,
    new2: Seq<Cell>,
    width: int,
    n: int,
)
    requires
        forall|k: int| 0 <= k < n ==> new1[k] == new2[k],
    ensures
        changes_upto(old, new1, width, n) == changes_upto(old, new2, width, n),
    decreases n,
{
    if n > 0 {
        lemma_changes_depend_on_prefix(old, new1, new2, width, n - 1);
    }
}

/// Row-major indices of a grid map to positions in the same order.
pub proof fn lemma_coord_order(width: int, height: int, i: int, j: int)
    requires
        0 < width <= u16::MAX,
        0 <= height <= u16::MAX,
        0 <= i < j < width * height,
    ensures
        row_major_lt(coord_of(width, i), coord_of(width, j)),
        coord_of(width, i).0 < width,
        coord_of(width, j).0 < width,
{
    vstd::arithmetic::div_mod::lemma_fundamental_div_mod(i, width);
    vstd::arithmetic::div_mod::lemma_fundamental_div_mod(j, width);
    vstd::arithmetic::div_mod::lemma_mod_bound(i, width);
    vstd::arithmetic::div_mod::lemma_mod_bound(j, width);
    vstd::arithmetic::div_mod::lemma_div_is_ordered(i, j, width);
    vstd::arithmetic::div_mod::lemma_div_pos_is_pos(i, width);
    let qi = i / width;
    let qj = j / width;
    assert(qj < height) by (nonlinear_arith)
        requires
            0 < width,
            0 <= j < width * height,
            j == width * qj + j % width,
            0 <= j % width < width,
    ;
    if qi == qj {
        assert(i % width < j % width);
    }
}

/// Every change found among the first `k` cells comes before the position
/// of any cell from `k` on, and lies in a column of the grid.
pub proof fn lemma_changes_below(
    old: Seq<Cell>,
    new: Seq<Cell>,
    width: int,
    height: int,
    k: int,
    m: int,
)
    requires
        0 < width <= u16::MAX,
        0 <= height <= u16::MAX,
        0 <= k <= m < width * height,
    ensures
        forall|t: int|
            0 <= t < changes_upto(old, new, width, k).len() ==> row_major_lt(
                #[trigger] changes_upto(old, new, width, k)[t],
                coord_of(width, m),
            ) && changes_upto(old, new, width, k)[t].0 < width,
    decreases k,
{
    if k > 0 {
        lemma_changes_below(old, new, width, height, k - 1, m);
        lemma_coord_order(width, height, k - 1, m);
        let rest = changes_upto(old, new, width, k - 1);
        let cur = changes_upto(old, new, width, k);
        assert forall|t: int| 0 <= t < cur.len() implies row_major_lt(
            #[trigger] cur[t],
            coord_of(width, m),
        ) && cur[t].0 < width by {
            if t < rest.len() {
                assert(cur[t] == rest[t]);
            } else {
                assert(cur[t] == coord_of(width, k - 1));
            }
        }
    }
}

/// The changes found by a scan stand in strictly increasing row-major order,
/// each in a column of the grid.
pub proof fn lemma_changes_ordered(
    old: Seq<Cell>,
    new: Seq<Cell>,
    width: int,
    height: int,
    k: int,
)
    requires
        0 <= width <= u16::MAX,
        0 <= height <= u16::MAX,
        0 <= k <= width * height,
    ensures
        strictly_ordered(changes_upto(old, new, width, k)),
        forall|t: int|
            0 <= t < changes_upto(old, new, width, k).len() ==> (#[trigger] changes_upto(
                old,
                new,
                width,
                k,
            )[t]).0 < width,
    decreases k,
{
    if k > 0 {
        assert(width > 0) by (nonlinear_arith)
            requires
                0 <= width,
                0 < k <= width * height,
        ;
        lemma_changes_ordered(old, new, width, height, k - 1);
        lemma_changes_below(old, new, width, height, k - 1, k - 1);
        vstd::arithmetic::div_mod::lemma_mod_bound(k - 1, width);
        let rest = changes_upto(old, new, width, k - 1);
        let cur = changes_upto(old, new, width, k);
        assert forall|i: int, j: int| 0 <= i < j < cur.len() implies row_major_lt(
            #[trigger] cur[i],
            #[trigger] cur[j],
        ) by {
            if j < rest.len() {
                assert(cur[i] == rest[i] && cur[j] == rest[j]);
            } else {
                assert(cur[i] == rest[i]);
                assert(cur[j] == coord_of(width, k - 1));
            }
        }
        assert forall|t: int| 0 <= t < cur.len() implies (#[trigger] cur[t]).0 < width by {
            if t < rest.len() {
                assert(cur[t] == rest[t]);
            } else {
                assert(cur[t] == coord_of(width, k - 1));
            }
        }
    }
}

/// A position is among the changes found in the first `n` cells exactly
/// when its cell is one of them and differs between the frames.
pub proof fn lemma_changes_contain(
    old: Seq<Cell>,
    new: Seq<Cell>,
    width: int,
    height: int,
    n: int,
    x: int,
    y: int,
)
    requires
        0 <= x < width <= u16::MAX,
        0 <= y < height <= u16::MAX,
        0 <= n <= width * height,
    ensures
        changes_upto(old, new, width, n).contains((x as u16, y as u16)) <==> (y * width + x < n
            && old[y * width + x] != new[y * width + x]),
    decreases n,
{
    let v = (x as u16, y as u16);
    let idx = y * width + x;
    lemma_index_bounds(width, height, x, y);
    if n > 0 {
        lemma_changes_contain(old, new, width, height, n - 1, x, y);
        let rest = changes_upto(old, new, width, n - 1);
        let cur = changes_upto(old, new, width, n);
        let c = coord_of(width, n - 1);
        vstd::arithmetic::div_mod::lemma_fundamental_div_mod(n - 1, width);
        vstd::arithmetic::div_mod::lemma_mod_bound(n - 1, width);
        vstd::arithmetic::div_mod::lemma_div_pos_is_pos(n - 1, width);
        let q = (n - 1) / width;
        assert(q < height) by (nonlinear_arith)
            requires
                0 < width,
                0 <= n - 1 < width * height,
                n - 1 == width * q + (n - 1) % width,
                0 <= (n - 1) % width < width,
        ;
        assert(width * q == q * width) by (nonlinear_arith);
        assert(c == v <==> n - 1 == idx);
        if old[n - 1] != new[n - 1] {
            if rest.contains(v) {
                let i = choose|i: int| 0 <= i < rest.len() && rest[i] == v;
                assert(cur[i] == v);
            }
            if c == v {
                assert(cur[cur.len() - 1] == v);
            }
            if cur.contains(v) {
                let i = choose|i: int| 0 <= i < cur.len() && cur[i] == v;
                if i < rest.len() {
                    assert(rest[i] == v);
                }
            }
        }
    } else {
        assert(!changes_upto(old, new, width, n).contains(v)) by {
            if changes_upto(old, new, width, n).contains(v) {
                let i = choose|i: int|
                    0 <= i < changes_upto(old, new, width, n).len() && changes_upto(
                        old,
                        new,
                        width,
                        n,
                    )[i] == v;
            }
        }
    }
}

/// The full scan reports a position of the grid exactly when its cell
/// differs between the two frames.
pub proof fn lemma_full_scan_reports_differing_cells(old: &Buffer, new: &Buffer, x: int, y: int)
    requires
        old.wf(),
        new.wf(),
        same_size(old, new),
        old.spec_in_bounds(x, y),
    ensures
        full_changes(old, new).contains((x as u16, y as u16)) <==> old.cell_at(x, y)
            != new.cell_at(x, y),
{
    old.lemma_wf();
    new.lemma_wf();
    let w = old.spec_width();
    let h = old.spec_height();
    lemma_index_bounds(w, h, x, y);
    lemma_changes_contain(old@, new@, w, h, w * h, x, y);
}

/// The dirty-row scan reports a position of the grid exactly when its row
/// is marked dirty and its cell differs between the two frames.
pub proof fn lemma_dirty_scan_reports_differing_cells(
    old: &Buffer,
    new: &Buffer,
    dirty: Seq<bool>,
    x: int,
    y: int,
)
    requires
        old.wf(),
        new.wf(),
        same_size(old, new),
        old.spec_in_bounds(x, y),
    ensures
        dirty_changes(old, new, dirty).contains((x as u16, y as u16)) <==> (row_is_dirty(dirty, y)
            && old.cell_at(x, y) != new.cell_at(x, y)),
{
    old.lemma_wf();
    new.lemma_wf();
    let w = old.spec_width();
    let h = old.spec_height();
    lemma_index_bounds(w, h, x, y);
    lemma_changes_contain(old@, masked(old@, new@, w, dirty), w, h, w * h, x, y);
}

/// Frames that agree cell for cell have no change between them.
pub proof fn lemma_no_changes_between_equal(old: Seq<Cell>, new: Seq<Cell>, width: int, n: int)
    requires
        0 <= n,
        forall|k: int| 0 <= k < n ==> old[k] == new[k],
    ensures
        changes_upto(old, new, width, n) == Seq::<(u16, u16)>::empty(),
{
    lemma_equal_range_adds_nothing(old, new, width, 0, n);
}

/// A dirty-row scan whose flags cover every row that changed reports what
/// the full scan reports.
pub proof fn lemma_dirty_scan_matches_full(old: &Buffer, new: &Buffer, dirty: Seq<bool>)
    requires
        old.wf(),
        new.wf(),
        same_size(old, new),
        covers_changes(old, new, dirty),
    ensures
        dirty_changes(old, new, dirty) == full_changes(old, new),
{
    old.lemma_wf();
    new.lemma_wf();
    let w = old.spec_width();
    let m = masked(old@, new@, w, dirty);
    assert forall|k: int| 0 <= k < old@.len() implies m[k] == new@[k] by {
        if old@[k] != new@[k] {
            assert(row_is_dirty(dirty, k / w));
        }
    }
    lemma_changes_depend_on_prefix(old@, m, new@, w, old@.len() as int);
}

/// With every row marked dirty, the dirty-row scan and the full scan report
/// the same changes.
pub proof fn lemma_all_rows_dirty_matches_full(old: &Buffer, new: &Buffer, dirty: Seq<bool>)
    requires
        old.wf(),
        new.wf(),
        same_size(old, new),
        dirty.len() == old.spec_height(),
        forall|y: int| 0 <= y < dirty.len() ==> dirty[y],
    ensures
        dirty_changes(old, new, dirty) == full_changes(old, new),
{
    old.lemma_wf();
    let w = old.spec_width();
    let h = old.spec_height();
    assert forall|i: int| 0 <= i < old@.len() && old@[i] != new@[i] implies row_is_dirty(
        dirty,
        #[trigger] (i / w),
    ) by {
        assert(w > 0) by (nonlinear_arith)
            requires
                0 <= w,
                0 <= i < w * h,
        ;
        vstd::arithmetic::div_mod::lemma_fundamental_div_mod(i, w);
        vstd::arithmetic::div_mod::lemma_mod_bound(i, w);
        vstd::arithmetic::div_mod::lemma_div_pos_is_pos(i, w);
        let q = i / w;
        assert(q < h) by (nonlinear_arith)
            requires
                0 < w,
                0 <= i < w * h,
                i == w * q + i % w,
                0 <= i % w < w,
        ;
    }
    lemma_dirty_scan_matches_full(old, new, dirty);
}

/// A run of changed cells in one row: `len` cells from column `start`.
#[derive(Clone, Copy, Debug, PartialEq, Eq, Structural)]
pub struct Span {
    pub row: u16,
    pub start: u16,
    pub len: u16,
}

/// The positions that a run covers, left to right.
pub open spec fn span_cells(s: Span) -> Seq<(u16, u16)> {
    Seq::new(s.len as nat, |k: int| ((s.start + k) as u16, s.row))
}

/// The positions that the runs cover, run after run.
pub open spec fn spans_cells(runs: Seq<Span>) -> Seq<(u16, u16)>
    decreases runs.len(),
{
    if runs.len() == 0 {
        Seq::empty()
    } else {
        spans_cells(runs.drop_last()) + span_cells(runs.last())
    }
}

/// Whether run `b` starts in the column right after the end of run `a`, in
/// the same row.
pub open spec fn adjacent(a: Span, b: Span) -> bool {
    a.row == b.row && a.start + a.len == b.start
}

/// Whether each run holds a cell and ends inside the `u16` columns.
pub open spec fn spans_valid(runs: Seq<Span>) -> bool {
    forall|i: int|
        0 <= i < runs.len() ==> (#[trigger] runs[i]).len >= 1 && runs[i].start + runs[i].len
            <= u16::MAX
}

/// Whether no run could be joined with the one after it.
pub open spec fn coalesced(runs: Seq<Span>) -> bool {
    forall|i: int| 0 <= i < runs.len() - 1 ==> !adjacent(#[trigger] runs[i], runs[i + 1])
}

/// Number of positions covered by the first `k` runs.
pub open spec fn offset_of(runs: Seq<Span>, k: int) -> int
    decreases k,
{
    if k <= 0 {
        0
    } else {
        offset_of(runs, k - 1) + runs[k - 1].len
    }
}

/// Where the cells of run `k` stand among the covered positions.
pub proof fn lemma_span_position(runs: Seq<Span>, k: int)
    requires
        0 <= k < runs.len(),
    ensures
        0 <= offset_of(runs, k),
        offset_of(runs, k) + runs[k].len <= spans_cells(runs).len(),
        offset_of(runs, runs.len() as int) == spans_cells(runs).len(),
        forall|p: int|
            offset_of(runs, k) <= p < offset_of(runs, k) + runs[k].len ==> #[trigger] spans_cells(
                runs,
            )[p] == ((runs[k].start + (p - offset_of(runs, k))) as u16, runs[k].row),
    decreases runs.len(),
{
    let n = runs.len() as int;
    let front = runs.drop_last();
    lemma_offset_prefix(runs, front, n - 1);
    if n > 1 {
        lemma_span_position(front, 0);
    }
    assert(offset_of(front, n - 1) == spans_cells(front).len()) by {
        if n == 1 {
            assert(spans_cells(front) =~= Seq::empty());
        }
    }
    if k < n - 1 {
        lemma_span_position(front, k);
        lemma_offset_prefix(runs, front, k);
    }
}

/// Offsets depend only on the runs before them.
pub proof fn lemma_offset_prefix(runs: Seq<Span>, front: Seq<Span>, k: int)
    requires
        0 <= k <= front.len() <= runs.len(),
        forall|i: int| 0 <= i < front.len() ==> front[i] == runs[i],
    ensures
        offset_of(front, k) == offset_of(runs, k),
        offset_of(runs, k) >= 0,
    decreases k,
{
    if k > 0 {
        lemma_offset_prefix(runs, front, k - 1);
    }
}

/// Offsets grow with the run index, by at least one position per run.
pub proof fn lemma_offset_monotone(runs: Seq<Span>, i: int, j: int)
    requires
        spans_valid(runs),
        0 <= i <= j <= runs.len(),
    ensures
        offset_of(runs, i) + (j - i) <= offset_of(runs, j),
    decreases j - i,
{
    if i < j {
        lemma_offset_monotone(runs, i, j - 1);
    }
}

/// Maximal coalescing: two runs of the same row that come from strictly
/// ordered changes have at least one unchanged cell between them.
pub proof fn lemma_runs_are_maximal(changes: Seq<(u16, u16)>, runs: Seq<Span>, i: int, j: int)
    requires
        strictly_ordered(changes),
        spans_valid(runs),
        coalesced(runs),
        spans_cells(runs) == changes,
        0 <= i < j < runs.len(),
        runs[i].row == runs[j].row,
    ensures
        runs[i].start + runs[i].len < runs[j].start,
{
    lemma_span_position(runs, i);
    lemma_span_position(runs, j);
    lemma_offset_monotone(runs, i + 1, j);
    let last_i = offset_of(runs, i) + runs[i].len - 1;
    let first_j = offset_of(runs, j);
    assert(offset_of(runs, i + 1) == offset_of(runs, i) + runs[i].len);
    assert(changes[last_i] == ((runs[i].start + runs[i].len - 1) as u16, runs[i].row));
    assert(changes[first_j] == ((runs[j].start + 0) as u16, runs[j].row));
    assert(row_major_lt(changes[last_i], changes[first_j]));
    if j == i + 1 {
        assert(!adjacent(runs[i], runs[i + 1]));
    } else {
        lemma_span_position(runs, i + 1);
        lemma_offset_monotone(runs, i + 2, j);
        let mid = offset_of(runs, i + 1);
        assert(offset_of(runs, i + 2) == offset_of(runs, i + 1) + runs[i + 1].len);
        assert(changes[mid] == ((runs[i + 1].start + 0) as u16, runs[i + 1].row));
        assert(row_major_lt(changes[last_i], changes[mid]));
        assert(row_major_lt(changes[mid], changes[first_j]));
    }
}

/// The changed cells between two frames, in row-major order.
pub struct Diff {
    changes: Vec<(u16, u16)>,
}

impl View for Diff {
    type V = Seq<(u16, u16)>;

    /// The changed positions `(column, row)`, in the order found.
    closed spec fn view(&self) -> Seq<(u16, u16)> {
        self.changes@
    }
}

impl Diff {
    /// The positions stand in strictly increasing row-major order, each left
    /// of the last `u16` column.
    pub open spec fn wf(&self) -> bool {
        &&& strictly_ordered(self@)
        &&& forall|t: int| 0 <= t < self@.len() ==> (#[trigger] self@[t]).0 < u16::MAX
    }

    /// The diff with no change.
    pub fn new() -> (d: Diff)
        ensures
            d@ == Seq::<(u16, u16)>::empty(),
            d.wf(),
    {
        Diff { changes: Vec::new() }
    }

    /// Full scan. Rows that are equal as a whole are skipped; the others are
    /// compared cell by cell. Both frames must have the same extent.
    pub fn compute(old: &Buffer, new: &Buffer) -> (d: Diff)
        requires
            old.wf(),
            new.wf(),
            same_size(old, new),
        ensures
            d@ == full_changes(old, new),
            d.wf(),
            old@ == new@ ==> d@.len() == 0,
    {
        proof {
            old.lemma_wf();
            new.lemma_wf();
        }
        let width = old.width();
        let height = old.height();
        let ghost w = width as int;
        let ghost h = height as int;
        let mut changes: Vec<(u16, u16)> = Vec::new();
        let mut y: u16 = 0;
        while y < height
            invariant
                old.wf(),
                new.wf(),
                w == old.spec_width() == new.spec_width(),
                h == old.spec_height() == new.spec_height(),
                w == width,
                h == height,
                old@.len() == w * h,
                new@.len() == w * h,
                0 <= y <= height,
                changes@ == changes_upto(old@, new@, w, y * w),
            decreases height - y,
        {
            proof {
                lemma_row_bounds(w, h, y as int);
            }
            let old_row = old.row(y);
            let new_row = new.row(y);
            if rows_equal(old_row, new_row) {
                proof {
                    assert forall|k: int| y * w <= k < (y + 1) * w implies old@[k] == new@[k] by {
                        assert(old@[k] == old.spec_row(y as int)[k - y * w]);
                        assert(new@[k] == new.spec_row(y as int)[k - y * w]);
                    }
                    lemma_equal_range_adds_nothing(old@, new@, w, y * w, (y + 1) * w);
                }
            } else {
                let mut x: u16 = 0;
                while x < width
                    invariant
                        w == width,
                        h == height,
                        0 <= w <= u16::MAX,
                        0 <= y < h <= u16::MAX,
                        old@.len() == w * h,
                        new@.len() == w * h,
                        old_row@ == old.spec_row(y as int),
                        new_row@ == new.spec_row(y as int),
                        old.spec_width() == w,
                        new.spec_width() == w,
                        old_row@.len() == w,
                        new_row@.len() == w,
                        0 <= x <= width,
                        changes@ == changes_upto(old@, new@, w, y * w + x),
                    decreases width - x,
                {
                    proof {
                        lemma_index_bounds(w, h, x as int, y as int);
                        assert(old@[y * w + x] == old_row@[x as int]);
                        assert(new@[y * w + x] == new_row@[x as int]);
                    }
                    if !old_row[x as usize].bits_eq(&new_row[x as usize]) {
                        changes.push((x, y));
                    }
                    x += 1;
                }
            }
            y += 1;
        }
        proof {
            assert(h * w == w * h) by (nonlinear_arith);
            lemma_changes_ordered(old@, new@, w, h, w * h);
            if old@ == new@ {
                lemma_no_changes_between_equal(old@, new@, w, w * h);
            }
        }
        Diff { changes }
    }

    /// Full scan of two frames that may differ in extent: `None` where
    /// they do, which the caller answers with a full redraw.
    pub fn try_compute(old: &Buffer, new: &Buffer) -> (r: Option<Diff>)
        requires
            old.wf(),
            new.wf(),
        ensures
            r.is_some() == same_size(old, new),
            r.is_some() ==> r.unwrap()@ == full_changes(old, new) && r.unwrap().wf(),
    {
        if old.width() == new.width() && old.height() == new.height() {
            Some(Diff::compute(old, new))
        } else {
            None
        }
    }

    /// Dirty-row scan. Only the rows whose flag is set are compared, cell by
    /// cell; a row without a flag counts as clean. Where the flags cover every
    /// row that changed, the result is that of the full scan.
    pub fn compute_dirty(old: &Buffer, new: &Buffer, dirty_rows: &[bool]) -> (d: Diff)
        requires
            old.wf(),
            new.wf(),
            same_size(old, new),
        ensures
            d@ == dirty_changes(old, new, dirty_rows@),
            d.wf(),
            covers_changes(old, new, dirty_rows@) ==> d@ == full_changes(old, new),
    {
        proof {
            old.lemma_wf();
            new.lemma_wf();
        }
        let width = old.width();
        let height = old.height();
        let ghost w = width as int;
        let ghost h = height as int;
        let ghost seen = masked(old@, new@, w, dirty_rows@);
        let mut changes: Vec<(u16, u16)> = Vec::new();
        let mut y: u16 = 0;
        while y < height
            invariant
                old.wf(),
                new.wf(),
                w == old.spec_width() == new.spec_width(),
                h == old.spec_height() == new.spec_height(),
                w == width,
                h == height,
                old@.len() == w * h,
                new@.len() == w * h,
                seen == masked(old@, new@, w, dirty_rows@),
                0 <= y <= height,
                changes@ == changes_upto(old@, seen, w, y * w),
            decreases height - y,
        {
            proof {
                lemma_row_bounds(w, h, y as int);
            }
            if (y as usize) < dirty_rows.len() && dirty_rows[y as usize] {
                let old_row = old.row(y);
                let new_row = new.row(y);
                let mut x: u16 = 0;
                while x < width
                    invariant
                        w == width,
                        h == height,
                        0 <= w <= u16::MAX,
                        0 <= y < h <= u16::MAX,
                        old@.len() == w * h,
                        new@.len() == w * h,
                        seen == masked(old@, new@, w, dirty_rows@),
                        row_is_dirty(dirty_rows@, y as int),
                        old_row@ == old.spec_row(y as int),
                        new_row@ == new.spec_row(y as int),
                        old.spec_width() == w,
                        new.spec_width() == w,
                        old_row@.len() == w,
                        new_row@.len() == w,
                        0 <= x <= width,
                        changes@ == changes_upto(old@, seen, w, y * w + x),
                    decreases width - x,
                {
                    proof {
                        lemma_index_bounds(w, h, x as int, y as int);
                        assert(old@[y * w + x] == old_row@[x as int]);
                        assert(new@[y * w + x] == new_row@[x as int]);
                        assert(seen[y * w + x] == new@[y * w + x]);
                    }
                    if !old_row[x as usize].bits_eq(&new_row[x as usize]) {
                        changes.push((x, y));
                    }
                    x += 1;
                }
            } else {
                proof {
                    assert forall|k: int| y * w <= k < (y + 1) * w implies old@[k] == seen[k] by {
                        lemma_index_bounds(w, h, k - y * w, y as int);
                        assert(!row_is_dirty(dirty_rows@, k / w));
                    }
                    lemma_equal_range_adds_nothing(old@, seen, w, y * w, (y + 1) * w);
                }
            }
            y += 1;
        }
        proof {
            assert(h * w == w * h) by (nonlinear_arith);
            lemma_changes_ordered(old@, seen, w, h, w * h);
            if covers_changes(old, new, dirty_rows@) {
                lemma_dirty_scan_matches_full(old, new, dirty_rows@);
            }
        }
        Diff { changes }
    }

    /// Number of changed cells.
    pub fn len(&self) -> (n: usize)
        ensures
            n == self@.len(),
    {
        self.changes.len()
    }

    /// Whether nothing changed.
    pub fn is_empty(&self) -> (r: bool)
        ensures
            r == (self@.len() == 0),
    {
        self.changes.len() == 0
    }

    /// The changed positions `(column, row)`.
    pub fn changes(&self) -> (r: &[(u16, u16)])
        ensures
            r@ == self@,
    {
        self.changes.as_slice()
    }

    /// The changes joined into runs. The runs cover the changed cells exactly
    /// and in order, and each is as long as it can be: a run ends only where
    /// the next changed cell is not its right-hand neighbour, so two runs of
    /// one row always have an unchanged cell between them.
    pub fn runs(&self) -> (runs: Vec<Span>)
        requires
            self.wf(),
        ensures
            spans_valid(runs@),
            spans_cells(runs@) == self@,
            coalesced(runs@),
            forall|i: int, j: int|
                0 <= i < j < runs@.len() && runs@[i].row == runs@[j].row ==> runs@[i].start
                    + runs@[i].len < runs@[j].start,
    {
        let n = self.changes.len();
        let mut runs: Vec<Span> = Vec::new();
        let mut i: usize = 0;
        while i < n
            invariant
                n == self@.len(),
                self.wf(),
                0 <= i <= n,
                spans_valid(runs@),
                coalesced(runs@),
                spans_cells(runs@) == self@.subrange(0, i as int),
                runs@.len() > 0 && i < n ==> !(self@[i as int].1 == runs@.last().row
                    && self@[i as int].0 == runs@.last().start + runs@.last().len),
            decreases n - i,
        {
            let (x, y) = self.changes[i];
            let mut len: u16 = 1;
            let mut j: usize = i + 1;
            while j < n && self.changes[j].1 == y && self.changes[j].0 as u32 == x as u32
                + len as u32
                invariant
                    n == self@.len(),
                    self.wf(),
                    0 <= i < j <= n,
                    len == j - i,
                    self@[i as int] == (x, y),
                    x + len <= u16::MAX,
                    forall|k: int| i <= k < j ==> self@[k] == ((x + (k - i)) as u16, y),
                decreases n - j,
            {
                len += 1;
                j += 1;
            }
            let span = Span { row: y, start: x, len };
            proof {
                assert(span_cells(span) =~= self@.subrange(i as int, j as int));
                assert(runs@.push(span).drop_last() =~= runs@);
                assert(self@.subrange(0, i as int) + self@.subrange(i as int, j as int)
                    =~= self@.subrange(0, j as int));
            }
            runs.push(span);
            i = j;
        }
        proof {
            assert(self@.subrange(0, n as int) =~= self@);
            assert forall|a: int, b: int|
                0 <= a < b < runs@.len() && runs@[a].row == runs@[b].row implies runs@[a].start
                + runs@[a].len < runs@[b].start by {
                lemma_runs_are_maximal(self@, runs@, a, b);
            }
        }
        runs
    }
}

} // verus!
