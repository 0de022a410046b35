//! Wide glyphs in a row of cells.
//!
//! A glyph wider than one column stands in a head cell and is followed by
//! one continuation cell for each further column. A write that cuts into a
//! glyph blanks what is left of it, so that no half glyph stays behind.

use crate::cell::{Cell, CellContent};
use vstd::prelude::*;

verus! {

/// Whether the cell is a continuation placeholder.
pub open spec fn is_cont(c: Cell) -> bool {
    c.content == CellContent::Continuation
}

/// The nearest cell at or left of column `j` that is not a continuation;
/// column 0 where there is none.
pub open spec fn head_of(row: Seq<Cell>, j: int) -> int
    decreases j,
{
    if j <= 0 || !is_cont(row[j]) {
        j
    } else {
        head_of(row, j - 1)
    }
}

/// Number of continuation cells in a row from column `k` on, up to the
/// first cell that is none.
pub open spec fn cont_run(row: Seq<Cell>, k: int) -> nat
    decreases row.len() - k,
{
    if k < 0 || k >= row.len() || !is_cont(row[k]) {
        0
    } else {
        1 + cont_run(row, k + 1)
    }
}

/// The first column at or right of `k` that holds no continuation.
pub open spec fn cont_end(row: Seq<Cell>, k: int) -> int {
    k + cont_run(row, k)
}

/// Where the glyph that covers column `a` starts, if `a` holds a
/// continuation of it; `a` itself otherwise.
pub open spec fn cut_start(row: Seq<Cell>, a: int) -> int {
    let h = head_of(row, a);
    if is_cont(row[a]) && h + row[h].spec_width() > a {
        h
    } else {
        a
    }
}

/// Number of columns that a write of `cell` covers: its width, and one
/// column for content of width zero.
pub open spec fn span_width(cell: Cell) -> int {
    if cell.spec_width() > 1 {
        cell.spec_width()
    } else {
        1
    }
}

/// The row after a write of `head` at column `a` and of `rest` in the
/// columns after it up to `b`. The rest of a glyph that reached into the
/// written columns from the left, and the continuation cells that follow the
/// written columns, are blanked.
pub open spec fn span_row(row: Seq<Cell>, a: int, b: int, head: Cell, rest: Cell) -> Seq<Cell> {
    Seq::new(
        row.len(),
        |j: int|
            if j == a {
                head
            } else if a < j < b {
                rest
            } else if cut_start(row, a) <= j < a {
                Cell::blank()
            } else if b <= j < cont_end(row, b) {
                Cell::blank()
            } else {
                row[j]
            },
    )
}

/// The grid `cells` of rows of `width` cells, with row `y` replaced.
pub open spec fn replace_row(cells: Seq<Cell>, width: int, y: int, new_row: Seq<Cell>) -> Seq<
    Cell,
> {
    Seq::new(
        cells.len(),
        |i: int|
            if y * width <= i < (y + 1) * width {
                new_row[i - y * width]
            } else {
                cells[i]
            },
    )
}

/// Whether the wide glyphs of a row are whole: each head is followed by its
/// continuation cells inside the row, and each continuation cell is covered
/// by the head nearest to its left.
pub open spec fn glyphs_ok(row: Seq<Cell>) -> bool {
    &&& forall|j: int|
        0 <= j < row.len() && (#[trigger] row[j]).spec_width() > 1 ==> j + row[j].spec_width()
            <= row.len()
    &&& forall|j: int, k: int|
        0 <= j < k < row.len() && k < j + (#[trigger] row[j]).spec_width() ==> is_cont(
            #[trigger] row[k],
        )
    &&& forall|k: int|
        0 <= k < row.len() && is_cont(#[trigger] row[k]) ==> k < head_of(row, k) + row[head_of(
            row,
            k,
        )].spec_width()
}

/// The head of a column lies at or left of it, is no continuation unless it
/// is column 0, and everything between the two is continuation.
pub proof fn lemma_head_of(row: Seq<Cell>, j: int)
    requires
        0 <= j < row.len(),
    ensures
        0 <= head_of(row, j) <= j,
        head_of(row, j) > 0 ==> !is_cont(row[head_of(row, j)]),
        forall|k: int| head_of(row, j) < k <= j ==> is_cont(row[k]),
    decreases j,
{
    if j > 0 && is_cont(row[j]) {
        lemma_head_of(row, j - 1);
    }
}

/// A cell that is no continuation, with only continuation between it and
/// column `j`, is the head of `j`.
pub proof fn lemma_head_is(row: Seq<Cell>, h: int, j: int)
    requires
        0 <= h <= j < row.len(),
        !is_cont(row[h]) || h == 0,
        forall|k: int| h < k <= j ==> is_cont(row[k]),
    ensures
        head_of(row, j) == h,
    decreases j - h,
{
    if h < j {
        lemma_head_is(row, h, j - 1);
    }
}

/// The continuation run from `k` ends inside the row, at a cell that is no
/// continuation, and holds nothing but continuation.
pub proof fn lemma_cont_end(row: Seq<Cell>, k: int)
    requires
        0 <= k <= row.len(),
    ensures
        k <= cont_end(row, k) <= row.len(),
        cont_end(row, k) < row.len() ==> !is_cont(row[cont_end(row, k)]),
        forall|i: int| k <= i < cont_end(row, k) ==> is_cont(row[i]),
    decreases row.len() - k,
{
    if k < row.len() && is_cont(row[k]) {
        lemma_cont_end(row, k + 1);
    }
}

/// Heads depend on the content of the cells alone.
pub proof fn lemma_head_by_content(row: Seq<Cell>, new: Seq<Cell>, j: int)
    requires
        row.len() == new.len(),
        0 <= j < row.len(),
        forall|i: int| 0 <= i < row.len() ==> new[i].content == row[i].content,
    ensures
        head_of(new, j) == head_of(row, j),
    decreases j,
{
    if j > 0 && is_cont(row[j]) {
        lemma_head_by_content(row, new, j - 1);
    }
}

/// A change that leaves the content of every cell as it is keeps the
/// glyphs of a row whole.
pub proof fn lemma_same_content_keeps_glyphs(row: Seq<Cell>, after: Seq<Cell>)
    requires
        row.len() == after.len(),
        forall|i: int| 0 <= i < row.len() ==> after[i].content == row[i].content,
        glyphs_ok(row),
    ensures
        glyphs_ok(after),
{
    assert forall|j: int|
        0 <= j < after.len() && (#[trigger] after[j]).spec_width() > 1 implies j
        + after[j].spec_width() <= after.len() by {
        assert(after[j].content == row[j].content);
        assert(row[j].spec_width() > 1);
    }
    assert forall|j: int, k: int|
        0 <= j < k < after.len() && k < j + (#[trigger] after[j]).spec_width() implies is_cont(
        #[trigger] after[k],
    ) by {
        assert(after[j].content == row[j].content);
        assert(after[j].spec_width() == row[j].spec_width());
        assert(is_cont(row[k]));
        assert(after[k].content == row[k].content);
    }
    assert forall|k: int| 0 <= k < after.len() && is_cont(#[trigger] after[k]) implies k
        < head_of(after, k) + after[head_of(after, k)].spec_width() by {
        lemma_head_by_content(row, after, k);
        lemma_head_of(row, k);
        assert(after[k].content == row[k].content);
        assert(is_cont(row[k]));
        let h = head_of(row, k);
        assert(k < h + row[h].spec_width());
        assert(after[h].content == row[h].content);
        assert(after[h].spec_width() == row[h].spec_width());
    }
}

/// A write of a glyph keeps the glyphs of a row whole: `head` at column
/// `a`, no continuation itself, followed by continuation cells for the
/// columns it covers.
pub proof fn lemma_glyph_write_keeps_glyphs(row: Seq<Cell>, a: int, head: Cell)
    requires
        glyphs_ok(row),
        !is_cont(head),
        0 <= a,
        a + span_width(head) <= row.len(),
    ensures
        glyphs_ok(span_row(row, a, a + span_width(head), head, Cell::spec_continuation())),
{
    let b = a + span_width(head);
    let new = span_row(row, a, b, head, Cell::spec_continuation());
    lemma_span_keeps_glyphs(row, a, b, head, Cell::spec_continuation());
}

/// A fill with a narrow cell keeps the glyphs of a row whole.
pub proof fn lemma_fill_keeps_glyphs(row: Seq<Cell>, a: int, b: int, cell: Cell)
    requires
        glyphs_ok(row),
        !is_cont(cell),
        cell.spec_width() <= 1,
        0 <= a < b <= row.len(),
    ensures
        glyphs_ok(span_row(row, a, b, cell, cell)),
{
    lemma_span_keeps_glyphs(row, a, b, cell, cell);
}

/// Whether the cells written to the columns from `a` up to `b` form whole
/// glyphs by themselves: a glyph with its continuation cells, or narrow
/// cells only.
pub open spec fn span_is_whole(a: int, b: int, head: Cell, rest: Cell) -> bool {
    &&& !is_cont(head)
    &&& a < b
    &&& {
        ||| (is_cont(rest) && b == a + span_width(head))
        ||| (!is_cont(rest) && head.spec_width() <= 1 && rest.spec_width() <= 1)
    }
}

/// A write of whole glyphs keeps the glyphs of a row whole.
pub proof fn lemma_span_keeps_glyphs(row: Seq<Cell>, a: int, b: int, head: Cell, rest: Cell)
    requires
        glyphs_ok(row),
        span_is_whole(a, b, head, rest),
        0 <= a < b <= row.len(),
    ensures
        glyphs_ok(span_row(row, a, b, head, rest)),
{
    let new = span_row(row, a, b, head, rest);
    let lo = cut_start(row, a);
    let hi = cont_end(row, b);
    lemma_head_of(row, a);
    lemma_cont_end(row, b);
    assert(0 <= lo <= a);
    assert(b <= hi <= row.len());
    // The cell at `lo` is no continuation, or nothing is blanked on the left.
    assert(lo < a ==> !is_cont(row[lo])) by {
        if lo < a {
            let h = head_of(row, a);
            assert(lo == h);
            if h == 0 && is_cont(row[0]) {
                assert(row[0].spec_width() == 0);
            }
        }
    }
    // A wide head left of `lo` ends before `lo`.
    assert forall|j: int| 0 <= j < lo && row[j].spec_width() > 1 implies j + row[j].spec_width()
        <= lo by {
        if j + row[j].spec_width() > lo {
            assert(j + row[j].spec_width() <= row.len());
            assert(is_cont(row[lo]));
            assert(lo == a);
            assert(is_cont(row[a]));
            let h = head_of(row, a);
            assert(a < h + row[h].spec_width());
        }
    }
    assert forall|j: int|
        0 <= j < new.len() && (#[trigger] new[j]).spec_width() > 1 implies j + new[j].spec_width()
        <= new.len() by {
        if j == a {
            assert(new[j] == head);
        } else if a < j < b {
            assert(new[j] == rest);
        } else if lo <= j < a || b <= j < hi {
            assert(new[j] == Cell::blank());
        } else {
            assert(new[j] == row[j]);
            assert(row[j].spec_width() > 1);
        }
    }
    assert forall|j: int, k: int|
        0 <= j < k < new.len() && k < j + (#[trigger] new[j]).spec_width() implies is_cont(
        #[trigger] new[k],
    ) by {
        if j == a {
            assert(new[j] == head);
            assert(k < b);
            assert(new[k] == rest);
        } else if a < j < b {
            assert(new[j] == rest);
        } else if lo <= j < a || b <= j < hi {
            assert(new[j] == Cell::blank());
        } else {
            assert(new[j] == row[j]);
            assert(is_cont(row[k]));
            if j < lo {
                assert(row[j].spec_width() > 1);
                assert(j + row[j].spec_width() <= lo);
                assert(new[k] == row[k]);
            } else {
                assert(j >= hi);
                assert(new[k] == row[k]);
            }
        }
    }
    assert forall|k: int| 0 <= k < new.len() && is_cont(#[trigger] new[k]) implies k < head_of(
        new,
        k,
    ) + new[head_of(new, k)].spec_width() by {
        if a < k < b {
            assert(is_cont(rest));
            assert forall|i: int| a < i <= k implies is_cont(new[i]) by {
                assert(new[i] == rest);
            }
            lemma_head_is(new, a, k);
        } else if k == a || lo <= k < a || b <= k < hi {
            assert(!is_cont(new[k]));
        } else {
            assert(new[k] == row[k]);
            let h = head_of(row, k);
            lemma_head_of(row, k);
            assert(k < h + row[h].spec_width());
            if k < lo {
                assert forall|i: int| h < i <= k implies is_cont(new[i]) by {
                    assert(new[i] == row[i]);
                }
                assert(new[h] == row[h]);
                if h == 0 && is_cont(row[0]) {
                    assert(row[0].spec_width() == 0);
                }
                lemma_head_is(new, h, k);
            } else {
                assert(k >= hi);
                assert(hi < row.len());
                assert(!is_cont(row[hi]));
                assert(h >= hi) by {
                    if h < hi {
                        assert(is_cont(row[hi]));
                    }
                }
                assert forall|i: int| h < i <= k implies is_cont(new[i]) by {
                    assert(new[i] == row[i]);
                }
                assert(new[h] == row[h]);
                lemma_head_is(new, h, k);
            }
        }
    }
}

} // verus!
