//! The hit grid: which widget, if any, owns each cell of the last frame.

use crate::buffer::{lemma_grid_bounds, lemma_index_bounds};
use crate::event::{Hit, HitId, HitRegion};
use crate::geometry::Rect;
use vstd::prelude::*;

verus! {

/// For each cell of a grid the hit that a click on it reports.
#[derive(Debug, Clone)]
pub struct HitGrid {
    width: u16,
    height: u16,
    cells: Vec<Option<Hit>>,
}

impl View for HitGrid {
    type V = Seq<Option<Hit>>;

    /// The hits in row-major order.
    closed spec fn view(&self) -> Seq<Option<Hit>> {
        self.cells@
    }
}

/// The hits after `hit` was registered for the cells of `rect`.
pub open spec fn registered(hits: Seq<Option<Hit>>, width: int, rect: Rect, hit: Hit) -> Seq<
    Option<Hit>,
> {
    Seq::new(
        hits.len(),
        |i: int|
            if width > 0 && rect.spec_contains(i % width, i / width) {
                Some(hit)
            } else {
                hits[i]
            },
    )
}

/// The hits after `hit` was registered for the cells of `rect` that come
/// before `(x, y)` in row-major order.
pub open spec fn registered_upto(
    hits: Seq<Option<Hit>>,
    width: int,
    rect: Rect,
    hit: Hit,
    x: int,
    y: int,
) -> Seq<Option<Hit>> {
    Seq::new(
        hits.len(),
        |i: int|
            if width > 0 && rect.spec_contains(i % width, i / width) && (i / width < y || (i
                / width == y && i % width < x)) {
                Some(hit)
            } else {
                hits[i]
            },
    )
}

impl HitGrid {
    /// Width in columns.
    pub closed spec fn spec_width(&self) -> int {
        self.width as int
    }

    /// Height in rows.
    pub closed spec fn spec_height(&self) -> int {
        self.height as int
    }

    /// The grid has one entry per cell.
    pub closed spec fn wf(&self) -> bool {
        self.cells@.len() == self.width as int * self.height as int
    }

    /// What well-formedness says of the view.
    pub proof fn lemma_wf(&self)
        requires
            self.wf(),
        ensures
            self@.len() == self.spec_width() * self.spec_height(),
            0 <= self.spec_width() <= u16::MAX,
            0 <= self.spec_height() <= u16::MAX,
    {
    }

    /// A grid without hits.
    pub fn new(width: u16, height: u16) -> (g: HitGrid)
        ensures
            g.wf(),
            g.spec_width() == width,
            g.spec_height() == height,
            g@ == Seq::new((width as int * height as int) as nat, |i: int| None::<Hit>),
    {
        proof {
            lemma_grid_bounds(width as int, height as int);
        }
        let n: usize = width as usize * height as usize;
        let mut cells: Vec<Option<Hit>> = Vec::new();
        let mut i: usize = 0;
        while i < n
            invariant
                0 <= i <= n,
                cells@.len() == i,
                forall|k: int| 0 <= k < i ==> cells@[k].is_none(),
            decreases n - i,
        {
            cells.push(None);
            i += 1;
        }
        let g = HitGrid { width, height, cells };
        assert(g@ =~= Seq::new((width as int * height as int) as nat, |i: int| None::<Hit>));
        g
    }

    /// The hit at `(x, y)`; none outside the grid.
    pub fn hit_test(&self, x: u16, y: u16) -> (r: Option<Hit>)
        requires
            self.wf(),
        ensures
            r == if x < self.spec_width() && y < self.spec_height() {
                self@[y * self.spec_width() + x]
            } else {
                None
            },
    {
        if x < self.width && y < self.height {
            proof {
                lemma_index_bounds(self.width as int, self.height as int, x as int, y as int);
            }
            self.cells[y as usize * self.width as usize + x as usize]
        } else {
            None
        }
    }

    /// Registers a hit for every cell of `rect` that lies in the grid. A
    /// later registration replaces an earlier one.
    pub fn register(&mut self, rect: Rect, id: HitId, region: HitRegion, data: u64)
        requires
            old(self).wf(),
        ensures
            final(self).wf(),
            final(self).spec_width() == old(self).spec_width(),
            final(self).spec_height() == old(self).spec_height(),
            final(self)@ == registered(
                old(self)@,
                old(self).spec_width(),
                rect,
                Hit { id, region, data },
            ),
    {
        let hit = Hit::new(id, region, data);
        let ghost before = self@;
        let ghost w = self.width as int;
        let ghost h = self.height as int;
        let bottom = if rect.bottom() < self.height {
            rect.bottom()
        } else {
            self.height
        };
        let right = if rect.right() < self.width {
            rect.right()
        } else {
            self.width
        };
        if rect.y >= bottom || rect.x >= right {
            proof {
                assert forall|i: int| 0 <= i < before.len() implies self@[i] == registered(
                    before,
                    w,
                    rect,
                    hit,
                )[i] by {
                    if w > 0 {
                        crate::widgets::lemma_cell_position(w, h, i);
                    }
                }
                assert(self@ =~= registered(before, w, rect, hit));
            }
            return;
        }
        let mut y = rect.y;
        proof {
            assert(self@ =~= registered_upto(before, w, rect, hit, 0, y as int));
        }
        while y < bottom
            invariant
                self.wf(),
                self.width == old(self).width,
                self.height == old(self).height,
                w == self.width,
                h == self.height,
                0 < w,
                before.len() == w * h,
                rect.y <= y <= bottom <= h,
                bottom <= rect.spec_bottom(),
                bottom == h || bottom == rect.spec_bottom(),
                right <= rect.spec_right(),
                right == w || right == rect.spec_right(),
                rect.x < right <= w,
                hit == (Hit { id, region, data }),
                self@ == registered_upto(before, w, rect, hit, 0, y as int),
            decreases bottom - y,
        {
            let mut x = rect.x;
            while x < right
                invariant
                    self.wf(),
                    self.width == old(self).width,
                    self.height == old(self).height,
                    w == self.width,
                    h == self.height,
                    0 < w,
                    before.len() == w * h,
                    rect.y <= y < bottom <= h,
                    bottom <= rect.spec_bottom(),
                    right <= rect.spec_right(),
                    right == w || right == rect.spec_right(),
                    rect.x <= x <= right <= w,
                    hit == (Hit { id, region, data }),
                    self@ == registered_upto(before, w, rect, hit, x as int, y as int),
                decreases right - x,
            {
                let ghost prev = self@;
                proof {
                    lemma_index_bounds(w, h, x as int, y as int);
                }
                let idx = y as usize * self.width as usize + x as usize;
                self.cells[idx] = Some(hit);
                proof {
                    assert forall|i: int| 0 <= i < before.len() implies self@[i]
                        == registered_upto(before, w, rect, hit, x + 1, y as int)[i] by {
                        crate::widgets::lemma_cell_position(w, h, i);
                        if i == idx {
                            assert(i % w == x && i / w == y);
                            assert(rect.spec_contains(x as int, y as int));
                        } else {
                            assert(!(i / w == y && i % w == x));
                            assert(self@[i] == prev[i]);
                        }
                    }
                    assert(self@ =~= registered_upto(before, w, rect, hit, x + 1, y as int));
                }
                x += 1;
            }
            proof {
                assert forall|i: int| 0 <= i < before.len() implies self@[i] == registered_upto(
                    before,
                    w,
                    rect,
                    hit,
                    0,
                    y + 1,
                )[i] by {
                    crate::widgets::lemma_cell_position(w, h, i);
                }
                assert(self@ =~= registered_upto(before, w, rect, hit, 0, y + 1));
            }
            y += 1;
        }
        proof {
            assert forall|i: int| 0 <= i < before.len() implies self@[i] == registered(
                before,
                w,
                rect,
                hit,
            )[i] by {
                crate::widgets::lemma_cell_position(w, h, i);
            }
            assert(self@ =~= registered(before, w, rect, hit));
        }
    }
}

} // verus!
