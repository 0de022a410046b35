//! The frame buffer: a fixed-size, row-major grid of cells with a stack of
//! clip rectangles and a degradation level.

use crate::cell::Cell;
use crate::geometry::Rect;
use crate::glyph::{
    cont_end, cut_start, glyphs_ok, head_of, is_cont, lemma_fill_keeps_glyphs,
    lemma_glyph_write_keeps_glyphs, replace_row, span_row, span_width,
};
use vstd::prelude::*;
use vstd::slice::slice_subrange;

verus! {

/// How much of a frame is drawn when the host is under load. Each level
/// drops more than the one before it.
#[derive(Clone, Copy, Debug, PartialEq, Eq, Structural)]
pub enum DegradationLevel {
    Full,
    SimpleBorders,
    NoStyling,
    EssentialOnly,
    Skeleton,
    SkipFrame,
}

impl DegradationLevel {
    /// Position of the level, from 0 for `Full` to 5 for `SkipFrame`.
    pub open spec fn rank(self) -> int {
        match self {
            DegradationLevel::Full => 0,
            DegradationLevel::SimpleBorders => 1,
            DegradationLevel::NoStyling => 2,
            DegradationLevel::EssentialOnly => 3,
            DegradationLevel::Skeleton => 4,
            DegradationLevel::SkipFrame => 5,
        }
    }

    /// Position of the level, from 0 for `Full` to 5 for `SkipFrame`.
    pub fn level(&self) -> (r: u8)
        ensures
            r == self.rank(),
    {
        match self {
            DegradationLevel::Full => 0,
            DegradationLevel::SimpleBorders => 1,
            DegradationLevel::NoStyling => 2,
            DegradationLevel::EssentialOnly => 3,
            DegradationLevel::Skeleton => 4,
            DegradationLevel::SkipFrame => 5,
        }
    }

    /// Box-drawing borders are used only at full fidelity.
    pub fn use_unicode_borders(&self) -> (r: bool)
        ensures
            r == (self.rank() < 1),
    {
        self.level() < 1
    }

    /// Colours and attributes are applied below `NoStyling`.
    pub fn apply_styling(&self) -> (r: bool)
        ensures
            r == (self.rank() < 2),
    {
        self.level() < 2
    }

    /// Decorative parts are drawn below `EssentialOnly`.
    pub fn render_decorative(&self) -> (r: bool)
        ensures
            r == (self.rank() < 3),
    {
        self.level() < 3
    }

    /// Content is drawn below `Skeleton`.
    pub fn render_content(&self) -> (r: bool)
        ensures
            r == (self.rank() < 4),
    {
        self.level() < 4
    }
}

/// Whether a write of `cell` at `(x, y)` takes effect in a grid of the given
/// extent and clip region: the cell is no continuation placeholder, and
/// every column it covers lies in the grid and in the clip region.
pub open spec fn writable(width: int, height: int, clip: Rect, x: int, y: int, cell: Cell) -> bool {
    &&& !is_cont(cell)
    &&& 0 <= y < height
    &&& 0 <= x
    &&& x + span_width(cell) <= width
    &&& clip.spec_contains(x, y)
    &&& clip.spec_contains(x + span_width(cell) - 1, y)
}

/// The grid after a write of `cell` at `(x, y)`: the cell, a continuation
/// placeholder in each further column it covers, and blanks where the write
/// cut a glyph. The grid as it was where the write does not take effect.
pub open spec fn written(
    cells: Seq<Cell>,
    width: int,
    height: int,
    clip: Rect,
    x: int,
    y: int,
    cell: Cell,
) -> Seq<Cell> {
    if writable(width, height, clip, x, y, cell) {
        replace_row(
            cells,
            width,
            y,
            span_row(
                cells.subrange(y * width, (y + 1) * width),
                x,
                x + span_width(cell),
                cell,
                Cell::spec_continuation(),
            ),
        )
    } else {
        cells
    }
}

/// The grid after a fill of the columns from `a` up to `b` in the rows from
/// `top` up to `bottom` with `cell`.
pub open spec fn filled(cells: Seq<Cell>, width: int, a: int, b: int, top: int, bottom: int, cell: Cell) -> Seq<
    Cell,
> {
    Seq::new(
        cells.len(),
        |i: int|
            if top * width <= i < bottom * width {
                let y = i / width;
                span_row(cells.subrange(y * width, (y + 1) * width), a, b, cell, cell)[i - y
                    * width]
            } else {
                cells[i]
            },
    )
}

/// A `u16` by `u16` grid has fewer than 2^32 cells.
pub proof fn lemma_grid_bounds(width: int, height: int)
    requires
        0 <= width <= u16::MAX,
        0 <= height <= u16::MAX,
    ensures
        0 <= width * height <= 0xFFFE_0001,
{
    assert(0 <= width * height <= 0xFFFE_0001) by (nonlinear_arith)
        requires
            0 <= width <= 0xFFFF,
            0 <= height <= 0xFFFF,
    ;
}

/// Row `y` of a grid occupies the indices from `y * width` up to
/// `(y + 1) * width`, inside the grid.
pub proof fn lemma_row_bounds(width: int, height: int, y: int)
    requires
        0 <= width <= u16::MAX,
        0 <= y < height <= u16::MAX,
    ensures
        0 <= y * width <= (y + 1) * width <= width * height <= 0xFFFE_0001,
        (y + 1) * width == y * width + width,
{
    lemma_grid_bounds(width, height);
    assert(0 <= y * width <= (y + 1) * width <= width * height) by (nonlinear_arith)
        requires
            0 <= width,
            0 <= y < height,
    ;
    assert((y + 1) * width == y * width + width) by (nonlinear_arith);
}

/// The row-major index of a position lies inside the grid and gives the
/// position back by division.
pub proof fn lemma_index_bounds(width: int, height: int, x: int, y: int)
    requires
        0 <= x < width <= u16::MAX,
        0 <= y < height <= u16::MAX,
    ensures
        0 <= y * width <= y * width + x < (y + 1) * width <= width * height <= 0xFFFE_0001,
        (y * width + x) / width == y,
        (y * width + x) % width == x,
{
    lemma_row_bounds(width, height, y);
    vstd::arithmetic::div_mod::lemma_fundamental_div_mod_converse(y * width + x, width, y, x);
}

/// A frame: `width` by `height` cells in row-major order.
pub struct Buffer {
    width: u16,
    height: u16,
    cells: Vec<Cell>,
    scissor_stack: Vec<Rect>,
    degradation: DegradationLevel,
}

impl View for Buffer {
    type V = Seq<Cell>;

    /// The cells in row-major order.
    closed spec fn view(&self) -> Seq<Cell> {
        self.cells@
    }
}

impl Buffer {
    /// Width in columns.
    pub closed spec fn spec_width(&self) -> int {
        self.width as int
    }

    /// Height in rows.
    pub closed spec fn spec_height(&self) -> int {
        self.height as int
    }

    /// The clip rectangles in force, innermost last. The first is the whole
    /// grid; each later one is already cut down to the one before it.
    pub closed spec fn scissors(&self) -> Seq<Rect> {
        self.scissor_stack@
    }

    /// The level set by the host to have widgets draw less under load.
    pub closed spec fn spec_degradation(&self) -> DegradationLevel {
        self.degradation
    }

    /// The whole grid as a rectangle.
    pub open spec fn bounds(&self) -> Rect {
        Rect { x: 0, y: 0, width: self.spec_width() as u16, height: self.spec_height() as u16 }
    }

    /// The region that writes reach: the innermost clip rectangle.
    pub open spec fn clip(&self) -> Rect {
        self.scissors().last()
    }

    /// The grid has one cell per position and the clip stack stands on the
    /// whole grid.
    pub closed spec fn wf(&self) -> bool {
        &&& self.cells@.len() == self.width as int * self.height as int
        &&& self.scissor_stack@.len() >= 1
        &&& self.scissor_stack@[0] == self.bounds()
    }

    /// Whether `(x, y)` is a position of the grid.
    pub open spec fn spec_in_bounds(&self, x: int, y: int) -> bool {
        0 <= x < self.spec_width() && 0 <= y < self.spec_height()
    }

    /// Row-major index of `(x, y)`.
    pub open spec fn spec_index(&self, x: int, y: int) -> int {
        y * self.spec_width() + x
    }

    /// The cell at `(x, y)`.
    pub open spec fn cell_at(&self, x: int, y: int) -> Cell {
        self@[self.spec_index(x, y)]
    }

    /// The cells of row `y`.
    pub open spec fn spec_row(&self, y: int) -> Seq<Cell> {
        self@.subrange(y * self.spec_width(), (y + 1) * self.spec_width())
    }

    /// What well-formedness says of the view.
    pub proof fn lemma_wf(&self)
        requires
            self.wf(),
        ensures
            self@.len() == self.spec_width() * self.spec_height(),
            0 <= self.spec_width() <= u16::MAX,
            0 <= self.spec_height() <= u16::MAX,
            self.scissors().len() >= 1,
            self.scissors()[0] == self.bounds(),
    {
    }

    /// A grid of blank cells with nothing clipped.
    pub fn new(width: u16, height: u16) -> (b: Buffer)
        ensures
            b.wf(),
            b.spec_width() == width,
            b.spec_height() == height,
            b@ == Seq::new((width as int * height as int) as nat, |i: int| Cell::blank()),
            b.scissors() == seq![b.bounds()],
            b.spec_degradation() == DegradationLevel::Full,
    {
        proof {
            lemma_grid_bounds(width as int, height as int);
        }
        let n: usize = width as usize * height as usize;
        let cells = vec![Cell::default(); n];
        let mut scissor_stack = Vec::new();
        scissor_stack.push(Rect::new(0, 0, width, height));
        let b = Buffer { width, height, cells, scissor_stack, degradation: DegradationLevel::Full };
        assert(b@ =~= Seq::new((width as int * height as int) as nat, |i: int| Cell::blank()));
        assert(b.scissors() =~= seq![b.bounds()]);
        b
    }

    /// Width in columns.
    pub fn width(&self) -> (w: u16)
        ensures
            w == self.spec_width(),
    {
        self.width
    }

    /// Height in rows.
    pub fn height(&self) -> (h: u16)
        ensures
            h == self.spec_height(),
    {
        self.height
    }

    /// The degradation level.
    pub fn degradation(&self) -> (d: DegradationLevel)
        ensures
            d == self.spec_degradation(),
    {
        self.degradation
    }

    /// Sets the degradation level; the grid and the clip stack stay.
    pub fn set_degradation(&mut self, level: DegradationLevel)
        ensures
            final(self).spec_degradation() == level,
            final(self)@ == old(self)@,
            final(self).spec_width() == old(self).spec_width(),
            final(self).spec_height() == old(self).spec_height(),
            final(self).scissors() == old(self).scissors(),
            final(self).wf() == old(self).wf(),
    {
        self.degradation = level;
    }

    /// Number of cells.
    pub fn len(&self) -> (n: usize)
        requires
            self.wf(),
        ensures
            n == self@.len(),
    {
        self.cells.len()
    }

    /// Whether the grid has no cell.
    pub fn is_empty(&self) -> (r: bool)
        requires
            self.wf(),
        ensures
            r == (self@.len() == 0),
    {
        self.cells.len() == 0
    }

    /// Whether `(x, y)` is a position of the grid.
    pub fn in_bounds(&self, x: u16, y: u16) -> (r: bool)
        ensures
            r == self.spec_in_bounds(x as int, y as int),
    {
        x < self.width && y < self.height
    }

    /// Row-major index of `(x, y)`, when it is a position of the grid.
    pub fn index(&self, x: u16, y: u16) -> (r: Option<usize>)
        requires
            self.wf(),
        ensures
            r.is_some() == self.spec_in_bounds(x as int, y as int),
            r.is_some() ==> r.unwrap() == self.spec_index(x as int, y as int) && r.unwrap()
                < self@.len(),
    {
        if x < self.width && y < self.height {
            proof {
                lemma_index_bounds(self.width as int, self.height as int, x as int, y as int);
            }
            Some(y as usize * self.width as usize + x as usize)
        } else {
            None
        }
    }

    /// The cell at `(x, y)`, or `None` outside the grid.
    pub fn get(&self, x: u16, y: u16) -> (r: Option<&Cell>)
        requires
            self.wf(),
        ensures
            r.is_some() == self.spec_in_bounds(x as int, y as int),
            r.is_some() ==> *r.unwrap() == self.cell_at(x as int, y as int),
    {
        match self.index(x, y) {
            Some(i) => Some(&self.cells[i]),
            None => None,
        }
    }

    /// Mutable access to the cell at `(x, y)`, or `None` outside the grid.
    /// Whatever the caller writes through the reference becomes that cell;
    /// every other cell stays.
    pub fn get_mut(&mut self, x: u16, y: u16) -> (r: Option<&mut Cell>)
        requires
            old(self).wf(),
        ensures
            r.is_some() == old(self).spec_in_bounds(x as int, y as int),
            final(self).wf(),
            final(self).spec_width() == old(self).spec_width(),
            final(self).spec_height() == old(self).spec_height(),
            final(self).scissors() == old(self).scissors(),
            final(self).spec_degradation() == old(self).spec_degradation(),
            match r {
                Some(c) => *c == old(self).cell_at(x as int, y as int) && final(self)@ == old(
                    self,
                )@.update(old(self).spec_index(x as int, y as int), *final(c)),
                None => final(self)@ == old(self)@,
            },
    {
        match self.index(x, y) {
            Some(i) => Some(&mut self.cells[i]),
            None => None,
        }
    }

    /// The cells of row `y`.
    pub fn row(&self, y: u16) -> (r: &[Cell])
        requires
            self.wf(),
            y < self.spec_height(),
        ensures
            r@ == self.spec_row(y as int),
            r@.len() == self.spec_width(),
    {
        proof {
            lemma_row_bounds(self.width as int, self.height as int, y as int);
        }
        let start: usize = y as usize * self.width as usize;
        let end: usize = start + self.width as usize;
        slice_subrange(self.cells.as_slice(), start, end)
    }

    /// Whether the wide glyphs of every row are whole.
    pub open spec fn glyphs_wf(&self) -> bool {
        forall|y: int| 0 <= y < self.spec_height() ==> glyphs_ok(#[trigger] self.spec_row(y))
    }

    /// The part of `rect` that a fill reaches: what lies in the clip region
    /// and in the grid.
    pub open spec fn fill_region(&self, rect: Rect) -> Rect {
        rect.spec_intersection(self.clip()).spec_intersection(self.bounds())
    }

    /// Whether a fill with `cell` takes effect: the cell is narrow and no
    /// continuation placeholder.
    pub open spec fn can_fill(cell: Cell) -> bool {
        !is_cont(cell) && cell.spec_width() <= 1
    }

    /// Writes `head` at `(a, y)` and `rest` in the columns after it up to
    /// `b`, and blanks what is left of the glyphs that the columns cut.
    fn write_span(&mut self, y: u16, a: u16, b: u16, head: Cell, rest: Cell)
        requires
            old(self).wf(),
            y < old(self).spec_height(),
            a < b <= old(self).spec_width(),
        ensures
            final(self).wf(),
            final(self).spec_width() == old(self).spec_width(),
            final(self).spec_height() == old(self).spec_height(),
            final(self).scissors() == old(self).scissors(),
            final(self).spec_degradation() == old(self).spec_degradation(),
            final(self)@ == replace_row(
                old(self)@,
                old(self).spec_width(),
                y as int,
                span_row(old(self).spec_row(y as int), a as int, b as int, head, rest),
            ),
    {
        let ghost w = self.width as int;
        let ghost row = self.spec_row(y as int);
        let ghost before = self@;
        proof {
            lemma_row_bounds(w, self.height as int, y as int);
        }
        let width = self.width as usize;
        let base = y as usize * width;
        let a = a as usize;
        let b = b as usize;
        assert(forall|i: int| 0 <= i < w ==> row[i] == before[base + i]);
        assert(base + w <= 0xFFFE_0001);
        let mut lo = a;
        if self.cells[base + a].is_continuation() {
            let mut h = a;
            while h > 0 && self.cells[base + h].is_continuation()
                invariant
                    self@ == before,
                    before.len() >= base + w,
                    row.len() == w,
                    forall|i: int| 0 <= i < w ==> row[i] == before[base + i],
                    0 <= h <= a < w,
                    base + w <= 0xFFFE_0001,
                    head_of(row, a as int) == head_of(row, h as int),
                decreases h,
            {
                h -= 1;
            }
            if h + self.cells[base + h].width() > a {
                lo = h;
            }
        }
        assert(lo == cut_start(row, a as int));
        let mut hi = b;
        while hi < width && self.cells[base + hi].is_continuation()
            invariant
                self@ == before,
                before.len() >= base + w,
                row.len() == w,
                w == width,
                forall|i: int| 0 <= i < w ==> row[i] == before[base + i],
                b <= hi <= w,
                base + w <= 0xFFFE_0001,
                cont_end(row, b as int) == cont_end(row, hi as int),
            decreases width - hi,
        {
            hi += 1;
        }
        assert(hi == cont_end(row, b as int));
        let ghost target = span_row(row, a as int, b as int, head, rest);
        let mut j = lo;
        while j < hi
            invariant
                lo <= j <= hi <= w,
                lo <= a < b <= hi,
                base + w <= 0xFFFE_0001,
                w == width,
                self.width == old(self).width,
                self.height == old(self).height,
                self.scissor_stack == old(self).scissor_stack,
                self.degradation == old(self).degradation,
                self@.len() == before.len(),
                before.len() >= base + w,
                row.len() == w,
                forall|i: int| 0 <= i < w ==> row[i] == before[base + i],
                target == span_row(row, a as int, b as int, head, rest),
                lo == cut_start(row, a as int),
                hi == cont_end(row, b as int),
                forall|i: int|
                    0 <= i < before.len() ==> self@[i] == if base + lo <= i < base + j {
                        target[i - base]
                    } else {
                        before[i]
                    },
            decreases hi - j,
        {
            let c = if j < a {
                Cell::default()
            } else if j == a {
                head
            } else if j < b {
                rest
            } else {
                Cell::default()
            };
            self.cells[base + j] = c;
            j += 1;
        }
        proof {
            assert(self@ =~= replace_row(before, w, y as int, target));
        }
    }

    /// Writes a cell. A glyph wider than one column takes the cell at
    /// `(x, y)` and a continuation placeholder in each further column it
    /// covers. What is left of a glyph that the write cuts is blanked. The
    /// write is all or nothing: it changes nothing unless every column it
    /// covers lies in the grid and in the clip region, and nothing for a cell
    /// that is itself a continuation placeholder.
    pub fn set(&mut self, x: u16, y: u16, cell: Cell)
        requires
            old(self).wf(),
        ensures
            final(self).wf(),
            final(self).spec_width() == old(self).spec_width(),
            final(self).spec_height() == old(self).spec_height(),
            final(self).scissors() == old(self).scissors(),
            final(self).spec_degradation() == old(self).spec_degradation(),
            final(self)@ == written(
                old(self)@,
                old(self).spec_width(),
                old(self).spec_height(),
                old(self).clip(),
                x as int,
                y as int,
                cell,
            ),
            old(self).glyphs_wf() ==> final(self).glyphs_wf(),
    {
        if cell.is_continuation() || y >= self.height {
            return;
        }
        let cw = cell.width();
        let span: usize = if cw > 1 {
            cw
        } else {
            1
        };
        if x as usize + span > self.width as usize {
            return;
        }
        let last: u16 = (x as usize + span - 1) as u16;
        let clip = self.current_scissor();
        if !clip.contains(x, y) || !clip.contains(last, y) {
            return;
        }
        let ghost row = self.spec_row(y as int);
        proof {
            lemma_row_bounds(self.width as int, self.height as int, y as int);
        }
        self.write_span(y, x, last + 1, cell, Cell::continuation());
        proof {
            if old(self).glyphs_wf() {
                lemma_glyph_write_keeps_glyphs(row, x as int, cell);
                lemma_replace_row_rows(
                    old(self)@,
                    self.width as int,
                    self.height as int,
                    y as int,
                    span_row(row, x as int, x + span_width(cell), cell, Cell::spec_continuation()),
                );
                assert forall|r: int| 0 <= r < self.spec_height() implies glyphs_ok(
                    #[trigger] self.spec_row(r),
                ) by {
                    if r != y {
                        assert(self.spec_row(r) == old(self).spec_row(r));
                    }
                }
            }
        }
    }

    /// Fills the part of `rect` that lies in the clip region with a narrow
    /// cell. In each row, what is left of a glyph that the filled columns cut
    /// is blanked. A cell that is wide or a continuation placeholder fills
    /// nothing.
    pub fn fill(&mut self, rect: Rect, cell: Cell)
        requires
            old(self).wf(),
        ensures
            final(self).wf(),
            final(self).spec_width() == old(self).spec_width(),
            final(self).spec_height() == old(self).spec_height(),
            final(self).scissors() == old(self).scissors(),
            final(self).spec_degradation() == old(self).spec_degradation(),
            final(self)@ == if Self::can_fill(cell) && !old(self).fill_region(
                rect,
            ).spec_is_empty() {
                filled(
                    old(self)@,
                    old(self).spec_width(),
                    old(self).fill_region(rect).x as int,
                    old(self).fill_region(rect).spec_right(),
                    old(self).fill_region(rect).y as int,
                    old(self).fill_region(rect).spec_bottom(),
                    cell,
                )
            } else {
                old(self)@
            },
            old(self).glyphs_wf() ==> final(self).glyphs_wf(),
    {
        if cell.is_continuation() || cell.width() > 1 {
            return;
        }
        let clip = self.current_scissor();
        let bounds = Rect::new(0, 0, self.width, self.height);
        let region = rect.intersection(&clip).intersection(&bounds);
        if region.is_empty() {
            return;
        }
        let a = region.x;
        let b = region.right();
        let top = region.y;
        let bottom = region.bottom();
        let ghost w = self.width as int;
        let ghost h = self.height as int;
        let ghost before = self@;
        let mut y = top;
        proof {
            assert(self@ =~= filled(before, w, a as int, b as int, top as int, top as int, cell));
        }
        while y < bottom
            invariant
                self.wf(),
                self.width == old(self).width,
                self.height == old(self).height,
                w == self.width,
                h == self.height,
                self.scissors() == old(self).scissors(),
                self.spec_degradation() == old(self).spec_degradation(),
                before == old(self)@,
                before.len() == w * h,
                Self::can_fill(cell),
                a < b <= w,
                top <= y <= bottom <= h,
                self@ == filled(before, w, a as int, b as int, top as int, y as int, cell),
                old(self).glyphs_wf() ==> self.glyphs_wf(),
            decreases bottom - y,
        {
            let ghost mid = self@;
            let ghost row = self.spec_row(y as int);
            let ghost was_ok = self.glyphs_wf();
            let ghost mid_rows = *self;
            proof {
                lemma_row_bounds(w, h, y as int);
                assert(row =~= before.subrange(y * w, (y + 1) * w));
                assert(row.len() == w);
            }
            self.write_span(y, a, b, cell, cell);
            proof {
                lemma_filled_step(before, w, h, a as int, b as int, top as int, y as int, cell);
                assert(self@ =~= filled(before, w, a as int, b as int, top as int, y + 1, cell));
                if old(self).glyphs_wf() {
                    lemma_fill_keeps_glyphs(row, a as int, b as int, cell);
                    lemma_replace_row_rows(mid, w, h, y as int, span_row(row, a as int, b as int, cell, cell));
                    assert forall|r: int| 0 <= r < self.spec_height() implies glyphs_ok(
                        #[trigger] self.spec_row(r),
                    ) by {
                        if r != y {
                            assert(self.spec_row(r) == mid_rows.spec_row(r));
                        }
                    }
                }
            }
            y += 1;
        }
    }

    /// Blanks every cell, inside the clip region and outside it.
    pub fn clear(&mut self)
        requires
            old(self).wf(),
        ensures
            final(self).wf(),
            final(self).spec_width() == old(self).spec_width(),
            final(self).spec_height() == old(self).spec_height(),
            final(self).scissors() == old(self).scissors(),
            final(self).spec_degradation() == old(self).spec_degradation(),
            final(self)@ == Seq::new(old(self)@.len(), |i: int| Cell::blank()),
    {
        let n = self.cells.len();
        let mut i: usize = 0;
        while i < n
            invariant
                n == self@.len(),
                n == old(self)@.len(),
                self.width == old(self).width,
                self.height == old(self).height,
                self.scissor_stack == old(self).scissor_stack,
                self.degradation == old(self).degradation,
                0 <= i <= n,
                forall|k: int| 0 <= k < i ==> self@[k] == Cell::blank(),
            decreases n - i,
        {
            self.cells[i] = Cell::default();
            i += 1;
        }
        assert(self@ =~= Seq::new(old(self)@.len(), |i: int| Cell::blank()));
    }

    /// The innermost clip rectangle.
    pub fn current_scissor(&self) -> (r: Rect)
        requires
            self.wf(),
        ensures
            r == self.clip(),
    {
        self.scissor_stack[self.scissor_stack.len() - 1]
    }

    /// Number of clip rectangles pushed and not yet popped.
    pub fn scissor_depth(&self) -> (n: usize)
        requires
            self.wf(),
        ensures
            n == self.scissors().len() - 1,
    {
        self.scissor_stack.len() - 1
    }

    /// Narrows the clip region to its overlap with `rect`, until the
    /// matching `pop_scissor`. A cell is in the new region exactly when it was
    /// in the old one and lies in `rect`.
    pub fn push_scissor(&mut self, rect: Rect)
        requires
            old(self).wf(),
        ensures
            final(self).wf(),
            final(self)@ == old(self)@,
            final(self).spec_width() == old(self).spec_width(),
            final(self).spec_height() == old(self).spec_height(),
            final(self).spec_degradation() == old(self).spec_degradation(),
            final(self).scissors() == old(self).scissors().push(
                old(self).clip().spec_intersection(rect),
            ),
            forall|x: int, y: int|
                final(self).clip().spec_contains(x, y) <==> (old(self).clip().spec_contains(x, y)
                    && rect.spec_contains(x, y)),
    {
        let current = self.current_scissor();
        let cut = current.intersection(&rect);
        self.scissor_stack.push(cut);
        proof {
            assert forall|x: int, y: int|
                self.clip().spec_contains(x, y) <==> (old(self).clip().spec_contains(x, y)
                    && rect.spec_contains(x, y)) by {
                crate::geometry::lemma_intersection_contains(old(self).clip(), rect, x, y);
            }
        }
    }

    /// Undoes the latest `push_scissor`. With nothing pushed the call changes
    /// nothing: the whole-grid rectangle is never removed.
    pub fn pop_scissor(&mut self)
        requires
            old(self).wf(),
        ensures
            final(self).wf(),
            final(self)@ == old(self)@,
            final(self).spec_width() == old(self).spec_width(),
            final(self).spec_height() == old(self).spec_height(),
            final(self).spec_degradation() == old(self).spec_degradation(),
            final(self).scissors() == if old(self).scissors().len() > 1 {
                old(self).scissors().drop_last()
            } else {
                old(self).scissors()
            },
    {
        if self.scissor_stack.len() > 1 {
            self.scissor_stack.pop();
        }
    }
}

/// The rows of a grid in which row `y` was replaced: row `y` is the new
/// row, every other row is as it was.
pub proof fn lemma_replace_row_rows(cells: Seq<Cell>, width: int, height: int, y: int, new_row: Seq<Cell>)
    requires
        0 <= width <= u16::MAX,
        0 <= y < height <= u16::MAX,
        cells.len() == width * height,
        new_row.len() == width,
    ensures
        replace_row(cells, width, y, new_row).subrange(y * width, (y + 1) * width) == new_row,
        forall|r: int|
            0 <= r < height && r != y ==> #[trigger] replace_row(cells, width, y, new_row).subrange(
                r * width,
                (r + 1) * width,
            ) == cells.subrange(r * width, (r + 1) * width),
{
    lemma_row_bounds(width, height, y);
    let new = replace_row(cells, width, y, new_row);
    assert(new.subrange(y * width, (y + 1) * width) =~= new_row);
    assert forall|r: int| 0 <= r < height && r != y implies #[trigger] new.subrange(
        r * width,
        (r + 1) * width,
    ) == cells.subrange(r * width, (r + 1) * width) by {
        lemma_row_bounds(width, height, r);
        if r < y {
            assert((r + 1) * width <= y * width) by (nonlinear_arith)
                requires
                    r + 1 <= y,
                    0 <= width,
            ;
        } else {
            assert((y + 1) * width <= r * width) by (nonlinear_arith)
                requires
                    y + 1 <= r,
                    0 <= width,
            ;
        }
        assert(new.subrange(r * width, (r + 1) * width) =~= cells.subrange(
            r * width,
            (r + 1) * width,
        ));
    }
}

/// A fill that has reached row `y` and then writes row `y` has reached row
/// `y + 1`.
pub proof fn lemma_filled_step(
    cells: Seq<Cell>,
    width: int,
    height: int,
    a: int,
    b: int,
    top: int,
    y: int,
    cell: Cell,
)
    requires
        0 < width <= u16::MAX,
        0 <= top <= y < height <= u16::MAX,
        cells.len() == width * height,
    ensures
        replace_row(
            filled(cells, width, a, b, top, y, cell),
            width,
            y,
            span_row(cells.subrange(y * width, (y + 1) * width), a, b, cell, cell),
        ) == filled(cells, width, a, b, top, y + 1, cell),
{
    lemma_row_bounds(width, height, y);
    let mid = filled(cells, width, a, b, top, y, cell);
    let new_row = span_row(cells.subrange(y * width, (y + 1) * width), a, b, cell, cell);
    let left = replace_row(mid, width, y, new_row);
    let right = filled(cells, width, a, b, top, y + 1, cell);
    assert(top * width <= y * width) by (nonlinear_arith)
        requires
            top <= y,
            0 <= width,
    ;
    assert forall|i: int| 0 <= i < cells.len() implies left[i] == right[i] by {
        if y * width <= i < (y + 1) * width {
            lemma_index_bounds(width, height, i - y * width, y);
            assert(i / width == y);
        }
    }
    assert(left =~= right);
}

/// Whether two rows hold the same cells.
pub fn rows_equal(a: &[Cell], b: &[Cell]) -> (r: bool)
    requires
        a@.len() == b@.len(),
    ensures
        r == (a@ == b@),
{
    let n = a.len();
    let mut i: usize = 0;
    while i < n
        invariant
            n == a@.len(),
            n == b@.len(),
            0 <= i <= n,
            forall|k: int| 0 <= k < i ==> a@[k] == b@[k],
        decreases n - i,
    {
        if !a[i].bits_eq(&b[i]) {
            return false;
        }
        i += 1;
    }
    assert(a@ =~= b@);
    true
}

} // verus!
