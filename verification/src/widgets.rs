//! What widgets share: the widget traits, styling of an area, and drawing
//! of a span of text.

use crate::buffer::{lemma_index_bounds, written, Buffer};
use crate::cell::{Cell, CellContent};
use crate::frame::{interned_id, interned_pool, Frame};
use crate::geometry::Rect;
use crate::style::{apply_style, Style};
use crate::text::{chars_of, clusters_of, display_width, grapheme_clusters, width_of};
use vstd::prelude::*;

verus! {

/// Something that draws itself into an area of a frame.
pub trait Widget {
    /// Draws the widget into `area`. The frame keeps its extent, clip stack
    /// and degradation level.
    fn render(&self, area: Rect, frame: &mut Frame)
        requires
            old(frame).wf(),
        ensures
            final(frame).wf(),
            final(frame).same_shape(old(frame)),
    ;

    /// Whether the widget is drawn even when only essential content is.
    fn is_essential(&self) -> bool {
        false
    }
}

/// Something that draws itself from state it may change while drawing.
pub trait StatefulWidget {
    /// The state.
    type State;

    /// Draws the widget into `area`. The frame keeps its extent, clip stack
    /// and degradation level.
    fn render(&self, area: Rect, frame: &mut Frame, state: &mut Self::State)
        requires
            old(frame).wf(),
        ensures
            final(frame).wf(),
            final(frame).same_shape(old(frame)),
    ;
}

/// The grid with `style` laid over the cells of `area`.
pub open spec fn styled_area(cells: Seq<Cell>, width: int, area: Rect, style: Style) -> Seq<Cell> {
    Seq::new(
        cells.len(),
        |i: int|
            if width > 0 && area.spec_contains(i % width, i / width) {
                style.applied_to(cells[i])
            } else {
                cells[i]
            },
    )
}

/// The grid with `style` laid over the cells of `area` that come before
/// `(x, y)` in row-major order.
pub open spec fn styled_upto(
    cells: Seq<Cell>,
    width: int,
    area: Rect,
    style: Style,
    x: int,
    y: int,
) -> Seq<Cell> {
    Seq::new(
        cells.len(),
        |i: int|
            if width > 0 && area.spec_contains(i % width, i / width) && (i / width < y || (i
                / width == y && i % width < x)) {
                style.applied_to(cells[i])
            } else {
                cells[i]
            },
    )
}

/// Lays a style over every cell of `area` that lies in the grid. Content
/// stays; the clip region plays no part.
pub fn set_style_area(buf: &mut Buffer, area: Rect, style: Style)
    requires
        old(buf).wf(),
    ensures
        final(buf).wf(),
        final(buf).spec_width() == old(buf).spec_width(),
        final(buf).spec_height() == old(buf).spec_height(),
        final(buf).scissors() == old(buf).scissors(),
        final(buf).spec_degradation() == old(buf).spec_degradation(),
        final(buf)@ == styled_area(old(buf)@, old(buf).spec_width(), area, style),
        old(buf).glyphs_wf() ==> final(buf).glyphs_wf(),
{
    proof {
        if buf.glyphs_wf() {
            lemma_styled_keeps_glyphs(buf, area, style);
        }
    }
    set_style_area_cells(buf, area, style);
    proof {
        if old(buf).glyphs_wf() {
            assert forall|y: int| 0 <= y < buf.spec_height() implies crate::glyph::glyphs_ok(
                #[trigger] buf.spec_row(y),
            ) by {
                assert(crate::glyph::glyphs_ok(
                    styled_area(old(buf)@, old(buf).spec_width(), area, style).subrange(
                        y * old(buf).spec_width(),
                        (y + 1) * old(buf).spec_width(),
                    ),
                ));
            }
        }
    }
}

/// Styling leaves the glyphs of every row whole.
pub proof fn lemma_styled_keeps_glyphs(buf: &Buffer, area: Rect, style: Style)
    requires
        buf.wf(),
        buf.glyphs_wf(),
    ensures
        forall|y: int|
            0 <= y < buf.spec_height() ==> crate::glyph::glyphs_ok(
                #[trigger] styled_area(buf@, buf.spec_width(), area, style).subrange(
                    y * buf.spec_width(),
                    (y + 1) * buf.spec_width(),
                ),
            ),
{
    buf.lemma_wf();
    let w = buf.spec_width();
    let h = buf.spec_height();
    let new = styled_area(buf@, w, area, style);
    assert forall|y: int| 0 <= y < h implies crate::glyph::glyphs_ok(
        #[trigger] new.subrange(y * w, (y + 1) * w),
    ) by {
        crate::buffer::lemma_row_bounds(w, h, y);
        let row = buf.spec_row(y);
        let new_row = new.subrange(y * w, (y + 1) * w);
        assert(crate::glyph::glyphs_ok(row));
        assert forall|i: int| 0 <= i < row.len() implies new_row[i].content
            == row[i].content by {
            assert(new_row[i] == new[y * w + i]);
            assert(row[i] == buf@[y * w + i]);
        }
        crate::glyph::lemma_same_content_keeps_glyphs(row, new_row);
    }
}

/// Lays a style over every cell of `area` that lies in the grid.
fn set_style_area_cells(buf: &mut Buffer, area: Rect, style: Style)
    requires
        old(buf).wf(),
    ensures
        final(buf).wf(),
        final(buf).spec_width() == old(buf).spec_width(),
        final(buf).spec_height() == old(buf).spec_height(),
        final(buf).scissors() == old(buf).scissors(),
        final(buf).spec_degradation() == old(buf).spec_degradation(),
        final(buf)@ == styled_area(old(buf)@, old(buf).spec_width(), area, style),
{
    let ghost before = buf@;
    let ghost w = buf.spec_width();
    let ghost h = buf.spec_height();
    proof {
        buf.lemma_wf();
    }
    if style.is_empty() {
        proof {
            assert(buf@ =~= styled_area(before, w, area, style));
        }
        return;
    }
    let width = buf.width();
    let height = buf.height();
    let bottom = if area.bottom() < height {
        area.bottom()
    } else {
        height
    };
    let right = if area.right() < width {
        area.right()
    } else {
        width
    };
    if area.y >= bottom || area.x >= right {
        proof {
            assert forall|i: int| 0 <= i < before.len() implies buf@[i] == styled_area(
                before,
                w,
                area,
                style,
            )[i] by {
                if w > 0 {
                    lemma_cell_position(w, h, i);
                }
            }
            assert(buf@ =~= styled_area(before, w, area, style));
        }
        return;
    }
    let mut y = area.y;
    proof {
        assert(buf@ =~= styled_upto(before, w, area, style, 0, y as int));
    }
    while y < bottom
        invariant
            buf.wf(),
            buf.spec_width() == w,
            buf.spec_height() == h,
            w == width,
            h == height,
            0 < w,
            before.len() == w * h,
            buf.scissors() == old(buf).scissors(),
            buf.spec_degradation() == old(buf).spec_degradation(),
            area.y <= y <= bottom <= h,
            bottom == if area.spec_bottom() < h {
                area.spec_bottom()
            } else {
                h
            },
            right == if area.spec_right() < w {
                area.spec_right()
            } else {
                w
            },
            area.x < right,
            buf@ == styled_upto(before, w, area, style, 0, y as int),
        decreases bottom - y,
    {
        let mut x = area.x;
        while x < right
            invariant
                buf.wf(),
                buf.spec_width() == w,
                buf.spec_height() == h,
                w == width,
                h == height,
                0 < w,
                before.len() == w * h,
                buf.scissors() == old(buf).scissors(),
                buf.spec_degradation() == old(buf).spec_degradation(),
                area.y <= y < bottom <= h,
                bottom <= area.spec_bottom(),
                right == if area.spec_right() < w {
                    area.spec_right()
                } else {
                    w
                },
                area.x <= x <= right,
                buf@ == styled_upto(before, w, area, style, x as int, y as int),
            decreases right - x,
        {
            let ghost prev = buf@;
            proof {
                lemma_index_bounds(w, h, x as int, y as int);
            }
            match buf.get_mut(x, y) {
                Some(cell) => {
                    apply_style(cell, style);
                },
                None => {},
            }
            proof {
                let idx = y * w + x;
                assert(buf@ == prev.update(idx, style.applied_to(prev[idx])));
                assert forall|i: int| 0 <= i < before.len() implies buf@[i] == styled_upto(
                    before,
                    w,
                    area,
                    style,
                    x + 1,
                    y as int,
                )[i] by {
                    lemma_cell_position(w, h, i);
                    if i == idx {
                        assert(i % w == x && i / w == y);
                        assert(prev[i] == before[i]);
                        assert(area.spec_contains(x as int, y as int));
                    } else {
                        assert(!(i / w == y && i % w == x));
                        assert(buf@[i] == prev[i]);
                    }
                }
                assert(buf@ =~= styled_upto(before, w, area, style, x + 1, y as int));
            }
            x += 1;
        }
        proof {
            assert forall|i: int| 0 <= i < before.len() implies buf@[i] == styled_upto(
                before,
                w,
                area,
                style,
                0,
                y + 1,
            )[i] by {
                lemma_cell_position(w, h, i);
            }
            assert(buf@ =~= styled_upto(before, w, area, style, 0, y + 1));
        }
        y += 1;
    }
    proof {
        assert forall|i: int| 0 <= i < before.len() implies buf@[i] == styled_area(
            before,
            w,
            area,
            style,
        )[i] by {
            lemma_cell_position(w, h, i);
        }
        assert(buf@ =~= styled_area(before, w, area, style));
    }
}

/// The row and column of a cell index lie in the grid and give the index
/// back.
pub proof fn lemma_cell_position(width: int, height: int, i: int)
    requires
        0 < width,
        0 <= height,
        0 <= i < width * height,
    ensures
        0 <= i % width < width,
        0 <= i / width < height,
        i == (i / width) * width + i % width,
{
    vstd::arithmetic::div_mod::lemma_fundamental_div_mod(i, width);
    vstd::arithmetic::div_mod::lemma_mod_bound(i, width);
    vstd::arithmetic::div_mod::lemma_div_pos_is_pos(i, width);
    let q = i / width;
    assert(q < height) by (nonlinear_arith)
        requires
            0 < width,
            0 <= i < width * height,
            i == width * q + i % width,
            0 <= i % width < width,
    ;
    assert(width * q == q * width) by (nonlinear_arith);
}

/// A grid, a glyph pool and a column: what drawing text goes through.
pub struct DrawState {
    pub cells: Seq<Cell>,
    pub pool: Seq<Seq<char>>,
    pub x: int,
}

/// Whether a grapheme cluster goes to the pool: it covers more than one
/// column or holds more than one character.
pub open spec fn is_pooled(g: Seq<char>, columns: nat) -> bool {
    columns > 1 || g.len() > 1
}

/// The content of the cell for a cluster of `columns` columns: the id of
/// the pooled glyph, or the cluster's one character. `None` where the pool
/// has no id left or the cluster is empty.
pub open spec fn cluster_content(pool: Seq<Seq<char>>, g: Seq<char>, columns: nat) -> Option<
    CellContent,
> {
    if is_pooled(g, columns) {
        match interned_id(pool, g) {
            Some(id) => Some(CellContent::Grapheme { id, width: (columns % 256) as u8 }),
            None => None,
        }
    } else if g.len() == 1 {
        Some(CellContent::Char(g[0]))
    } else {
        None
    }
}

/// The pool after a cluster was given its content.
pub open spec fn pool_after(pool: Seq<Seq<char>>, g: Seq<char>, columns: nat) -> Seq<Seq<char>> {
    if is_pooled(g, columns) {
        interned_pool(pool, g)
    } else {
        pool
    }
}

/// What drawing the clusters from index `i` on makes of a state. Clusters
/// are written one after the other in row `y`, each styled, from column
/// `s.x` on. A cluster without width is passed over; drawing ends at
/// `max_x`, and before a cluster that would reach past it.
pub open spec fn draw_from(
    s: DrawState,
    width: int,
    height: int,
    clip: Rect,
    clusters: Seq<Seq<char>>,
    i: int,
    y: int,
    style: Style,
    max_x: int,
) -> DrawState
    decreases clusters.len() - i,
{
    if i < 0 || i >= clusters.len() || s.x >= max_x {
        s
    } else {
        let g = clusters[i];
        let columns = width_of(g);
        if columns == 0 {
            draw_from(s, width, height, clip, clusters, i + 1, y, style, max_x)
        } else if s.x + columns > max_x {
            s
        } else {
            let pool = pool_after(s.pool, g, columns);
            match cluster_content(s.pool, g, columns) {
                Some(content) => {
                    let cell = style.applied_to(Cell { content, ..Cell::blank() });
                    draw_from(
                        DrawState {
                            cells: written(s.cells, width, height, clip, s.x, y, cell),
                            pool,
                            x: s.x + columns,
                        },
                        width,
                        height,
                        clip,
                        clusters,
                        i + 1,
                        y,
                        style,
                        max_x,
                    )
                },
                None => draw_from(
                    DrawState { pool, ..s },
                    width,
                    height,
                    clip,
                    clusters,
                    i + 1,
                    y,
                    style,
                    max_x,
                ),
            }
        }
    }
}

/// The extent and clip region of the grid that is drawn into.
pub struct Canvas {
    pub width: int,
    pub height: int,
    pub clip: Rect,
}

/// The canvas of a frame.
pub open spec fn canvas_of(frame: &Frame) -> Canvas {
    Canvas {
        width: frame.buffer.spec_width(),
        height: frame.buffer.spec_height(),
        clip: frame.buffer.clip(),
    }
}

/// The grid and the pool of a frame, with a column.
pub open spec fn state_of(frame: &Frame, x: int) -> DrawState {
    DrawState { cells: frame.buffer@, pool: frame.pool@, x }
}

/// What drawing `text` into row `y` from column `x` on makes of a state.
/// The column of the result is the column after the last cluster drawn.
pub open spec fn text_drawn(
    s: DrawState,
    c: Canvas,
    text: Seq<char>,
    x: int,
    y: int,
    style: Style,
    max_x: int,
) -> DrawState {
    draw_from(
        DrawState { x, ..s },
        c.width,
        c.height,
        c.clip,
        clusters_of(text),
        0,
        y,
        style,
        max_x,
    )
}

/// A widget that draws nothing.
#[derive(Debug, Clone, Copy, PartialEq, Eq, Structural)]
pub struct Blank;

impl Widget for Blank {
    fn render(&self, area: Rect, frame: &mut Frame)
        ensures
            *final(frame) == *old(frame),
    {
    }
}

/// The grid after the characters `text[i..end]` were written into row `y`,
/// one cell each from column `x` on, each styled; nothing is written from
/// column `limit` on.
pub open spec fn chars_drawn(
    cells: Seq<Cell>,
    c: Canvas,
    text: Seq<char>,
    i: int,
    end: int,
    x: int,
    y: int,
    limit: int,
    style: Style,
) -> Seq<Cell>
    decreases end - i,
{
    if i < 0 || i >= end || x >= limit {
        cells
    } else {
        chars_drawn(
            written(
                cells,
                c.width,
                c.height,
                c.clip,
                x,
                y,
                style.applied_to(Cell { content: CellContent::Char(text[i]), ..Cell::blank() }),
            ),
            c,
            text,
            i + 1,
            end,
            x + 1,
            y,
            limit,
            style,
        )
    }
}

/// Writes the first `count` characters into row `y`, one cell each from
/// column `x` on, each styled. Nothing is written from column `limit` on.
pub fn draw_chars(
    buf: &mut Buffer,
    chars: &Vec<char>,
    count: usize,
    x: usize,
    y: u16,
    limit: usize,
    style: Style,
)
    requires
        old(buf).wf(),
        count <= chars@.len(),
    ensures
        final(buf).wf(),
        final(buf).spec_width() == old(buf).spec_width(),
        final(buf).spec_height() == old(buf).spec_height(),
        final(buf).scissors() == old(buf).scissors(),
        final(buf).spec_degradation() == old(buf).spec_degradation(),
        old(buf).glyphs_wf() ==> final(buf).glyphs_wf(),
        final(buf)@ == chars_drawn(
            old(buf)@,
            Canvas {
                width: old(buf).spec_width(),
                height: old(buf).spec_height(),
                clip: old(buf).clip(),
            },
            chars@,
            0,
            count as int,
            x as int,
            y as int,
            limit as int,
            style,
        ),
{
    let ghost c = Canvas {
        width: buf.spec_width(),
        height: buf.spec_height(),
        clip: buf.clip(),
    };
    let ghost goal = chars_drawn(
        buf@,
        c,
        chars@,
        0,
        count as int,
        x as int,
        y as int,
        limit as int,
        style,
    );
    proof {
        buf.lemma_wf();
    }
    let mut i: usize = 0;
    while i < count && x.saturating_add(i) < limit && x.saturating_add(i) <= 0xFFFF
        invariant
            buf.wf(),
            buf.spec_width() == old(buf).spec_width(),
            buf.spec_height() == old(buf).spec_height(),
            buf.scissors() == old(buf).scissors(),
            buf.spec_degradation() == old(buf).spec_degradation(),
            old(buf).glyphs_wf() ==> buf.glyphs_wf(),
            c == (Canvas {
                width: buf.spec_width(),
                height: buf.spec_height(),
                clip: buf.clip(),
            }),
            c.width <= u16::MAX,
            0 <= i <= count <= chars@.len(),
            goal == chars_drawn(
                buf@,
                c,
                chars@,
                i as int,
                count as int,
                x + i,
                y as int,
                limit as int,
                style,
            ),
        decreases count - i,
    {
        let mut cell = Cell::from_char(chars[i]);
        apply_style(&mut cell, style);
        buf.set((x + i) as u16, y, cell);
        i += 1;
    }
    proof {
        lemma_chars_beyond_grid(buf@, c, chars@, i as int, count as int, x + i, y as int, limit as int, style);
    }
}

/// Characters that would stand beyond the last column of the grid change
/// nothing.
pub proof fn lemma_chars_beyond_grid(
    cells: Seq<Cell>,
    c: Canvas,
    text: Seq<char>,
    i: int,
    end: int,
    x: int,
    y: int,
    limit: int,
    style: Style,
)
    requires
        i >= end || x >= limit || x >= c.width,
        0 <= x,
    ensures
        chars_drawn(cells, c, text, i, end, x, y, limit, style) == cells,
    decreases end - i,
{
    if !(i < 0 || i >= end || x >= limit) {
        lemma_chars_beyond_grid(cells, c, text, i + 1, end, x + 1, y, limit, style);
    }
}

/// Drawing moves the column to the right only, and not past `max_x`.
pub proof fn lemma_draw_column(
    s: DrawState,
    width: int,
    height: int,
    clip: Rect,
    clusters: Seq<Seq<char>>,
    i: int,
    y: int,
    style: Style,
    max_x: int,
)
    ensures
        s.x <= draw_from(s, width, height, clip, clusters, i, y, style, max_x).x,
        draw_from(s, width, height, clip, clusters, i, y, style, max_x).x <= max_x || draw_from(
            s,
            width,
            height,
            clip,
            clusters,
            i,
            y,
            style,
            max_x,
        ).x == s.x,
    decreases clusters.len() - i,
{
    if !(i < 0 || i >= clusters.len() || s.x >= max_x) {
        let g = clusters[i];
        let columns = width_of(g);
        if columns == 0 {
            lemma_draw_column(s, width, height, clip, clusters, i + 1, y, style, max_x);
        } else if s.x + columns <= max_x {
            let pool = pool_after(s.pool, g, columns);
            match cluster_content(s.pool, g, columns) {
                Some(content) => {
                    let cell = style.applied_to(Cell { content, ..Cell::blank() });
                    lemma_draw_column(
                        DrawState {
                            cells: written(s.cells, width, height, clip, s.x, y, cell),
                            pool,
                            x: s.x + columns,
                        },
                        width,
                        height,
                        clip,
                        clusters,
                        i + 1,
                        y,
                        style,
                        max_x,
                    );
                },
                None => {
                    lemma_draw_column(
                        DrawState { pool, ..s },
                        width,
                        height,
                        clip,
                        clusters,
                        i + 1,
                        y,
                        style,
                        max_x,
                    );
                },
            }
        }
    }
}

/// Draws `content` into row `y` from column `x` on, one styled cell per
/// grapheme cluster, and gives the column after the last cluster drawn.
/// Nothing is drawn at or past `max_x`.
pub fn draw_text_span(
    frame: &mut Frame,
    x: u16,
    y: u16,
    content: &str,
    style: Style,
    max_x: u16,
) -> (end: u16)
    requires
        old(frame).wf(),
    ensures
        final(frame).wf(),
        final(frame).same_shape(old(frame)),
        final(frame).cursor_position == old(frame).cursor_position,
        final(frame).cursor_visible == old(frame).cursor_visible,
        final(frame).hit_grid == old(frame).hit_grid,
        ({
            let s = draw_from(
                DrawState { cells: old(frame).buffer@, pool: old(frame).pool@, x: x as int },
                old(frame).buffer.spec_width(),
                old(frame).buffer.spec_height(),
                old(frame).buffer.clip(),
                clusters_of(content@),
                0,
                y as int,
                style,
                max_x as int,
            );
            &&& final(frame).buffer@ == s.cells
            &&& final(frame).pool@ == s.pool
            &&& end == s.x
        }),
        state_of(final(frame), end as int) == text_drawn(
            state_of(old(frame), x as int),
            canvas_of(old(frame)),
            content@,
            x as int,
            y as int,
            style,
            max_x as int,
        ),
        x <= end,
        end <= max_x || end == x,
        old(frame).buffer.glyphs_wf() ==> final(frame).buffer.glyphs_wf(),
{
    let clusters = grapheme_clusters(content);
    let ghost cl = clusters_of(content@);
    let ghost w = frame.buffer.spec_width();
    let ghost h = frame.buffer.spec_height();
    let ghost clip = frame.buffer.clip();
    let ghost start = DrawState { cells: frame.buffer@, pool: frame.pool@, x: x as int };
    let ghost goal = draw_from(start, w, h, clip, cl, 0, y as int, style, max_x as int);
    proof {
        lemma_draw_column(start, w, h, clip, cl, 0, y as int, style, max_x as int);
    }
    let n = clusters.len();
    let mut cur = x;
    let mut i: usize = 0;
    while i < n
        invariant
            frame.wf(),
            frame.same_shape(old(frame)),
            frame.cursor_position == old(frame).cursor_position,
            frame.cursor_visible == old(frame).cursor_visible,
            frame.hit_grid == old(frame).hit_grid,
            w == frame.buffer.spec_width(),
            h == frame.buffer.spec_height(),
            clip == frame.buffer.clip(),
            n == clusters@.len(),
            crate::text::strings_view(clusters@) == cl,
            0 <= i <= n,
            x <= cur,
            cur <= max_x || cur == x,
            start == (DrawState {
                cells: old(frame).buffer@,
                pool: old(frame).pool@,
                x: x as int,
            }),
            goal == draw_from(start, w, h, clip, cl, 0, y as int, style, max_x as int),
            cl == clusters_of(content@),
            old(frame).buffer.glyphs_wf() ==> frame.buffer.glyphs_wf(),
            goal == draw_from(
                DrawState { cells: frame.buffer@, pool: frame.pool@, x: cur as int },
                w,
                h,
                clip,
                cl,
                i as int,
                y as int,
                style,
                max_x as int,
            ),
        decreases n - i,
    {
        let ghost here = DrawState { cells: frame.buffer@, pool: frame.pool@, x: cur as int };
        if cur >= max_x {
            assert(goal == here);
            return cur;
        }
        let g = clusters[i].as_str();
        assert(cl[i as int] == g@);
        let columns = display_width(g);
        if columns == 0 {
            i += 1;
            continue;
        }
        if columns > (max_x - cur) as usize {
            assert(goal == here);
            return cur;
        }
        let chars = chars_of(g);
        let content = if columns > 1 || chars.len() > 1 {
            match frame.intern(g) {
                Some(id) => Some(CellContent::from_grapheme(id, (columns % 256) as u8)),
                None => None,
            }
        } else if chars.len() == 1 {
            Some(CellContent::from_char(chars[0]))
        } else {
            None
        };
        assert(content == cluster_content(here.pool, g@, columns as nat));
        assert(frame.pool@ == pool_after(here.pool, g@, columns as nat));
        match content {
            Some(content) => {
                let mut cell = Cell::new(content);
                apply_style(&mut cell, style);
                frame.buffer.set(cur, y, cell);
                cur = (cur as usize + columns) as u16;
            },
            None => {},
        }
        i += 1;
    }
    cur
}

} // verus!
