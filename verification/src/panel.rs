//! Panel: a border with an optional title and subtitle around a child
//! widget.

use crate::borders::{
    Alignment, BorderSet, BorderType, Borders, BORDER_BOTTOM, BORDER_LEFT, BORDER_RIGHT,
    BORDER_TOP,
};
use crate::buffer::{filled, written, Buffer, DegradationLevel};
use crate::cell::{Cell, CellContent};
use crate::frame::Frame;
use crate::geometry::{sat_add, sat_sub, Rect, Sides};
use crate::style::{apply_style, Style};
use crate::text::{
    clusters_of, display_width, grapheme_clusters, strings_view, width_of,
};
use crate::widgets::{
    canvas_of, draw_text_span, set_style_area, state_of, styled_area, text_drawn, Canvas,
    DrawState, Widget,
};
use vstd::prelude::*;

verus! {

/// A bordered container that draws a child widget inside its border and
/// padding.
#[derive(Debug, Clone)]
pub struct Panel<'a, W> {
    pub child: W,
    pub borders: Borders,
    pub border_style: Style,
    pub border_type: BorderType,
    pub title: Option<&'a str>,
    pub title_alignment: Alignment,
    pub title_style: Style,
    pub subtitle: Option<&'a str>,
    pub subtitle_alignment: Alignment,
    pub subtitle_style: Style,
    pub style: Style,
    pub padding: Sides,
}

/// The area inside the borders drawn on the given sides: one column or row
/// less for each side, never less than none.
pub open spec fn inner_area(borders: Borders, area: Rect) -> Rect {
    let left = borders.has(BORDER_LEFT);
    let top = borders.has(BORDER_TOP);
    let right = borders.has(BORDER_RIGHT);
    let bottom = borders.has(BORDER_BOTTOM);
    let x = if left {
        sat_add(area.x as int, 1)
    } else {
        area.x as int
    };
    let y = if top {
        sat_add(area.y as int, 1)
    } else {
        area.y as int
    };
    let w1 = if left {
        sat_sub(area.width as int, 1)
    } else {
        area.width as int
    };
    let h1 = if top {
        sat_sub(area.height as int, 1)
    } else {
        area.height as int
    };
    let w2 = if right {
        sat_sub(w1, 1)
    } else {
        w1
    };
    let h2 = if bottom {
        sat_sub(h1, 1)
    } else {
        h1
    };
    Rect { x: x as u16, y: y as u16, width: w2 as u16, height: h2 as u16 }
}

/// The clusters from index `i` on that fit `target` columns when `used`
/// are taken, joined. Clusters without width are left out; the first cluster
/// that does not fit ends the text.
pub open spec fn fitting_prefix(clusters: Seq<Seq<char>>, i: int, used: int, target: int) -> Seq<
    char,
>
    decreases clusters.len() - i,
{
    if i < 0 || i >= clusters.len() {
        Seq::empty()
    } else {
        let w = width_of(clusters[i]) as int;
        if w == 0 {
            fitting_prefix(clusters, i + 1, used, target)
        } else if used + w > target {
            Seq::empty()
        } else {
            clusters[i] + fitting_prefix(clusters, i + 1, used + w, target)
        }
    }
}

/// The grid after a write of `cell` at `(x, y)` on a canvas.
pub open spec fn set_on(cells: Seq<Cell>, c: Canvas, x: int, y: int, cell: Cell) -> Seq<Cell> {
    written(cells, c.width, c.height, c.clip, x, y, cell)
}

/// The grid after a write of `cell` at `(x, y)` where the condition holds.
pub open spec fn set_if(cond: bool, cells: Seq<Cell>, c: Canvas, x: int, y: int, cell: Cell) -> Seq<
    Cell,
> {
    if cond {
        set_on(cells, c, x, y, cell)
    } else {
        cells
    }
}

/// The cell of a border character in a border style.
pub open spec fn border_cell_of(style: Style, ch: char) -> Cell {
    style.applied_to(Cell { content: CellContent::Char(ch), ..Cell::blank() })
}

/// The grid after the left and right edges were drawn in the rows from `y`
/// up to `bottom`: in each row the left one, then the right one.
pub open spec fn vertical_edges(
    cells: Seq<Cell>,
    c: Canvas,
    x_left: int,
    x_right: int,
    y: int,
    bottom: int,
    left: bool,
    right: bool,
    cell: Cell,
) -> Seq<Cell>
    decreases bottom - y,
{
    if y >= bottom {
        cells
    } else {
        vertical_edges(
            set_if(right, set_if(left, cells, c, x_left, y, cell), c, x_right, y, cell),
            c,
            x_left,
            x_right,
            y + 1,
            bottom,
            left,
            right,
            cell,
        )
    }
}

/// The grid after the top and bottom edges were drawn in the columns from
/// `x` up to `right`: in each column the top one, then the bottom one.
pub open spec fn horizontal_edges(
    cells: Seq<Cell>,
    c: Canvas,
    y_top: int,
    y_bottom: int,
    x: int,
    right: int,
    top: bool,
    bottom: bool,
    cell: Cell,
) -> Seq<Cell>
    decreases right - x,
{
    if x >= right {
        cells
    } else {
        horizontal_edges(
            set_if(bottom, set_if(top, cells, c, x, y_top, cell), c, x, y_bottom, cell),
            c,
            y_top,
            y_bottom,
            x + 1,
            right,
            top,
            bottom,
            cell,
        )
    }
}

/// The grid after the borders of an area were drawn: the vertical edges,
/// the horizontal edges, then the corners where two drawn sides meet.
pub open spec fn borders_drawn(
    borders: Borders,
    style: Style,
    cells: Seq<Cell>,
    c: Canvas,
    area: Rect,
    set: BorderSet,
) -> Seq<Cell> {
    if area.spec_is_empty() {
        cells
    } else {
        let right = area.spec_right();
        let bottom = area.spec_bottom();
        let l = borders.has(BORDER_LEFT);
        let r = borders.has(BORDER_RIGHT);
        let t = borders.has(BORDER_TOP);
        let b = borders.has(BORDER_BOTTOM);
        let v = vertical_edges(
            cells,
            c,
            area.x as int,
            right - 1,
            area.y as int,
            bottom,
            l,
            r,
            border_cell_of(style, set.vertical),
        );
        let h = horizontal_edges(
            v,
            c,
            area.y as int,
            bottom - 1,
            area.x as int,
            right,
            t,
            b,
            border_cell_of(style, set.horizontal),
        );
        let c1 = set_if(l && t, h, c, area.x as int, area.y as int, border_cell_of(style, set.top_left));
        let c2 = set_if(r && t, c1, c, right - 1, area.y as int, border_cell_of(style, set.top_right));
        let c3 = set_if(
            l && b,
            c2,
            c,
            area.x as int,
            bottom - 1,
            border_cell_of(style, set.bottom_left),
        );
        set_if(r && b, c3, c, right - 1, bottom - 1, border_cell_of(style, set.bottom_right))
    }
}

/// What drawing a text on row `y` of the border of an area makes of a
/// state: the text cut to the width between the corners and placed by its
/// alignment. Nothing is drawn on an area narrower than two columns.
pub open spec fn border_text_drawn(
    s: DrawState,
    c: Canvas,
    area: Rect,
    y: int,
    text: Seq<char>,
    alignment: Alignment,
    style: Style,
) -> DrawState {
    if area.height < 1 || area.width < 2 {
        s
    } else {
        let cut = ellipsized(text, sat_sub(area.width as int, 2));
        text_drawn(
            s,
            c,
            cut,
            border_text_column(area, alignment, width_of(cut) as int),
            y,
            style,
            sat_sub(area.spec_right(), 1),
        )
    }
}

/// The style of a text on the border at a degradation level: its own
/// style over the border style, or none where styling is given up.
pub open spec fn border_text_style(level: DegradationLevel, own: Style, border: Style) -> Style {
    if level.rank() < 2 {
        own.spec_merge(border)
    } else {
        Style::empty()
    }
}

/// The grid after an area was blanked as far as the clip region lets.
pub open spec fn blanked(cells: Seq<Cell>, c: Canvas, area: Rect) -> Seq<Cell> {
    let region = area.spec_intersection(c.clip).spec_intersection(
        Rect { x: 0, y: 0, width: c.width as u16, height: c.height as u16 },
    );
    if region.spec_is_empty() {
        cells
    } else {
        filled(
            cells,
            c.width,
            region.x as int,
            region.spec_right(),
            region.y as int,
            region.spec_bottom(),
            Cell::blank(),
        )
    }
}

/// A text cut to `max_width` columns: the text itself where it fits, else
/// as many leading clusters as leave a column for the ellipsis that follows
/// them.
pub open spec fn ellipsized(s: Seq<char>, max_width: int) -> Seq<char> {
    if width_of(s) <= max_width {
        s
    } else if max_width == 0 {
        Seq::empty()
    } else if max_width == 1 {
        seq!['…']
    } else {
        fitting_prefix(clusters_of(s), 0, 0, max_width - 1) + seq!['…']
    }
}

/// The column at which text of `text_width` columns starts on a border of
/// an area, one column in from either corner.
pub open spec fn border_text_column(area: Rect, alignment: Alignment, text_width: int) -> int {
    let available = sat_sub(area.width as int, 2);
    let shown = if text_width <= available {
        text_width
    } else {
        available
    };
    match alignment {
        Alignment::Left => sat_add(area.x as int, 1),
        Alignment::Center => sat_add(sat_add(area.x as int, 1), (available - shown) / 2),
        Alignment::Right => sat_sub(sat_sub(area.spec_right(), 1), shown),
    }
}

impl<'a, W> Panel<'a, W> {
    /// What drawing the panel without its child makes of a state. At
    /// `Skeleton` and beyond the area is blanked. Below it, the style of the
    /// panel is laid over the area unless styling is given up, and the
    /// borders are drawn with the title on the top border and the subtitle on
    /// the bottom border unless decoration is given up.
    pub open spec fn frame_drawn(&self, s: DrawState, c: Canvas, area: Rect, level: DegradationLevel) -> DrawState {
        if area.spec_is_empty() {
            s
        } else if level.rank() >= 4 {
            DrawState { cells: blanked(s.cells, c, area), ..s }
        } else {
            let s1 = if level.rank() < 2 {
                DrawState { cells: styled_area(s.cells, c.width, area, self.style), ..s }
            } else {
                s
            };
            if level.rank() < 3 {
                let set = if level.rank() < 1 {
                    self.border_type.spec_border_set()
                } else {
                    BorderSet::spec_ascii()
                };
                let s2 = DrawState {
                    cells: borders_drawn(self.borders, self.border_style, s1.cells, c, area, set),
                    ..s1
                };
                let s3 = if self.borders.has(BORDER_TOP) && self.title.is_some() {
                    border_text_drawn(
                        s2,
                        c,
                        area,
                        area.y as int,
                        self.title->0@,
                        self.title_alignment,
                        border_text_style(level, self.title_style, self.border_style),
                    )
                } else {
                    s2
                };
                if self.borders.has(BORDER_BOTTOM) && self.subtitle.is_some() {
                    border_text_drawn(
                        s3,
                        c,
                        area,
                        area.spec_bottom() - 1,
                        self.subtitle->0@,
                        self.subtitle_alignment,
                        border_text_style(level, self.subtitle_style, self.border_style),
                    )
                } else {
                    s3
                }
            } else {
                s1
            }
        }
    }

    /// Whether the child is drawn: the area holds a cell, content is not
    /// given up, and borders and padding leave room.
    pub open spec fn draws_child(&self, area: Rect, level: DegradationLevel) -> bool {
        !area.spec_is_empty() && level.rank() < 4 && !inner_area(self.borders, area).spec_inner(
            self.padding,
        ).spec_is_empty()
    }

    /// A panel around `child` with a square border on all sides, no title
    /// and no padding.
    pub fn new(child: W) -> (p: Panel<'a, W>)
        ensures
            p.child == child,
            p.borders == Borders(crate::borders::BORDER_ALL),
            p.border_style == Style::empty(),
            p.border_type == BorderType::Square,
            p.title.is_none(),
            p.title_alignment == Alignment::Left,
            p.title_style == Style::empty(),
            p.subtitle.is_none(),
            p.subtitle_alignment == Alignment::Left,
            p.subtitle_style == Style::empty(),
            p.style == Style::empty(),
            p.padding == (Sides { top: 0, right: 0, bottom: 0, left: 0 }),
    {
        Panel {
            child,
            borders: Borders::all(),
            border_style: Style::new(),
            border_type: BorderType::Square,
            title: None,
            title_alignment: Alignment::Left,
            title_style: Style::new(),
            subtitle: None,
            subtitle_alignment: Alignment::Left,
            subtitle_style: Style::new(),
            style: Style::new(),
            padding: Sides::new(0, 0, 0, 0),
        }
    }

    /// The panel with borders on the given sides.
    pub fn borders(self, borders: Borders) -> (p: Panel<'a, W>)
        ensures
            p == (Panel { borders, ..self }),
    {
        let mut p = self;
        p.borders = borders;
        p
    }

    /// The panel with another border style.
    pub fn border_style(self, style: Style) -> (p: Panel<'a, W>)
        ensures
            p == (Panel { border_style: style, ..self }),
    {
        let mut p = self;
        p.border_style = style;
        p
    }

    /// The panel with another look of the border.
    pub fn border_type(self, border_type: BorderType) -> (p: Panel<'a, W>)
        ensures
            p == (Panel { border_type, ..self }),
    {
        let mut p = self;
        p.border_type = border_type;
        p
    }

    /// The panel with a title on its top border.
    pub fn title(self, title: &'a str) -> (p: Panel<'a, W>)
        ensures
            p == (Panel { title: Some(title), ..self }),
    {
        let mut p = self;
        p.title = Some(title);
        p
    }

    /// The panel with another alignment of the title.
    pub fn title_alignment(self, alignment: Alignment) -> (p: Panel<'a, W>)
        ensures
            p == (Panel { title_alignment: alignment, ..self }),
    {
        let mut p = self;
        p.title_alignment = alignment;
        p
    }

    /// The panel with another style of the title.
    pub fn title_style(self, style: Style) -> (p: Panel<'a, W>)
        ensures
            p == (Panel { title_style: style, ..self }),
    {
        let mut p = self;
        p.title_style = style;
        p
    }

    /// The panel with a subtitle on its bottom border.
    pub fn subtitle(self, subtitle: &'a str) -> (p: Panel<'a, W>)
        ensures
            p == (Panel { subtitle: Some(subtitle), ..self }),
    {
        let mut p = self;
        p.subtitle = Some(subtitle);
        p
    }

    /// The panel with another alignment of the subtitle.
    pub fn subtitle_alignment(self, alignment: Alignment) -> (p: Panel<'a, W>)
        ensures
            p == (Panel { subtitle_alignment: alignment, ..self }),
    {
        let mut p = self;
        p.subtitle_alignment = alignment;
        p
    }

    /// The panel with another style of the subtitle.
    pub fn subtitle_style(self, style: Style) -> (p: Panel<'a, W>)
        ensures
            p == (Panel { subtitle_style: style, ..self }),
    {
        let mut p = self;
        p.subtitle_style = style;
        p
    }

    /// The panel with another style of its area.
    pub fn style(self, style: Style) -> (p: Panel<'a, W>)
        ensures
            p == (Panel { style, ..self }),
    {
        let mut p = self;
        p.style = style;
        p
    }

    /// The panel with padding between border and child.
    pub fn padding(self, padding: Sides) -> (p: Panel<'a, W>)
        ensures
            p == (Panel { padding, ..self }),
    {
        let mut p = self;
        p.padding = padding;
        p
    }

    /// A text cut to `max_width` columns, with an ellipsis where it was cut.
    pub fn ellipsize(&self, s: &str, max_width: usize) -> (r: String)
        ensures
            r@ == ellipsized(s@, max_width as int),
    {
        let total = display_width(s);
        if total <= max_width {
            return s.to_owned();
        }
        if max_width == 0 {
            return String::new();
        }
        let mut out = String::new();
        if max_width == 1 {
            out.push('…');
            assert(out@ =~= seq!['…']);
            return out;
        }
        let target = max_width - 1;
        let clusters = grapheme_clusters(s);
        let ghost cl = clusters_of(s@);
        let n = clusters.len();
        let mut used: usize = 0;
        let mut i: usize = 0;
        let mut done = false;
        assert(out@ + fitting_prefix(cl, 0, 0, target as int) =~= fitting_prefix(
            cl,
            0,
            0,
            target as int,
        ));
        while i < n && !done
            invariant
                n == clusters@.len(),
                strings_view(clusters@) == cl,
                0 <= i <= n,
                used <= target,
                done ==> fitting_prefix(cl, 0, 0, target as int) == out@,
                !done ==> out@ + fitting_prefix(cl, i as int, used as int, target as int)
                    == fitting_prefix(cl, 0, 0, target as int),
            decreases
                    (n - i) + if done {
                        0int
                    } else {
                        1int
                    },
        {
            let g = clusters[i].as_str();
            assert(cl[i as int] == g@);
            let w = display_width(g);
            if w == 0 {
                i += 1;
            } else if w > target - used {
                done = true;
                assert(out@ + Seq::<char>::empty() =~= out@);
            } else {
                let ghost before = out@;
                out.append(g);
                used += w;
                i += 1;
                assert(out@ + fitting_prefix(cl, i as int, used as int, target as int) =~= before + (
                g@ + fitting_prefix(cl, i as int, used as int, target as int)));
            }
        }
        proof {
            if !done {
                assert(out@ + Seq::<char>::empty() =~= out@);
            }
        }
        out.push('…');
        out
    }

    /// The area inside the borders.
    pub fn inner(&self, area: Rect) -> (r: Rect)
        ensures
            r == inner_area(self.borders, area),
    {
        let mut inner = area;
        if self.borders.contains(Borders::left()) {
            inner.x = inner.x.saturating_add(1);
            inner.width = inner.width.saturating_sub(1);
        }
        if self.borders.contains(Borders::top()) {
            inner.y = inner.y.saturating_add(1);
            inner.height = inner.height.saturating_sub(1);
        }
        if self.borders.contains(Borders::right()) {
            inner.width = inner.width.saturating_sub(1);
        }
        if self.borders.contains(Borders::bottom()) {
            inner.height = inner.height.saturating_sub(1);
        }
        inner
    }

    /// The area that the child is drawn into: inside borders and padding.
    pub fn content_area(&self, area: Rect) -> (r: Rect)
        ensures
            r == inner_area(self.borders, area).spec_inner(self.padding),
    {
        self.inner(area).inner(self.padding)
    }

    /// A cell of the border.
    pub fn border_cell(&self, c: char) -> (cell: Cell)
        ensures
            cell == self.border_style.applied_to(Cell { content: crate::cell::CellContent::Char(c), ..Cell::blank() }),
    {
        let mut cell = Cell::from_char(c);
        apply_style(&mut cell, self.border_style);
        cell
    }

    /// The characters that the border is drawn with at a degradation level:
    /// those of the panel's look at full fidelity, plain ASCII below it.
    pub fn pick_border_set(&self, level: DegradationLevel) -> (s: BorderSet)
        ensures
            s == if level.rank() < 1 {
                self.border_type.spec_border_set()
            } else {
                BorderSet::spec_ascii()
            },
    {
        if !level.use_unicode_borders() {
            return BorderSet::ascii();
        }
        self.border_type.to_border_set()
    }

    /// The column at which text of `text_width` columns starts on the top or
    /// bottom border.
    pub fn text_column(area: Rect, alignment: Alignment, text_width: usize) -> (x: u16)
        ensures
            x == border_text_column(area, alignment, text_width as int),
    {
        let available = area.width.saturating_sub(2) as usize;
        let shown = if text_width <= available {
            text_width
        } else {
            available
        };
        match alignment {
            Alignment::Left => area.x.saturating_add(1),
            Alignment::Center => area.x.saturating_add(1).saturating_add(
                ((available - shown) / 2) as u16,
            ),
            Alignment::Right => area.right().saturating_sub(1).saturating_sub(shown as u16),
        }
    }

    /// Draws the borders of the chosen sides: the vertical edges, the
    /// horizontal edges, then the corners where two drawn sides meet.
    pub fn render_borders(&self, area: Rect, buf: &mut Buffer, set: BorderSet)
        requires
            old(buf).wf(),
        ensures
            final(buf).wf(),
            final(buf).spec_width() == old(buf).spec_width(),
            final(buf).spec_height() == old(buf).spec_height(),
            final(buf).scissors() == old(buf).scissors(),
            final(buf).spec_degradation() == old(buf).spec_degradation(),
            old(buf).glyphs_wf() ==> final(buf).glyphs_wf(),
            final(buf)@ == borders_drawn(
                self.borders,
                self.border_style,
                old(buf)@,
                Canvas {
                    width: old(buf).spec_width(),
                    height: old(buf).spec_height(),
                    clip: old(buf).clip(),
                },
                area,
                set,
            ),
    {
        if area.is_empty() {
            return;
        }
        let ghost c = Canvas {
            width: buf.spec_width(),
            height: buf.spec_height(),
            clip: buf.clip(),
        };
        let ghost goal = borders_drawn(self.borders, self.border_style, buf@, c, area, set);
        let right = area.right();
        let bottom = area.bottom();
        let has_left = self.borders.contains(Borders::left());
        let has_right = self.borders.contains(Borders::right());
        let has_top = self.borders.contains(Borders::top());
        let has_bottom = self.borders.contains(Borders::bottom());
        let vertical = self.border_cell(set.vertical);
        let horizontal = self.border_cell(set.horizontal);
        let ghost after_vertical = vertical_edges(
            buf@,
            c,
            area.x as int,
            right - 1,
            area.y as int,
            bottom as int,
            has_left,
            has_right,
            vertical,
        );
        let mut y = area.y;
        while y < bottom
            invariant
                buf.wf(),
                buf.spec_width() == old(buf).spec_width(),
                buf.spec_height() == old(buf).spec_height(),
                buf.scissors() == old(buf).scissors(),
                buf.spec_degradation() == old(buf).spec_degradation(),
                old(buf).glyphs_wf() ==> buf.glyphs_wf(),
                c == (Canvas {
                    width: buf.spec_width(),
                    height: buf.spec_height(),
                    clip: buf.clip(),
                }),
                right >= 1,
                area.y <= y <= bottom,
                after_vertical == vertical_edges(
                    buf@,
                    c,
                    area.x as int,
                    right - 1,
                    y as int,
                    bottom as int,
                    has_left,
                    has_right,
                    vertical,
                ),
            decreases bottom - y,
        {
            if has_left {
                buf.set(area.x, y, vertical);
            }
            if has_right {
                buf.set(right - 1, y, vertical);
            }
            y += 1;
        }
        let ghost after_horizontal = horizontal_edges(
            buf@,
            c,
            area.y as int,
            bottom - 1,
            area.x as int,
            right as int,
            has_top,
            has_bottom,
            horizontal,
        );
        let mut x = area.x;
        while x < right
            invariant
                buf.wf(),
                buf.spec_width() == old(buf).spec_width(),
                buf.spec_height() == old(buf).spec_height(),
                buf.scissors() == old(buf).scissors(),
                buf.spec_degradation() == old(buf).spec_degradation(),
                old(buf).glyphs_wf() ==> buf.glyphs_wf(),
                c == (Canvas {
                    width: buf.spec_width(),
                    height: buf.spec_height(),
                    clip: buf.clip(),
                }),
                bottom >= 1,
                area.x <= x <= right,
                after_horizontal == horizontal_edges(
                    buf@,
                    c,
                    area.y as int,
                    bottom - 1,
                    x as int,
                    right as int,
                    has_top,
                    has_bottom,
                    horizontal,
                ),
            decreases right - x,
        {
            if has_top {
                buf.set(x, area.y, horizontal);
            }
            if has_bottom {
                buf.set(x, bottom - 1, horizontal);
            }
            x += 1;
        }
        if has_left && has_top {
            buf.set(area.x, area.y, self.border_cell(set.top_left));
        }
        if has_right && has_top {
            buf.set(right - 1, area.y, self.border_cell(set.top_right));
        }
        if has_left && has_bottom {
            buf.set(area.x, bottom - 1, self.border_cell(set.bottom_left));
        }
        if has_right && has_bottom {
            buf.set(right - 1, bottom - 1, self.border_cell(set.bottom_right));
        }
    }

    /// Draws text on row `y` of the border, cut to the width between the
    /// corners.
    pub fn render_border_text(
        &self,
        area: Rect,
        frame: &mut Frame,
        y: u16,
        text: &str,
        alignment: Alignment,
        style: Style,
    )
        requires
            old(frame).wf(),
        ensures
            final(frame).wf(),
            final(frame).same_shape(old(frame)),
            final(frame).cursor_position == old(frame).cursor_position,
            final(frame).cursor_visible == old(frame).cursor_visible,
            final(frame).hit_grid == old(frame).hit_grid,
            old(frame).buffer.glyphs_wf() ==> final(frame).buffer.glyphs_wf(),
            final(frame).buffer@ == border_text_drawn(
                state_of(old(frame), 0),
                canvas_of(old(frame)),
                area,
                y as int,
                text@,
                alignment,
                style,
            ).cells,
            final(frame).pool@ == border_text_drawn(
                state_of(old(frame), 0),
                canvas_of(old(frame)),
                area,
                y as int,
                text@,
                alignment,
                style,
            ).pool,
    {
        if area.height < 1 || area.width < 2 {
            return;
        }
        let available_width = area.width.saturating_sub(2) as usize;
        let text = self.ellipsize(text, available_width);
        let shown = display_width(text.as_str());
        let x = Self::text_column(area, alignment, shown);
        let max_x = area.right().saturating_sub(1);
        draw_text_span(frame, x, y, text.as_str(), style, max_x);
    }

    /// Draws the panel without its child and tells whether the child is to
    /// be drawn.
    pub fn render_frame(&self, area: Rect, frame: &mut Frame) -> (child: bool)
        requires
            old(frame).wf(),
        ensures
            final(frame).wf(),
            final(frame).same_shape(old(frame)),
            final(frame).cursor_position == old(frame).cursor_position,
            final(frame).cursor_visible == old(frame).cursor_visible,
            final(frame).hit_grid == old(frame).hit_grid,
            old(frame).buffer.glyphs_wf() ==> final(frame).buffer.glyphs_wf(),
            child == self.draws_child(area, old(frame).buffer.spec_degradation()),
            final(frame).buffer@ == self.frame_drawn(
                state_of(old(frame), 0),
                canvas_of(old(frame)),
                area,
                old(frame).buffer.spec_degradation(),
            ).cells,
            final(frame).pool@ == self.frame_drawn(
                state_of(old(frame), 0),
                canvas_of(old(frame)),
                area,
                old(frame).buffer.spec_degradation(),
            ).pool,
    {
        if area.is_empty() {
            return false;
        }
        proof {
            frame.buffer.lemma_wf();
        }
        let deg = frame.buffer.degradation();
        if !deg.render_content() {
            frame.buffer.fill(area, Cell::default());
            return false;
        }
        if deg.apply_styling() {
            set_style_area(&mut frame.buffer, area, self.style);
        }
        if deg.render_decorative() {
            let set = self.pick_border_set(deg);
            self.render_borders(area, &mut frame.buffer, set);
            if self.borders.contains(Borders::top()) {
                match self.title {
                    Some(title) => {
                        let title_style = if deg.apply_styling() {
                            self.title_style.merge(&self.border_style)
                        } else {
                            Style::new()
                        };
                        self.render_border_text(
                            area,
                            frame,
                            area.y,
                            title,
                            self.title_alignment,
                            title_style,
                        );
                    },
                    None => {},
                }
            }
            if self.borders.contains(Borders::bottom()) {
                match self.subtitle {
                    Some(subtitle) => {
                        let subtitle_style = if deg.apply_styling() {
                            self.subtitle_style.merge(&self.border_style)
                        } else {
                            Style::new()
                        };
                        self.render_border_text(
                            area,
                            frame,
                            area.bottom() - 1,
                            subtitle,
                            self.subtitle_alignment,
                            subtitle_style,
                        );
                    },
                    None => {},
                }
            }
        }
        !self.content_area(area).is_empty()
    }
}

impl<'a, W: Widget> Widget for Panel<'a, W> {
    /// Draws the panel: its style over the area, the borders with title and
    /// subtitle, and the child inside borders and padding, clipped to that
    /// area. Under degradation, first the border characters, then styling,
    /// then the decoration are given up; from `Skeleton` on the area is only
    /// blanked. Where the child is not drawn, the frame is what the panel
    /// without its child makes of it.
    fn render(&self, area: Rect, frame: &mut Frame)
        ensures
            !self.draws_child(area, old(frame).buffer.spec_degradation()) ==> {
                &&& final(frame).buffer@ == self.frame_drawn(
                    state_of(old(frame), 0),
                    canvas_of(old(frame)),
                    area,
                    old(frame).buffer.spec_degradation(),
                ).cells
                &&& final(frame).pool@ == self.frame_drawn(
                    state_of(old(frame), 0),
                    canvas_of(old(frame)),
                    area,
                    old(frame).buffer.spec_degradation(),
                ).pool
            },
    {
        if !self.render_frame(area, frame) {
            return;
        }
        let content_area = self.content_area(area);
        let ghost outer = frame.buffer.scissors();
        proof {
            frame.buffer.lemma_wf();
        }
        frame.buffer.push_scissor(content_area);
        let ghost pushed = frame.buffer.scissors();
        self.child.render(content_area, frame);
        frame.buffer.pop_scissor();
        proof {
            assert(pushed.len() == outer.len() + 1);
            assert(pushed.drop_last() =~= outer);
            assert(frame.buffer.scissors() =~= outer);
        }
    }

    /// A panel is essential where its child is: the result is what the
    /// child's `is_essential` gives.
    fn is_essential(&self) -> (r: bool)
        ensures
            call_ensures(W::is_essential, (&self.child,), r),
    {
        self.child.is_essential()
    }
}

} // verus!
