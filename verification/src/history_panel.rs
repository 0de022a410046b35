//! History panel: the undo and redo stacks as a list, with a marker at the
//! current position.

use crate::frame::Frame;
use crate::geometry::{sat_add, Rect};
use crate::style::Style;
use crate::text::{display_width, strings_view, texts_view, to_strings, width_of, Text};
use crate::widgets::{
    canvas_of, draw_text_span, set_style_area, state_of, styled_area, text_drawn, Canvas,
    DrawState, Widget,
};
use vstd::prelude::*;

verus! {

/// One entry of the history.
#[derive(Debug, Clone, PartialEq, Eq)]
pub struct HistoryEntry {
    /// What the command did.
    pub description: String,
    /// Whether the entry is on the redo stack.
    pub is_redo: bool,
}

impl HistoryEntry {
    /// An entry with the given description.
    pub fn new(description: &str, is_redo: bool) -> (e: HistoryEntry)
        ensures
            e.description@ == description@,
            e.is_redo == is_redo,
    {
        HistoryEntry { description: description.to_owned(), is_redo }
    }
}

/// How much of the history the panel shows.
#[derive(Debug, Clone, Copy, PartialEq, Eq, Structural)]
pub enum HistoryPanelMode {
    /// The entries nearest to the current position.
    Compact,
    /// Every entry.
    Full,
}

impl Default for HistoryPanelMode {
    fn default() -> (m: HistoryPanelMode)
        ensures
            m == HistoryPanelMode::Compact,
    {
        HistoryPanelMode::Compact
    }
}

/// Index of the first undo entry that is shown: in compact mode the last
/// `compact_limit / 2` entries are, in full mode all.
pub open spec fn undo_window_start(mode: HistoryPanelMode, compact_limit: int, undo_len: int) -> int {
    match mode {
        HistoryPanelMode::Compact => if undo_len >= compact_limit / 2 {
            undo_len - compact_limit / 2
        } else {
            0
        },
        HistoryPanelMode::Full => 0,
    }
}

/// Number of redo entries that are shown: in compact mode the first
/// `compact_limit / 2`, in full mode all.
pub open spec fn redo_window_end(mode: HistoryPanelMode, compact_limit: int, redo_len: int) -> int {
    match mode {
        HistoryPanelMode::Compact => if compact_limit / 2 <= redo_len {
            compact_limit / 2
        } else {
            redo_len
        },
        HistoryPanelMode::Full => redo_len,
    }
}

/// The column at which a marker of `marker_width` columns starts so that it
/// stands in the middle of an area; the left edge where it is too wide.
pub open spec fn centered_column(area_x: int, area_width: int, marker_width: int) -> int {
    let pad = if area_width >= marker_width {
        (area_width - marker_width) / 2
    } else {
        0
    };
    crate::geometry::sat_add(area_x, pad)
}

/// The line that stands for entries left out: `... (n more)`.
pub open spec fn hidden_line(hidden: int) -> Seq<char> {
    "... ("@ + crate::text::decimal_of(hidden) + " more)"@
}

/// A panel that lists the commands that can be undone, a marker for the
/// current position, and the commands that can be redone.
#[derive(Debug, Clone)]
pub struct HistoryPanel {
    /// The title above the list.
    pub title: String,
    /// The undo stack, oldest first.
    pub undo_items: Vec<String>,
    /// The redo stack, next to redo first.
    pub redo_items: Vec<String>,
    /// How much is shown.
    pub mode: HistoryPanelMode,
    /// Number of entries shown in compact mode, both stacks together.
    pub compact_limit: usize,
    /// Style of the title.
    pub title_style: Style,
    /// Style of undo entries.
    pub undo_style: Style,
    /// Style of redo entries.
    pub redo_style: Style,
    /// Style of the marker.
    pub marker_style: Style,
    /// Style of the background.
    pub bg_style: Style,
    /// Text of the marker.
    pub marker_text: String,
    /// What stands in front of an undo entry.
    pub undo_icon: String,
    /// What stands in front of a redo entry.
    pub redo_icon: String,
}

impl HistoryPanel {
    /// What drawing the entries `items[i..end]` makes of a state: one row
    /// each from row `row` on, the icon and then the text, as long as the
    /// rows of the area last. The second part is the row after the last
    /// entry drawn.
    pub open spec fn entries_drawn(
        s: DrawState,
        c: Canvas,
        area: Rect,
        items: Seq<String>,
        i: int,
        end: int,
        row: int,
        icon: Seq<char>,
        style: Style,
    ) -> (DrawState, int)
        decreases end - i,
    {
        if i < 0 || i >= end || row >= area.height {
            (s, row)
        } else {
            let y = sat_add(area.y as int, row);
            let with_icon = text_drawn(s, c, icon, area.x as int, y, style, area.spec_right());
            let with_text = text_drawn(
                with_icon,
                c,
                items[i]@,
                with_icon.x,
                y,
                style,
                area.spec_right(),
            );
            Self::entries_drawn(with_text, c, area, items, i + 1, end, row + 1, icon, style)
        }
    }

    /// What drawing the content of the panel into an area makes of a
    /// state: the title and a blank row, a line for the undo entries left
    /// out, the undo entries shown, the marker in the middle of its row, the
    /// redo entries shown, and a line for the redo entries left out; each
    /// only as long as the rows of the area last.
    pub open spec fn content_drawn(&self, s: DrawState, c: Canvas, area: Rect) -> DrawState {
        if area.width == 0 || area.height == 0 {
            s
        } else {
            let max_x = area.spec_right();
            let undo_len = self.undo_items@.len() as int;
            let redo_len = self.redo_items@.len() as int;
            let undo_start = undo_window_start(self.mode, self.compact_limit as int, undo_len);
            let redo_end = redo_window_end(self.mode, self.compact_limit as int, redo_len);
            let (s1, r1) = if self.title@.len() > 0 {
                (
                    text_drawn(
                        s,
                        c,
                        self.title@,
                        area.x as int,
                        sat_add(area.y as int, 0),
                        self.title_style,
                        max_x,
                    ),
                    if 1 < area.height {
                        2int
                    } else {
                        1int
                    },
                )
            } else {
                (s, 0int)
            };
            let (s2, r2) = if undo_start > 0 && r1 < area.height {
                (
                    text_drawn(
                        s1,
                        c,
                        hidden_line(undo_start),
                        area.x as int,
                        sat_add(area.y as int, r1),
                        self.redo_style,
                        max_x,
                    ),
                    r1 + 1,
                )
            } else {
                (s1, r1)
            };
            let (s3, r3) = Self::entries_drawn(
                s2,
                c,
                area,
                self.undo_items@,
                undo_start,
                undo_len,
                r2,
                self.undo_icon@,
                self.undo_style,
            );
            let (s4, r4) = if r3 < area.height {
                (
                    text_drawn(
                        s3,
                        c,
                        self.marker_text@,
                        centered_column(
                            area.x as int,
                            area.width as int,
                            width_of(self.marker_text@) as int,
                        ),
                        sat_add(area.y as int, r3),
                        self.marker_style,
                        max_x,
                    ),
                    r3 + 1,
                )
            } else {
                (s3, r3)
            };
            let (s5, r5) = Self::entries_drawn(
                s4,
                c,
                area,
                self.redo_items@,
                0,
                redo_end,
                r4,
                self.redo_icon@,
                self.redo_style,
            );
            if redo_end < redo_len && r5 < area.height {
                text_drawn(
                    s5,
                    c,
                    hidden_line(redo_len - redo_end),
                    area.x as int,
                    sat_add(area.y as int, r5),
                    self.redo_style,
                    max_x,
                )
            } else {
                s5
            }
        }
    }

    /// The grid after the background of the panel was laid over an area.
    pub open spec fn background_laid(&self, cells: Seq<crate::cell::Cell>, width: int, area: Rect) -> Seq<
        crate::cell::Cell,
    > {
        match self.bg_style.bg {
            Some(bg) => styled_area(cells, width, area, Style { bg: Some(bg), ..Style::empty() }),
            None => cells,
        }
    }

    /// A panel without entries: title `History`, compact mode with a limit
    /// of five, a bold title and marker, dimmed redo entries.
    pub fn new() -> (p: HistoryPanel)
        ensures
            p.title@ == "History"@,
            p.undo_items@.len() == 0,
            p.redo_items@.len() == 0,
            p.mode == HistoryPanelMode::Compact,
            p.compact_limit == 5,
            p.title_style == Style::empty().with_bits(crate::cell::FLAG_BOLD),
            p.undo_style == Style::empty(),
            p.redo_style == Style::empty().with_bits(crate::cell::FLAG_DIM),
            p.marker_style == Style::empty().with_bits(crate::cell::FLAG_BOLD),
            p.bg_style == Style::empty(),
            p.marker_text@ == "─── current ───"@,
            p.undo_icon@ == "↶ "@,
            p.redo_icon@ == "↷ "@,
    {
        HistoryPanel {
            title: "History".to_owned(),
            undo_items: Vec::new(),
            redo_items: Vec::new(),
            mode: HistoryPanelMode::Compact,
            compact_limit: 5,
            title_style: Style::new().bold(),
            undo_style: Style::new(),
            redo_style: Style::new().dim(),
            marker_style: Style::new().bold(),
            bg_style: Style::new(),
            marker_text: "─── current ───".to_owned(),
            undo_icon: "↶ ".to_owned(),
            redo_icon: "↷ ".to_owned(),
        }
    }

    /// The panel with another title.
    pub fn with_title(self, title: &str) -> (p: HistoryPanel)
        ensures
            p.title@ == title@,
            p == (HistoryPanel { title: p.title, ..self }),
    {
        let mut p = self;
        p.title = title.to_owned();
        p
    }

    /// The panel with the given undo stack, oldest entry first.
    pub fn with_undo_items<T: Text>(self, items: &[T]) -> (p: HistoryPanel)
        ensures
            strings_view(p.undo_items@) == texts_view(items@),
            p == (HistoryPanel { undo_items: p.undo_items, ..self }),
    {
        let mut p = self;
        p.undo_items = to_strings(items);
        p
    }

    /// The panel with the given redo stack, the next to redo first.
    pub fn with_redo_items<T: Text>(self, items: &[T]) -> (p: HistoryPanel)
        ensures
            strings_view(p.redo_items@) == texts_view(items@),
            p == (HistoryPanel { redo_items: p.redo_items, ..self }),
    {
        let mut p = self;
        p.redo_items = to_strings(items);
        p
    }

    /// The panel in another mode.
    pub fn with_mode(self, mode: HistoryPanelMode) -> (p: HistoryPanel)
        ensures
            p == (HistoryPanel { mode, ..self }),
    {
        let mut p = self;
        p.mode = mode;
        p
    }

    /// The panel with another limit for compact mode.
    pub fn with_compact_limit(self, limit: usize) -> (p: HistoryPanel)
        ensures
            p == (HistoryPanel { compact_limit: limit, ..self }),
    {
        let mut p = self;
        p.compact_limit = limit;
        p
    }

    /// The panel with another title style.
    pub fn with_title_style(self, style: Style) -> (p: HistoryPanel)
        ensures
            p == (HistoryPanel { title_style: style, ..self }),
    {
        let mut p = self;
        p.title_style = style;
        p
    }

    /// The panel with another style for undo entries.
    pub fn with_undo_style(self, style: Style) -> (p: HistoryPanel)
        ensures
            p == (HistoryPanel { undo_style: style, ..self }),
    {
        let mut p = self;
        p.undo_style = style;
        p
    }

    /// The panel with another style for redo entries.
    pub fn with_redo_style(self, style: Style) -> (p: HistoryPanel)
        ensures
            p == (HistoryPanel { redo_style: style, ..self }),
    {
        let mut p = self;
        p.redo_style = style;
        p
    }

    /// The panel with another marker style.
    pub fn with_marker_style(self, style: Style) -> (p: HistoryPanel)
        ensures
            p == (HistoryPanel { marker_style: style, ..self }),
    {
        let mut p = self;
        p.marker_style = style;
        p
    }

    /// The panel with another background style.
    pub fn with_bg_style(self, style: Style) -> (p: HistoryPanel)
        ensures
            p == (HistoryPanel { bg_style: style, ..self }),
    {
        let mut p = self;
        p.bg_style = style;
        p
    }

    /// The panel with another marker text.
    pub fn with_marker_text(self, text: &str) -> (p: HistoryPanel)
        ensures
            p.marker_text@ == text@,
            p == (HistoryPanel { marker_text: p.marker_text, ..self }),
    {
        let mut p = self;
        p.marker_text = text.to_owned();
        p
    }

    /// The panel with another prefix for undo entries.
    pub fn with_undo_icon(self, icon: &str) -> (p: HistoryPanel)
        ensures
            p.undo_icon@ == icon@,
            p == (HistoryPanel { undo_icon: p.undo_icon, ..self }),
    {
        let mut p = self;
        p.undo_icon = icon.to_owned();
        p
    }

    /// The panel with another prefix for redo entries.
    pub fn with_redo_icon(self, icon: &str) -> (p: HistoryPanel)
        ensures
            p.redo_icon@ == icon@,
            p == (HistoryPanel { redo_icon: p.redo_icon, ..self }),
    {
        let mut p = self;
        p.redo_icon = icon.to_owned();
        p
    }

    /// Whether both stacks are empty.
    pub fn is_empty(&self) -> (r: bool)
        ensures
            r == (self.undo_items@.len() == 0 && self.redo_items@.len() == 0),
    {
        self.undo_items.len() == 0 && self.redo_items.len() == 0
    }

    /// Number of entries of both stacks, held at the largest `usize`.
    pub fn len(&self) -> (n: usize)
        ensures
            n == crate::diff_strategy::held_at_max(
                (self.undo_items@.len() + self.redo_items@.len()) as int,
            ),
    {
        self.undo_items.len().saturating_add(self.redo_items.len())
    }

    /// The undo stack, oldest entry first.
    pub fn undo_items(&self) -> (r: &[String])
        ensures
            r@ == self.undo_items@,
    {
        self.undo_items.as_slice()
    }

    /// The redo stack, the next to redo first.
    pub fn redo_items(&self) -> (r: &[String])
        ensures
            r@ == self.redo_items@,
    {
        self.redo_items.as_slice()
    }

    /// Index of the first undo entry that is shown.
    pub fn visible_undo_start(&self) -> (i: usize)
        ensures
            i == undo_window_start(
                self.mode,
                self.compact_limit as int,
                self.undo_items@.len() as int,
            ),
            i <= self.undo_items@.len(),
    {
        match self.mode {
            HistoryPanelMode::Compact => self.undo_items.len().saturating_sub(
                self.compact_limit / 2,
            ),
            HistoryPanelMode::Full => 0,
        }
    }

    /// Number of redo entries that are shown.
    pub fn visible_redo_end(&self) -> (i: usize)
        ensures
            i == redo_window_end(
                self.mode,
                self.compact_limit as int,
                self.redo_items@.len() as int,
            ),
            i <= self.redo_items@.len(),
    {
        match self.mode {
            HistoryPanelMode::Compact => {
                let half = self.compact_limit / 2;
                if half <= self.redo_items.len() {
                    half
                } else {
                    self.redo_items.len()
                }
            },
            HistoryPanelMode::Full => self.redo_items.len(),
        }
    }

    /// The column at which the marker starts in an area.
    pub fn marker_column(&self, area: Rect) -> (x: u16)
        ensures
            x == centered_column(
                area.x as int,
                area.width as int,
                width_of(self.marker_text@) as int,
            ),
    {
        let marker_width = display_width(self.marker_text.as_str());
        let available = area.width as usize;
        let pad_left = available.saturating_sub(marker_width) / 2;
        area.x.saturating_add(pad_left as u16)
    }

    /// Draws the entries `items[from..end]`, one row each from row `row`
    /// on, and gives the row after the last entry drawn.
    fn render_entries(
        frame: &mut Frame,
        area: Rect,
        items: &Vec<String>,
        from: usize,
        end: usize,
        row: u16,
        icon: &str,
        style: Style,
    ) -> (next: u16)
        requires
            old(frame).wf(),
            from <= end <= items@.len(),
            row <= area.height,
        ensures
            final(frame).wf(),
            final(frame).same_shape(old(frame)),
            final(frame).cursor_position == old(frame).cursor_position,
            final(frame).cursor_visible == old(frame).cursor_visible,
            final(frame).hit_grid == old(frame).hit_grid,
            old(frame).buffer.glyphs_wf() ==> final(frame).buffer.glyphs_wf(),
            row <= next <= area.height,
            ({
                let drawn = Self::entries_drawn(
                    state_of(old(frame), 0),
                    canvas_of(old(frame)),
                    area,
                    items@,
                    from as int,
                    end as int,
                    row as int,
                    icon@,
                    style,
                );
                &&& final(frame).buffer@ == drawn.0.cells
                &&& final(frame).pool@ == drawn.0.pool
                &&& next == drawn.1
            }),
    {
        let max_x = area.right();
        let ghost c = canvas_of(frame);
        let ghost goal = Self::entries_drawn(
            state_of(frame, 0),
            c,
            area,
            items@,
            from as int,
            end as int,
            row as int,
            icon@,
            style,
        );
        let mut cur = row;
        let mut i: usize = from;
        let ghost mut column: int = 0;
        while i < end && cur < area.height
            invariant
                frame.wf(),
                frame.same_shape(old(frame)),
                frame.cursor_position == old(frame).cursor_position,
                frame.cursor_visible == old(frame).cursor_visible,
                frame.hit_grid == old(frame).hit_grid,
                old(frame).buffer.glyphs_wf() ==> frame.buffer.glyphs_wf(),
                c == canvas_of(frame),
                max_x == area.spec_right(),
                from <= i <= end <= items@.len(),
                row <= cur <= area.height,
                goal == Self::entries_drawn(
                    state_of(frame, column),
                    c,
                    area,
                    items@,
                    i as int,
                    end as int,
                    cur as int,
                    icon@,
                    style,
                ),
            decreases end - i,
        {
            let y = area.y.saturating_add(cur);
            let icon_end = draw_text_span(frame, area.x, y, icon, style, max_x);
            let text_end = draw_text_span(frame, icon_end, y, items[i].as_str(), style, max_x);
            proof {
                column = text_end as int;
            }
            cur += 1;
            i += 1;
        }
        cur
    }

    /// Draws title, entries and marker into the area, one row each from the
    /// top. Rows that do not fit the area are left out.
    pub fn render_content(&self, area: Rect, frame: &mut Frame)
        requires
            old(frame).wf(),
        ensures
            final(frame).wf(),
            final(frame).same_shape(old(frame)),
            final(frame).cursor_position == old(frame).cursor_position,
            final(frame).cursor_visible == old(frame).cursor_visible,
            final(frame).hit_grid == old(frame).hit_grid,
            old(frame).buffer.glyphs_wf() ==> final(frame).buffer.glyphs_wf(),
            final(frame).buffer@ == self.content_drawn(
                state_of(old(frame), 0),
                canvas_of(old(frame)),
                area,
            ).cells,
            final(frame).pool@ == self.content_drawn(
                state_of(old(frame), 0),
                canvas_of(old(frame)),
                area,
            ).pool,
    {
        if area.width == 0 || area.height == 0 {
            return;
        }
        let ghost c = canvas_of(frame);
        let max_x = area.right();
        let mut row: u16 = 0;
        if !self.title.as_str().is_empty() {
            let y = area.y.saturating_add(row);
            draw_text_span(frame, area.x, y, self.title.as_str(), self.title_style, max_x);
            row += 1;
            if row < area.height {
                row += 1;
            }
        }
        let undo_start = self.visible_undo_start();
        let redo_end = self.visible_redo_end();
        if undo_start > 0 && row < area.height {
            let y = area.y.saturating_add(row);
            let text = hidden_text(undo_start);
            draw_text_span(frame, area.x, y, text.as_str(), self.redo_style, max_x);
            row += 1;
        }
        let row = Self::render_entries(
            frame,
            area,
            &self.undo_items,
            undo_start,
            self.undo_items.len(),
            row,
            self.undo_icon.as_str(),
            self.undo_style,
        );
        let mut row = row;
        if row < area.height {
            let y = area.y.saturating_add(row);
            let x = self.marker_column(area);
            draw_text_span(frame, x, y, self.marker_text.as_str(), self.marker_style, max_x);
            row += 1;
        }
        let row = Self::render_entries(
            frame,
            area,
            &self.redo_items,
            0,
            redo_end,
            row,
            self.redo_icon.as_str(),
            self.redo_style,
        );
        if redo_end < self.redo_items.len() && row < area.height {
            let y = area.y.saturating_add(row);
            let text = hidden_text(self.redo_items.len() - redo_end);
            draw_text_span(frame, area.x, y, text.as_str(), self.redo_style, max_x);
        }
    }
}

/// The line that stands for `hidden` entries left out.
pub fn hidden_text(hidden: usize) -> (s: String)
    ensures
        s@ == hidden_line(hidden as int),
{
    let mut s = "... (".to_owned();
    let n = crate::text::unsigned_to_string(hidden as u64);
    s.append(n.as_str());
    s.append(" more)");
    s
}

impl Default for HistoryPanel {
    fn default() -> (p: HistoryPanel)
        ensures
            p.undo_items@.len() == 0,
            p.redo_items@.len() == 0,
    {
        HistoryPanel::new()
    }
}

impl Widget for HistoryPanel {
    /// Lays the background over the area where the panel has one, then
    /// draws the content.
    fn render(&self, area: Rect, frame: &mut Frame)
        ensures
            final(frame).cursor_position == old(frame).cursor_position,
            final(frame).cursor_visible == old(frame).cursor_visible,
            final(frame).hit_grid == old(frame).hit_grid,
            final(frame).buffer@ == self.content_drawn(
                DrawState {
                    cells: self.background_laid(
                        old(frame).buffer@,
                        old(frame).buffer.spec_width(),
                        area,
                    ),
                    pool: old(frame).pool@,
                    x: 0,
                },
                canvas_of(old(frame)),
                area,
            ).cells,
            final(frame).pool@ == self.content_drawn(
                DrawState {
                    cells: self.background_laid(
                        old(frame).buffer@,
                        old(frame).buffer.spec_width(),
                        area,
                    ),
                    pool: old(frame).pool@,
                    x: 0,
                },
                canvas_of(old(frame)),
                area,
            ).pool,
    {
        match self.bg_style.bg {
            Some(bg) => {
                set_style_area(&mut frame.buffer, area, Style::new().bg(bg));
            },
            None => {},
        }
        self.render_content(area, frame);
    }

    fn is_essential(&self) -> bool {
        false
    }
}

} // verus!
