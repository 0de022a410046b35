//! How a dialog is drawn: a border with the title, the message, the input
//! field of a prompt, and the row of buttons, each button with its hit
//! area.

use crate::borders::{Alignment, BorderSet, BorderType, Borders, BORDER_ALL};
use crate::buffer::DegradationLevel;
use crate::cell::{Cell, StyleFlags, FLAG_REVERSE};
use crate::diff_strategy::held_at_max;
use crate::event::Hit;
use crate::frame::{hit_width_of, hits_after, model_of, Frame, FrameModel};
use crate::geometry::{sat_add, sat_sub, Rect};
use crate::modal::container::{
    backdrop_laid, lay_backdrop, modal_hits, register_modal_hits, ModalConfig,
    ModalSizeConstraints,
};
use crate::modal::dialog::{
    dialog_hit_button, label_bytes, spec_hit_button, Dialog, DialogButton, DialogConfig,
    DialogKind, DialogModel, DialogState,
};
use crate::panel::{
    blanked, border_text_drawn, border_text_style, borders_drawn, inner_area, Panel,
};
use crate::style::{attr_bits, Style};
use crate::text::chars_of;
use crate::widgets::{
    canvas_of, chars_drawn, draw_chars, set_style_area, state_of, styled_area, Blank, Canvas,
    DrawState, StatefulWidget,
};
use vstd::prelude::*;

verus! {

/// The smaller of two integers.
pub open spec fn least(a: int, b: int) -> int {
    if a <= b {
        a
    } else {
        b
    }
}

/// A style without its attributes.
pub open spec fn colours_of(style: Style) -> Style {
    Style { attrs: None, ..style }
}

/// A style without its background.
pub open spec fn without_bg(style: Style) -> Style {
    Style { bg: None, ..style }
}

/// The grid after a text was written into the middle of `width` columns
/// from column `x` on, one cell for each character, in the colours of the
/// style. The text is placed by its length in bytes.
pub open spec fn centered_text_drawn(
    cells: Seq<Cell>,
    c: Canvas,
    x: int,
    y: int,
    width: int,
    text: Seq<char>,
    style: Style,
) -> Seq<Cell> {
    chars_drawn(
        cells,
        c,
        text,
        0,
        least(text.len() as int, width),
        x + (width - least(label_bytes(text), width)) / 2,
        y,
        x + width,
        colours_of(style),
    )
}

/// The text of a button as drawn.
pub open spec fn button_text(label: Seq<char>) -> Seq<char> {
    seq!['[', ' '] + label + seq![' ', ']']
}

/// Width of the hit area of a button: the bytes of its text, held at the
/// largest `u16`.
pub open spec fn button_span(label: Seq<char>) -> int {
    least(held_at_max(label_bytes(label) + 4), u16::MAX as int)
}

/// The style of a button: that of the focused, the primary or any other
/// button. A focused button is shown reversed whatever its style says.
pub open spec fn button_style(config: DialogConfig, primary: bool, focused: bool) -> Style {
    if focused {
        if attr_bits(config.focused_button_style.attrs) & FLAG_REVERSE == FLAG_REVERSE {
            config.focused_button_style
        } else {
            config.focused_button_style.with_bits(FLAG_REVERSE)
        }
    } else if primary {
        config.primary_button_style
    } else {
        config.button_style
    }
}

/// Width of the first `n` buttons, with two columns between neighbours.
pub open spec fn buttons_width(buttons: Seq<DialogButton>, n: int) -> int
    decreases n,
{
    if n <= 0 {
        0
    } else {
        buttons_width(buttons, n - 1) + held_at_max(label_bytes(buttons[n - 1].label@) + 4) + if n
            > 1 {
            2int
        } else {
            0int
        }
    }
}

/// The border of a dialog with its title: what a panel with a square
/// border on all sides, the title in the middle of the top border and no
/// style of its own draws.
pub open spec fn dialog_border_drawn(
    title: Seq<char>,
    s: DrawState,
    c: Canvas,
    area: Rect,
    level: DegradationLevel,
) -> DrawState {
    if area.spec_is_empty() {
        s
    } else if level.rank() >= 4 {
        DrawState { cells: blanked(s.cells, c, area), ..s }
    } else {
        let s1 = if level.rank() < 2 {
            DrawState { cells: styled_area(s.cells, c.width, area, Style::empty()), ..s }
        } else {
            s
        };
        if level.rank() < 3 {
            let set = if level.rank() < 1 {
                BorderType::Square.spec_border_set()
            } else {
                BorderSet::spec_ascii()
            };
            border_text_drawn(
                DrawState {
                    cells: borders_drawn(
                        Borders(BORDER_ALL),
                        Style::empty(),
                        s1.cells,
                        c,
                        area,
                        set,
                    ),
                    ..s1
                },
                c,
                area,
                area.y as int,
                title,
                Alignment::Center,
                border_text_style(level, Style::empty(), Style::empty()),
            )
        } else {
            s1
        }
    }
}

/// The size that a dialog of `height` rows is held to: 30 to 60 columns,
/// and up to four rows more than it needs.
pub open spec fn dialog_size(height: int) -> ModalSizeConstraints {
    ModalSizeConstraints {
        min_width: Some(30),
        max_width: Some(60),
        min_height: Some(height as u16),
        max_height: Some((height + 4) as u16),
    }
}

impl Dialog {
    /// The model after the buttons from index `i` on were drawn from column
    /// `bx` on, two columns apart, each with its hit area where the dialog
    /// has a hit id. Nothing is drawn from column `limit` on.
    pub open spec fn buttons_from(
        &self,
        m: FrameModel,
        c: Canvas,
        hit_width: int,
        focused: Option<usize>,
        i: int,
        bx: int,
        y: int,
        limit: int,
    ) -> FrameModel
        decreases self.buttons@.len() - i,
    {
        if i < 0 || i >= self.buttons@.len() {
            m
        } else {
            let button = self.buttons@[i];
            let text = button_text(button.label@);
            let span = button_span(button.label@);
            let cells = chars_drawn(
                m.cells,
                c,
                text,
                0,
                text.len() as int,
                bx,
                y,
                limit,
                button_style(self.config, button.primary, focused == Some(i as usize)),
            );
            let hits = match self.hit_id {
                Some(id) => hits_after(
                    m.hits,
                    hit_width,
                    Rect { x: bx as u16, y: y as u16, width: span as u16, height: 1 },
                    Hit { id, region: spec_hit_button(), data: i as u64 },
                ),
                None => m.hits,
            };
            self.buttons_from(
                FrameModel { cells, hits, ..m },
                c,
                hit_width,
                focused,
                i + 1,
                sat_add(sat_add(bx, span), 2),
                y,
                limit,
            )
        }
    }

    /// The model after the row of buttons was drawn into the middle of
    /// `width` columns from column `x` on.
    pub open spec fn buttons_drawn(
        &self,
        m: FrameModel,
        c: Canvas,
        hit_width: int,
        focused: Option<usize>,
        x: int,
        y: int,
        width: int,
    ) -> FrameModel {
        let total = least(width, buttons_width(self.buttons@, self.buttons@.len() as int));
        self.buttons_from(
            m,
            c,
            hit_width,
            focused,
            0,
            sat_add(x, (width - total) / 2),
            y,
            x + width,
        )
    }

    /// The model after the input field was drawn into `width` columns from
    /// column `x` on: the field, one column in from either side, in the
    /// input style; in it what was typed, or a blank; and the cursor after
    /// what was typed where the field has the focus and the cursor fits.
    pub open spec fn input_drawn(
        &self,
        m: FrameModel,
        c: Canvas,
        input: Seq<char>,
        input_focused: bool,
        x: int,
        y: int,
        width: int,
    ) -> FrameModel {
        let field = Rect {
            x: sat_add(x, 1) as u16,
            y: y as u16,
            width: sat_sub(width, 2) as u16,
            height: 1,
        };
        let shown = if input.len() == 0 {
            seq![' ']
        } else {
            input
        };
        let cells = chars_drawn(
            styled_area(m.cells, c.width, field, self.config.input_style),
            c,
            shown,
            0,
            least(shown.len() as int, field.width as int),
            field.x as int,
            y,
            0x1_0000,
            without_bg(self.config.input_style),
        );
        let cursor_x = sat_add(field.x as int, least(label_bytes(input), field.width as int));
        if input_focused && cursor_x < field.spec_right() {
            FrameModel {
                cells,
                cursor_position: Some((cursor_x as u16, y as u16)),
                cursor_visible: true,
                ..m
            }
        } else {
            FrameModel { cells, ..m }
        }
    }

    /// The model after the dialog was drawn into an area: the border with
    /// the title; then from the top of the inside the message, a spacing
    /// row, the input field of a prompt with a spacing row, and the
    /// buttons, each only while rows are left.
    pub open spec fn content_drawn(
        &self,
        m: FrameModel,
        c: Canvas,
        hit_width: int,
        level: DegradationLevel,
        area: Rect,
        state: DialogModel,
    ) -> FrameModel {
        let inner = inner_area(Borders(BORDER_ALL), area);
        if area.spec_is_empty() {
            m
        } else if inner.spec_is_empty() {
            self.border_drawn(m, c, level, area)
        } else {
            let bottom = inner.spec_bottom();
            let m1 = self.border_drawn(m, c, level, area);
            let with_message = self.message@.len() > 0 && inner.y < bottom;
            let m2 = if with_message {
                FrameModel {
                    cells: centered_text_drawn(
                        m1.cells,
                        c,
                        inner.x as int,
                        inner.y as int,
                        inner.width as int,
                        self.message@,
                        self.config.message_style,
                    ),
                    ..m1
                }
            } else {
                m1
            };
            let y1 = sat_add(
                if with_message {
                    sat_add(inner.y as int, 1)
                } else {
                    inner.y as int
                },
                1,
            );
            let with_input = self.config.kind == DialogKind::Prompt && y1 < bottom;
            let m3 = if with_input {
                self.input_drawn(
                    m2,
                    c,
                    state.input_value,
                    state.input_focused,
                    inner.x as int,
                    y1,
                    inner.width as int,
                )
            } else {
                m2
            };
            let y2 = if with_input {
                sat_add(y1, 2)
            } else {
                y1
            };
            if y2 < bottom {
                self.buttons_drawn(
                    m3,
                    c,
                    hit_width,
                    state.focused_button,
                    inner.x as int,
                    y2,
                    inner.width as int,
                )
            } else {
                m3
            }
        }
    }

    /// The model after the border of the dialog was drawn round an area.
    pub open spec fn border_drawn(
        &self,
        m: FrameModel,
        c: Canvas,
        level: DegradationLevel,
        area: Rect,
    ) -> FrameModel {
        let s = dialog_border_drawn(
            self.title@,
            DrawState { cells: m.cells, pool: m.pool, x: 0 },
            c,
            area,
            level,
        );
        FrameModel { cells: s.cells, pool: s.pool, ..m }
    }

    /// The configuration that the dialog is placed by: its own, with the
    /// size that its content asks for.
    pub open spec fn placement(&self) -> ModalConfig {
        ModalConfig { size: dialog_size(self.spec_content_height()), ..self.config.modal_config }
    }

    /// The model after an open dialog was shown in an area: the backdrop
    /// laid over the area, the dialog drawn where its placement puts it,
    /// and the hit areas of the modal registered. A closed dialog and an
    /// empty area change nothing.
    pub open spec fn shown(
        &self,
        m: FrameModel,
        c: Canvas,
        hit_width: int,
        level: DegradationLevel,
        area: Rect,
        state: DialogModel,
    ) -> FrameModel {
        if !state.open || area.spec_is_empty() {
            m
        } else {
            let config = self.placement();
            let rect = config.spec_content_rect(area);
            let behind = FrameModel {
                cells: backdrop_laid(m.cells, c.width, area, config.backdrop),
                ..m
            };
            let drawn = if rect.spec_is_empty() {
                behind
            } else {
                self.content_drawn(behind, c, hit_width, level, rect, state)
            };
            FrameModel {
                hits: modal_hits(drawn.hits, hit_width, area, rect, config.hit_id),
                ..drawn
            }
        }
    }

    /// Writes a text into the middle of `width` columns from column `x`
    /// on, in the colours of the style.
    pub fn draw_centered_text(
        &self,
        frame: &mut Frame,
        x: u16,
        y: u16,
        width: u16,
        text: &str,
        style: Style,
    )
        requires
            old(frame).wf(),
        ensures
            final(frame).wf(),
            final(frame).same_shape(old(frame)),
            old(frame).buffer.glyphs_wf() ==> final(frame).buffer.glyphs_wf(),
            model_of(final(frame)) == (FrameModel {
                cells: centered_text_drawn(
                    old(frame).buffer@,
                    canvas_of(old(frame)),
                    x as int,
                    y as int,
                    width as int,
                    text@,
                    style,
                ),
                ..model_of(old(frame))
            }),
    {
        let chars = chars_of(text);
        let bytes = text.len();
        let text_len = if bytes <= width as usize {
            bytes
        } else {
            width as usize
        };
        let offset = (width as usize - text_len) / 2;
        let count = if chars.len() <= width as usize {
            chars.len()
        } else {
            width as usize
        };
        let colours = Style { fg: style.fg, bg: style.bg, attrs: None };
        draw_chars(
            &mut frame.buffer,
            &chars,
            count,
            x as usize + offset,
            y,
            x as usize + width as usize,
            colours,
        );
    }

    /// Draws the input field of a prompt.
    pub fn render_input(&self, frame: &mut Frame, x: u16, y: u16, width: u16, state: &DialogState)
        requires
            old(frame).wf(),
        ensures
            final(frame).wf(),
            final(frame).same_shape(old(frame)),
            old(frame).buffer.glyphs_wf() ==> final(frame).buffer.glyphs_wf(),
            model_of(final(frame)) == self.input_drawn(
                model_of(old(frame)),
                canvas_of(old(frame)),
                state.input_value@,
                state.input_focused,
                x as int,
                y as int,
                width as int,
            ),
    {
        let field = Rect::new(x.saturating_add(1), y, width.saturating_sub(2), 1);
        let input_style = self.config.input_style;
        set_style_area(&mut frame.buffer, field, input_style);
        let mut shown = chars_of(state.input_value.as_str());
        if shown.len() == 0 {
            shown.push(' ');
            assert(shown@ =~= seq![' ']);
        }
        let count = if shown.len() <= field.width as usize {
            shown.len()
        } else {
            field.width as usize
        };
        let text_style = Style { fg: input_style.fg, bg: None, attrs: input_style.attrs };
        draw_chars(&mut frame.buffer, &shown, count, field.x as usize, y, 0x1_0000, text_style);
        if state.input_focused {
            let bytes = state.input_value.as_str().len();
            let after = if bytes <= field.width as usize {
                bytes as u16
            } else {
                field.width
            };
            let cursor_x = field.x.saturating_add(after);
            if cursor_x < field.right() {
                frame.cursor_position = Some((cursor_x, y));
                frame.cursor_visible = true;
            }
        }
    }

    /// Width of the row of buttons, but not more than `width`.
    pub fn buttons_total_width(&self, width: u16) -> (total: u16)
        ensures
            total == least(width as int, buttons_width(self.buttons@, self.buttons@.len() as int)),
    {
        let n = self.buttons.len();
        let mut total: usize = 0;
        let mut i: usize = 0;
        while i < n
            invariant
                n == self.buttons@.len(),
                0 <= i <= n,
                total == least(width as int, buttons_width(self.buttons@, i as int)),
                buttons_width(self.buttons@, i as int) >= 0,
            decreases n - i,
        {
            let w = self.buttons[i].display_width();
            let gap: usize = if i > 0 {
                2
            } else {
                0
            };
            let sum = total.saturating_add(w).saturating_add(gap);
            total = if sum <= width as usize {
                sum
            } else {
                width as usize
            };
            i += 1;
        }
        total as u16
    }

    /// The style in which a button is drawn.
    pub fn style_of_button(&self, primary: bool, focused: bool) -> (s: Style)
        ensures
            s == button_style(self.config, primary, focused),
    {
        if focused {
            let style = self.config.focused_button_style;
            if style.has_attrs(StyleFlags(FLAG_REVERSE)) {
                style
            } else {
                style.reverse()
            }
        } else if primary {
            self.config.primary_button_style
        } else {
            self.config.button_style
        }
    }

    /// The characters of a button as drawn: its label in brackets.
    pub fn button_chars(label: &str) -> (chars: Vec<char>)
        ensures
            chars@ == button_text(label@),
    {
        let inner = chars_of(label);
        let mut chars: Vec<char> = Vec::new();
        chars.push('[');
        chars.push(' ');
        let n = inner.len();
        let mut i: usize = 0;
        while i < n
            invariant
                n == inner@.len(),
                0 <= i <= n,
                chars@ == seq!['[', ' '] + inner@.subrange(0, i as int),
            decreases n - i,
        {
            chars.push(inner[i]);
            assert(chars@ =~= seq!['[', ' '] + inner@.subrange(0, i + 1));
            i += 1;
        }
        chars.push(' ');
        chars.push(']');
        assert(chars@ =~= button_text(label@));
        chars
    }

    /// Draws the row of buttons into the middle of `width` columns from
    /// column `x` on and registers a hit area for each.
    pub fn render_buttons(&self, frame: &mut Frame, x: u16, y: u16, width: u16, state: &DialogState)
        requires
            old(frame).wf(),
        ensures
            final(frame).wf(),
            final(frame).same_shape(old(frame)),
            old(frame).buffer.glyphs_wf() ==> final(frame).buffer.glyphs_wf(),
            model_of(final(frame)) == self.buttons_drawn(
                model_of(old(frame)),
                canvas_of(old(frame)),
                hit_width_of(old(frame)),
                state.focused_button,
                x as int,
                y as int,
                width as int,
            ),
    {
        let total = self.buttons_total_width(width);
        let start_x = x.saturating_add((width - total) / 2);
        let limit = x as usize + width as usize;
        let ghost c = canvas_of(frame);
        let ghost hw = hit_width_of(frame);
        let ghost goal = self.buttons_drawn(
            model_of(frame),
            c,
            hw,
            state.focused_button,
            x as int,
            y as int,
            width as int,
        );
        let n = self.buttons.len();
        let mut bx = start_x;
        let mut i: usize = 0;
        while i < n
            invariant
                frame.wf(),
                frame.same_shape(old(frame)),
                old(frame).buffer.glyphs_wf() ==> frame.buffer.glyphs_wf(),
                c == canvas_of(frame),
                hw == hit_width_of(frame),
                n == self.buttons@.len(),
                0 <= i <= n,
                limit == x + width,
                goal == self.buttons_from(
                    model_of(frame),
                    c,
                    hw,
                    state.focused_button,
                    i as int,
                    bx as int,
                    y as int,
                    limit as int,
                ),
            decreases n - i,
        {
            let button = &self.buttons[i];
            let focused = match state.focused_button {
                Some(f) => f == i,
                None => false,
            };
            let style = self.style_of_button(button.primary, focused);
            let chars = Self::button_chars(button.label.as_str());
            draw_chars(&mut frame.buffer, &chars, chars.len(), bx as usize, y, limit, style);
            let wide = button.display_width();
            let span: u16 = if wide <= 0xFFFF {
                wide as u16
            } else {
                0xFFFF
            };
            match self.hit_id {
                Some(id) => {
                    frame.register_hit(Rect::new(bx, y, span, 1), id, dialog_hit_button(), i as u64);
                },
                None => {},
            }
            bx = bx.saturating_add(span).saturating_add(2);
            i += 1;
        }
    }

    /// Draws the dialog into an area.
    pub fn render_content(&self, area: Rect, frame: &mut Frame, state: &DialogState)
        requires
            old(frame).wf(),
        ensures
            final(frame).wf(),
            final(frame).same_shape(old(frame)),
            old(frame).buffer.glyphs_wf() ==> final(frame).buffer.glyphs_wf(),
            model_of(final(frame)) == self.content_drawn(
                model_of(old(frame)),
                canvas_of(old(frame)),
                hit_width_of(old(frame)),
                old(frame).buffer.spec_degradation(),
                area,
                state@,
            ),
    {
        if area.is_empty() {
            return;
        }
        let ghost c = canvas_of(frame);
        let ghost level = frame.buffer.spec_degradation();
        let panel = Panel::new(Blank).title(self.title.as_str()).title_alignment(Alignment::Center);
        proof {
            assert(15u8 & 1u8 == 1u8) by (bit_vector);
            assert(panel.borders.has(crate::borders::BORDER_TOP));
            assert(panel.title->0@ == self.title@);
            assert(panel.frame_drawn(state_of(frame, 0), c, area, level) == dialog_border_drawn(
                self.title@,
                state_of(frame, 0),
                c,
                area,
                level,
            ));
        }
        panel.render_frame(area, frame);
        let inner = panel.inner(area);
        if inner.is_empty() {
            return;
        }
        let bottom = inner.bottom();
        let mut y = inner.y;
        if !self.message.as_str().is_empty() && y < bottom {
            self.draw_centered_text(
                frame,
                inner.x,
                y,
                inner.width,
                self.message.as_str(),
                self.config.message_style,
            );
            y = y.saturating_add(1);
        }
        y = y.saturating_add(1);
        if self.config.kind == DialogKind::Prompt && y < bottom {
            self.render_input(frame, inner.x, y, inner.width, state);
            y = y.saturating_add(2);
        }
        if y < bottom {
            self.render_buttons(frame, inner.x, y, inner.width, state);
        }
    }
}

impl StatefulWidget for Dialog {
    type State = DialogState;

    /// Shows the dialog in an area as a modal: 30 to 60 columns wide and
    /// as high as its content asks for, or up to four rows more. A closed
    /// dialog is not shown. The state stays as it is.
    fn render(&self, area: Rect, frame: &mut Frame, state: &mut DialogState)
        ensures
            *final(state) == *old(state),
            old(frame).buffer.glyphs_wf() ==> final(frame).buffer.glyphs_wf(),
            model_of(final(frame)) == self.shown(
                model_of(old(frame)),
                canvas_of(old(frame)),
                hit_width_of(old(frame)),
                old(frame).buffer.spec_degradation(),
                area,
                old(state)@,
            ),
    {
        if !state.open || area.is_empty() {
            return;
        }
        let height = self.content_height();
        let config = self.config.modal_config.size(
            ModalSizeConstraints::new().min_width(30).max_width(60).min_height(height).max_height(
                height + 4,
            ),
        );
        lay_backdrop(frame, area, config.backdrop);
        let rect = config.content_rect(area);
        if !rect.is_empty() {
            self.render_content(rect, frame, state);
        }
        register_modal_hits(frame, area, rect, config.hit_id);
    }
}

} // verus!
