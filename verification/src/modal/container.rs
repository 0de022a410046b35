//! The modal container: size constraints, positioning, the state that
//! decides when a modal closes, and the modal itself, which draws its
//! content above a backdrop.

use crate::cell::{Cell, PackedRgba};
use crate::event::{Event, Hit, HitId, HitRegion, KeyCode, KeyEventKind, MouseButton, MouseEventKind};
use crate::frame::{hit_width_of, hits_after, model_of, Frame, FrameModel};
use crate::geometry::{max_int, min_int, Rect, Size};
use crate::style::Style;
use crate::widgets::{set_style_area, styled_area, Widget};
use vstd::prelude::*;

verus! {

/// The hit region of a modal's backdrop.
pub open spec fn spec_hit_backdrop() -> HitRegion {
    HitRegion::Custom(1)
}

/// The hit region of a modal's content.
pub open spec fn spec_hit_content() -> HitRegion {
    HitRegion::Custom(2)
}

/// The hit region of a modal's backdrop.
pub fn modal_hit_backdrop() -> (r: HitRegion)
    ensures
        r == spec_hit_backdrop(),
{
    HitRegion::Custom(1)
}

/// The hit region of a modal's content.
pub fn modal_hit_content() -> (r: HitRegion)
    ensures
        r == spec_hit_content(),
{
    HitRegion::Custom(2)
}

/// What a modal asks for after an event.
#[derive(Debug, Clone, Copy, PartialEq, Eq, Structural)]
pub enum ModalAction {
    /// The modal should close.
    Close,
    /// The backdrop was clicked.
    BackdropClicked,
    /// Escape was pressed.
    EscapePressed,
}

/// Least and greatest width and height of a modal. A bound that is `None`
/// does not bind.
#[derive(Debug, Clone, Copy, PartialEq, Eq, Structural)]
pub struct ModalSizeConstraints {
    pub min_width: Option<u16>,
    pub max_width: Option<u16>,
    pub min_height: Option<u16>,
    pub max_height: Option<u16>,
}

/// An extent held between a least and a greatest value, and never above
/// what is available: first cut to the greatest, then raised to the least,
/// then cut to what is available.
pub open spec fn clamp_extent(available: int, min: Option<u16>, max: Option<u16>) -> int {
    let cut = match max {
        Some(m) => min_int(available, m as int),
        None => available,
    };
    match min {
        Some(m) => min_int(max_int(cut, m as int), available),
        None => cut,
    }
}

impl ModalSizeConstraints {
    /// The size that the constraints give within what is available.
    pub open spec fn spec_clamp(self, available: Size) -> Size {
        Size {
            width: clamp_extent(available.width as int, self.min_width, self.max_width) as u16,
            height: clamp_extent(available.height as int, self.min_height, self.max_height) as u16,
        }
    }

    /// Constraints that bind nothing.
    pub fn new() -> (c: ModalSizeConstraints)
        ensures
            c == (ModalSizeConstraints {
                min_width: None,
                max_width: None,
                min_height: None,
                max_height: None,
            }),
    {
        ModalSizeConstraints { min_width: None, max_width: None, min_height: None, max_height: None }
    }

    /// The constraints with a least width.
    pub fn min_width(self, value: u16) -> (c: ModalSizeConstraints)
        ensures
            c == (ModalSizeConstraints { min_width: Some(value), ..self }),
    {
        ModalSizeConstraints { min_width: Some(value), ..self }
    }

    /// The constraints with a greatest width.
    pub fn max_width(self, value: u16) -> (c: ModalSizeConstraints)
        ensures
            c == (ModalSizeConstraints { max_width: Some(value), ..self }),
    {
        ModalSizeConstraints { max_width: Some(value), ..self }
    }

    /// The constraints with a least height.
    pub fn min_height(self, value: u16) -> (c: ModalSizeConstraints)
        ensures
            c == (ModalSizeConstraints { min_height: Some(value), ..self }),
    {
        ModalSizeConstraints { min_height: Some(value), ..self }
    }

    /// The constraints with a greatest height.
    pub fn max_height(self, value: u16) -> (c: ModalSizeConstraints)
        ensures
            c == (ModalSizeConstraints { max_height: Some(value), ..self }),
    {
        ModalSizeConstraints { max_height: Some(value), ..self }
    }

    /// The size that the constraints give within what is available. It
    /// never exceeds what is available.
    pub fn clamp(self, available: Size) -> (s: Size)
        ensures
            s == self.spec_clamp(available),
            s.width <= available.width,
            s.height <= available.height,
    {
        let mut width = available.width;
        let mut height = available.height;
        match self.max_width {
            Some(max_width) => {
                if max_width < width {
                    width = max_width;
                }
            },
            None => {},
        }
        match self.max_height {
            Some(max_height) => {
                if max_height < height {
                    height = max_height;
                }
            },
            None => {},
        }
        match self.min_width {
            Some(min_width) => {
                if width < min_width {
                    width = min_width;
                }
                if available.width < width {
                    width = available.width;
                }
            },
            None => {},
        }
        match self.min_height {
            Some(min_height) => {
                if height < min_height {
                    height = min_height;
                }
                if available.height < height {
                    height = available.height;
                }
            },
            None => {},
        }
        Size::new(width, height)
    }
}

impl Default for ModalSizeConstraints {
    fn default() -> (c: ModalSizeConstraints)
        ensures
            c == (ModalSizeConstraints {
                min_width: None,
                max_width: None,
                min_height: None,
                max_height: None,
            }),
    {
        ModalSizeConstraints::new()
    }
}

/// Where a modal is placed in its area.
#[derive(Debug, Clone, Copy, PartialEq, Eq, Structural)]
pub enum ModalPosition {
    /// In the middle.
    Center,
    /// In the middle, moved by an offset.
    CenterOffset { x: i16, y: i16 },
    /// In the middle of the width, `margin` rows below the top.
    TopCenter { margin: u16 },
    /// At a given cell.
    Custom { x: u16, y: u16 },
}

/// A value held between `low` and `high`.
pub open spec fn clamp_int(v: int, low: int, high: int) -> int {
    if v < low {
        low
    } else if v > high {
        high
    } else {
        v
    }
}

impl ModalPosition {
    /// The cell at which a modal of `size` wants its top left corner in
    /// `area`, before it is held inside the area.
    pub open spec fn wanted(self, area: Rect, size: Size) -> (int, int) {
        let mid_x = area.x + (area.width - size.width) / 2;
        let mid_y = area.y + (area.height - size.height) / 2;
        match self {
            ModalPosition::Center => (mid_x, mid_y),
            ModalPosition::CenterOffset { x, y } => (mid_x + x, mid_y + y),
            ModalPosition::TopCenter { margin } => (mid_x, area.y + margin),
            ModalPosition::Custom { x, y } => (x as int, y as int),
        }
    }

    /// The rectangle of a modal of `size` in `area`: the wanted corner,
    /// moved as little as needed for the modal to lie inside the area.
    /// Coordinates are taken modulo 65536.
    pub open spec fn spec_resolve(self, area: Rect, size: Size) -> Rect {
        let x = clamp_int(
            self.wanted(area, size).0,
            area.x as int,
            area.x + (area.width - size.width),
        );
        let y = clamp_int(
            self.wanted(area, size).1,
            area.y as int,
            area.y + (area.height - size.height),
        );
        Rect { x: (x % 65536) as u16, y: (y % 65536) as u16, width: size.width, height: size.height }
    }

    /// The rectangle of a modal of `size` in `area`. The size must fit the
    /// area.
    pub fn resolve(self, area: Rect, size: Size) -> (r: Rect)
        requires
            size.width <= area.width,
            size.height <= area.height,
        ensures
            r == self.spec_resolve(area, size),
    {
        let base_x: i32 = area.x as i32;
        let base_y: i32 = area.y as i32;
        let room_x: i32 = area.width as i32 - size.width as i32;
        let room_y: i32 = area.height as i32 - size.height as i32;
        let max_x: i32 = base_x + room_x;
        let max_y: i32 = base_y + room_y;
        let (wx, wy): (i32, i32) = match self {
            ModalPosition::Center => (base_x + room_x / 2, base_y + room_y / 2),
            ModalPosition::CenterOffset { x, y } => (
                base_x + room_x / 2 + x as i32,
                base_y + room_y / 2 + y as i32,
            ),
            ModalPosition::TopCenter { margin } => (base_x + room_x / 2, base_y + margin as i32),
            ModalPosition::Custom { x, y } => (x as i32, y as i32),
        };
        let x: i32 = if wx < base_x {
            base_x
        } else if wx > max_x {
            max_x
        } else {
            wx
        };
        let y: i32 = if wy < base_y {
            base_y
        } else if wy > max_y {
            max_y
        } else {
            wy
        };
        Rect::new((x % 65536) as u16, (y % 65536) as u16, size.width, size.height)
    }
}

impl Default for ModalPosition {
    fn default() -> (p: ModalPosition)
        ensures
            p == ModalPosition::Center,
    {
        ModalPosition::Center
    }
}

/// The backdrop of a modal unless another is chosen: black at six tenths
/// of full opacity.
pub open spec fn default_backdrop() -> PackedRgba {
    PackedRgba(PackedRgba::pack(0, 0, 0, 153))
}

/// How a modal is placed, what lies behind it and what closes it.
#[derive(Debug, Clone, Copy, PartialEq, Eq, Structural)]
pub struct ModalConfig {
    pub position: ModalPosition,
    pub size: ModalSizeConstraints,
    /// The colour laid over the area behind the modal, its opacity in its
    /// alpha; `None` for no backdrop.
    pub backdrop: Option<PackedRgba>,
    pub close_on_backdrop: bool,
    pub close_on_escape: bool,
    pub hit_id: Option<HitId>,
}

impl ModalConfig {
    /// A centred modal without size constraints, above the usual backdrop,
    /// that closes on escape and on a click on its backdrop and registers
    /// no hit areas.
    pub open spec fn standard() -> ModalConfig {
        ModalConfig {
            position: ModalPosition::Center,
            size: ModalSizeConstraints {
                min_width: None,
                max_width: None,
                min_height: None,
                max_height: None,
            },
            backdrop: Some(default_backdrop()),
            close_on_backdrop: true,
            close_on_escape: true,
            hit_id: None,
        }
    }

    /// The rectangle of the modal's content in `area`: the size that the
    /// constraints give, placed by the position. An empty rectangle at the
    /// corner of the area where the size is empty.
    pub open spec fn spec_content_rect(self, area: Rect) -> Rect {
        let size = self.size.spec_clamp(Size { width: area.width, height: area.height });
        if size.width == 0 || size.height == 0 {
            Rect { x: area.x, y: area.y, width: 0, height: 0 }
        } else {
            self.position.spec_resolve(area, size)
        }
    }

    /// The configuration with another position.
    pub fn position(self, position: ModalPosition) -> (c: ModalConfig)
        ensures
            c == (ModalConfig { position, ..self }),
    {
        ModalConfig { position, ..self }
    }

    /// The configuration with other size constraints.
    pub fn size(self, size: ModalSizeConstraints) -> (c: ModalConfig)
        ensures
            c == (ModalConfig { size, ..self }),
    {
        ModalConfig { size, ..self }
    }

    /// The configuration with another backdrop colour, or none.
    pub fn backdrop(self, backdrop: Option<PackedRgba>) -> (c: ModalConfig)
        ensures
            c == (ModalConfig { backdrop, ..self }),
    {
        ModalConfig { backdrop, ..self }
    }

    /// The configuration with closing on a backdrop click on or off.
    pub fn close_on_backdrop(self, close: bool) -> (c: ModalConfig)
        ensures
            c == (ModalConfig { close_on_backdrop: close, ..self }),
    {
        ModalConfig { close_on_backdrop: close, ..self }
    }

    /// The configuration with closing on escape on or off.
    pub fn close_on_escape(self, close: bool) -> (c: ModalConfig)
        ensures
            c == (ModalConfig { close_on_escape: close, ..self }),
    {
        ModalConfig { close_on_escape: close, ..self }
    }

    /// The configuration with the id that the modal registers its hit areas
    /// under.
    pub fn hit_id(self, id: HitId) -> (c: ModalConfig)
        ensures
            c == (ModalConfig { hit_id: Some(id), ..self }),
    {
        ModalConfig { hit_id: Some(id), ..self }
    }

    /// The rectangle of the modal's content in `area`.
    pub fn content_rect(&self, area: Rect) -> (r: Rect)
        ensures
            r == self.spec_content_rect(area),
    {
        let available = Size::new(area.width, area.height);
        let size = self.size.clamp(available);
        if size.width == 0 || size.height == 0 {
            return Rect::new(area.x, area.y, 0, 0);
        }
        self.position.resolve(area, size)
    }
}

impl Default for ModalConfig {
    fn default() -> (c: ModalConfig)
        ensures
            c == ModalConfig::standard(),
    {
        ModalConfig {
            position: ModalPosition::Center,
            size: ModalSizeConstraints::new(),
            backdrop: Some(PackedRgba::rgba(0, 0, 0, 153)),
            close_on_backdrop: true,
            close_on_escape: true,
            hit_id: None,
        }
    }
}

/// Whether a hit is on the backdrop of the modal with the given id.
pub open spec fn hits_backdrop(hit: Option<Hit>, hit_id: Option<HitId>) -> bool {
    hit matches Some(h) && hit_id matches Some(expected) && h.id == expected && h.region
        == spec_hit_backdrop()
}

/// What an open modal does on an event: escape closes it where the
/// configuration says so, and so does a left click on its backdrop.
pub open spec fn modal_reaction(event: Event, hit: Option<Hit>, config: ModalConfig) -> Option<
    ModalAction,
> {
    if event.is_press_of(KeyCode::Escape) && config.close_on_escape {
        Some(ModalAction::EscapePressed)
    } else if event.is_left_click() && config.close_on_backdrop && hits_backdrop(
        hit,
        config.hit_id,
    ) {
        Some(ModalAction::BackdropClicked)
    } else {
        None
    }
}

/// Whether a modal is open.
#[derive(Debug, Clone, Copy, PartialEq, Eq, Structural)]
pub struct ModalState {
    open: bool,
}

impl ModalState {
    /// Whether the modal is open.
    pub closed spec fn spec_is_open(&self) -> bool {
        self.open
    }

    /// Whether the modal is open.
    pub fn is_open(&self) -> (r: bool)
        ensures
            r == self.spec_is_open(),
    {
        self.open
    }

    /// Opens the modal.
    pub fn open(&mut self)
        ensures
            final(self).spec_is_open(),
    {
        self.open = true;
    }

    /// Closes the modal.
    pub fn close(&mut self)
        ensures
            !final(self).spec_is_open(),
    {
        self.open = false;
    }

    /// Takes an event, with what the hit test says of it for a mouse
    /// event. A closed modal does nothing. An open one closes on escape and
    /// on a left click on its backdrop, where the configuration says so, and
    /// reports which it was.
    pub fn handle_event(&mut self, event: &Event, hit: Option<Hit>, config: &ModalConfig) -> (r:
        Option<ModalAction>)
        ensures
            r == if old(self).spec_is_open() {
                modal_reaction(*event, hit, *config)
            } else {
                None
            },
            final(self).spec_is_open() == (old(self).spec_is_open() && r.is_none()),
    {
        if !self.open {
            return None;
        }
        match event {
            Event::Key(key) => {
                if key.code == KeyCode::Escape && key.kind == KeyEventKind::Press
                    && config.close_on_escape {
                    self.open = false;
                    return Some(ModalAction::EscapePressed);
                }
            },
            Event::Mouse(mouse) => {
                if mouse.kind == MouseEventKind::Down(MouseButton::Left)
                    && config.close_on_backdrop {
                    match (hit, config.hit_id) {
                        (Some(h), Some(expected)) => {
                            if h.id == expected && h.region == modal_hit_backdrop() {
                                self.open = false;
                                return Some(ModalAction::BackdropClicked);
                            }
                        },
                        _ => {},
                    }
                }
            },
            _ => {},
        }
        None
    }
}

impl Default for ModalState {
    fn default() -> (s: ModalState)
        ensures
            s.spec_is_open(),
    {
        ModalState { open: true }
    }
}

/// The content rectangle of a modal lies inside its area, wherever the
/// position wants it, as long as the area itself does not reach past the
/// last column and row.
pub proof fn lemma_content_rect_within(config: ModalConfig, area: Rect)
    requires
        area.x + area.width <= u16::MAX,
        area.y + area.height <= u16::MAX,
    ensures
        config.spec_content_rect(area).x >= area.x,
        config.spec_content_rect(area).y >= area.y,
        config.spec_content_rect(area).x + config.spec_content_rect(area).width <= area.x
            + area.width,
        config.spec_content_rect(area).y + config.spec_content_rect(area).height <= area.y
            + area.height,
{
}

/// The grid after the backdrop of a modal was laid over an area.
pub open spec fn backdrop_laid(
    cells: Seq<Cell>,
    width: int,
    area: Rect,
    backdrop: Option<PackedRgba>,
) -> Seq<Cell> {
    match backdrop {
        Some(bg) => styled_area(cells, width, area, Style { fg: None, bg: Some(bg), attrs: None }),
        None => cells,
    }
}

/// The hits after a modal with a hit id registered the area as its
/// backdrop and then, unless it is empty, the rectangle of its content.
pub open spec fn modal_hits(
    hits: Option<Seq<Option<Hit>>>,
    hit_width: int,
    area: Rect,
    rect: Rect,
    hit_id: Option<HitId>,
) -> Option<Seq<Option<Hit>>> {
    match hit_id {
        Some(id) => {
            let behind = hits_after(
                hits,
                hit_width,
                area,
                Hit { id, region: spec_hit_backdrop(), data: 0 },
            );
            if rect.spec_is_empty() {
                behind
            } else {
                hits_after(
                    behind,
                    hit_width,
                    rect,
                    Hit { id, region: spec_hit_content(), data: 0 },
                )
            }
        },
        None => hits,
    }
}

/// Lays the backdrop of a modal over an area.
pub fn lay_backdrop(frame: &mut Frame, area: Rect, backdrop: Option<PackedRgba>)
    requires
        old(frame).wf(),
    ensures
        final(frame).wf(),
        final(frame).same_shape(old(frame)),
        old(frame).buffer.glyphs_wf() ==> final(frame).buffer.glyphs_wf(),
        model_of(final(frame)) == (FrameModel {
            cells: backdrop_laid(old(frame).buffer@, old(frame).buffer.spec_width(), area, backdrop),
            ..model_of(old(frame))
        }),
{
    match backdrop {
        Some(bg) => {
            set_style_area(&mut frame.buffer, area, Style::new().bg(bg));
        },
        None => {},
    }
}

/// Registers the hit areas of a modal: the area as its backdrop and,
/// unless it is empty, the rectangle of its content. Without a hit id
/// nothing is registered.
pub fn register_modal_hits(frame: &mut Frame, area: Rect, rect: Rect, hit_id: Option<HitId>)
    requires
        old(frame).wf(),
    ensures
        final(frame).wf(),
        final(frame).same_shape(old(frame)),
        final(frame).buffer == old(frame).buffer,
        model_of(final(frame)) == (FrameModel {
            hits: modal_hits(old(frame).hits(), hit_width_of(old(frame)), area, rect, hit_id),
            ..model_of(old(frame))
        }),
{
    match hit_id {
        Some(id) => {
            frame.register_hit(area, id, modal_hit_backdrop(), 0);
            if !rect.is_empty() {
                frame.register_hit(rect, id, modal_hit_content(), 0);
            }
        },
        None => {},
    }
}

/// A modal: content drawn above a backdrop.
#[derive(Debug, Clone)]
pub struct Modal<C> {
    pub content: C,
    pub config: ModalConfig,
}

impl<C> Modal<C> {
    /// A centred modal that closes on escape and on a click on its
    /// backdrop.
    pub fn new(content: C) -> (m: Modal<C>)
        ensures
            m.content == content,
            m.config == ModalConfig::standard(),
    {
        Modal { content, config: ModalConfig::default() }
    }

    /// The modal with another configuration.
    pub fn config(self, config: ModalConfig) -> (m: Modal<C>)
        ensures
            m.content == self.content,
            m.config == config,
    {
        Modal { content: self.content, config }
    }

    /// The modal at another position.
    pub fn position(self, position: ModalPosition) -> (m: Modal<C>)
        ensures
            m.content == self.content,
            m.config == (ModalConfig { position, ..self.config }),
    {
        Modal { content: self.content, config: self.config.position(position) }
    }

    /// The modal with another backdrop colour, or none.
    pub fn backdrop(self, backdrop: Option<PackedRgba>) -> (m: Modal<C>)
        ensures
            m.content == self.content,
            m.config == (ModalConfig { backdrop, ..self.config }),
    {
        Modal { content: self.content, config: self.config.backdrop(backdrop) }
    }

    /// The modal with other size constraints.
    pub fn size(self, size: ModalSizeConstraints) -> (m: Modal<C>)
        ensures
            m.content == self.content,
            m.config == (ModalConfig { size, ..self.config }),
    {
        Modal { content: self.content, config: self.config.size(size) }
    }

    /// The modal with closing on a backdrop click on or off.
    pub fn close_on_backdrop(self, close: bool) -> (m: Modal<C>)
        ensures
            m.content == self.content,
            m.config == (ModalConfig { close_on_backdrop: close, ..self.config }),
    {
        Modal { content: self.content, config: self.config.close_on_backdrop(close) }
    }

    /// The modal with closing on escape on or off.
    pub fn close_on_escape(self, close: bool) -> (m: Modal<C>)
        ensures
            m.content == self.content,
            m.config == (ModalConfig { close_on_escape: close, ..self.config }),
    {
        Modal { content: self.content, config: self.config.close_on_escape(close) }
    }

    /// The modal with the id that it registers its hit areas under.
    pub fn hit_id(self, id: HitId) -> (m: Modal<C>)
        ensures
            m.content == self.content,
            m.config == (ModalConfig { hit_id: Some(id), ..self.config }),
    {
        Modal { content: self.content, config: self.config.hit_id(id) }
    }

    /// The rectangle of the content in `area`.
    pub fn content_rect(&self, area: Rect) -> (r: Rect)
        ensures
            r == self.config.spec_content_rect(area),
    {
        self.config.content_rect(area)
    }

    /// Hands an event to the state of the modal.
    pub fn handle_event(&self, state: &mut ModalState, event: &Event, hit: Option<Hit>) -> (r:
        Option<ModalAction>)
        ensures
            r == if old(state).spec_is_open() {
                modal_reaction(*event, hit, self.config)
            } else {
                None
            },
            final(state).spec_is_open() == (old(state).spec_is_open() && r.is_none()),
    {
        state.handle_event(event, hit, &self.config)
    }
}

impl<C: Widget> Widget for Modal<C> {
    /// Lays the backdrop over the area, draws the content into its
    /// rectangle and registers the hit areas. An empty area is left alone;
    /// where the rectangle of the content is empty, the frame is the old
    /// one with backdrop and hit areas.
    fn render(&self, area: Rect, frame: &mut Frame)
        ensures
            area.spec_is_empty() ==> model_of(final(frame)) == model_of(old(frame)),
            !area.spec_is_empty() && self.config.spec_content_rect(area).spec_is_empty()
                ==> model_of(final(frame)) == (FrameModel {
                cells: backdrop_laid(
                    old(frame).buffer@,
                    old(frame).buffer.spec_width(),
                    area,
                    self.config.backdrop,
                ),
                hits: modal_hits(
                    old(frame).hits(),
                    hit_width_of(old(frame)),
                    area,
                    self.config.spec_content_rect(area),
                    self.config.hit_id,
                ),
                ..model_of(old(frame))
            }),
    {
        if area.is_empty() {
            return;
        }
        lay_backdrop(frame, area, self.config.backdrop);
        let rect = self.content_rect(area);
        if !rect.is_empty() {
            self.content.render(rect, frame);
        }
        register_modal_hits(frame, area, rect, self.config.hit_id);
    }
}

} // verus!
