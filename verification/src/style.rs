//! Styles: optional foreground, background and text attributes that a
//! widget lays over the cells it draws.

use crate::cell::{
    Cell, PackedRgba, StyleFlags, FLAG_BOLD, FLAG_DIM, FLAG_ITALIC, FLAG_REVERSE, FLAG_UNDERLINE,
};
use vstd::prelude::*;

verus! {

/// What a style sets. A field that is `None` leaves the cell as it is.
#[derive(Clone, Copy, Debug, PartialEq, Eq, Structural)]
pub struct Style {
    pub fg: Option<PackedRgba>,
    pub bg: Option<PackedRgba>,
    pub attrs: Option<StyleFlags>,
}

/// The attributes of a style, none where it sets none.
pub open spec fn attr_bits(attrs: Option<StyleFlags>) -> u16 {
    match attrs {
        Some(f) => f.0,
        None => 0,
    }
}

impl Style {
    /// The style that sets nothing.
    pub open spec fn empty() -> Style {
        Style { fg: None, bg: None, attrs: None }
    }

    /// Whether the style sets nothing.
    pub open spec fn spec_is_empty(self) -> bool {
        self.fg.is_none() && self.bg.is_none() && self.attrs.is_none()
    }

    /// The style with the given attribute bits added.
    pub open spec fn with_bits(self, bits: u16) -> Style {
        Style { attrs: Some(StyleFlags(attr_bits(self.attrs) | bits)), ..self }
    }

    /// The cell with the style laid over it: colours replaced where the
    /// style sets them, attributes added.
    pub open spec fn applied_to(self, cell: Cell) -> Cell {
        Cell {
            fg: match self.fg {
                Some(c) => c,
                None => cell.fg,
            },
            bg: match self.bg {
                Some(c) => c,
                None => cell.bg,
            },
            attrs: match self.attrs {
                Some(f) => StyleFlags(cell.attrs.0 | f.0),
                None => cell.attrs,
            },
            ..cell
        }
    }

    /// This style over `base`: its colours where it sets them, else those
    /// of `base`; the attributes of both.
    pub open spec fn spec_merge(self, base: Style) -> Style {
        Style {
            fg: match self.fg {
                Some(c) => Some(c),
                None => base.fg,
            },
            bg: match self.bg {
                Some(c) => Some(c),
                None => base.bg,
            },
            attrs: match (self.attrs, base.attrs) {
                (Some(a), Some(b)) => Some(StyleFlags(a.0 | b.0)),
                (Some(a), None) => Some(a),
                (None, b) => b,
            },
        }
    }

    /// The style that sets nothing.
    pub fn new() -> (s: Style)
        ensures
            s == Style::empty(),
    {
        Style { fg: None, bg: None, attrs: None }
    }

    /// The style with a foreground.
    pub fn fg(self, color: PackedRgba) -> (s: Style)
        ensures
            s == (Style { fg: Some(color), ..self }),
    {
        Style { fg: Some(color), ..self }
    }

    /// The style with a background.
    pub fn bg(self, color: PackedRgba) -> (s: Style)
        ensures
            s == (Style { bg: Some(color), ..self }),
    {
        Style { bg: Some(color), ..self }
    }

    /// The style with the given attributes added.
    pub fn add_attrs(self, flags: StyleFlags) -> (s: Style)
        ensures
            s == self.with_bits(flags.0),
    {
        let bits = match self.attrs {
            Some(f) => f.0,
            None => 0,
        };
        Style { attrs: Some(StyleFlags(bits | flags.0)), ..self }
    }

    /// The style with bold added.
    pub fn bold(self) -> (s: Style)
        ensures
            s == self.with_bits(FLAG_BOLD),
    {
        self.add_attrs(StyleFlags(FLAG_BOLD))
    }

    /// The style with dim added.
    pub fn dim(self) -> (s: Style)
        ensures
            s == self.with_bits(FLAG_DIM),
    {
        self.add_attrs(StyleFlags(FLAG_DIM))
    }

    /// The style with italic added.
    pub fn italic(self) -> (s: Style)
        ensures
            s == self.with_bits(FLAG_ITALIC),
    {
        self.add_attrs(StyleFlags(FLAG_ITALIC))
    }

    /// The style with underline added.
    pub fn underline(self) -> (s: Style)
        ensures
            s == self.with_bits(FLAG_UNDERLINE),
    {
        self.add_attrs(StyleFlags(FLAG_UNDERLINE))
    }

    /// The style with reverse video added.
    pub fn reverse(self) -> (s: Style)
        ensures
            s == self.with_bits(FLAG_REVERSE),
    {
        self.add_attrs(StyleFlags(FLAG_REVERSE))
    }

    /// Whether the style sets nothing.
    pub fn is_empty(&self) -> (r: bool)
        ensures
            r == self.spec_is_empty(),
    {
        self.fg.is_none() && self.bg.is_none() && self.attrs.is_none()
    }

    /// Whether the style sets the given attributes.
    pub fn has_attrs(&self, flags: StyleFlags) -> (r: bool)
        ensures
            r == (attr_bits(self.attrs) & flags.0 == flags.0),
    {
        let bits = match self.attrs {
            Some(f) => f.0,
            None => 0,
        };
        bits & flags.0 == flags.0
    }

    /// This style over `base`.
    pub fn merge(&self, base: &Style) -> (s: Style)
        ensures
            s == self.spec_merge(*base),
    {
        Style {
            fg: match self.fg {
                Some(c) => Some(c),
                None => base.fg,
            },
            bg: match self.bg {
                Some(c) => Some(c),
                None => base.bg,
            },
            attrs: match self.attrs {
                Some(a) => match base.attrs {
                    Some(b) => Some(StyleFlags(a.0 | b.0)),
                    None => Some(a),
                },
                None => base.attrs,
            },
        }
    }
}

impl Default for Style {
    fn default() -> (s: Style)
        ensures
            s == Style::empty(),
    {
        Style::new()
    }
}

/// Lays a style over a cell: colours replaced where the style sets them,
/// attributes added. The content stays.
pub fn apply_style(cell: &mut Cell, style: Style)
    ensures
        *final(cell) == style.applied_to(*old(cell)),
{
    match style.fg {
        Some(fg) => {
            cell.fg = fg;
        },
        None => {},
    }
    match style.bg {
        Some(bg) => {
            cell.bg = bg;
        },
        None => {},
    }
    match style.attrs {
        Some(attrs) => {
            cell.attrs = cell.attrs.with_flags(attrs);
        },
        None => {},
    }
}

} // verus!
