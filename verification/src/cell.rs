//! The grid cell: content, colours and text attributes.
//!
//! Every field of a [`Cell`] takes part in equality, so two cells are equal
//! exactly when they would be drawn the same way. The diff engine compares
//! whole cells and relies on that.

use vstd::prelude::*;

verus! {

/// A colour packed as `r`, `g`, `b`, `a` bytes, most significant first.
#[derive(Clone, Copy, Debug, PartialEq, Eq, Hash, Structural)]
pub struct PackedRgba(pub u32);

impl PackedRgba {
    /// The value that packs the four channels.
    pub open spec fn pack(r: u8, g: u8, b: u8, a: u8) -> u32 {
        (r as int * 0x100_0000 + g as int * 0x1_0000 + b as int * 0x100 + a as int) as u32
    }

    /// Red channel.
    pub open spec fn spec_r(self) -> u8 {
        (self.0 as int / 0x100_0000) as u8
    }

    /// Green channel.
    pub open spec fn spec_g(self) -> u8 {
        ((self.0 as int / 0x1_0000) % 0x100) as u8
    }

    /// Blue channel.
    pub open spec fn spec_b(self) -> u8 {
        ((self.0 as int / 0x100) % 0x100) as u8
    }

    /// Alpha channel.
    pub open spec fn spec_a(self) -> u8 {
        (self.0 as int % 0x100) as u8
    }

    /// An opaque colour.
    pub fn rgb(r: u8, g: u8, b: u8) -> (c: PackedRgba)
        ensures
            c.0 == Self::pack(r, g, b, 255),
            c.spec_r() == r,
            c.spec_g() == g,
            c.spec_b() == b,
            c.spec_a() == 255,
    {
        Self::rgba(r, g, b, 255)
    }

    /// A colour with the given alpha.
    pub fn rgba(r: u8, g: u8, b: u8, a: u8) -> (c: PackedRgba)
        ensures
            c.0 == Self::pack(r, g, b, a),
            c.spec_r() == r,
            c.spec_g() == g,
            c.spec_b() == b,
            c.spec_a() == a,
    {
        let v: u32 = (r as u32) * 0x100_0000 + (g as u32) * 0x1_0000 + (b as u32) * 0x100 + (
        a as u32);
        proof {
            lemma_pack_channels(r, g, b, a);
        }
        PackedRgba(v)
    }

    /// The fully transparent colour.
    pub fn transparent() -> (c: PackedRgba)
        ensures
            c.0 == 0,
    {
        PackedRgba(0)
    }

    /// Opaque white.
    pub fn white() -> (c: PackedRgba)
        ensures
            c.0 == Self::pack(255, 255, 255, 255),
    {
        Self::rgb(255, 255, 255)
    }

    /// Red channel.
    pub fn r(&self) -> (v: u8)
        ensures
            v == self.spec_r(),
    {
        (self.0 / 0x100_0000) as u8
    }

    /// Green channel.
    pub fn g(&self) -> (v: u8)
        ensures
            v == self.spec_g(),
    {
        ((self.0 / 0x1_0000) % 0x100) as u8
    }

    /// Blue channel.
    pub fn b(&self) -> (v: u8)
        ensures
            v == self.spec_b(),
    {
        ((self.0 / 0x100) % 0x100) as u8
    }

    /// Alpha channel.
    pub fn a(&self) -> (v: u8)
        ensures
            v == self.spec_a(),
    {
        (self.0 % 0x100) as u8
    }
}

/// Packing four channels and reading them back gives the channels.
pub proof fn lemma_pack_channels(r: u8, g: u8, b: u8, a: u8)
    ensures
        PackedRgba(PackedRgba::pack(r, g, b, a)).spec_r() == r,
        PackedRgba(PackedRgba::pack(r, g, b, a)).spec_g() == g,
        PackedRgba(PackedRgba::pack(r, g, b, a)).spec_b() == b,
        PackedRgba(PackedRgba::pack(r, g, b, a)).spec_a() == a,
        PackedRgba::pack(r, g, b, a) == r as int * 0x100_0000 + g as int * 0x1_0000 + b as int
            * 0x100 + a as int,
{
    let v: int = r as int * 0x100_0000 + g as int * 0x1_0000 + b as int * 0x100 + a as int;
    assert(0 <= v <= 0xFFFF_FFFF);
    vstd::arithmetic::div_mod::lemma_fundamental_div_mod_converse(
        v,
        0x100_0000,
        r as int,
        g as int * 0x1_0000 + b as int * 0x100 + a as int,
    );
    vstd::arithmetic::div_mod::lemma_fundamental_div_mod_converse(
        v,
        0x1_0000,
        r as int * 0x100 + g as int,
        b as int * 0x100 + a as int,
    );
    vstd::arithmetic::div_mod::lemma_fundamental_div_mod_converse(
        r as int * 0x100 + g as int,
        0x100,
        r as int,
        g as int,
    );
    vstd::arithmetic::div_mod::lemma_fundamental_div_mod_converse(
        v,
        0x100,
        r as int * 0x1_0000 + g as int * 0x100 + b as int,
        a as int,
    );
    vstd::arithmetic::div_mod::lemma_fundamental_div_mod_converse(
        r as int * 0x1_0000 + g as int * 0x100 + b as int,
        0x100,
        r as int * 0x100 + g as int,
        b as int,
    );
}

/// A set of text attributes, one bit each.
#[derive(Clone, Copy, Debug, PartialEq, Eq, Hash, Structural)]
pub struct StyleFlags(pub u16);

pub const FLAG_BOLD: u16 = 1;

pub const FLAG_DIM: u16 = 2;

pub const FLAG_ITALIC: u16 = 4;

pub const FLAG_UNDERLINE: u16 = 8;

pub const FLAG_BLINK: u16 = 16;

pub const FLAG_REVERSE: u16 = 32;

pub const FLAG_STRIKETHROUGH: u16 = 64;

pub const FLAG_HIDDEN: u16 = 128;

pub const FLAG_DOUBLE_UNDERLINE: u16 = 256;

pub const FLAG_CURLY_UNDERLINE: u16 = 512;

impl StyleFlags {
    /// No attribute.
    pub fn empty() -> (f: StyleFlags)
        ensures
            f.0 == 0,
    {
        StyleFlags(0)
    }

    /// The set with exactly the given bits.
    pub fn from_bits(bits: u16) -> (f: StyleFlags)
        ensures
            f.0 == bits,
    {
        StyleFlags(bits)
    }

    /// The bits of the set.
    pub fn bits(&self) -> (b: u16)
        ensures
            b == self.0,
    {
        self.0
    }

    /// Whether no attribute is set.
    pub fn is_empty(&self) -> (r: bool)
        ensures
            r == (self.0 == 0),
    {
        self.0 == 0
    }

    /// Whether every attribute of `other` is set in `self`.
    pub fn contains(&self, other: StyleFlags) -> (r: bool)
        ensures
            r == (self.0 & other.0 == other.0),
    {
        self.0 & other.0 == other.0
    }

    /// The union of the two sets.
    pub fn with_flags(&self, other: StyleFlags) -> (f: StyleFlags)
        ensures
            f.0 == self.0 | other.0,
    {
        StyleFlags(self.0 | other.0)
    }

    /// The attributes of `self` that are not in `other`.
    pub fn without_flags(&self, other: StyleFlags) -> (f: StyleFlags)
        ensures
            f.0 == self.0 & !other.0,
    {
        StyleFlags(self.0 & !other.0)
    }
}

/// What a cell shows.
#[derive(Clone, Copy, Debug, PartialEq, Eq, Structural)]
pub enum CellContent {
    /// Nothing: a blank cell, one column wide.
    Empty,
    /// A single narrow character.
    Char(char),
    /// A glyph of the grapheme pool, with the number of columns it covers.
    Grapheme { id: u32, width: u8 },
    /// A column covered by a wide glyph that starts further left.
    Continuation,
}

impl CellContent {
    /// Columns covered, counted from the cell that holds the content.
    /// A continuation covers none of its own.
    pub open spec fn spec_width(self) -> int {
        match self {
            CellContent::Empty => 1,
            CellContent::Char(_) => 1,
            CellContent::Grapheme { id, width } => width as int,
            CellContent::Continuation => 0,
        }
    }

    /// Content that shows one narrow character.
    pub fn from_char(c: char) -> (r: CellContent)
        ensures
            r == CellContent::Char(c),
    {
        CellContent::Char(c)
    }

    /// Content that shows the pooled glyph `id`, `width` columns wide.
    pub fn from_grapheme(id: u32, width: u8) -> (r: CellContent)
        ensures
            r == (CellContent::Grapheme { id, width }),
    {
        CellContent::Grapheme { id, width }
    }

    /// The character, when the content is a single character.
    pub fn as_char(&self) -> (r: Option<char>)
        ensures
            r == (match *self {
                CellContent::Char(c) => Some(c),
                _ => None,
            }),
    {
        match self {
            CellContent::Char(c) => Some(*c),
            _ => None,
        }
    }

    /// The pool id, when the content is a pooled glyph.
    pub fn grapheme_id(&self) -> (r: Option<u32>)
        ensures
            r == (match *self {
                CellContent::Grapheme { id, width } => Some(id),
                _ => None,
            }),
    {
        match self {
            CellContent::Grapheme { id, width: _ } => Some(*id),
            _ => None,
        }
    }

    /// Columns covered.
    pub fn width(&self) -> (w: usize)
        ensures
            w == self.spec_width(),
    {
        match self {
            CellContent::Empty => 1,
            CellContent::Char(_) => 1,
            CellContent::Grapheme { id: _, width } => *width as usize,
            CellContent::Continuation => 0,
        }
    }

    /// Whether the content is blank.
    pub fn is_empty(&self) -> (r: bool)
        ensures
            r == (*self == CellContent::Empty),
    {
        match self {
            CellContent::Empty => true,
            _ => false,
        }
    }

    /// Whether the content is a continuation placeholder.
    pub fn is_continuation(&self) -> (r: bool)
        ensures
            r == (*self == CellContent::Continuation),
    {
        match self {
            CellContent::Continuation => true,
            _ => false,
        }
    }
}

/// One position of the grid.
#[derive(Clone, Copy, Debug, PartialEq, Eq, Structural)]
pub struct Cell {
    pub content: CellContent,
    pub fg: PackedRgba,
    pub bg: PackedRgba,
    pub attrs: StyleFlags,
    pub underline: Option<PackedRgba>,
}

impl Cell {
    /// The blank cell: no content, white on transparent, no attribute.
    pub open spec fn blank() -> Cell {
        Cell {
            content: CellContent::Empty,
            fg: PackedRgba(0xFFFF_FFFF),
            bg: PackedRgba(0),
            attrs: StyleFlags(0),
            underline: None,
        }
    }

    /// The placeholder that a wide glyph leaves in the columns it covers.
    pub open spec fn spec_continuation() -> Cell {
        Cell { content: CellContent::Continuation, ..Self::blank() }
    }

    /// Columns covered by the cell's content.
    pub open spec fn spec_width(self) -> int {
        self.content.spec_width()
    }

    /// A cell with the given content and the blank cell's colours.
    pub fn new(content: CellContent) -> (c: Cell)
        ensures
            c == (Cell { content, ..Self::blank() }),
    {
        Cell {
            content,
            fg: PackedRgba(0xFFFF_FFFF),
            bg: PackedRgba(0),
            attrs: StyleFlags(0),
            underline: None,
        }
    }

    /// A cell that shows one narrow character.
    pub fn from_char(c: char) -> (r: Cell)
        ensures
            r == (Cell { content: CellContent::Char(c), ..Self::blank() }),
    {
        Cell::new(CellContent::Char(c))
    }

    /// The continuation placeholder.
    pub fn continuation() -> (c: Cell)
        ensures
            c == Self::spec_continuation(),
    {
        Cell::new(CellContent::Continuation)
    }

    /// The cell with another foreground.
    pub fn with_fg(self, fg: PackedRgba) -> (c: Cell)
        ensures
            c == (Cell { fg, ..self }),
    {
        Cell { fg, ..self }
    }

    /// The cell with another background.
    pub fn with_bg(self, bg: PackedRgba) -> (c: Cell)
        ensures
            c == (Cell { bg, ..self }),
    {
        Cell { bg, ..self }
    }

    /// The cell with other attributes.
    pub fn with_attrs(self, attrs: StyleFlags) -> (c: Cell)
        ensures
            c == (Cell { attrs, ..self }),
    {
        Cell { attrs, ..self }
    }

    /// The cell with an underline colour.
    pub fn with_underline(self, underline: Option<PackedRgba>) -> (c: Cell)
        ensures
            c == (Cell { underline, ..self }),
    {
        Cell { underline, ..self }
    }

    /// Whether the cell has blank content.
    pub fn is_empty(&self) -> (r: bool)
        ensures
            r == (self.content == CellContent::Empty),
    {
        self.content.is_empty()
    }

    /// Whether the cell is a continuation placeholder.
    pub fn is_continuation(&self) -> (r: bool)
        ensures
            r == (self.content == CellContent::Continuation),
    {
        self.content.is_continuation()
    }

    /// Columns covered by the cell's content.
    pub fn width(&self) -> (w: usize)
        ensures
            w == self.spec_width(),
    {
        self.content.width()
    }

    /// Whole-cell equality: content, both colours, attributes and underline.
    pub fn bits_eq(&self, other: &Cell) -> (r: bool)
        ensures
            r == (*self == *other),
    {
        self.content == other.content && self.fg == other.fg && self.bg == other.bg
            && self.attrs == other.attrs && self.underline == other.underline
    }
}

impl Default for Cell {
    fn default() -> (c: Cell)
        ensures
            c == Cell::blank(),
    {
        Cell::new(CellContent::Empty)
    }
}

} // verus!
