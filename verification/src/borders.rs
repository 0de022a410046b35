//! Borders: which sides are drawn, with which characters, and how text on
//! a border is aligned.

use vstd::prelude::*;

verus! {

pub const BORDER_TOP: u8 = 1;

pub const BORDER_RIGHT: u8 = 2;

pub const BORDER_BOTTOM: u8 = 4;

pub const BORDER_LEFT: u8 = 8;

pub const BORDER_ALL: u8 = 15;

/// A set of sides.
#[derive(Debug, Clone, Copy, PartialEq, Eq, Hash, Structural)]
pub struct Borders(pub u8);

impl Borders {
    /// Whether every side of `sides` is in the set.
    pub open spec fn has(self, sides: u8) -> bool {
        self.0 & sides == sides
    }

    /// No side.
    pub fn none() -> (b: Borders)
        ensures
            b.0 == 0,
    {
        Borders(0)
    }

    /// All four sides.
    pub fn all() -> (b: Borders)
        ensures
            b.0 == BORDER_ALL,
    {
        Borders(BORDER_ALL)
    }

    /// The top side.
    pub fn top() -> (b: Borders)
        ensures
            b.0 == BORDER_TOP,
    {
        Borders(BORDER_TOP)
    }

    /// The right side.
    pub fn right() -> (b: Borders)
        ensures
            b.0 == BORDER_RIGHT,
    {
        Borders(BORDER_RIGHT)
    }

    /// The bottom side.
    pub fn bottom() -> (b: Borders)
        ensures
            b.0 == BORDER_BOTTOM,
    {
        Borders(BORDER_BOTTOM)
    }

    /// The left side.
    pub fn left() -> (b: Borders)
        ensures
            b.0 == BORDER_LEFT,
    {
        Borders(BORDER_LEFT)
    }

    /// The sides of both sets.
    pub fn union(self, other: Borders) -> (b: Borders)
        ensures
            b.0 == self.0 | other.0,
    {
        Borders(self.0 | other.0)
    }

    /// Whether every side of `other` is in the set.
    pub fn contains(&self, other: Borders) -> (r: bool)
        ensures
            r == self.has(other.0),
    {
        self.0 & other.0 == other.0
    }
}

/// How text is placed within the width it has.
#[derive(Debug, Clone, Copy, PartialEq, Eq, Structural)]
pub enum Alignment {
    Left,
    Center,
    Right,
}

/// The characters of a border.
#[derive(Debug, Clone, Copy, PartialEq, Eq, Structural)]
pub struct BorderSet {
    pub top_left: char,
    pub top_right: char,
    pub bottom_left: char,
    pub bottom_right: char,
    pub vertical: char,
    pub horizontal: char,
}

impl BorderSet {
    /// The border of plain ASCII characters.
    pub open spec fn spec_ascii() -> BorderSet {
        BorderSet {
            top_left: '+',
            top_right: '+',
            bottom_left: '+',
            bottom_right: '+',
            vertical: '|',
            horizontal: '-',
        }
    }

    /// The border of plain ASCII characters.
    pub fn ascii() -> (s: BorderSet)
        ensures
            s == Self::spec_ascii(),
    {
        BorderSet {
            top_left: '+',
            top_right: '+',
            bottom_left: '+',
            bottom_right: '+',
            vertical: '|',
            horizontal: '-',
        }
    }
}

/// The look of a border.
#[derive(Debug, Clone, Copy, PartialEq, Eq, Structural)]
pub enum BorderType {
    Square,
    Rounded,
    Double,
    Heavy,
    Ascii,
}

impl BorderType {
    /// The characters of this look.
    pub open spec fn spec_border_set(self) -> BorderSet {
        match self {
            BorderType::Square => BorderSet {
                top_left: '┌',
                top_right: '┐',
                bottom_left: '└',
                bottom_right: '┘',
                vertical: '│',
                horizontal: '─',
            },
            BorderType::Rounded => BorderSet {
                top_left: '╭',
                top_right: '╮',
                bottom_left: '╰',
                bottom_right: '╯',
                vertical: '│',
                horizontal: '─',
            },
            BorderType::Double => BorderSet {
                top_left: '╔',
                top_right: '╗',
                bottom_left: '╚',
                bottom_right: '╝',
                vertical: '║',
                horizontal: '═',
            },
            BorderType::Heavy => BorderSet {
                top_left: '┏',
                top_right: '┓',
                bottom_left: '┗',
                bottom_right: '┛',
                vertical: '┃',
                horizontal: '━',
            },
            BorderType::Ascii => BorderSet::spec_ascii(),
        }
    }

    /// The characters of this look.
    pub fn to_border_set(&self) -> (s: BorderSet)
        ensures
            s == self.spec_border_set(),
    {
        match self {
            BorderType::Square => BorderSet {
                top_left: '┌',
                top_right: '┐',
                bottom_left: '└',
                bottom_right: '┘',
                vertical: '│',
                horizontal: '─',
            },
            BorderType::Rounded => BorderSet {
                top_left: '╭',
                top_right: '╮',
                bottom_left: '╰',
                bottom_right: '╯',
                vertical: '│',
                horizontal: '─',
            },
            BorderType::Double => BorderSet {
                top_left: '╔',
                top_right: '╗',
                bottom_left: '╚',
                bottom_right: '╝',
                vertical: '║',
                horizontal: '═',
            },
            BorderType::Heavy => BorderSet {
                top_left: '┏',
                top_right: '┓',
                bottom_left: '┗',
                bottom_right: '┛',
                vertical: '┃',
                horizontal: '━',
            },
            BorderType::Ascii => BorderSet::ascii(),
        }
    }
}

} // verus!
