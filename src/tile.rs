use vstd::prelude::*;

use crate::coord::Coord;

verus! {

/// A terminal color used for glyphs and their backgrounds.
#[derive(Debug, Clone, Copy, PartialEq, Eq, Structural)]
pub enum Color {
    Black,
    White,
    Grey,
    Red,
    Green,
    Yellow,
    Blue,
    DarkMagenta,
}

/// A glyph with its foreground and background color; presentation only.
#[derive(Debug, Clone, Copy, PartialEq, Eq, Structural)]
pub struct Rune {
    pub color: Color,
    pub background: Color,
    pub display: char,
}

/// One terrain cell: whether it blocks movement, and how it looks.
#[derive(Debug, Clone, Copy, PartialEq, Eq, Structural)]
pub struct Tile {
    pub solid: bool,
    pub rune: Rune,
}

/// The tile with these passability, glyph and colors.
pub open spec fn tile_of(solid: bool, display: char, color: Color, background: Color) -> Tile {
    Tile { solid, rune: Rune { display, color, background } }
}

/// A tile that can be walked on and shows `c` in white on black.
pub open spec fn marker_tile(c: char) -> Tile {
    tile_of(false, c, Color::White, Color::Black)
}

/// The tile that a character of map text stands for.
pub open spec fn classify(c: char) -> Tile {
    if c == '.' {
        tile_of(false, '.', Color::Grey, Color::Black)
    } else if c == '/' {
        tile_of(false, '/', Color::Yellow, Color::Black)
    } else if c == '#' {
        tile_of(true, '#', Color::White, Color::Black)
    } else if c == '\u{2620}' {
        tile_of(false, '\u{2620}', Color::Red, Color::Black)
    } else if c == '^' {
        tile_of(true, '^', Color::DarkMagenta, Color::Grey)
    } else {
        marker_tile(c)
    }
}

/// One drawing step: put `rune`, with its colors, at the cell `at`.
#[derive(Debug, Clone, Copy, PartialEq, Eq, Structural)]
pub struct Paint {
    pub at: Coord,
    pub rune: Rune,
}

impl Tile {
    fn make(solid: bool, display: char, color: Color, background: Color) -> (t: Tile)
        ensures
            t == tile_of(solid, display, color, background),
    {
        Tile { solid, rune: Rune { display, color, background } }
    }

    /// A walkable tile that echoes `c` verbatim.
    pub fn other(c: char) -> (t: Tile)
        ensures
            t == marker_tile(c),
    {
        Tile::make(false, c, Color::White, Color::Black)
    }

    /// Open floor.
    pub fn floor() -> (t: Tile)
        ensures
            t == classify('.'),
    {
        Tile::make(false, '.', Color::Grey, Color::Black)
    }

    /// A walkable path.
    pub fn path() -> (t: Tile)
        ensures
            t == classify('/'),
    {
        Tile::make(false, '/', Color::Yellow, Color::Black)
    }

    /// A wall, which blocks movement.
    pub fn wall() -> (t: Tile)
        ensures
            t == classify('#'),
    {
        Tile::make(true, '#', Color::White, Color::Black)
    }

    /// A hazard marker; walkable, and only cosmetic.
    pub fn death() -> (t: Tile)
        ensures
            t == classify('\u{2620}'),
    {
        Tile::make(false, '\u{2620}', Color::Red, Color::Black)
    }

    /// A mountain, which blocks movement.
    pub fn mountain() -> (t: Tile)
        ensures
            t == classify('^'),
    {
        Tile::make(true, '^', Color::DarkMagenta, Color::Grey)
    }
}

impl From<char> for Tile {
    /// Classifies one character of map text.
    fn from(c: char) -> (t: Tile) {
        match c {
            '.' => Tile::floor(),
            '/' => Tile::path(),
            '#' => Tile::wall(),
            '\u{2620}' => Tile::death(),
            '^' => Tile::mountain(),
            _ => Tile::other(c),
        }
    }
}

impl vstd::std_specs::convert::FromSpecImpl<char> for Tile {
    open spec fn obeys_from_spec() -> bool {
        true
    }

    open spec fn from_spec(c: char) -> Tile {
        classify(c)
    }
}

} // verus!
