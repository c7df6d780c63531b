use vstd::prelude::*;

verus! {

/// A grid position: column and row, both non-negative.
#[derive(Debug, Clone, Copy, PartialEq, Eq, Structural)]
pub struct Coord {
    pub col: usize,
    pub row: usize,
}

/// One of the four compass directions a step can take.
#[derive(Debug, Clone, Copy, PartialEq, Eq, Structural)]
pub enum Direction {
    North,
    South,
    East,
    West,
}

/// `|a - b|` over mathematical integers.
pub open spec fn abs_diff(a: int, b: int) -> int {
    if a >= b {
        a - b
    } else {
        b - a
    }
}

/// Manhattan distance between two positions.
pub open spec fn manhattan(a: Coord, b: Coord) -> int {
    abs_diff(a.col as int, b.col as int) + abs_diff(a.row as int, b.row as int)
}

/// `v - 1`, clamped at zero.
pub open spec fn dec_sat(v: usize) -> usize {
    if v == 0 {
        0
    } else {
        (v - 1) as usize
    }
}

/// `v + 1`, clamped at the largest `usize`.
pub open spec fn inc_sat(v: usize) -> usize {
    if v == usize::MAX {
        v
    } else {
        (v + 1) as usize
    }
}

/// The position one cell away from `c` in direction `d`, with saturating
/// arithmetic on the axis that changes.
pub open spec fn step(c: Coord, d: Direction) -> Coord {
    match d {
        Direction::North => Coord { col: c.col, row: dec_sat(c.row) },
        Direction::South => Coord { col: c.col, row: inc_sat(c.row) },
        Direction::East => Coord { col: inc_sat(c.col), row: c.row },
        Direction::West => Coord { col: dec_sat(c.col), row: c.row },
    }
}

impl Coord {
    /// Manhattan distance to `other`.
    pub fn distance(&self, other: &Coord) -> (d: usize)
        requires
            manhattan(*self, *other) <= usize::MAX,
        ensures
            d == manhattan(*self, *other),
    {
        let dx = if self.col >= other.col {
            self.col - other.col
        } else {
            other.col - self.col
        };
        let dy = if self.row >= other.row {
            self.row - other.row
        } else {
            other.row - self.row
        };
        dx + dy
    }

    /// Manhattan distance to `other`, in a type wide enough for any pair.
    pub fn wide_distance(&self, other: &Coord) -> (d: u128)
        ensures
            d == manhattan(*self, *other),
    {
        let dx = if self.col >= other.col {
            self.col - other.col
        } else {
            other.col - self.col
        };
        let dy = if self.row >= other.row {
            self.row - other.row
        } else {
            other.row - self.row
        };
        dx as u128 + dy as u128
    }

    /// The neighbouring position in direction `d`; no axis goes below zero
    /// or past the largest `usize`.
    pub fn step(self, d: Direction) -> (r: Coord)
        ensures
            r == step(self, d),
    {
        match d {
            Direction::North => Coord { col: self.col, row: self.row.saturating_sub(1) },
            Direction::South => Coord { col: self.col, row: self.row.saturating_add(1) },
            Direction::East => Coord { col: self.col.saturating_add(1), row: self.row },
            Direction::West => Coord { col: self.col.saturating_sub(1), row: self.row },
        }
    }
}

impl core::ops::Add<Direction> for Coord {
    type Output = Coord;

    fn add(self, other: Direction) -> (r: Coord)
        ensures
            r == step(self, other),
    {
        self.step(other)
    }
}

impl vstd::std_specs::ops::AddSpecImpl<Direction> for Coord {
    open spec fn obeys_add_spec() -> bool {
        true
    }

    open spec fn add_req(self, rhs: Direction) -> bool {
        true
    }

    open spec fn add_spec(self, rhs: Direction) -> Coord {
        step(self, rhs)
    }
}

/// Distance is zero from a position to itself, and does not depend on the
/// order of its arguments.
pub proof fn lemma_distance_laws(a: Coord, b: Coord)
    ensures
        manhattan(a, a) == 0,
        manhattan(a, b) == manhattan(b, a),
        manhattan(a, b) >= 0,
{
}

/// Stepping north or west from the origin stays at the origin.
pub proof fn lemma_no_underflow_at_origin(d: Direction)
    requires
        d == Direction::North || d == Direction::West,
    ensures
        step(Coord { col: 0, row: 0 }, d) == (Coord { col: 0, row: 0 }),
{
}

} // verus!
