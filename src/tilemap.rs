use vstd::prelude::*;

use crate::coord::Coord;
use crate::text::{lines_of, line_views, split_lines};
use crate::tile::{classify, Paint, Tile};

verus! {

/// The character found at column `c` of line `r`, or a space where the
/// lines do not reach.
pub open spec fn char_at(lines: Seq<Seq<char>>, r: int, c: int) -> char {
    if 0 <= r < lines.len() && 0 <= c < lines[r].len() {
        lines[r][c]
    } else {
        ' '
    }
}

/// The `rows` x `cols` grid that map text describes: one line per row, one
/// character per column, cut to size and padded with space markers.
pub open spec fn parse_grid(rows: nat, cols: nat, text: Seq<char>) -> Seq<Seq<Tile>> {
    Seq::new(rows, |r: int| Seq::new(cols, |c: int| classify(char_at(lines_of(text), r, c))))
}

/// The drawing steps for one row of tiles, left to right.
pub open spec fn row_paints(row: Seq<Tile>, r: int) -> Seq<Paint> {
    Seq::new(
        row.len(),
        |c: int| Paint { at: Coord { col: c as usize, row: r as usize }, rune: row[c].rune },
    )
}

/// The drawing steps for the first `n` rows of a grid, top to bottom.
pub open spec fn grid_paints(grid: Seq<Seq<Tile>>, n: int) -> Seq<Paint>
    decreases n,
{
    if n <= 0 {
        seq![]
    } else {
        grid_paints(grid, n - 1) + row_paints(grid[n - 1], n - 1)
    }
}

/// A rectangular grid of tiles, fixed at construction.
#[derive(Debug)]
pub struct TileMap {
    rows: usize,
    cols: usize,
    tiles: Vec<Vec<Tile>>,
}

impl TileMap {
    /// Number of rows.
    pub closed spec fn num_rows(&self) -> nat {
        self.rows as nat
    }

    /// Number of columns.
    pub closed spec fn num_cols(&self) -> nat {
        self.cols as nat
    }

    /// The tiles, row by row.
    pub closed spec fn grid(&self) -> Seq<Seq<Tile>> {
        self.tiles@.map_values(|row: Vec<Tile>| row@)
    }

    #[verifier::type_invariant]
    spec fn rectangular(&self) -> bool {
        &&& self.tiles@.len() == self.rows
        &&& forall|r: int| 0 <= r < self.rows ==> #[trigger] self.tiles@[r]@.len() == self.cols
    }

    /// Whether `(col, row)` lies on the grid on a tile that does not block.
    pub open spec fn passable(&self, col: int, row: int) -> bool {
        &&& 0 <= row < self.num_rows()
        &&& 0 <= col < self.num_cols()
        &&& !self.grid()[row][col].solid
    }

    /// Builds a `rows` x `cols` map from text: at most `rows` lines are
    /// read and at most `cols` characters of each; missing cells become
    /// space markers.
    pub fn new(rows: usize, cols: usize, map: &str) -> (m: TileMap)
        ensures
            m.num_rows() == rows,
            m.num_cols() == cols,
            m.grid() == parse_grid(rows as nat, cols as nat, map@),
    {
        let lines = split_lines(map);
        let ghost ls = lines_of(map@);
        let ghost want = parse_grid(rows as nat, cols as nat, map@);
        let n_lines = lines.len();
        let mut tiles: Vec<Vec<Tile>> = Vec::new();
        for r in 0..rows
            invariant
                n_lines == lines@.len(),
                line_views(lines@) == ls,
                ls == lines_of(map@),
                want == parse_grid(rows as nat, cols as nat, map@),
                tiles@.len() == r,
                forall|i: int| 0 <= i < r ==> #[trigger] tiles@[i]@ == want[i],
        {
            let mut row: Vec<Tile> = Vec::new();
            for c in 0..cols
                invariant
                    n_lines == lines@.len(),
                    line_views(lines@) == ls,
                    want == parse_grid(rows as nat, cols as nat, map@),
                    ls == lines_of(map@),
                    0 <= r < rows,
                    row@ =~= want[r as int].take(c as int),
            {
                let ch = if r < n_lines && c < lines[r].len() {
                    lines[r][c]
                } else {
                    ' '
                };
                assert(ch == char_at(ls, r as int, c as int));
                row.push(Tile::from(ch));
            }
            assert(want[r as int].take(cols as int) =~= want[r as int]);
            tiles.push(row);
        }
        let m = TileMap { rows, cols, tiles };
        assert(m.grid() =~= want);
        m
    }

    /// True iff `(col, row)` is on the grid and its tile does not block.
    pub fn can_move_to(&self, col: usize, row: usize) -> (ok: bool)
        ensures
            ok == self.passable(col as int, row as int),
    {
        proof {
            use_type_invariant(self);
        }
        row < self.rows && col < self.cols && !self.tiles[row][col].solid
    }

    /// The tiles, row by row.
    pub fn tiles(&self) -> (t: &Vec<Vec<Tile>>)
        ensures
            t@.map_values(|row: Vec<Tile>| row@) == self.grid(),
    {
        &self.tiles
    }

    /// Number of rows.
    pub fn rows(&self) -> (n: usize)
        ensures
            n == self.num_rows(),
    {
        self.rows
    }

    /// Number of columns.
    pub fn cols(&self) -> (n: usize)
        ensures
            n == self.num_cols(),
    {
        self.cols
    }

    /// One drawing step per tile, row by row from the top, each row from
    /// the left, each tile in its own colors.
    pub fn render(&self) -> (out: Vec<Paint>)
        ensures
            out@ == grid_paints(self.grid(), self.num_rows() as int),
    {
        proof {
            use_type_invariant(self);
        }
        let mut out: Vec<Paint> = Vec::new();
        for r in 0..self.rows
            invariant
                self.tiles@.len() == self.rows,
                out@ == grid_paints(self.grid(), r as int),
        {
            let row = &self.tiles[r];
            let ghost base = out@;
            for c in 0..row.len()
                invariant
                    base == grid_paints(self.grid(), r as int),
                    row@ == self.grid()[r as int],
                    out@ =~= base + row_paints(row@, r as int).take(c as int),
            {
                out.push(Paint { at: Coord { col: c, row: r }, rune: row[c].rune });
            }
            let ghost whole = row_paints(row@, r as int);
            assert(whole.take(row@.len() as int) =~= whole);
        }
        out
    }
}

} // verus!
