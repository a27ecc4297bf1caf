use vstd::prelude::*;

use crate::error::TerrainError;
use crate::tile::TileMaterial;

verus! {

/// The square grid of tile materials. Cells are addressed by
/// `(column, row)` with both indices in `[0, side)`; reads and updates
/// outside that range are rejected, never clamped or wrapped.
pub struct TileMap {
    side: usize,
    tiles: Vec<TileMaterial>,
}

/// Row-major position of a cell inside the backing vector: each index pair
/// inside the square names exactly one slot.
pub open spec fn flat_index(side: int, col: int, row: int) -> int {
    row * side + col
}

/// A cell's flat index stays inside the backing vector, and two distinct
/// cells never share one.
pub(crate) proof fn lemma_flat_index(side: int, c1: int, r1: int, c2: int, r2: int)
    by (nonlinear_arith)
    requires
        0 <= c1 < side,
        0 <= r1 < side,
        0 <= c2 < side,
        0 <= r2 < side,
    ensures
        0 <= flat_index(side, c1, r1) < side * side,
        flat_index(side, c1, r1) == flat_index(side, c2, r2) ==> c1 == c2 && r1 == r2,
{
}

impl TileMap {
    /// The side length of the square grid.
    pub closed spec fn side_spec(self) -> int {
        self.side as int
    }

    /// The material held by the cell at `(col, row)`.
    pub closed spec fn at(self, col: int, row: int) -> TileMaterial {
        self.tiles@[flat_index(self.side as int, col, row)]
    }

    /// The backing vector holds one slot for every cell of the square.
    pub closed spec fn well_formed(self) -> bool {
        self.tiles@.len() == self.side * self.side
    }

    /// Builds a `side` by `side` grid with every cell holding `fill`.
    pub fn new(side: usize, fill: TileMaterial) -> (g: TileMap)
        requires
            side * side <= usize::MAX,
        ensures
            g.well_formed(),
            g.side_spec() == side,
            forall|c: int, r: int|
                0 <= c < side && 0 <= r < side ==> #[trigger] g.at(c, r) == fill,
    {
        let mut tiles: Vec<TileMaterial> = Vec::new();
        let total: usize = side * side;
        let mut i: usize = 0;
        while i < total
            invariant
                i <= total,
                tiles@.len() == i,
                forall|k: int| 0 <= k < i ==> tiles@[k] == fill,
            decreases total - i,
        {
            tiles.push(fill);
            i += 1;
        }
        let g = TileMap { side, tiles };
        proof {
            assert forall|c: int, r: int|
                0 <= c < side && 0 <= r < side implies #[trigger] g.at(c, r) == fill by {
                lemma_flat_index(side as int, c, r, c, r);
            }
        }
        g
    }

    /// The side length, for callers that size their own iteration by it.
    pub fn side(&self) -> (s: usize)
        ensures
            s == self.side_spec(),
    {
        self.side
    }

    /// Bounds-checked read of one cell.
    pub fn get(&self, col: usize, row: usize) -> (r: Result<TileMaterial, TerrainError>)
        requires
            self.well_formed(),
        ensures
            col < self.side_spec() && row < self.side_spec() ==> r == Ok::<
                TileMaterial,
                TerrainError,
            >(self.at(col as int, row as int)),
            !(col < self.side_spec() && row < self.side_spec()) ==> r == Err::<
                TileMaterial,
                TerrainError,
            >(TerrainError::OutOfBounds),
    {
        if col < self.side && row < self.side {
            // The backing vector's length bounds the flat index within usize.
            let _len = self.tiles.len();
            proof {
                lemma_flat_index(self.side as int, col as int, row as int, col as int, row as int);
            }
            Ok(self.tiles[row * self.side + col])
        } else {
            Err(TerrainError::OutOfBounds)
        }
    }
}

/// `g1` is `g0` with the cell at `(col, row)` replaced by `m` and every
/// other cell untouched.
pub open spec fn cell_updated(g0: TileMap, g1: TileMap, col: int, row: int, m: TileMaterial) -> bool {
    &&& g1.well_formed()
    &&& g1.side_spec() == g0.side_spec()
    &&& g1.at(col, row) == m
    &&& forall|c: int, r: int|
        0 <= c < g0.side_spec() && 0 <= r < g0.side_spec() && !(c == col && r == row)
            ==> #[trigger] g1.at(c, r) == g0.at(c, r)
}

impl TileMap {
    /// Bounds-checked replacement of one cell's material; every other cell
    /// keeps its value, and a request outside the grid changes nothing.
    pub fn update_terrain(&mut self, x: usize, y: usize, tile_type: TileMaterial) -> (r: Result<
        (),
        TerrainError,
    >)
        requires
            old(self).well_formed(),
        ensures
            final(self).well_formed(),
            final(self).side_spec() == old(self).side_spec(),
            x < old(self).side_spec() && y < old(self).side_spec() ==> r == Ok::<
                (),
                TerrainError,
            >(()) && cell_updated(*old(self), *final(self), x as int, y as int, tile_type),
            !(x < old(self).side_spec() && y < old(self).side_spec()) ==> r == Err::<
                (),
                TerrainError,
            >(TerrainError::OutOfBounds) && *final(self) == *old(self),
    {
        if x < self.side && y < self.side {
            // The backing vector's length bounds the flat index within usize.
            let _len = self.tiles.len();
            proof {
                lemma_flat_index(self.side as int, x as int, y as int, x as int, y as int);
            }
            self.tiles.set(y * self.side + x, tile_type);
            proof {
                assert forall|c: int, r: int|
                    0 <= c < self.side_spec() && 0 <= r < self.side_spec() && !(c == x && r == y)
                        implies #[trigger] self.at(c, r) == old(self).at(c, r) by {
                    lemma_flat_index(self.side as int, c, r, x as int, y as int);
                }
            }
            Ok(())
        } else {
            Err(TerrainError::OutOfBounds)
        }
    }
}

/// Mutation idempotence: writing the same material to the same cell twice
/// leaves the grid cell-for-cell as one write does.
pub proof fn lemma_mutation_idempotent(
    g0: TileMap,
    g1: TileMap,
    g2: TileMap,
    col: int,
    row: int,
    m: TileMaterial,
)
    requires
        0 <= col < g0.side_spec(),
        0 <= row < g0.side_spec(),
        cell_updated(g0, g1, col, row, m),
        cell_updated(g1, g2, col, row, m),
    ensures
        forall|c: int, r: int|
            0 <= c < g0.side_spec() && 0 <= r < g0.side_spec() ==> #[trigger] g2.at(c, r)
                == g1.at(c, r),
{
}

} // verus!
