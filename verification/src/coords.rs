use vstd::prelude::*;

use crate::error::TerrainError;
use vstd::arithmetic::div_mod::lemma_fundamental_div_mod_converse;

verus! {

/// Largest accepted grid side length; keeps the cell count inside `usize`
/// on every platform and every world coordinate of the grid far inside
/// `i64`.
pub const MAX_SIDE: usize = 65_535;

/// Largest accepted tile size, in world units.
pub const MAX_TILE_SIZE: u64 = 1_000_000;

/// Largest world coordinate (in half world units) that `to_grid` accepts.
pub const MAX_WORLD: i64 = 2_000_000_000_000_000_000;

/// Largest world coordinate (in half world units) accepted for an actor
/// position: one tile step away from it still lies within `MAX_WORLD`.
pub const MAX_ACTOR: i64 = 1_000_000_000_000_000_000;

/// Converts between grid indices and centered world positions.
///
/// World positions are kept in half world units: the grid is centered on
/// the world origin, so the first cell's center sits half a grid plus half
/// a tile away from it, and doubling the unit keeps that offset integral
/// for every tile size.
#[derive(Debug)]
pub struct CoordinateMapper {
    side: usize,
    tile_size: u64,
}

impl CoordinateMapper {
    /// The side length of the grid being mapped.
    pub closed spec fn side_spec(self) -> int {
        self.side as int
    }

    /// The tile size, in world units (one tile spans two half units per
    /// world unit, so `2 * tile_spec()` half units).
    pub closed spec fn tile_spec(self) -> int {
        self.tile_size as int
    }

    /// Positive dimensions, small enough that all mapping arithmetic stays
    /// far inside `i64`.
    pub open spec fn well_formed(self) -> bool {
        &&& 1 <= self.side_spec() <= MAX_SIDE
        &&& 1 <= self.tile_spec() <= MAX_TILE_SIZE
    }

    /// Builds a mapper, rejecting a zero side length or tile size.
    pub fn new(side: usize, tile_size: u64) -> (r: Result<CoordinateMapper, TerrainError>)
        requires
            side <= MAX_SIDE,
            tile_size <= MAX_TILE_SIZE,
        ensures
            (side >= 1 && tile_size >= 1) <==> r is Ok,
            r matches Ok(m) ==> m.side_spec() == side && m.tile_spec() == tile_size
                && m.well_formed(),
            r is Err ==> r == Err::<CoordinateMapper, TerrainError>(
                TerrainError::InvalidConfiguration,
            ),
    {
        if side >= 1 && tile_size >= 1 {
            Ok(CoordinateMapper { side, tile_size })
        } else {
            Err(TerrainError::InvalidConfiguration)
        }
    }

    /// The world coordinate (in half units) of the center of the cell with
    /// index `i`, along either axis: half a grid back from the origin, then
    /// half a tile, then `i` whole tiles.
    pub open spec fn world_of_index(self, i: int) -> int {
        self.tile_spec() * (2 * i + 1 - self.side_spec())
    }

    /// The grid index of the cell whose center is nearest to the world
    /// coordinate `w` (in half units), clamped into `[0, side)`. A
    /// coordinate exactly between two cell centers rounds to the upper one.
    pub open spec fn index_of_world(self, w: int) -> int {
        let t = self.tile_spec();
        let off = t * (1 - self.side_spec());
        if w <= off {
            0
        } else if w - off >= 2 * t * (self.side_spec() - 1) {
            self.side_spec() - 1
        } else {
            (w - off + t) / (2 * t)
        }
    }

    /// The side length, as configured.
    pub fn side(&self) -> (s: usize)
        ensures
            s == self.side_spec(),
    {
        self.side
    }

    /// The tile size in world units, as configured.
    pub fn tile_size(&self) -> (t: u64)
        ensures
            t == self.tile_spec(),
    {
        self.tile_size
    }

    /// Where an actor coordinate is clamped to: one tile in from either
    /// edge of the grid, in half units.
    pub open spec fn clamp_actor_spec(self, w: int) -> int {
        let lo = -(self.tile_spec() * self.side_spec()) + 2 * self.tile_spec();
        let hi = self.tile_spec() * self.side_spec() - 2 * self.tile_spec();
        if w < lo {
            lo
        } else if w > hi {
            hi
        } else {
            w
        }
    }

    /// Clamps one actor coordinate (in half units) to lie one tile inside
    /// the grid's edge, as the movement step does.
    pub fn clamp_actor(&self, w: i64) -> (r: i64)
        requires
            self.well_formed(),
        ensures
            r == self.clamp_actor_spec(w as int),
            -MAX_ACTOR <= r <= MAX_ACTOR || r == w,
    {
        let t = self.tile_size as i64;
        let s = self.side as i64;
        proof {
            assert(1 <= t * s <= 66_000_000_000) by (nonlinear_arith)
                requires
                    1 <= t <= 1_000_000,
                    1 <= s <= 65_535,
            ;
        }
        let lo = -(t * s) + 2 * t;
        let hi = t * s - 2 * t;
        if w < lo {
            lo
        } else if w > hi {
            hi
        } else {
            w
        }
    }

    /// Maps a cell to the world position of its center, in half units.
    pub fn to_world(&self, col: usize, row: usize) -> (w: (i64, i64))
        requires
            self.well_formed(),
            col < self.side_spec(),
            row < self.side_spec(),
        ensures
            w.0 == self.world_of_index(col as int),
            w.1 == self.world_of_index(row as int),
            -MAX_ACTOR <= w.0 <= MAX_ACTOR,
            -MAX_ACTOR <= w.1 <= MAX_ACTOR,
    {
        (self.world_axis(col), self.world_axis(row))
    }

    /// One axis of `to_world`.
    fn world_axis(&self, i: usize) -> (w: i64)
        requires
            self.well_formed(),
            i < self.side_spec(),
        ensures
            w == self.world_of_index(i as int),
            -MAX_ACTOR <= w <= MAX_ACTOR,
    {
        let t = self.tile_size as i64;
        let s = self.side as i64;
        let k = 2 * (i as i64) + 1 - s;
        proof {
            assert(-2_000_000 <= k <= 2_000_000);
            assert(-4_000_000_000_000 <= t * k <= 4_000_000_000_000) by (nonlinear_arith)
                requires
                    1 <= t <= 2_000_000,
                    -2_000_000 <= k <= 2_000_000,
            ;
        }
        t * k
    }

    /// Maps a world position (in half units) back to the grid cell whose
    /// center is nearest, clamping each axis into the grid.
    pub fn to_grid(&self, x: i64, y: i64) -> (g: (usize, usize))
        requires
            self.well_formed(),
            -MAX_WORLD <= x <= MAX_WORLD,
            -MAX_WORLD <= y <= MAX_WORLD,
        ensures
            g.0 == self.index_of_world(x as int),
            g.1 == self.index_of_world(y as int),
            g.0 < self.side_spec(),
            g.1 < self.side_spec(),
    {
        (self.grid_axis(x), self.grid_axis(y))
    }

    /// One axis of `to_grid`.
    fn grid_axis(&self, w: i64) -> (i: usize)
        requires
            self.well_formed(),
            -MAX_WORLD <= w <= MAX_WORLD,
        ensures
            i == self.index_of_world(w as int),
            i < self.side_spec(),
    {
        let t = self.tile_size;
        let s = self.side as u64;
        proof {
            assert(t * (s - 1) <= 1_000_000_000_000 && t as int * (1 - s as int) == -(t * (s - 1)))
                by (nonlinear_arith)
                requires
                    1 <= t <= 1_000_000,
                    1 <= s <= 1_000_000,
            ;
        }
        let back: u64 = t * (s - 1);
        assert(self.tile_spec() * (1 - self.side_spec()) == -(back as int));
        proof {
            assert(2 * (back as int) == 2 * self.tile_spec() * (self.side_spec() - 1))
                by (nonlinear_arith)
                requires
                    back == self.tile_spec() * (self.side_spec() - 1),
            ;
        }
        if w <= -(back as i64) {
            0
        } else {
            let diff: u64 = (w + back as i64) as u64;
            let span: u64 = 2 * back;
            if diff >= span {
                self.side - 1
            } else {
                let q: u64 = (diff + t) / (2 * t);
                proof {
                    let d = diff as int;
                    let ti = t as int;
                    let si = s as int;
                    let b = back as int;
                    assert((d + ti) / (2 * ti) < si) by (nonlinear_arith)
                        requires
                            1 <= ti,
                            0 <= d,
                            d < 2 * b,
                            b == ti * (si - 1),
                    ;
                }
                q as usize
            }
        }
    }
}

/// Round-trip law: for every valid cell, mapping the cell to the world
/// position of its center and back yields the same cell.
pub proof fn lemma_world_grid_round_trip(m: CoordinateMapper, col: int, row: int)
    requires
        m.well_formed(),
        0 <= col < m.side_spec(),
        0 <= row < m.side_spec(),
    ensures
        m.index_of_world(m.world_of_index(col)) == col,
        m.index_of_world(m.world_of_index(row)) == row,
{
    lemma_round_trip_axis(m, col);
    lemma_round_trip_axis(m, row);
}

/// One axis of the round trip.
proof fn lemma_round_trip_axis(m: CoordinateMapper, i: int)
    requires
        m.well_formed(),
        0 <= i < m.side_spec(),
    ensures
        m.index_of_world(m.world_of_index(i)) == i,
{
    let t = m.tile_spec();
    let s = m.side_spec();
    let w = m.world_of_index(i);
    let off = t * (1 - s);
    assert(w - off == 2 * t * i && 2 * t * (s - 1) - 2 * t * i == 2 * t * (s - 1 - i))
        by (nonlinear_arith)
        requires
            w == t * (2 * i + 1 - s),
            off == t * (1 - s),
    ;
    if i == 0 {
        assert(w == off);
    } else if i == s - 1 {
        assert(0 < 2 * t * i) by (nonlinear_arith)
            requires
                1 <= t,
                1 <= i,
        ;
        assert(w - off >= 2 * t * (s - 1));
    } else {
        assert(0 < 2 * t * i && 0 < 2 * t * (s - 1 - i)) by (nonlinear_arith)
            requires
                1 <= t,
                1 <= i,
                1 <= s - 1 - i,
        ;
        assert(w - off + t == i * (2 * t) + t) by (nonlinear_arith)
            requires
                w - off == 2 * t * i,
        ;
        lemma_fundamental_div_mod_converse(w - off + t, 2 * t, i, t);
    }
}

} // verus!
