use vstd::prelude::*;

use crate::coords::{CoordinateMapper, MAX_ACTOR, MAX_WORLD};
use crate::grid::{cell_updated, TileMap};
use crate::tile::TileMaterial;

verus! {

/// The horizontal target of a mining request: one tile from the actor, in
/// the direction last faced (half units; one tile is `2 * tile`).
pub open spec fn mining_target_x(facing: int, tile: int, actor_x: int) -> int {
    if facing == 1 {
        actor_x + 2 * tile
    } else {
        actor_x - 2 * tile
    }
}

/// The vertical target of a mining request: one tile below the actor.
pub open spec fn mining_target_y(tile: int, actor_y: int) -> int {
    actor_y - 2 * tile
}

/// Tracks at most one pending mining request: a flag, the stored target in
/// world half units, and the facing (`1` right, `-1` left) the target was
/// computed from. A new request before the old one is applied overwrites
/// it; applying rewrites exactly one grid cell to cave and clears the flag.
pub struct MiningState {
    pending: bool,
    target_x: i64,
    target_y: i64,
    facing: i8,
}

/// `s1` is `s0` right after a request at `(actor_x, actor_y)` with tile
/// size `tile`: pending, the target one tile toward the facing and one tile
/// down, the facing kept.
pub open spec fn requested_from(
    s0: MiningState,
    s1: MiningState,
    tile: int,
    actor_x: int,
    actor_y: int,
) -> bool {
    &&& s1.is_pending()
    &&& s1.facing_spec() == s0.facing_spec()
    &&& s1.target_x_spec() == mining_target_x(s0.facing_spec(), tile, actor_x)
    &&& s1.target_y_spec() == mining_target_y(tile, actor_y)
}

impl MiningState {
    /// Whether a mining request is waiting to be applied.
    pub closed spec fn is_pending(self) -> bool {
        self.pending
    }

    /// The stored target, in world half units.
    pub closed spec fn target_x_spec(self) -> int {
        self.target_x as int
    }

    pub closed spec fn target_y_spec(self) -> int {
        self.target_y as int
    }

    /// The last horizontal facing: `1` for right, `-1` for left.
    pub closed spec fn facing_spec(self) -> int {
        self.facing as int
    }

    /// A legal facing and a stored target the mapper accepts.
    pub open spec fn well_formed(self) -> bool {
        &&& (self.facing_spec() == 1 || self.facing_spec() == -1)
        &&& -MAX_WORLD <= self.target_x_spec() <= MAX_WORLD
        &&& -MAX_WORLD <= self.target_y_spec() <= MAX_WORLD
    }

    /// The idle state: nothing pending, facing right.
    pub fn new() -> (s: MiningState)
        ensures
            s.well_formed(),
            !s.is_pending(),
            s.facing_spec() == 1,
            s.target_x_spec() == 0,
            s.target_y_spec() == 0,
    {
        MiningState { pending: false, target_x: 0, target_y: 0, facing: 1 }
    }

    /// Whether a request is pending, for the step loop.
    pub fn pending(&self) -> (b: bool)
        ensures
            b == self.is_pending(),
    {
        self.pending
    }

    /// The stored target, in world half units.
    pub fn target(&self) -> (t: (i64, i64))
        ensures
            t.0 == self.target_x_spec(),
            t.1 == self.target_y_spec(),
    {
        (self.target_x, self.target_y)
    }

    /// The last horizontal facing.
    pub fn facing(&self) -> (d: i8)
        ensures
            d == self.facing_spec(),
    {
        self.facing
    }

    /// Records the actor's last horizontal movement direction.
    pub fn set_facing(&mut self, dir: i8)
        requires
            old(self).well_formed(),
            dir == 1 || dir == -1,
        ensures
            final(self).well_formed(),
            final(self).facing_spec() == dir,
            final(self).is_pending() == old(self).is_pending(),
            final(self).target_x_spec() == old(self).target_x_spec(),
            final(self).target_y_spec() == old(self).target_y_spec(),
    {
        self.facing = dir;
    }

    /// The `idle -> pending` transition: stores the cell one tile toward
    /// the current facing and one tile below the actor as the target, and
    /// sets the pending flag. A target already stored is overwritten.
    pub fn request(&mut self, mapper: &CoordinateMapper, actor_x: i64, actor_y: i64)
        requires
            old(self).well_formed(),
            mapper.well_formed(),
            -MAX_ACTOR <= actor_x <= MAX_ACTOR,
            -MAX_ACTOR <= actor_y <= MAX_ACTOR,
        ensures
            final(self).well_formed(),
            requested_from(*old(self), *final(self), mapper.tile_spec(), actor_x as int, actor_y as int),
    {
        let t = mapper.tile_size() as i64;
        self.target_y = actor_y - 2 * t;
        if self.facing == 1 {
            self.target_x = actor_x + 2 * t;
        } else {
            self.target_x = actor_x - 2 * t;
        }
        self.pending = true;
    }

    /// The `pending -> idle` transition: converts the stored target to a
    /// grid cell, clamped into the grid, rewrites that cell to cave, and
    /// clears the pending flag. With nothing pending, nothing changes.
    pub fn apply(&mut self, mapper: &CoordinateMapper, grid: &mut TileMap) -> (r: Option<
        (usize, usize),
    >)
        requires
            old(self).well_formed(),
            mapper.well_formed(),
            old(grid).well_formed(),
            old(grid).side_spec() == mapper.side_spec(),
        ensures
            final(self).well_formed(),
            final(grid).well_formed(),
            old(self).is_pending() ==> !final(self).is_pending() && final(self).facing_spec()
                == old(self).facing_spec() && final(self).target_x_spec() == old(
                self,
            ).target_x_spec() && final(self).target_y_spec() == old(self).target_y_spec() && (
            r matches Some(cell) && cell.0 == mapper.index_of_world(old(self).target_x_spec())
                && cell.1 == mapper.index_of_world(old(self).target_y_spec()) && cell_updated(
                *old(grid),
                *final(grid),
                cell.0 as int,
                cell.1 as int,
                TileMaterial::Cave,
            )),
            !old(self).is_pending() ==> *final(self) == *old(self) && *final(grid) == *old(grid)
                && r is None,
    {
        if self.pending {
            let (col, row) = mapper.to_grid(self.target_x, self.target_y);
            let res = grid.update_terrain(col, row, TileMaterial::Cave);
            assert(res is Ok);
            self.pending = false;
            Some((col, row))
        } else {
            None
        }
    }
}

/// Single-slot law: when two requests arrive before any apply, the second
/// overwrites the first — the stored target and facing depend on the
/// second request alone.
pub proof fn lemma_single_slot(
    s0: MiningState,
    s1: MiningState,
    s2: MiningState,
    tile: int,
    a1x: int,
    a1y: int,
    a2x: int,
    a2y: int,
)
    requires
        requested_from(s0, s1, tile, a1x, a1y),
        requested_from(s1, s2, tile, a2x, a2y),
    ensures
        requested_from(s0, s2, tile, a2x, a2y),
        s2.target_x_spec() == mining_target_x(s0.facing_spec(), tile, a2x),
        s2.target_y_spec() == mining_target_y(tile, a2y),
{
}

} // verus!
