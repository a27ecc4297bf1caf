use vstd::prelude::*;

verus! {

/// The two ways a request into the terrain core can be rejected.
#[derive(Clone, Copy, Debug, PartialEq, Eq, Structural)]
pub enum TerrainError {
    /// A grid read or update named a cell outside the square grid.
    OutOfBounds,
    /// A configuration value was unusable (a zero side length, scale or
    /// tile size, an air band taller than the grid, or a reserved spawn
    /// cell outside it).
    InvalidConfiguration,
}

} // verus!
