use vstd::prelude::*;

use crate::error::TerrainError;
use crate::grid::{flat_index, lemma_flat_index};

verus! {

/// Fixed-point unit for noise values: one million stands for 1.0, so a
/// sample lies in `[-NOISE_ONE, NOISE_ONE]` and a normalized value in
/// `[0, NOISE_ONE]`.
pub const NOISE_ONE: i64 = 1_000_000;

/// One fixed-point coherent-noise sample per grid cell, row-major.
///
/// A seeded noise source is deterministic — the same seed, cell and scale
/// always yield the same sample — but sampling it is floating-point
/// arithmetic, which the verified core does not take. The caller samples
/// its source once per cell, converts to millionths, and validates the
/// table here; everything after the raw sample is verified.
#[derive(Debug)]
pub struct NoiseField {
    side: usize,
    samples: Vec<i64>,
}

impl NoiseField {
    /// The side length of the grid the table covers.
    pub closed spec fn side_spec(self) -> int {
        self.side as int
    }

    /// The sample held for the cell `(col, row)`.
    pub closed spec fn sample_spec(self, col: int, row: int) -> i64 {
        self.samples@[flat_index(self.side as int, col, row)]
    }

    /// One sample per cell, each within `[-NOISE_ONE, NOISE_ONE]`.
    pub closed spec fn well_formed(self) -> bool {
        &&& 1 <= self.side
        &&& self.samples@.len() == self.side * self.side
        &&& forall|k: int|
            0 <= k < self.samples@.len() ==> -NOISE_ONE <= #[trigger] self.samples@[k]
                <= NOISE_ONE
    }

    /// Accepts a sample table, rejecting a zero side length, a table whose
    /// length is not one sample per cell, and a sample outside
    /// `[-NOISE_ONE, NOISE_ONE]`.
    pub fn from_samples(side: usize, samples: Vec<i64>) -> (r: Result<NoiseField, TerrainError>)
        requires
            side * side <= usize::MAX,
        ensures
            (side >= 1 && samples@.len() == side * side && (forall|k: int|
                0 <= k < samples@.len() ==> -NOISE_ONE <= #[trigger] samples@[k] <= NOISE_ONE))
                <==> r is Ok,
            r matches Ok(f) ==> f.side_spec() == side && f.well_formed() && forall|c: int, r2: int|
                0 <= c < side && 0 <= r2 < side ==> f.sample_spec(c, r2) == samples@[flat_index(
                    side as int,
                    c,
                    r2,
                )],
            r is Err ==> r == Err::<NoiseField, TerrainError>(TerrainError::InvalidConfiguration),
    {
        if side == 0 || samples.len() != side * side {
            return Err(TerrainError::InvalidConfiguration);
        }
        let mut k: usize = 0;
        while k < samples.len()
            invariant
                k <= samples@.len(),
                forall|j: int| 0 <= j < k ==> -NOISE_ONE <= #[trigger] samples@[j] <= NOISE_ONE,
            decreases samples.len() - k,
        {
            let s = samples[k];
            if s < -NOISE_ONE || s > NOISE_ONE {
                return Err(TerrainError::InvalidConfiguration);
            }
            k += 1;
        }
        Ok(NoiseField { side, samples })
    }

    /// Reads the sample for one cell.
    pub fn sample(&self, col: usize, row: usize) -> (v: i64)
        requires
            self.well_formed(),
            col < self.side_spec(),
            row < self.side_spec(),
        ensures
            v == self.sample_spec(col as int, row as int),
            -NOISE_ONE <= v <= NOISE_ONE,
    {
        // The table's length bounds the flat index within usize.
        let _len = self.samples.len();
        proof {
            lemma_flat_index(self.side as int, col as int, row as int, col as int, row as int);
        }
        self.samples[row * self.side + col]
    }
}

/// Remaps a sample from `[-NOISE_ONE, NOISE_ONE]` to `[0, NOISE_ONE]`.
pub open spec fn normalize(v: int) -> int {
    (v + NOISE_ONE) / 2
}

/// Executable remap of a sample into `[0, NOISE_ONE]`.
pub fn normalize_sample(v: i64) -> (n: i64)
    requires
        -NOISE_ONE <= v <= NOISE_ONE,
    ensures
        n == normalize(v as int),
        0 <= n <= NOISE_ONE,
{
    (((v + NOISE_ONE) as u64) / 2) as i64
}

} // verus!
