use vstd::prelude::*;

use crate::coords::{MAX_SIDE, MAX_TILE_SIZE};
use crate::error::TerrainError;
use crate::grid::{cell_updated, TileMap};
use crate::noise_field::{normalize, normalize_sample, NoiseField};
use crate::tile::{classify_bands, magnitude_of, TileClassifier, TileMaterial};

verus! {

/// The read-only configuration of one generation run: the noise seed, the
/// noise-space scale in thousandths, the grid side length, the tile size in
/// world units, the height of the open-air strip at the top of the grid,
/// and the reserved spawn cells.
#[derive(Debug)]
pub struct GenerationParameters {
    seed: u32,
    scale_milli: u64,
    side: usize,
    tile_size: u64,
    air_rows: usize,
    spawn_cells: Vec<(usize, usize)>,
}

impl GenerationParameters {
    pub closed spec fn seed_spec(self) -> u32 {
        self.seed
    }

    pub closed spec fn scale_spec(self) -> u64 {
        self.scale_milli
    }

    pub closed spec fn side_spec(self) -> int {
        self.side as int
    }

    pub closed spec fn tile_spec(self) -> int {
        self.tile_size as int
    }

    pub closed spec fn air_rows_spec(self) -> int {
        self.air_rows as int
    }

    pub closed spec fn spawn_spec(self) -> Seq<(usize, usize)> {
        self.spawn_cells@
    }

    /// Positive dimensions within the mapper's limits, an air strip no
    /// taller than the grid, and every reserved spawn cell inside it.
    pub open spec fn well_formed(self) -> bool {
        &&& 1 <= self.side_spec() <= MAX_SIDE
        &&& 1 <= self.tile_spec() <= MAX_TILE_SIZE
        &&& 1 <= self.scale_spec()
        &&& 0 <= self.air_rows_spec() <= self.side_spec()
        &&& forall|i: int|
            0 <= i < self.spawn_spec().len() ==> (#[trigger] self.spawn_spec()[i]).0
                < self.side_spec() && self.spawn_spec()[i].1 < self.side_spec()
    }

    /// Builds a configuration, rejecting a zero side length, scale or tile
    /// size, an air strip taller than the grid, and a spawn cell outside
    /// it. Checked once here; generation itself cannot fail.
    pub fn new(
        seed: u32,
        scale_milli: u64,
        side: usize,
        tile_size: u64,
        air_rows: usize,
        spawn_cells: Vec<(usize, usize)>,
    ) -> (r: Result<GenerationParameters, TerrainError>)
        requires
            side <= MAX_SIDE,
            tile_size <= MAX_TILE_SIZE,
        ensures
            (side >= 1 && scale_milli >= 1 && tile_size >= 1 && air_rows <= side && (forall|i: int|
                0 <= i < spawn_cells@.len() ==> (#[trigger] spawn_cells@[i]).0 < side
                    && spawn_cells@[i].1 < side)) <==> r is Ok,
            r matches Ok(p) ==> p.seed_spec() == seed && p.scale_spec() == scale_milli
                && p.side_spec() == side && p.tile_spec() == tile_size && p.air_rows_spec()
                == air_rows && p.spawn_spec() == spawn_cells@ && p.well_formed(),
            r is Err ==> r == Err::<GenerationParameters, TerrainError>(
                TerrainError::InvalidConfiguration,
            ),
    {
        if side == 0 || scale_milli == 0 || tile_size == 0 || air_rows > side {
            return Err(TerrainError::InvalidConfiguration);
        }
        let mut i: usize = 0;
        while i < spawn_cells.len()
            invariant
                i <= spawn_cells@.len(),
                forall|j: int|
                    0 <= j < i ==> (#[trigger] spawn_cells@[j]).0 < side && spawn_cells@[j].1
                        < side,
            decreases spawn_cells.len() - i,
        {
            let (c, r) = spawn_cells[i];
            if c >= side || r >= side {
                return Err(TerrainError::InvalidConfiguration);
            }
            i += 1;
        }
        Ok(
            GenerationParameters {
                seed,
                scale_milli,
                side,
                tile_size,
                air_rows,
                spawn_cells,
            },
        )
    }

    /// The configured noise seed.
    pub fn seed(&self) -> (s: u32)
        ensures
            s == self.seed_spec(),
    {
        self.seed
    }

    /// The configured noise-space scale, in thousandths.
    pub fn scale_milli(&self) -> (s: u64)
        ensures
            s == self.scale_spec(),
    {
        self.scale_milli
    }

    /// The configured side length.
    pub fn side(&self) -> (s: usize)
        ensures
            s == self.side_spec(),
    {
        self.side
    }

    /// The configured tile size, in world units.
    pub fn tile_size(&self) -> (t: u64)
        ensures
            t == self.tile_spec(),
    {
        self.tile_size
    }

    /// The configured height of the open-air strip.
    pub fn air_rows(&self) -> (a: usize)
        ensures
            a == self.air_rows_spec(),
    {
        self.air_rows
    }

    /// Whether `(col, row)` is one of the reserved spawn cells.
    fn is_spawn(&self, col: usize, row: usize) -> (b: bool)
        ensures
            b == is_spawn_cell(*self, col as int, row as int),
    {
        let mut i: usize = 0;
        while i < self.spawn_cells.len()
            invariant
                i <= self.spawn_cells@.len(),
                forall|j: int|
                    0 <= j < i ==> !((#[trigger] self.spawn_cells@[j]).0 == col
                        && self.spawn_cells@[j].1 == row),
            decreases self.spawn_cells.len() - i,
        {
            let (c, r) = self.spawn_cells[i];
            if c == col && r == row {
                proof {
                    assert((#[trigger] self.spawn_spec()[i as int]).0 == col
                        && self.spawn_spec()[i as int].1 == row);
                }
                return true;
            }
            i += 1;
        }
        false
    }
}

/// Whether the configuration reserves `(col, row)` for the spawn marker.
pub open spec fn is_spawn_cell(p: GenerationParameters, col: int, row: int) -> bool {
    exists|i: int|
        0 <= i < p.spawn_spec().len() && (#[trigger] p.spawn_spec()[i]).0 == col
            && p.spawn_spec()[i].1 == row
}

/// Whether `row` lies in the open-air strip at the top of the grid.
pub open spec fn in_air_band(p: GenerationParameters, row: int) -> bool {
    row >= p.side_spec() - p.air_rows_spec()
}

/// The material generation assigns to `(col, row)` given the cell's noise
/// sample: the spawn marker on a reserved cell, air in the top strip, and
/// otherwise the classification of the normalized sample.
pub open spec fn generated_cell(
    p: GenerationParameters,
    cl: TileClassifier,
    sample: int,
    col: int,
    row: int,
) -> TileMaterial {
    if is_spawn_cell(p, col, row) {
        TileMaterial::PlayerMarker
    } else if in_air_band(p, row) {
        TileMaterial::Air
    } else {
        classify_bands(cl.bands_spec(), cl.fallback_spec(), magnitude_of(normalize(sample)))
    }
}

/// `g` is exactly the grid that `p`, `cl` and the sample table `f`
/// generate: every cell of the square holds its generated material.
pub open spec fn is_generated_from(
    g: TileMap,
    p: GenerationParameters,
    cl: TileClassifier,
    f: NoiseField,
) -> bool {
    &&& g.well_formed()
    &&& g.side_spec() == p.side_spec()
    &&& forall|col: int, row: int|
        0 <= col < p.side_spec() && 0 <= row < p.side_spec() ==> #[trigger] g.at(col, row)
            == generated_cell(p, cl, f.sample_spec(col, row) as int, col, row)
}

/// Builds the terrain grid: reads the noise field's sample for every cell,
/// remaps it to `[0, NOISE_ONE]`, classifies it, and applies the material
/// overrides first — the spawn marker on reserved cells, then air in the
/// top strip.
pub fn generate(params: &GenerationParameters, classifier: &TileClassifier, field: &NoiseField) -> (g: TileMap)
    requires
        params.well_formed(),
        field.well_formed(),
        field.side_spec() == params.side_spec(),
    ensures
        is_generated_from(g, *params, *classifier, *field),
{
    let side = params.side;
    proof {
        assert(side * side <= 0xffff_ffff) by (nonlinear_arith)
            requires
                side <= 65_535,
        ;
    }
    let mut g = TileMap::new(side, TileMaterial::Empty);
    let mut row: usize = 0;
    while row < side
        invariant
            row <= side,
            g.well_formed(),
            g.side_spec() == side,
            params.well_formed(),
            params.side_spec() == side,
            field.well_formed(),
            field.side_spec() == side,
            forall|c: int, r: int|
                0 <= c < side && 0 <= r < row ==> #[trigger] g.at(c, r) == generated_cell(
                    *params,
                    *classifier,
                    field.sample_spec(c, r) as int,
                    c,
                    r,
                ),
        decreases side - row,
    {
        let mut col: usize = 0;
        while col < side
            invariant
                col <= side,
                row < side,
                g.well_formed(),
                g.side_spec() == side,
                params.well_formed(),
                params.side_spec() == side,
                field.well_formed(),
                field.side_spec() == side,
                forall|c: int, r: int|
                    0 <= c < side && 0 <= r < row ==> #[trigger] g.at(c, r) == generated_cell(
                        *params,
                        *classifier,
                        field.sample_spec(c, r) as int,
                        c,
                        r,
                    ),
                forall|c: int|
                    0 <= c < col ==> #[trigger] g.at(c, row as int) == generated_cell(
                        *params,
                        *classifier,
                        field.sample_spec(c, row as int) as int,
                        c,
                        row as int,
                    ),
            decreases side - col,
        {
            let material: TileMaterial = if params.is_spawn(col, row) {
                TileMaterial::PlayerMarker
            } else if row >= side - params.air_rows {
                TileMaterial::Air
            } else {
                let v = field.sample(col, row);
                let n = normalize_sample(v);
                classifier.classify(n)
            };
            assert(material == generated_cell(
                *params,
                *classifier,
                field.sample_spec(col as int, row as int) as int,
                col as int,
                row as int,
            ));
            let ghost g_before = g;
            let res = g.update_terrain(col, row, material);
            proof {
                assert(res is Ok);
                assert(cell_updated(g_before, g, col as int, row as int, material));
            }
            col += 1;
        }
        row += 1;
    }
    g
}

/// Determinism law: two grids generated from the same parameters,
/// classifier and sample table agree cell for cell — and a seeded noise
/// source yields the same table for the same seed, cell and scale.
pub proof fn lemma_generate_deterministic(
    g1: TileMap,
    g2: TileMap,
    p: GenerationParameters,
    cl: TileClassifier,
    f: NoiseField,
)
    requires
        is_generated_from(g1, p, cl, f),
        is_generated_from(g2, p, cl, f),
    ensures
        forall|col: int, row: int|
            0 <= col < p.side_spec() && 0 <= row < p.side_spec() ==> #[trigger] g1.at(col, row)
                == #[trigger] g2.at(col, row),
{
}

/// Override-priority law: a reserved spawn cell always takes the spawn
/// marker, even inside the air strip, and every other cell of the air
/// strip is always air, whatever the noise value.
pub proof fn lemma_override_priority(
    p: GenerationParameters,
    cl: TileClassifier,
    sample: int,
    col: int,
    row: int,
)
    requires
        0 <= col < p.side_spec(),
        0 <= row < p.side_spec(),
    ensures
        is_spawn_cell(p, col, row) ==> generated_cell(p, cl, sample, col, row)
            == TileMaterial::PlayerMarker,
        !is_spawn_cell(p, col, row) && in_air_band(p, row) ==> generated_cell(p, cl, sample, col, row)
            == TileMaterial::Air,
{
}

} // verus!
