use minegrid::coords::CoordinateMapper;
use minegrid::error::TerrainError;
use minegrid::generator::{generate, GenerationParameters};
use minegrid::grid::TileMap;
use minegrid::mining::MiningState;
use minegrid::noise_field::NoiseField;
use minegrid::tile::{TileClassifier, TileMaterial};
use noise::NoiseFn;

/// Samples seeded Perlin noise once per cell, row-major, in millionths:
/// the cell is mapped into noise space as `(col / side * scale, row / side
/// * scale)` before sampling, as the terrain configuration prescribes.
fn sample_table(seed: u32, side: usize, scale_milli: u64) -> Vec<i64> {
    let perlin = noise::Perlin::new(seed);
    let scale = scale_milli as f64 / 1_000.0;
    let mut samples: Vec<i64> = Vec::with_capacity(side * side);
    for row in 0..side {
        for col in 0..side {
            let nx = col as f64 / side as f64 * scale;
            let ny = row as f64 / side as f64 * scale;
            let v = perlin.get([nx, ny]);
            samples.push((v * 1_000_000.0) as i64);
        }
    }
    samples
}

fn reference_setup() -> (GenerationParameters, TileClassifier, NoiseField) {
    let params =
        GenerationParameters::new(42, 2_500, 100, 6, 19, vec![(0, 0)]).expect("valid configuration");
    let classifier = TileClassifier::standard();
    let field =
        NoiseField::from_samples(100, sample_table(42, 100, 2_500)).expect("valid sample table");
    (params, classifier, field)
}

fn cell(grid: &TileMap, col: usize, row: usize) -> TileMaterial {
    grid.get(col, row).expect("cell in bounds")
}

#[test]
fn generate_is_deterministic_for_a_fixed_seed() {
    let (params, classifier, field_a) = reference_setup();
    let field_b =
        NoiseField::from_samples(100, sample_table(42, 100, 2_500)).expect("valid sample table");
    let grid_a = generate(&params, &classifier, &field_a);
    let grid_b = generate(&params, &classifier, &field_b);
    for row in 0..100 {
        for col in 0..100 {
            assert_eq!(cell(&grid_a, col, row), cell(&grid_b, col, row));
        }
    }
}

#[test]
fn distinct_seeds_give_distinct_terrain() {
    let (params_a, classifier, field_a) = reference_setup();
    let params_b =
        GenerationParameters::new(43, 2_500, 100, 6, 19, vec![(0, 0)]).expect("valid configuration");
    let field_b =
        NoiseField::from_samples(100, sample_table(43, 100, 2_500)).expect("valid sample table");
    let grid_a = generate(&params_a, &classifier, &field_a);
    let grid_b = generate(&params_b, &classifier, &field_b);
    let mut differs = false;
    for row in 0..81 {
        for col in 0..100 {
            if cell(&grid_a, col, row) != cell(&grid_b, col, row) {
                differs = true;
            }
        }
    }
    assert!(differs);
}

#[test]
fn terrain_below_the_air_band_is_varied() {
    let (params, classifier, field) = reference_setup();
    let grid = generate(&params, &classifier, &field);
    let first = cell(&grid, 1, 0);
    let mut varied = false;
    for row in 0..81 {
        for col in 0..100 {
            if (col, row) != (0, 0) && cell(&grid, col, row) != first {
                varied = true;
            }
        }
    }
    assert!(varied);
}

#[test]
fn air_band_rows_are_all_air() {
    let (params, classifier, field) = reference_setup();
    let grid = generate(&params, &classifier, &field);
    for row in 81..100 {
        for col in 0..100 {
            assert_eq!(cell(&grid, col, row), TileMaterial::Air);
        }
    }
}

#[test]
fn spawn_cell_takes_the_marker() {
    let (params, classifier, field) = reference_setup();
    let grid = generate(&params, &classifier, &field);
    assert_eq!(cell(&grid, 0, 0), TileMaterial::PlayerMarker);
}

#[test]
fn spawn_marker_beats_the_air_band() {
    let classifier = TileClassifier::standard();
    let params = GenerationParameters::new(42, 2_500, 100, 6, 19, vec![(5, 95)])
        .expect("valid configuration");
    let field =
        NoiseField::from_samples(100, sample_table(42, 100, 2_500)).expect("valid sample table");
    let grid = generate(&params, &classifier, &field);
    assert_eq!(cell(&grid, 5, 95), TileMaterial::PlayerMarker);
    assert_eq!(cell(&grid, 6, 95), TileMaterial::Air);
}

#[test]
fn end_to_end_mining_rewrites_the_faced_cell() {
    let (params, classifier, field) = reference_setup();
    let mut grid = generate(&params, &classifier, &field);
    let mapper = CoordinateMapper::new(100, 6).expect("valid mapper");
    let mut mining = MiningState::new();

    let (actor_x, actor_y) = mapper.to_world(1, 81);
    mining.set_facing(1);
    mining.request(&mapper, actor_x, actor_y);
    let mined = mining.apply(&mapper, &mut grid);

    assert_eq!(mined, Some((2, 80)));
    assert_eq!(cell(&grid, 2, 80), TileMaterial::Cave);
    assert!(!mining.pending());
}

#[test]
fn the_normalized_sample_drives_classification() {
    let classifier = TileClassifier::standard();
    // Each sample, remapped from [-1, 1] to [0, 1], lands in a known band.
    for (sample, expected) in [
        (-1_000_000, TileMaterial::Mud),  // normalized 0
        (-500_000, TileMaterial::Mud),    // normalized 250_000
        (-400_000, TileMaterial::Ground), // normalized 300_000, on the boundary
        (200_000, TileMaterial::Cave),    // normalized 600_000, on the boundary
        (600_000, TileMaterial::Steel),   // normalized 800_000, on the boundary
        (1_000_000, TileMaterial::Steel), // normalized 1_000_000
    ] {
        let params =
            GenerationParameters::new(7, 1_000, 1, 6, 0, vec![]).expect("valid configuration");
        let field = NoiseField::from_samples(1, vec![sample]).expect("valid sample table");
        let grid = generate(&params, &classifier, &field);
        assert_eq!(cell(&grid, 0, 0), expected);
    }
}

#[test]
fn zero_dimensions_are_rejected() {
    assert_eq!(
        GenerationParameters::new(42, 2_500, 0, 6, 0, vec![]).unwrap_err(),
        TerrainError::InvalidConfiguration
    );
    assert_eq!(
        GenerationParameters::new(42, 0, 100, 6, 19, vec![]).unwrap_err(),
        TerrainError::InvalidConfiguration
    );
    assert_eq!(
        GenerationParameters::new(42, 2_500, 100, 0, 19, vec![]).unwrap_err(),
        TerrainError::InvalidConfiguration
    );
}

#[test]
fn oversized_air_band_and_stray_spawn_cell_are_rejected() {
    assert_eq!(
        GenerationParameters::new(42, 2_500, 100, 6, 101, vec![]).unwrap_err(),
        TerrainError::InvalidConfiguration
    );
    assert_eq!(
        GenerationParameters::new(42, 2_500, 100, 6, 19, vec![(100, 0)]).unwrap_err(),
        TerrainError::InvalidConfiguration
    );
}

#[test]
fn sample_tables_are_validated() {
    assert_eq!(
        NoiseField::from_samples(100, vec![0; 99]).unwrap_err(),
        TerrainError::InvalidConfiguration
    );
    assert_eq!(
        NoiseField::from_samples(0, vec![]).unwrap_err(),
        TerrainError::InvalidConfiguration
    );
    assert_eq!(
        NoiseField::from_samples(2, vec![0, 1_000_001, 0, 0]).unwrap_err(),
        TerrainError::InvalidConfiguration
    );
    assert!(NoiseField::from_samples(2, vec![-1_000_000, 0, 500_000, 1_000_000]).is_ok());
}
