use minegrid::coords::CoordinateMapper;
use minegrid::error::TerrainError;

#[test]
fn to_world_matches_the_centering_formula() {
    let mapper = CoordinateMapper::new(100, 6).expect("valid mapper");
    // Half units: world -297, -297 for the corner cell and -291, 189 for
    // (1, 81).
    assert_eq!(mapper.to_world(0, 0), (-594, -594));
    assert_eq!(mapper.to_world(1, 81), (-582, 378));
    assert_eq!(mapper.to_world(99, 99), (594, 594));
}

#[test]
fn every_cell_round_trips_through_world_space() {
    let mapper = CoordinateMapper::new(100, 6).expect("valid mapper");
    for row in 0..100 {
        for col in 0..100 {
            let (x, y) = mapper.to_world(col, row);
            assert_eq!(mapper.to_grid(x, y), (col, row));
        }
    }
}

#[test]
fn odd_tile_sizes_round_trip_too() {
    let mapper = CoordinateMapper::new(5, 3).expect("valid mapper");
    for row in 0..5 {
        for col in 0..5 {
            let (x, y) = mapper.to_world(col, row);
            assert_eq!(mapper.to_grid(x, y), (col, row));
        }
    }
}

#[test]
fn world_positions_outside_the_grid_clamp_to_the_edge() {
    let mapper = CoordinateMapper::new(100, 6).expect("valid mapper");
    assert_eq!(mapper.to_grid(-10_000, 10_000), (0, 99));
    assert_eq!(mapper.to_grid(10_000, -10_000), (99, 0));
}

#[test]
fn a_midpoint_between_two_cell_centers_rounds_upward() {
    let mapper = CoordinateMapper::new(100, 6).expect("valid mapper");
    // Cell centers sit at -594 and -582 half units; -588 is exactly
    // between them.
    assert_eq!(mapper.to_grid(-588, -588), (1, 1));
    assert_eq!(mapper.to_grid(-589, -589), (0, 0));
}

#[test]
fn actor_positions_clamp_one_tile_inside_the_edges() {
    let mapper = CoordinateMapper::new(100, 6).expect("valid mapper");
    assert_eq!(mapper.clamp_actor(-100_000), -588);
    assert_eq!(mapper.clamp_actor(100_000), 588);
    assert_eq!(mapper.clamp_actor(42), 42);
}

#[test]
fn zero_mapper_dimensions_are_rejected() {
    assert_eq!(
        CoordinateMapper::new(0, 6).unwrap_err(),
        TerrainError::InvalidConfiguration
    );
    assert_eq!(
        CoordinateMapper::new(100, 0).unwrap_err(),
        TerrainError::InvalidConfiguration
    );
}
