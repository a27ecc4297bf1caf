use minegrid::error::TerrainError;
use minegrid::tile::{Band, TileClassifier, TileMaterial};

fn band(upper: u64, material: TileMaterial) -> Band {
    Band { upper, material }
}

#[test]
fn a_value_just_under_a_boundary_stays_in_the_lower_band() {
    let classifier = TileClassifier::new(
        vec![band(200_000, TileMaterial::Mud), band(600_000, TileMaterial::Ground)],
        TileMaterial::Steel,
    )
    .expect("ascending bands");
    assert_eq!(classifier.classify(199_990), TileMaterial::Mud);
}

#[test]
fn a_value_exactly_on_a_boundary_falls_into_the_next_band() {
    let classifier = TileClassifier::new(
        vec![band(200_000, TileMaterial::Mud), band(600_000, TileMaterial::Ground)],
        TileMaterial::Steel,
    )
    .expect("ascending bands");
    assert_eq!(classifier.classify(200_000), TileMaterial::Ground);
    assert_eq!(classifier.classify(600_000), TileMaterial::Steel);
}

#[test]
fn every_standard_boundary_behaves_the_same_way() {
    let classifier = TileClassifier::standard();
    assert_eq!(classifier.classify(0), TileMaterial::Mud);
    assert_eq!(classifier.classify(299_999), TileMaterial::Mud);
    assert_eq!(classifier.classify(300_000), TileMaterial::Ground);
    assert_eq!(classifier.classify(599_999), TileMaterial::Ground);
    assert_eq!(classifier.classify(600_000), TileMaterial::Cave);
    assert_eq!(classifier.classify(799_999), TileMaterial::Cave);
    assert_eq!(classifier.classify(800_000), TileMaterial::Steel);
    assert_eq!(classifier.classify(1_000_000), TileMaterial::Steel);
}

#[test]
fn classification_uses_the_magnitude_of_the_value() {
    let classifier = TileClassifier::standard();
    assert_eq!(classifier.classify(-250_000), TileMaterial::Mud);
    assert_eq!(classifier.classify(-800_000), TileMaterial::Steel);
}

#[test]
fn an_empty_ladder_always_falls_back() {
    let classifier = TileClassifier::new(vec![], TileMaterial::Empty).expect("empty ladder");
    assert_eq!(classifier.classify(0), TileMaterial::Empty);
    assert_eq!(classifier.classify(i64::MAX), TileMaterial::Empty);
}

#[test]
fn bands_out_of_order_are_rejected() {
    let result = TileClassifier::new(
        vec![band(600_000, TileMaterial::Ground), band(300_000, TileMaterial::Mud)],
        TileMaterial::Steel,
    );
    assert_eq!(result.unwrap_err(), TerrainError::InvalidConfiguration);
    let equal = TileClassifier::new(
        vec![band(300_000, TileMaterial::Mud), band(300_000, TileMaterial::Ground)],
        TileMaterial::Steel,
    );
    assert_eq!(equal.unwrap_err(), TerrainError::InvalidConfiguration);
}
