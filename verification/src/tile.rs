use vstd::prelude::*;

use crate::error::TerrainError;

verus! {

/// The material assigned to one grid cell. A cell always holds exactly one
/// material, and a mutation replaces it wholesale.
#[derive(Clone, Copy, Debug, PartialEq, Eq, Structural)]
pub enum TileMaterial {
    Empty,
    Air,
    Mud,
    Ground,
    Steel,
    Cave,
    PlayerMarker,
}

/// One classification band: a magnitude strictly below `upper` (in
/// millionths) that no earlier band claimed takes `material`. A magnitude
/// exactly on `upper` falls past this band into the next one.
#[derive(Clone, Copy, Debug, PartialEq, Eq, Structural)]
pub struct Band {
    pub upper: u64,
    pub material: TileMaterial,
}

/// The absolute value of a scalar, taken before classification so that the
/// classifier is total even on a noise value that was never normalized.
pub open spec fn magnitude_of(v: int) -> int {
    if v < 0 {
        -v
    } else {
        v
    }
}

/// First-match classification: walk the bands in order and take the first
/// whose upper bound lies strictly above the magnitude; fall back to the
/// final material when no band matches.
pub open spec fn classify_bands(bands: Seq<Band>, fallback: TileMaterial, magnitude: int) -> TileMaterial
    decreases bands.len(),
{
    if bands.len() == 0 {
        fallback
    } else if magnitude < bands[0].upper {
        bands[0].material
    } else {
        classify_bands(bands.drop_first(), fallback, magnitude)
    }
}

/// Maps a normalized scalar to a tile material through an ordered ladder of
/// threshold bands. The thresholds are configuration, not code: they are
/// fixed when the classifier is built.
#[derive(Debug)]
pub struct TileClassifier {
    bands: Vec<Band>,
    fallback: TileMaterial,
}

impl TileClassifier {
    /// The ordered threshold bands, low to high.
    pub closed spec fn bands_spec(self) -> Seq<Band> {
        self.bands@
    }

    /// The material of every magnitude at or above the last upper bound.
    pub closed spec fn fallback_spec(self) -> TileMaterial {
        self.fallback
    }

    /// Each band's upper bound lies strictly below the next one's.
    pub open spec fn well_formed(self) -> bool {
        forall|i: int|
            #![trigger self.bands_spec()[i].upper, self.bands_spec()[i + 1].upper]
            0 <= i && i + 1 < self.bands_spec().len() ==> self.bands_spec()[i].upper
                < self.bands_spec()[i + 1].upper
    }

    /// Builds a classifier, rejecting a ladder whose upper bounds are not
    /// strictly ascending.
    pub fn new(bands: Vec<Band>, fallback: TileMaterial) -> (r: Result<TileClassifier, TerrainError>)
        ensures
            (forall|i: int|
                #![trigger bands@[i].upper, bands@[i + 1].upper]
                0 <= i && i + 1 < bands@.len() ==> bands@[i].upper < bands@[i + 1].upper)
                <==> r is Ok,
            r matches Ok(c) ==> c.bands_spec() == bands@ && c.fallback_spec() == fallback
                && c.well_formed(),
            r is Err ==> r == Err::<TileClassifier, TerrainError>(TerrainError::InvalidConfiguration),
    {
        let mut i: usize = 1;
        while i < bands.len()
            invariant
                1 <= i,
                forall|j: int|
                    #![trigger bands@[j].upper, bands@[j + 1].upper]
                    0 <= j && j + 1 < i && j + 1 < bands@.len() ==> bands@[j].upper
                        < bands@[j + 1].upper,
            decreases bands.len() - i,
        {
            if bands[i - 1].upper >= bands[i].upper {
                proof {
                    let j = i as int - 1;
                    assert(!(bands@[j].upper < bands@[j + 1].upper));
                }
                return Err(TerrainError::InvalidConfiguration);
            }
            i += 1;
        }
        Ok(TileClassifier { bands, fallback })
    }

    /// The classifier the reference terrain uses: mud below 0.3, ground
    /// below 0.6, cave below 0.8, steel from 0.8 upward (in millionths).
    pub fn standard() -> (c: TileClassifier)
        ensures
            c.bands_spec() =~= seq![
                Band { upper: 300_000u64, material: TileMaterial::Mud },
                Band { upper: 600_000u64, material: TileMaterial::Ground },
                Band { upper: 800_000u64, material: TileMaterial::Cave },
            ],
            c.fallback_spec() == TileMaterial::Steel,
            c.well_formed(),
    {
        let mut bands: Vec<Band> = Vec::new();
        bands.push(Band { upper: 300_000, material: TileMaterial::Mud });
        bands.push(Band { upper: 600_000, material: TileMaterial::Ground });
        bands.push(Band { upper: 800_000, material: TileMaterial::Cave });
        TileClassifier { bands, fallback: TileMaterial::Steel }
    }

    /// Classifies a scalar by the magnitude of its value: the first band
    /// whose upper bound lies strictly above it wins, and a value on a
    /// boundary belongs to the band above it.
    pub fn classify(&self, value: i64) -> (m: TileMaterial)
        ensures
            m == classify_bands(self.bands_spec(), self.fallback_spec(), magnitude_of(value as int)),
    {
        let magnitude: u64 = if value >= 0 {
            value as u64
        } else if value == i64::MIN {
            9_223_372_036_854_775_808u64
        } else {
            (-value) as u64
        };
        assert(magnitude == magnitude_of(value as int));
        proof {
            assert(self.bands@.skip(0) =~= self.bands@);
        }
        let mut i: usize = 0;
        while i < self.bands.len()
            invariant
                i <= self.bands@.len(),
                magnitude == magnitude_of(value as int),
                classify_bands(self.bands@, self.fallback, magnitude as int) == classify_bands(
                    self.bands@.skip(i as int),
                    self.fallback,
                    magnitude as int,
                ),
            decreases self.bands.len() - i,
        {
            if magnitude < self.bands[i].upper {
                assert(self.bands@.skip(i as int)[0] == self.bands@[i as int]);
                return self.bands[i].material;
            }
            proof {
                assert(self.bands@.skip(i as int).drop_first() =~= self.bands@.skip(i as int + 1));
            }
            i += 1;
        }
        assert(self.bands@.skip(i as int).len() == 0);
        self.fallback
    }
}

/// With ascending bands, an earlier upper bound never exceeds a later one.
proof fn lemma_ascending_transitive(bands: Seq<Band>, i: int, j: int)
    requires
        forall|k: int|
            #![trigger bands[k].upper, bands[k + 1].upper]
            0 <= k && k + 1 < bands.len() ==> bands[k].upper < bands[k + 1].upper,
        0 <= i <= j < bands.len(),
    ensures
        bands[i].upper <= bands[j].upper,
    decreases j - i,
{
    if i < j {
        lemma_ascending_transitive(bands, i, j - 1);
        let k = j - 1;
        assert(bands[k].upper < bands[k + 1].upper);
    }
}

/// A magnitude at or above the first `k` upper bounds is classified past
/// those bands.
proof fn lemma_classify_skips_prefix(bands: Seq<Band>, fallback: TileMaterial, magnitude: int, k: int)
    requires
        0 <= k <= bands.len(),
        forall|j: int| 0 <= j < k ==> magnitude >= (#[trigger] bands[j]).upper,
    ensures
        classify_bands(bands, fallback, magnitude) == classify_bands(
            bands.skip(k),
            fallback,
            magnitude,
        ),
    decreases k,
{
    if k == 0 {
        assert(bands.skip(0) =~= bands);
    } else {
        assert(bands.drop_first() =~= bands.skip(1));
        lemma_classify_skips_prefix(bands.skip(1), fallback, magnitude, k - 1);
        assert(bands.skip(1).skip(k - 1) =~= bands.skip(k));
    }
}

/// Boundary law: a magnitude exactly on a band's upper bound falls past
/// that band — into the next band's material, or the fallback when the
/// boundary is the last one.
pub proof fn lemma_boundary_belongs_to_next_band(c: TileClassifier, i: int)
    requires
        c.well_formed(),
        0 <= i < c.bands_spec().len(),
    ensures
        i + 1 < c.bands_spec().len() ==> classify_bands(
            c.bands_spec(),
            c.fallback_spec(),
            c.bands_spec()[i].upper as int,
        ) == c.bands_spec()[i + 1].material,
        i + 1 == c.bands_spec().len() ==> classify_bands(
            c.bands_spec(),
            c.fallback_spec(),
            c.bands_spec()[i].upper as int,
        ) == c.fallback_spec(),
{
    let bands = c.bands_spec();
    let magnitude = bands[i].upper as int;
    assert forall|j: int| 0 <= j < i + 1 implies magnitude >= (#[trigger] bands[j]).upper by {
        lemma_ascending_transitive(bands, j, i);
    }
    lemma_classify_skips_prefix(bands, c.fallback_spec(), magnitude, i + 1);
    if i + 1 < bands.len() {
        assert(bands.skip(i + 1)[0] == bands[i + 1]);
    }
}

} // verus!
