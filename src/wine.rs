use vstd::prelude::*;

use crate::error::BatchError;
use crate::normalize::{
    normalization_usable, normalize_rows, normalized_rows, scaled, FixedRange, Normalization, Ratio,
};

verus! {

/// Number of features of a wine record.
pub const WINE_FEATURES: usize = 11;

/// Lowest and highest quality grade of the wine data.
pub const QUALITY_MIN: i64 = 3;

pub const QUALITY_MAX: i64 = 9;

/// One wine record. The eleven measurements are fixed point numbers with
/// five decimal places (a value `x` is stored as `x * 100000`); the quality
/// is a plain grade.
#[derive(Debug, Clone, Copy, PartialEq, Eq, Structural)]
pub struct WineQualityItem {
    pub fixed_acidity: i64,
    pub volatile_acidity: i64,
    pub citric_acid: i64,
    pub residual_sugar: i64,
    pub chlorides: i64,
    pub free_sulfur_dioxide: i64,
    pub total_sulfur_dioxide: i64,
    pub density: i64,
    pub ph: i64,
    pub sulphates: i64,
    pub alcohol: i64,
    pub quality: i64,
}

/// Rescaled measurements, one row per record, and the rescaled grades.
pub struct WineQualityBatch {
    pub inputs: Vec<Vec<Ratio>>,
    pub targets: Vec<Ratio>,
}

/// The measurements of one record, in column order.
pub open spec fn wine_row(item: WineQualityItem) -> Seq<i64> {
    seq![
        item.fixed_acidity,
        item.volatile_acidity,
        item.citric_acid,
        item.residual_sugar,
        item.chlorides,
        item.free_sulfur_dioxide,
        item.total_sulfur_dioxide,
        item.density,
        item.ph,
        item.sulphates,
        item.alcohol,
    ]
}

pub open spec fn wine_rows(items: Seq<WineQualityItem>) -> Seq<Seq<i64>> {
    Seq::new(items.len(), |i: int| wine_row(items[i]))
}

/// The grade of a record scaled from the range of grades to 0..1.
pub open spec fn wine_target(item: WineQualityItem) -> Ratio {
    scaled(item.quality as int, QUALITY_MIN as int, QUALITY_MAX as int)
}

pub open spec fn wine_targets(items: Seq<WineQualityItem>) -> Seq<Ratio> {
    Seq::new(items.len(), |i: int| wine_target(items[i]))
}

/// The smallest and largest value of each measurement over the whole white
/// wine data set, in the fixed point of `WineQualityItem`.
pub open spec fn wine_ranges() -> Seq<FixedRange> {
    seq![
        FixedRange { min: 380000, max: 1420000 },
        FixedRange { min: 8000, max: 110000 },
        FixedRange { min: 0, max: 166000 },
        FixedRange { min: 60000, max: 6580000 },
        FixedRange { min: 900, max: 34600 },
        FixedRange { min: 200000, max: 28900000 },
        FixedRange { min: 900000, max: 44000000 },
        FixedRange { min: 98711, max: 103898 },
        FixedRange { min: 272000, max: 382000 },
        FixedRange { min: 22000, max: 108000 },
        FixedRange { min: 800000, max: 1420000 },
    ]
}

/// The ranges of `wine_ranges`, as a vector.
pub fn wine_feature_ranges() -> (r: Vec<FixedRange>)
    ensures
        r@ == wine_ranges(),
{
    let mut r: Vec<FixedRange> = Vec::new();
    r.push(FixedRange { min: 380000, max: 1420000 });
    r.push(FixedRange { min: 8000, max: 110000 });
    r.push(FixedRange { min: 0, max: 166000 });
    r.push(FixedRange { min: 60000, max: 6580000 });
    r.push(FixedRange { min: 900, max: 34600 });
    r.push(FixedRange { min: 200000, max: 28900000 });
    r.push(FixedRange { min: 900000, max: 44000000 });
    r.push(FixedRange { min: 98711, max: 103898 });
    r.push(FixedRange { min: 272000, max: 382000 });
    r.push(FixedRange { min: 22000, max: 108000 });
    r.push(FixedRange { min: 800000, max: 1420000 });
    assert(r@ =~= wine_ranges());
    r
}

fn wine_feature_row(item: &WineQualityItem) -> (r: Vec<i64>)
    ensures
        r@ == wine_row(*item),
{
    let mut r: Vec<i64> = Vec::new();
    r.push(item.fixed_acidity);
    r.push(item.volatile_acidity);
    r.push(item.citric_acid);
    r.push(item.residual_sugar);
    r.push(item.chlorides);
    r.push(item.free_sulfur_dioxide);
    r.push(item.total_sulfur_dioxide);
    r.push(item.density);
    r.push(item.ph);
    r.push(item.sulphates);
    r.push(item.alcohol);
    assert(r@ =~= wine_row(*item));
    r
}

/// Builds batches of wine records.
pub struct WineQualityBatcher {
    normalization: Normalization,
}

impl WineQualityBatcher {
    /// A batcher that rescales each measurement by its historical range.
    pub fn new() -> (r: WineQualityBatcher)
        ensures
            (r.normalization() matches Normalization::Fixed(ranges) && ranges@ == wine_ranges()),
            normalization_usable(r.normalization(), WINE_FEATURES as nat),
    {
        let ranges = wine_feature_ranges();
        assert(normalization_usable(Normalization::Fixed(ranges), WINE_FEATURES as nat));
        WineQualityBatcher { normalization: Normalization::Fixed(ranges) }
    }

    /// A batcher that rescales the measurements with the given strategy.
    pub fn with_normalization(normalization: Normalization) -> (r: WineQualityBatcher)
        ensures
            r.normalization() == normalization,
    {
        WineQualityBatcher { normalization }
    }

    pub closed spec fn normalization(&self) -> Normalization {
        self.normalization
    }

    /// Stacks the rescaled measurements, row `i` for `items[i]`, and the
    /// scaled grades in the same order. Fails with a configuration error only
    /// when the strategy does not fit eleven measurements.
    pub fn batch(&self, items: &Vec<WineQualityItem>) -> (r: Result<WineQualityBatch, BatchError>)
        ensures
            !normalization_usable(self.normalization(), WINE_FEATURES as nat) ==> r == Err::<
                WineQualityBatch,
                BatchError,
            >(BatchError::ConfigurationError),
            normalization_usable(self.normalization(), WINE_FEATURES as nat) ==> {
                &&& r is Ok
                &&& r->Ok_0.inputs@.map_values(|v: Vec<Ratio>| v@) == normalized_rows(
                    wine_rows(items@),
                    WINE_FEATURES as nat,
                    self.normalization(),
                )
                &&& r->Ok_0.targets@ == wine_targets(items@)
            },
    {
        let mut rows: Vec<Vec<i64>> = Vec::new();
        let mut targets: Vec<Ratio> = Vec::new();
        let mut i: usize = 0;
        while i < items.len()
            invariant
                i <= items.len(),
                rows@.len() == i,
                forall|k: int| 0 <= k < i ==> #[trigger] rows@[k]@ == wine_row(items@[k]),
                targets@ =~= wine_targets(items@).take(i as int),
            decreases items.len() - i,
        {
            let item = &items[i];
            rows.push(wine_feature_row(item));
            targets.push(
                Ratio {
                    num: item.quality as i128 - QUALITY_MIN as i128,
                    den: QUALITY_MAX as i128 - QUALITY_MIN as i128,
                },
            );
            i = i + 1;
        }
        assert(rows.deep_view() =~~= wine_rows(items@));
        assert(targets@ =~= wine_targets(items@));
        match normalize_rows(&rows, WINE_FEATURES, &self.normalization) {
            Ok(inputs) => Ok(WineQualityBatch { inputs, targets }),
            Err(e) => Err(e),
        }
    }
}

} // verus!
