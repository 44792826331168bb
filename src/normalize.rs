use vstd::prelude::*;

use crate::error::BatchError;

verus! {

/// An exact quotient `num / den`. Normalized features are kept as such
/// quotients, so no rounding happens inside the library; `den` is never 0.
#[derive(Debug, Clone, Copy, PartialEq, Eq, Structural)]
pub struct Ratio {
    pub num: i128,
    pub den: i128,
}

/// The fixed bounds of one feature channel, taken from a known historical
/// range of the data rather than from the batch.
#[derive(Debug, Clone, Copy, PartialEq, Eq, Structural)]
pub struct FixedRange {
    pub min: i64,
    pub max: i64,
}

/// How the channels of a feature row are rescaled.
pub enum Normalization {
    /// One fixed range per channel; the row width is the number of ranges.
    Fixed(Vec<FixedRange>),
    /// The bounds of each channel are those of the batch being built.
    BatchMinMax,
}

/// `(value - min) / (max - min)`, the min-max formula.
pub open spec fn scaled(value: int, min: int, max: int) -> Ratio {
    Ratio { num: (value - min) as i128, den: (max - min) as i128 }
}

/// One feature row under fixed per-channel ranges.
pub open spec fn fixed_row(row: Seq<i64>, ranges: Seq<FixedRange>) -> Seq<Ratio> {
    Seq::new(row.len(), |c: int| scaled(row[c] as int, ranges[c].min as int, ranges[c].max as int))
}

/// Every row of a batch under fixed per-channel ranges.
pub open spec fn fixed_rows(rows: Seq<Seq<i64>>, ranges: Seq<FixedRange>) -> Seq<Seq<Ratio>> {
    Seq::new(rows.len(), |i: int| fixed_row(rows[i], ranges))
}

/// True when no range has equal bounds.
pub open spec fn ranges_usable(ranges: Seq<FixedRange>) -> bool {
    forall|c: int| 0 <= c < ranges.len() ==> #[trigger] ranges[c].min != ranges[c].max
}

/// True when every row has exactly `width` values.
pub open spec fn rows_have_width(rows: Seq<Seq<i64>>, width: int) -> bool {
    forall|i: int| 0 <= i < rows.len() ==> #[trigger] rows[i].len() == width
}

/// Smallest value of channel `c` over the rows (0 when there are none).
pub open spec fn channel_min(rows: Seq<Seq<i64>>, c: int) -> int
    decreases rows.len(),
{
    if rows.len() == 0 {
        0
    } else if rows.len() == 1 {
        rows[0][c] as int
    } else {
        let m = channel_min(rows.drop_last(), c);
        let x = rows.last()[c] as int;
        if x < m {
            x
        } else {
            m
        }
    }
}

/// Largest value of channel `c` over the rows (0 when there are none).
pub open spec fn channel_max(rows: Seq<Seq<i64>>, c: int) -> int
    decreases rows.len(),
{
    if rows.len() == 0 {
        0
    } else if rows.len() == 1 {
        rows[0][c] as int
    } else {
        let m = channel_max(rows.drop_last(), c);
        let x = rows.last()[c] as int;
        if x > m {
            x
        } else {
            m
        }
    }
}

/// Min-max scaling of one value, where a channel whose bounds coincide
/// maps to 0 instead of the undefined 0 / 0.
pub open spec fn min_max_value(value: int, lo: int, hi: int) -> Ratio {
    if lo == hi {
        Ratio { num: 0, den: 1 }
    } else {
        scaled(value, lo, hi)
    }
}

/// Every row of a batch scaled by the bounds that the batch itself has on
/// each channel.
pub open spec fn min_max_rows(rows: Seq<Seq<i64>>, width: nat) -> Seq<Seq<Ratio>> {
    Seq::new(
        rows.len(),
        |i: int|
            Seq::new(
                width,
                |c: int| min_max_value(rows[i][c] as int, channel_min(rows, c), channel_max(rows, c)),
            ),
    )
}

/// A strategy can be applied to rows of `width` values: fixed ranges must
/// be one per channel, each with distinct bounds.
pub open spec fn normalization_usable(normalization: Normalization, width: nat) -> bool {
    match normalization {
        Normalization::Fixed(ranges) => ranges_usable(ranges@) && ranges@.len() == width,
        Normalization::BatchMinMax => true,
    }
}

/// The rows as the strategy rescales them.
pub open spec fn normalized_rows(
    rows: Seq<Seq<i64>>,
    width: nat,
    normalization: Normalization,
) -> Seq<Seq<Ratio>> {
    match normalization {
        Normalization::Fixed(ranges) => fixed_rows(rows, ranges@),
        Normalization::BatchMinMax => min_max_rows(rows, width),
    }
}

/// Scales one value by a fixed range: `(value - min) / (max - min)`.
/// Equal bounds are a configuration error.
pub fn normalize_fixed(value: i64, min: i64, max: i64) -> (r: Result<Ratio, BatchError>)
    ensures
        min == max ==> r == Err::<Ratio, BatchError>(BatchError::ConfigurationError),
        min != max ==> r == Ok::<Ratio, BatchError>(scaled(value as int, min as int, max as int)),
{
    if min == max {
        Err(BatchError::ConfigurationError)
    } else {
        Ok(Ratio { num: value as i128 - min as i128, den: max as i128 - min as i128 })
    }
}

fn all_ranges_usable(ranges: &Vec<FixedRange>) -> (r: bool)
    ensures
        r == ranges_usable(ranges@),
{
    let mut c: usize = 0;
    while c < ranges.len()
        invariant
            c <= ranges.len(),
            forall|k: int| 0 <= k < c ==> #[trigger] ranges@[k].min != ranges@[k].max,
        decreases ranges.len() - c,
    {
        if ranges[c].min == ranges[c].max {
            return false;
        }
        c = c + 1;
    }
    true
}

/// Whether every row holds exactly `width` values.
pub fn all_rows_have_width(rows: &Vec<Vec<i64>>, width: usize) -> (r: bool)
    ensures
        r == rows_have_width(rows.deep_view(), width as int),
{
    let ghost v = rows.deep_view();
    let mut i: usize = 0;
    while i < rows.len()
        invariant
            i <= rows.len(),
            v == rows.deep_view(),
            forall|k: int| 0 <= k < i ==> #[trigger] v[k].len() == width,
        decreases rows.len() - i,
    {
        if rows[i].len() != width {
            assert(v[i as int].len() != width);
            return false;
        }
        i = i + 1;
    }
    true
}

/// Scales every channel of every row by its fixed range.
/// Fails with a configuration error when some range has equal bounds, and
/// otherwise with a shape error when some row does not hold one value per
/// range. Row `i` of the result belongs to `rows[i]`.
pub fn normalize_rows_fixed(rows: &Vec<Vec<i64>>, ranges: &Vec<FixedRange>) -> (r: Result<
    Vec<Vec<Ratio>>,
    BatchError,
>)
    ensures
        !ranges_usable(ranges@) ==> r == Err::<Vec<Vec<Ratio>>, BatchError>(
            BatchError::ConfigurationError,
        ),
        ranges_usable(ranges@) && !rows_have_width(rows.deep_view(), ranges@.len() as int) ==> r
            == Err::<Vec<Vec<Ratio>>, BatchError>(BatchError::ShapeError),
        ranges_usable(ranges@) && rows_have_width(rows.deep_view(), ranges@.len() as int) ==> r
            is Ok && r->Ok_0@.map_values(|v: Vec<Ratio>| v@) == fixed_rows(
            rows.deep_view(),
            ranges@,
        ),
{
    if !all_ranges_usable(ranges) {
        return Err(BatchError::ConfigurationError);
    }
    if !all_rows_have_width(rows, ranges.len()) {
        return Err(BatchError::ShapeError);
    }
    let ghost v = rows.deep_view();
    let mut out: Vec<Vec<Ratio>> = Vec::new();
    let mut i: usize = 0;
    while i < rows.len()
        invariant
            i <= rows.len(),
            v == rows.deep_view(),
            rows_have_width(v, ranges@.len() as int),
            out@.len() == i,
            forall|k: int| 0 <= k < i ==> #[trigger] out@[k]@ == fixed_row(v[k], ranges@),
        decreases rows.len() - i,
    {
        let row = &rows[i];
        assert(row@ == v[i as int]);
        let mut scaled_row: Vec<Ratio> = Vec::new();
        let mut c: usize = 0;
        while c < row.len()
            invariant
                c <= row.len(),
                row.len() == ranges.len(),
                scaled_row@ =~= fixed_row(row@, ranges@).take(c as int),
            decreases row.len() - c,
        {
            let range = ranges[c];
            scaled_row.push(
                Ratio {
                    num: row[c] as i128 - range.min as i128,
                    den: range.max as i128 - range.min as i128,
                },
            );
            c = c + 1;
        }
        assert(scaled_row@ =~= fixed_row(v[i as int], ranges@));
        out.push(scaled_row);
        i = i + 1;
    }
    assert(out@.map_values(|v: Vec<Ratio>| v@) =~= fixed_rows(v, ranges@));
    Ok(out)
}

fn channel_bounds(rows: &Vec<Vec<i64>>, c: usize, width: usize) -> (r: (i64, i64))
    requires
        rows@.len() > 0,
        c < width,
        rows_have_width(rows.deep_view(), width as int),
    ensures
        r.0 == channel_min(rows.deep_view(), c as int),
        r.1 == channel_max(rows.deep_view(), c as int),
{
    let ghost v = rows.deep_view();
    assert(v[0].len() == width);
    let mut lo: i64 = rows[0][c];
    let mut hi: i64 = rows[0][c];
    assert(v.take(1).drop_last() =~= v.take(0));
    let mut i: usize = 1;
    while i < rows.len()
        invariant
            1 <= i <= rows.len(),
            c < width,
            v == rows.deep_view(),
            rows_have_width(v, width as int),
            lo == channel_min(v.take(i as int), c as int),
            hi == channel_max(v.take(i as int), c as int),
        decreases rows.len() - i,
    {
        assert(v.take(i + 1).drop_last() =~= v.take(i as int));
        assert(v[i as int].len() == width);
        let x = rows[i][c];
        if x < lo {
            lo = x;
        }
        if x > hi {
            hi = x;
        }
        i = i + 1;
    }
    assert(v.take(i as int) =~= v);
    (lo, hi)
}

/// Scales every channel by the smallest and largest value that the batch
/// holds on it: `(x - min_c) / (max_c - min_c)`, and 0 on a channel where
/// all values are equal. Fails with a shape error when some row does not
/// hold `width` values. Row `i` of the result belongs to `rows[i]`.
pub fn normalize_rows_min_max(rows: &Vec<Vec<i64>>, width: usize) -> (r: Result<
    Vec<Vec<Ratio>>,
    BatchError,
>)
    ensures
        !rows_have_width(rows.deep_view(), width as int) ==> r == Err::<Vec<Vec<Ratio>>, BatchError>(
            BatchError::ShapeError,
        ),
        rows_have_width(rows.deep_view(), width as int) ==> r is Ok && r->Ok_0@.map_values(
            |v: Vec<Ratio>| v@,
        ) == min_max_rows(rows.deep_view(), width as nat),
{
    if !all_rows_have_width(rows, width) {
        return Err(BatchError::ShapeError);
    }
    let ghost v = rows.deep_view();
    let mut out: Vec<Vec<Ratio>> = Vec::new();
    if rows.len() == 0 {
        assert(out@.map_values(|v: Vec<Ratio>| v@) =~= min_max_rows(v, width as nat));
        return Ok(out);
    }
    let mut lows: Vec<i64> = Vec::new();
    let mut highs: Vec<i64> = Vec::new();
    let mut c: usize = 0;
    while c < width
        invariant
            c <= width,
            rows@.len() > 0,
            v == rows.deep_view(),
            rows_have_width(v, width as int),
            lows@.len() == c,
            highs@.len() == c,
            forall|k: int| 0 <= k < c ==> #[trigger] lows@[k] == channel_min(v, k),
            forall|k: int| 0 <= k < c ==> #[trigger] highs@[k] == channel_max(v, k),
        decreases width - c,
    {
        let (lo, hi) = channel_bounds(rows, c, width);
        lows.push(lo);
        highs.push(hi);
        c = c + 1;
    }
    let mut i: usize = 0;
    while i < rows.len()
        invariant
            i <= rows.len(),
            v == rows.deep_view(),
            rows_have_width(v, width as int),
            lows@.len() == width,
            highs@.len() == width,
            forall|k: int| 0 <= k < width ==> #[trigger] lows@[k] == channel_min(v, k),
            forall|k: int| 0 <= k < width ==> #[trigger] highs@[k] == channel_max(v, k),
            out@.len() == i,
            forall|k: int|
                0 <= k < i ==> #[trigger] out@[k]@ == min_max_rows(v, width as nat)[k],
        decreases rows.len() - i,
    {
        let row = &rows[i];
        assert(row@ == v[i as int]);
        let mut scaled_row: Vec<Ratio> = Vec::new();
        let mut c: usize = 0;
        while c < width
            invariant
                c <= width,
                row@.len() == width,
                row@ == v[i as int],
                0 <= i < v.len(),
                lows@.len() == width,
                highs@.len() == width,
                forall|k: int| 0 <= k < width ==> #[trigger] lows@[k] == channel_min(v, k),
                forall|k: int| 0 <= k < width ==> #[trigger] highs@[k] == channel_max(v, k),
                scaled_row@ =~= min_max_rows(v, width as nat)[i as int].take(c as int),
            decreases width - c,
        {
            let lo = lows[c];
            let hi = highs[c];
            let value = if lo == hi {
                Ratio { num: 0, den: 1 }
            } else {
                Ratio { num: row[c] as i128 - lo as i128, den: hi as i128 - lo as i128 }
            };
            scaled_row.push(value);
            c = c + 1;
        }
        assert(scaled_row@ =~= min_max_rows(v, width as nat)[i as int]);
        out.push(scaled_row);
        i = i + 1;
    }
    assert(out@.map_values(|v: Vec<Ratio>| v@) =~= min_max_rows(v, width as nat));
    Ok(out)
}

/// Rescales rows of `width` values with the chosen strategy. Fails with a
/// configuration error when the strategy does not fit `width` (see
/// `normalization_usable`), and otherwise with a shape error when some row
/// does not hold `width` values. Row `i` of the result belongs to `rows[i]`.
pub fn normalize_rows(rows: &Vec<Vec<i64>>, width: usize, normalization: &Normalization) -> (r:
    Result<Vec<Vec<Ratio>>, BatchError>)
    ensures
        !normalization_usable(*normalization, width as nat) ==> r == Err::<
            Vec<Vec<Ratio>>,
            BatchError,
        >(BatchError::ConfigurationError),
        normalization_usable(*normalization, width as nat) && !rows_have_width(
            rows.deep_view(),
            width as int,
        ) ==> r == Err::<Vec<Vec<Ratio>>, BatchError>(BatchError::ShapeError),
        normalization_usable(*normalization, width as nat) && rows_have_width(
            rows.deep_view(),
            width as int,
        ) ==> r is Ok && r->Ok_0@.map_values(|v: Vec<Ratio>| v@) == normalized_rows(
            rows.deep_view(),
            width as nat,
            *normalization,
        ),
{
    match normalization {
        Normalization::Fixed(ranges) => {
            if !all_ranges_usable(ranges) || ranges.len() != width {
                return Err(BatchError::ConfigurationError);
            }
            normalize_rows_fixed(rows, ranges)
        },
        Normalization::BatchMinMax => normalize_rows_min_max(rows, width),
    }
}

/// The quotient is exactly 0.
pub open spec fn is_zero(r: Ratio) -> bool {
    r.num == 0 && r.den != 0
}

/// The quotient is exactly 1.
pub open spec fn is_one(r: Ratio) -> bool {
    r.num == r.den && r.den != 0
}

/// The quotient lies in the closed interval from 0 to 1.
pub open spec fn in_unit_range(r: Ratio) -> bool {
    r.den > 0 && 0 <= r.num <= r.den
}

/// The row that holds the lower bound of every channel.
pub open spec fn lower_bounds(ranges: Seq<FixedRange>) -> Seq<i64> {
    Seq::new(ranges.len(), |c: int| ranges[c].min)
}

/// The row that holds the upper bound of every channel.
pub open spec fn upper_bounds(ranges: Seq<FixedRange>) -> Seq<i64> {
    Seq::new(ranges.len(), |c: int| ranges[c].max)
}

/// Under fixed ranges with distinct bounds, each channel's lower bound
/// scales to exactly 0 and its upper bound to exactly 1.
pub proof fn lemma_fixed_range_endpoints(ranges: Seq<FixedRange>)
    requires
        ranges_usable(ranges),
    ensures
        forall|c: int|
            0 <= c < ranges.len() ==> is_zero(#[trigger] fixed_row(lower_bounds(ranges), ranges)[c]),
        forall|c: int|
            0 <= c < ranges.len() ==> is_one(#[trigger] fixed_row(upper_bounds(ranges), ranges)[c]),
{
    assert forall|c: int| 0 <= c < ranges.len() implies is_zero(
        #[trigger] fixed_row(lower_bounds(ranges), ranges)[c],
    ) by {
        assert(ranges[c].min != ranges[c].max);
    }
    assert forall|c: int| 0 <= c < ranges.len() implies is_one(
        #[trigger] fixed_row(upper_bounds(ranges), ranges)[c],
    ) by {
        assert(ranges[c].min != ranges[c].max);
    }
}

proof fn lemma_channel_bounds_hold(rows: Seq<Seq<i64>>, c: int, i: int)
    requires
        0 <= i < rows.len(),
    ensures
        channel_min(rows, c) <= rows[i][c] <= channel_max(rows, c),
        i64::MIN <= channel_min(rows, c),
        channel_max(rows, c) <= i64::MAX,
    decreases rows.len(),
{
    if rows.len() > 1 {
        lemma_channel_bounds_hold(rows.drop_last(), c, 0);
        if i < rows.len() - 1 {
            lemma_channel_bounds_hold(rows.drop_last(), c, i);
        }
    }
}

proof fn lemma_constant_channel_bounds(rows: Seq<Seq<i64>>, c: int, value: i64)
    requires
        rows.len() > 0,
        forall|i: int| 0 <= i < rows.len() ==> #[trigger] rows[i][c] == value,
    ensures
        channel_min(rows, c) == value,
        channel_max(rows, c) == value,
    decreases rows.len(),
{
    if rows.len() > 1 {
        let rest = rows.drop_last();
        assert forall|i: int| 0 <= i < rest.len() implies #[trigger] rest[i][c] == value by {
            assert(rest[i] == rows[i]);
        }
        lemma_constant_channel_bounds(rest, c, value);
    }
}

/// Batch min-max scaling puts every value of every channel between 0 and 1.
pub proof fn lemma_min_max_in_unit_range(rows: Seq<Seq<i64>>, width: nat, i: int, c: int)
    requires
        rows_have_width(rows, width as int),
        0 <= i < rows.len(),
        0 <= c < width,
    ensures
        in_unit_range(min_max_rows(rows, width)[i][c]),
{
    lemma_channel_bounds_hold(rows, c, i);
}

/// A channel on which every row of the batch holds the same value scales to
/// exactly 0 on every row, not to the undefined 0 / 0.
pub proof fn lemma_constant_channel_is_zero(rows: Seq<Seq<i64>>, width: nat, c: int, value: i64)
    requires
        rows_have_width(rows, width as int),
        0 <= c < width,
        forall|i: int| 0 <= i < rows.len() ==> #[trigger] rows[i][c] == value,
    ensures
        forall|i: int| 0 <= i < rows.len() ==> is_zero(#[trigger] min_max_rows(rows, width)[i][c]),
{
    if rows.len() > 0 {
        lemma_constant_channel_bounds(rows, c, value);
    }
}

} // verus!
