use vstd::prelude::*;

use crate::error::BatchError;
use crate::normalize::{
    channel_max, channel_min, fixed_row, min_max_value, normalization_usable, normalize_rows,
    normalized_rows, rows_have_width, Normalization, Ratio,
};

verus! {

/// One tabular record: its feature values in fixed point, and a target when
/// the record is meant for training.
pub struct TabularRecord {
    pub features: Vec<i64>,
    pub target: Option<i64>,
}

/// Rescaled feature rows, and the targets when every record had one.
pub struct TabularBatch {
    pub inputs: Vec<Vec<Ratio>>,
    pub targets: Option<Vec<i64>>,
}

/// The feature rows of the records, in record order.
pub open spec fn record_rows(records: Seq<TabularRecord>) -> Seq<Seq<i64>> {
    Seq::new(records.len(), |i: int| records[i].features@)
}

/// Every record has a target.
pub open spec fn all_have_targets(records: Seq<TabularRecord>) -> bool {
    forall|i: int| 0 <= i < records.len() ==> #[trigger] records[i].target is Some
}

/// No record has a target.
pub open spec fn none_have_targets(records: Seq<TabularRecord>) -> bool {
    forall|i: int| 0 <= i < records.len() ==> #[trigger] records[i].target is None
}

/// The targets of the records, in record order.
pub open spec fn record_targets(records: Seq<TabularRecord>) -> Seq<i64> {
    Seq::new(records.len(), |i: int| records[i].target->Some_0)
}

fn copy_row(row: &Vec<i64>) -> (r: Vec<i64>)
    ensures
        r@ == row@,
{
    let mut out: Vec<i64> = Vec::new();
    let mut j: usize = 0;
    while j < row.len()
        invariant
            j <= row.len(),
            out@ =~= row@.take(j as int),
        decreases row.len() - j,
    {
        out.push(row[j]);
        j = j + 1;
    }
    assert(out@ =~= row@);
    out
}

/// A tabular batch keeps the order of its records: input row `i` is record
/// `i`'s features rescaled (by the fixed ranges alone, or by the batch's
/// bounds on each channel), and target `i` is record `i`'s target.
pub proof fn lemma_tabular_rows_follow_records(
    records: Seq<TabularRecord>,
    width: nat,
    normalization: Normalization,
    i: int,
)
    requires
        0 <= i < records.len(),
    ensures
        normalization matches Normalization::Fixed(ranges) ==> normalized_rows(
            record_rows(records),
            width,
            normalization,
        )[i] == fixed_row(records[i].features@, ranges@),
        normalization is BatchMinMax ==> forall|c: int|
            0 <= c < width ==> #[trigger] normalized_rows(record_rows(records), width, normalization)[i][c]
                == min_max_value(
                records[i].features@[c] as int,
                channel_min(record_rows(records), c),
                channel_max(record_rows(records), c),
            ),
        record_targets(records)[i] == records[i].target->Some_0,
{
}

/// Builds batches of tabular records whose rows hold `width` values.
pub struct TabularBatcher {
    width: usize,
    normalization: Normalization,
}

impl TabularBatcher {
    pub fn new(width: usize, normalization: Normalization) -> (r: TabularBatcher)
        ensures
            r.width() == width,
            r.normalization() == normalization,
    {
        TabularBatcher { width, normalization }
    }

    pub closed spec fn width(&self) -> usize {
        self.width
    }

    pub closed spec fn normalization(&self) -> Normalization {
        self.normalization
    }

    /// Stacks the records' rescaled feature rows, row `i` for `records[i]`,
    /// and their targets in the same order. Fails with a configuration error
    /// when the normalization does not fit the width, with a shape error
    /// when a feature row has another length than the width, or when only
    /// some of the records carry a target.
    pub fn batch(&self, records: &Vec<TabularRecord>) -> (r: Result<TabularBatch, BatchError>)
        ensures
            !normalization_usable(self.normalization(), self.width() as nat) ==> r == Err::<
                TabularBatch,
                BatchError,
            >(BatchError::ConfigurationError),
            normalization_usable(self.normalization(), self.width() as nat) && !(rows_have_width(
                record_rows(records@),
                self.width() as int,
            ) && (all_have_targets(records@) || none_have_targets(records@))) ==> r == Err::<
                TabularBatch,
                BatchError,
            >(BatchError::ShapeError),
            normalization_usable(self.normalization(), self.width() as nat) && rows_have_width(
                record_rows(records@),
                self.width() as int,
            ) && (all_have_targets(records@) || none_have_targets(records@)) ==> {
                &&& r is Ok
                &&& r->Ok_0.inputs@.map_values(|v: Vec<Ratio>| v@) == normalized_rows(
                    record_rows(records@),
                    self.width() as nat,
                    self.normalization(),
                )
                &&& all_have_targets(records@) ==> (r->Ok_0.targets matches Some(t) && t@
                    == record_targets(records@))
                &&& !all_have_targets(records@) ==> r->Ok_0.targets is None
            },
    {
        let mut rows: Vec<Vec<i64>> = Vec::new();
        let mut targets: Vec<i64> = Vec::new();
        let mut with_target: usize = 0;
        let ghost mut some_at: int = -1;
        let ghost mut none_at: int = -1;
        let mut i: usize = 0;
        while i < records.len()
            invariant
                i <= records.len(),
                rows@.len() == i,
                forall|k: int| 0 <= k < i ==> #[trigger] rows@[k]@ == records@[k].features@,
                with_target <= i,
                targets@.len() == with_target,
                with_target == i ==> targets@ =~= record_targets(records@).take(i as int),
                with_target == i ==> forall|k: int| 0 <= k < i ==> #[trigger] records@[k].target is Some,
                with_target == 0 ==> forall|k: int| 0 <= k < i ==> #[trigger] records@[k].target is None,
                with_target > 0 ==> 0 <= some_at < i && records@[some_at].target is Some,
                with_target < i ==> 0 <= none_at < i && records@[none_at].target is None,
            decreases records.len() - i,
        {
            let record = &records[i];
            rows.push(copy_row(&record.features));
            match record.target {
                Some(t) => {
                    targets.push(t);
                    with_target = with_target + 1;
                    proof {
                        some_at = i as int;
                    }
                },
                None => {
                    proof {
                        none_at = i as int;
                    }
                },
            }
            i = i + 1;
        }
        assert(rows.deep_view() =~~= record_rows(records@));
        let inputs = match normalize_rows(&rows, self.width, &self.normalization) {
            Ok(inputs) => inputs,
            Err(e) => {
                return Err(e);
            },
        };
        if with_target == records.len() {
            assert(targets@ =~= record_targets(records@));
            Ok(TabularBatch { inputs, targets: Some(targets) })
        } else if with_target == 0 {
            assert(records@[none_at].target is None);
            Ok(TabularBatch { inputs, targets: None })
        } else {
            assert(records@[none_at].target is None);
            assert(records@[some_at].target is Some);
            Err(BatchError::ShapeError)
        }
    }
}

} // verus!
