use vstd::prelude::*;

use crate::error::BatchError;
use crate::labels::{class_label, iris_label_of};

verus! {

/// One Iris record. The four measurements are fixed point numbers with five
/// decimal places (a value `x` is stored as `x * 100000`).
pub struct IrisItem {
    pub sepal_length: i64,
    pub sepal_width: i64,
    pub petal_length: i64,
    pub petal_width: i64,
    pub species: String,
}

/// The measurements, one row per record, and the class of each record.
pub struct IrisBatch {
    pub inputs: Vec<Vec<i64>>,
    pub targets: Vec<i8>,
}

/// The measurements of one record, in column order.
pub open spec fn iris_row(item: IrisItem) -> Seq<i64> {
    seq![item.sepal_length, item.sepal_width, item.petal_length, item.petal_width]
}

/// Every record before position `upto` names a known species.
pub open spec fn species_known_upto(items: Seq<IrisItem>, upto: int) -> bool {
    forall|j: int| 0 <= j < upto ==> #[trigger] iris_label_of(items[j].species@) is Some
}

/// Builds batches of Iris records.
pub struct IrisBatcher {}

impl IrisBatcher {
    pub fn new() -> (r: IrisBatcher) {
        IrisBatcher {  }
    }

    /// Stacks the measurements, row `i` for `items[i]`, and the class index
    /// of each species in the same order. Fails with a data error naming the
    /// first record whose species is unknown.
    pub fn batch(&self, items: &Vec<IrisItem>) -> (r: Result<IrisBatch, BatchError>)
        ensures
            !species_known_upto(items@, items@.len() as int) <==> r is Err,
            r matches Err(e) ==> (e matches BatchError::DataError { index } && index < items@.len()
                && iris_label_of(items@[index as int].species@) is None && species_known_upto(
                items@,
                index as int,
            )),
            r matches Ok(b) ==> {
                &&& b.inputs@.len() == items@.len()
                &&& b.targets@.len() == items@.len()
                &&& forall|i: int|
                    0 <= i < items@.len() ==> #[trigger] b.inputs@[i]@ == iris_row(items@[i])
                &&& forall|i: int|
                    0 <= i < items@.len() ==> Some(#[trigger] b.targets@[i]) == iris_label_of(
                        items@[i].species@,
                    )
            },
    {
        let mut inputs: Vec<Vec<i64>> = Vec::new();
        let mut targets: Vec<i8> = Vec::new();
        let mut i: usize = 0;
        while i < items.len()
            invariant
                i <= items.len(),
                species_known_upto(items@, i as int),
                inputs@.len() == i,
                targets@.len() == i,
                forall|k: int| 0 <= k < i ==> #[trigger] inputs@[k]@ == iris_row(items@[k]),
                forall|k: int|
                    0 <= k < i ==> Some(#[trigger] targets@[k]) == iris_label_of(items@[k].species@),
            decreases items.len() - i,
        {
            let item = &items[i];
            let label = match class_label(item.species.as_str()) {
                Some(label) => label,
                None => {
                    return Err(BatchError::DataError { index: i });
                },
            };
            let mut row: Vec<i64> = Vec::new();
            row.push(item.sepal_length);
            row.push(item.sepal_width);
            row.push(item.petal_length);
            row.push(item.petal_width);
            assert(row@ =~= iris_row(*item));
            inputs.push(row);
            targets.push(label);
            i = i + 1;
        }
        Ok(IrisBatch { inputs, targets })
    }
}

} // verus!
