use vstd::prelude::*;
use vstd::string::StringExecFns;

use crate::error::BatchError;
use crate::iris::IrisItem;
use crate::labels::{agnews_class_of, same_text, sentiment_label_of, sentiment_to_label};
use crate::text::ClassificationItem;
use crate::wine::WineQualityItem;

verus! {

/// Where a data set with a single file is cut: the first eight tenths of
/// its (shuffled) records train, the rest test.
pub open spec fn split_point(len: nat) -> nat {
    len * 8 / 10
}

/// The records `[start, end)` that a split name selects out of `len`.
pub open spec fn split_range(split: Seq<char>, len: nat) -> Option<(nat, nat)> {
    if split == "train"@ {
        Some((0, split_point(len)))
    } else if split == "test"@ {
        Some((split_point(len), len))
    } else {
        None
    }
}

/// The records that `split` ("train" or "test") selects, in their order.
/// Any other name is a configuration error.
pub fn select_split<T>(items: Vec<T>, split: &str) -> (r: Result<Vec<T>, BatchError>)
    ensures
        split_range(split@, items@.len()) matches None ==> r == Err::<Vec<T>, BatchError>(
            BatchError::ConfigurationError,
        ),
        split_range(split@, items@.len()) matches Some((start, end)) ==> (r matches Ok(v) && v@
            == items@.subrange(start as int, end as int)),
{
    let len = items.len();
    let cut = ((len as u128) * 8 / 10) as usize;
    let mut items = items;
    if same_text(split, "train") {
        items.truncate(cut);
        Ok(items)
    } else if same_text(split, "test") {
        let rest = items.split_off(cut);
        Ok(rest)
    } else {
        Err(BatchError::ConfigurationError)
    }
}

/// Loads the two splits of an image folder data set laid out as CIFAR-10 is:
/// one directory per split, one subdirectory per class.
pub trait CIFAR10Loader: Sized {
    fn cifar10_train(data_path: &str) -> Self;

    fn cifar10_test(data_path: &str) -> Self;
}

/// A data set of labelled texts that knows its classes.
pub trait ClassificationDataset {
    fn num_classes() -> usize;

    /// The name of class `label`, if there is such a class.
    fn class_name(label: usize) -> Option<String>;
}

/// One AG News record as read from its table.
pub struct AgNewsItem {
    pub title: String,
    pub description: String,
    pub label: usize,
}

/// The AG News records of one file.
pub struct AgNewsDataset {
    dataset: Vec<AgNewsItem>,
}

impl AgNewsDataset {
    pub fn new(items: Vec<AgNewsItem>) -> (r: AgNewsDataset)
        ensures
            r.items() == items@,
    {
        AgNewsDataset { dataset: items }
    }

    pub closed spec fn items(&self) -> Seq<AgNewsItem> {
        self.dataset@
    }

    pub fn len(&self) -> (r: usize)
        ensures
            r == self.items().len(),
    {
        self.dataset.len()
    }

    /// Record `index` as a classification item whose text is the title, a
    /// space and the description.
    pub fn get(&self, index: usize) -> (r: Option<ClassificationItem>)
        ensures
            index >= self.items().len() ==> r is None,
            index < self.items().len() ==> (r matches Some(c) && c.text@ == self.items()[index as int].title@
                + " "@ + self.items()[index as int].description@ && c.label == self.items()[index as int].label),
    {
        if index >= self.dataset.len() {
            return None;
        }
        let item = &self.dataset[index];
        let mut text = item.title.clone();
        text.append(" ");
        text.append(item.description.as_str());
        Some(ClassificationItem { text, label: item.label })
    }
}

impl ClassificationDataset for AgNewsDataset {
    fn num_classes() -> (r: usize)
        ensures
            r == 4,
    {
        4
    }

    fn class_name(label: usize) -> (r: Option<String>)
        ensures
            label < 4 ==> (r matches Some(s) && s@ == agnews_class_of(label as int)),
            label >= 4 ==> r is None,
    {
        if label == 0 {
            Some("World".to_owned())
        } else if label == 1 {
            Some("Sports".to_owned())
        } else if label == 2 {
            Some("Business".to_owned())
        } else if label == 3 {
            Some("Technology".to_owned())
        } else {
            None
        }
    }
}

/// One IMDB review as read from its table.
pub struct IMDBItem {
    pub review: String,
    pub sentiment: String,
}

/// The outcome of decoding the chosen reviews: a data error naming the first
/// review whose sentiment is unknown, else every review with its label.
pub open spec fn imdb_outcome(r: Result<IMDBDataset, BatchError>, chosen: Seq<IMDBItem>) -> bool {
    &&& (exists|i: int|
        0 <= i < chosen.len() && #[trigger] sentiment_label_of(chosen[i].sentiment@) is None)
        <==> r is Err
    &&& r matches Err(e) ==> (e matches BatchError::DataError { index } && index < chosen.len()
        && sentiment_label_of(chosen[index as int].sentiment@) is None && forall|j: int|
        0 <= j < index ==> #[trigger] sentiment_label_of(chosen[j].sentiment@) is Some)
    &&& r matches Ok(d) ==> d.items().len() == chosen.len() && forall|i: int|
        0 <= i < chosen.len() ==> (#[trigger] d.items()[i]).text == chosen[i].review && (
        sentiment_label_of(chosen[i].sentiment@) matches Some(l) && d.items()[i].label == l as usize)
}

/// The reviews of one split of the IMDB table, with their labels decoded.
pub struct IMDBDataset {
    dataset: Vec<ClassificationItem>,
}

impl IMDBDataset {
    /// Selects the split (see `select_split`) and decodes the sentiment of
    /// each selected review. An unknown sentiment is a data error naming the
    /// first such review by its place in the split.
    pub fn new(split: &str, items: Vec<IMDBItem>) -> (r: Result<IMDBDataset, BatchError>)
        ensures
            split_range(split@, items@.len()) is None ==> r == Err::<IMDBDataset, BatchError>(
                BatchError::ConfigurationError,
            ),
            split_range(split@, items@.len()) matches Some((start, end)) ==> imdb_outcome(
                r,
                items@.subrange(start as int, end as int),
            ),
    {
        let ghost range = split_range(split@, items@.len());
        let ghost all = items@;
        let chosen = match select_split(items, split) {
            Ok(chosen) => chosen,
            Err(e) => {
                return Err(e);
            },
        };
        let ghost start = range->Some_0.0 as int;
        let ghost end = range->Some_0.1 as int;
        let mut dataset: Vec<ClassificationItem> = Vec::new();
        let mut i: usize = 0;
        while i < chosen.len()
            invariant
                i <= chosen.len(),
                range == split_range(split@, all.len()),
                range is Some,
                start == range->Some_0.0,
                end == range->Some_0.1,
                chosen@ == all.subrange(start, end),
                items@ == all,
                dataset@.len() == i,
                forall|j: int| 0 <= j < i ==> #[trigger] sentiment_label_of(chosen@[j].sentiment@) is Some,
                forall|j: int|
                    0 <= j < i ==> (#[trigger] dataset@[j]).text == chosen@[j].review && (
                    sentiment_label_of(chosen@[j].sentiment@) matches Some(l) && dataset@[j].label
                        == l as usize),
            decreases chosen.len() - i,
        {
            let item = &chosen[i];
            match sentiment_to_label(item.sentiment.as_str()) {
                Some(label) => {
                    dataset.push(ClassificationItem { text: item.review.clone(), label: label as usize });
                },
                None => {
                    assert(sentiment_label_of(chosen@[i as int].sentiment@) is None);
                    return Err(BatchError::DataError { index: i });
                },
            }
            i = i + 1;
        }
        Ok(IMDBDataset { dataset })
    }

    /// The reviews of the first eight tenths of the table (see `new`).
    pub fn train(items: Vec<IMDBItem>) -> (r: Result<IMDBDataset, BatchError>)
        ensures
            imdb_outcome(r, items@.subrange(0, split_point(items@.len()) as int)),
    {
        proof {
            reveal_strlit("train");
        }
        IMDBDataset::new("train", items)
    }

    /// The reviews after the first eight tenths of the table (see `new`).
    pub fn test(items: Vec<IMDBItem>) -> (r: Result<IMDBDataset, BatchError>)
        ensures
            imdb_outcome(
                r,
                items@.subrange(split_point(items@.len()) as int, items@.len() as int),
            ),
    {
        proof {
            reveal_strlit("train");
            reveal_strlit("test");
            assert("train"@.len() != "test"@.len());
        }
        IMDBDataset::new("test", items)
    }

    pub closed spec fn items(&self) -> Seq<ClassificationItem> {
        self.dataset@
    }

    pub fn len(&self) -> (r: usize)
        ensures
            r == self.items().len(),
    {
        self.dataset.len()
    }

    /// Review `index` of the split with its label.
    pub fn get(&self, index: usize) -> (r: Option<ClassificationItem>)
        ensures
            index >= self.items().len() ==> r is None,
            index < self.items().len() ==> (r matches Some(c) && c.text == self.items()[index as int].text
                && c.label == self.items()[index as int].label),
    {
        if index >= self.dataset.len() {
            return None;
        }
        let item = &self.dataset[index];
        Some(ClassificationItem { text: item.text.clone(), label: item.label })
    }
}

/// The Iris records of one split.
pub struct IrisDataset {
    dataset: Vec<IrisItem>,
}

impl IrisDataset {
    /// The records that `split` selects (see `select_split`).
    pub fn new(split: &str, items: Vec<IrisItem>) -> (r: Result<IrisDataset, BatchError>)
        ensures
            split_range(split@, items@.len()) is None ==> r == Err::<IrisDataset, BatchError>(
                BatchError::ConfigurationError,
            ),
            split_range(split@, items@.len()) matches Some((start, end)) ==> (r matches Ok(d)
                && d.items() == items@.subrange(start as int, end as int)),
    {
        match select_split(items, split) {
            Ok(dataset) => Ok(IrisDataset { dataset }),
            Err(e) => Err(e),
        }
    }

    /// The first eight tenths of the records.
    pub fn train(items: Vec<IrisItem>) -> (r: IrisDataset)
        ensures
            r.items() == items@.subrange(0, split_point(items@.len()) as int),
    {
        proof {
            reveal_strlit("train");
        }
        match IrisDataset::new("train", items) {
            Ok(d) => d,
            Err(_) => unreached(),
        }
    }

    /// The records after the first eight tenths.
    pub fn test(items: Vec<IrisItem>) -> (r: IrisDataset)
        ensures
            r.items() == items@.subrange(split_point(items@.len()) as int, items@.len() as int),
    {
        proof {
            reveal_strlit("train");
            reveal_strlit("test");
            assert("train"@.len() != "test"@.len());
        }
        match IrisDataset::new("test", items) {
            Ok(d) => d,
            Err(_) => unreached(),
        }
    }

    pub closed spec fn items(&self) -> Seq<IrisItem> {
        self.dataset@
    }

    pub fn len(&self) -> (r: usize)
        ensures
            r == self.items().len(),
    {
        self.dataset.len()
    }

    /// Record `index` of the split.
    pub fn get(&self, index: usize) -> (r: Option<IrisItem>)
        ensures
            index >= self.items().len() ==> r is None,
            index < self.items().len() ==> r == Some(self.items()[index as int]),
    {
        if index >= self.dataset.len() {
            return None;
        }
        let item = &self.dataset[index];
        Some(
            IrisItem {
                sepal_length: item.sepal_length,
                sepal_width: item.sepal_width,
                petal_length: item.petal_length,
                petal_width: item.petal_width,
                species: item.species.clone(),
            },
        )
    }
}

/// The wine records of one split.
pub struct WineQualityDataset {
    dataset: Vec<WineQualityItem>,
}

impl WineQualityDataset {
    /// The records that `split` selects (see `select_split`).
    pub fn new(split: &str, items: Vec<WineQualityItem>) -> (r: Result<WineQualityDataset, BatchError>)
        ensures
            split_range(split@, items@.len()) is None ==> r == Err::<WineQualityDataset, BatchError>(
                BatchError::ConfigurationError,
            ),
            split_range(split@, items@.len()) matches Some((start, end)) ==> (r matches Ok(d)
                && d.items() == items@.subrange(start as int, end as int)),
    {
        match select_split(items, split) {
            Ok(dataset) => Ok(WineQualityDataset { dataset }),
            Err(e) => Err(e),
        }
    }

    /// The first eight tenths of the records.
    pub fn train(items: Vec<WineQualityItem>) -> (r: WineQualityDataset)
        ensures
            r.items() == items@.subrange(0, split_point(items@.len()) as int),
    {
        proof {
            reveal_strlit("train");
        }
        match WineQualityDataset::new("train", items) {
            Ok(d) => d,
            Err(_) => unreached(),
        }
    }

    /// The records after the first eight tenths.
    pub fn test(items: Vec<WineQualityItem>) -> (r: WineQualityDataset)
        ensures
            r.items() == items@.subrange(split_point(items@.len()) as int, items@.len() as int),
    {
        proof {
            reveal_strlit("train");
            reveal_strlit("test");
            assert("train"@.len() != "test"@.len());
        }
        match WineQualityDataset::new("test", items) {
            Ok(d) => d,
            Err(_) => unreached(),
        }
    }

    pub closed spec fn items(&self) -> Seq<WineQualityItem> {
        self.dataset@
    }

    pub fn len(&self) -> (r: usize)
        ensures
            r == self.items().len(),
    {
        self.dataset.len()
    }

    /// Record `index` of the split.
    pub fn get(&self, index: usize) -> (r: Option<WineQualityItem>)
        ensures
            index >= self.items().len() ==> r is None,
            index < self.items().len() ==> r == Some(self.items()[index as int]),
    {
        if index >= self.dataset.len() {
            return None;
        }
        Some(self.dataset[index])
    }
}

} // verus!
