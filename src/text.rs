use vstd::prelude::*;

use crate::error::BatchError;
use crate::padding::{
    build_padding_mask, lemma_long_sequence_is_truncated, lemma_short_sequence_is_padded, mask_grid,
    mask_row, padded_grid, padded_row,
};
use crate::tokenizer::TextTokenizer;

verus! {

/// One labelled text record.
pub struct ClassificationItem {
    pub text: String,
    pub label: usize,
}

impl ClassificationItem {
    pub fn new(text: String, label: usize) -> (r: ClassificationItem)
        ensures
            r.text == text,
            r.label == label,
    {
        ClassificationItem { text, label }
    }
}

/// The labels of the records, in record order.
pub open spec fn item_labels(items: Seq<ClassificationItem>) -> Seq<usize> {
    items.map_values(|item: ClassificationItem| item.label)
}

/// Padded tokens, their padding mask and one label per record.
pub struct ClassificationTrainingBatch {
    pub tokens: Vec<Vec<usize>>,
    pub labels: Vec<usize>,
    pub mask_pad: Vec<Vec<bool>>,
}

/// Padded tokens and their padding mask, for records without labels.
pub struct ClassificationInferenceBatch {
    pub tokens: Vec<Vec<usize>>,
    pub mask_pad: Vec<Vec<bool>>,
}

/// True when the labels before position `upto` are all below `num_classes`.
pub open spec fn labels_valid_upto(labels: Seq<usize>, num_classes: usize, upto: int) -> bool {
    forall|j: int| 0 <= j < upto ==> #[trigger] labels[j] < num_classes
}

/// The outcome of batching encoded sequences with their labels: a shape
/// error when the two lists differ in length, a data error naming the first
/// record whose label is not below `num_classes`, and otherwise the padded
/// grid of width `max_seq_length` with the labels in record order.
pub open spec fn training_batch_matches(
    r: Result<ClassificationTrainingBatch, BatchError>,
    pad_id: usize,
    seqs: Seq<Seq<usize>>,
    labels: Seq<usize>,
    max_seq_length: usize,
    num_classes: usize,
) -> bool {
    if labels.len() != seqs.len() {
        r == Err::<ClassificationTrainingBatch, BatchError>(BatchError::ShapeError)
    } else if !labels_valid_upto(labels, num_classes, labels.len() as int) {
        exists|i: int|
            #![trigger labels[i]]
            0 <= i < labels.len() && labels[i] >= num_classes && labels_valid_upto(
                labels,
                num_classes,
                i,
            ) && r == Err::<ClassificationTrainingBatch, BatchError>(
                BatchError::DataError { index: i as usize },
            )
    } else {
        &&& r is Ok
        &&& r->Ok_0.tokens.deep_view() == padded_grid(pad_id, seqs, Some(max_seq_length))
        &&& r->Ok_0.mask_pad.deep_view() == mask_grid(seqs, Some(max_seq_length))
        &&& r->Ok_0.labels@ == labels
    }
}

/// A training batch keeps the order of its records: row `i` of the tokens and
/// of the mask is built from sequence `i` alone, and label `i` is the label
/// of record `i`.
pub proof fn lemma_batch_preserves_order(
    r: Result<ClassificationTrainingBatch, BatchError>,
    pad_id: usize,
    seqs: Seq<Seq<usize>>,
    labels: Seq<usize>,
    max_seq_length: usize,
    num_classes: usize,
    i: int,
)
    requires
        training_batch_matches(r, pad_id, seqs, labels, max_seq_length, num_classes),
        r is Ok,
        0 <= i < seqs.len(),
    ensures
        r->Ok_0.tokens.deep_view()[i] == padded_row(seqs[i], pad_id, max_seq_length as nat),
        r->Ok_0.mask_pad.deep_view()[i] == mask_row(seqs[i], max_seq_length as nat),
        r->Ok_0.labels@.len() == seqs.len(),
        r->Ok_0.labels@[i] == labels[i],
{
}

/// In a training batch, the row of a sequence shorter than `max_seq_length`
/// is that sequence right-padded with `pad_id`, with exactly the trailing
/// `max_seq_length - len` mask positions set; the row of a longer sequence
/// is its first `max_seq_length` ids, with no mask position set.
pub proof fn lemma_batch_rows_fit_width(
    r: Result<ClassificationTrainingBatch, BatchError>,
    pad_id: usize,
    seqs: Seq<Seq<usize>>,
    labels: Seq<usize>,
    max_seq_length: usize,
    num_classes: usize,
    i: int,
)
    requires
        training_batch_matches(r, pad_id, seqs, labels, max_seq_length, num_classes),
        r is Ok,
        0 <= i < seqs.len(),
    ensures
        seqs[i].len() < max_seq_length ==> {
            &&& r->Ok_0.tokens.deep_view()[i] == seqs[i] + Seq::new(
                (max_seq_length - seqs[i].len()) as nat,
                |_j: int| pad_id,
            )
            &&& r->Ok_0.mask_pad.deep_view()[i] == Seq::new(seqs[i].len(), |_j: int| false)
                + Seq::new((max_seq_length - seqs[i].len()) as nat, |_j: int| true)
        },
        seqs[i].len() > max_seq_length ==> {
            &&& r->Ok_0.tokens.deep_view()[i] == seqs[i].take(max_seq_length as int)
            &&& r->Ok_0.mask_pad.deep_view()[i] == Seq::new(max_seq_length as nat, |_j: int| false)
        },
{
    if seqs[i].len() < max_seq_length {
        lemma_short_sequence_is_padded(pad_id, seqs, max_seq_length, i);
    }
    if seqs[i].len() > max_seq_length {
        lemma_long_sequence_is_truncated(pad_id, seqs, max_seq_length, i);
    }
}

/// Builds a training batch from already encoded sequences and their labels;
/// see `training_batch_matches` for the exact outcome.
pub fn batch_encoded(
    pad_id: usize,
    sequences: &Vec<Vec<usize>>,
    labels: &Vec<usize>,
    max_seq_length: usize,
    num_classes: usize,
) -> (r: Result<ClassificationTrainingBatch, BatchError>)
    ensures
        training_batch_matches(
            r,
            pad_id,
            sequences.deep_view(),
            labels@,
            max_seq_length,
            num_classes,
        ),
{
    if labels.len() != sequences.len() {
        return Err(BatchError::ShapeError);
    }
    let mut i: usize = 0;
    while i < labels.len()
        invariant
            i <= labels.len(),
            labels@.len() == sequences@.len(),
            labels_valid_upto(labels@, num_classes, i as int),
        decreases labels.len() - i,
    {
        if labels[i] >= num_classes {
            assert(labels@[i as int] >= num_classes);
            assert(!labels_valid_upto(labels@, num_classes, labels@.len() as int));
            return Err(BatchError::DataError { index: i });
        }
        i = i + 1;
    }
    let mask = build_padding_mask(pad_id, sequences, Some(max_seq_length));
    let mut out_labels: Vec<usize> = Vec::new();
    let mut k: usize = 0;
    while k < labels.len()
        invariant
            k <= labels.len(),
            out_labels@ =~= labels@.take(k as int),
        decreases labels.len() - k,
    {
        out_labels.push(labels[k]);
        k = k + 1;
    }
    assert(out_labels@ =~= labels@);
    Ok(ClassificationTrainingBatch { tokens: mask.tokens, labels: out_labels, mask_pad: mask.mask_pad })
}

/// Builds an inference batch from already encoded sequences: the padded grid
/// of width `max_seq_length` and its mask, row `i` for `sequences[i]`.
pub fn batch_encoded_inference(
    pad_id: usize,
    sequences: &Vec<Vec<usize>>,
    max_seq_length: usize,
) -> (r: ClassificationInferenceBatch)
    ensures
        r.tokens.deep_view() == padded_grid(pad_id, sequences.deep_view(), Some(max_seq_length)),
        r.mask_pad.deep_view() == mask_grid(sequences.deep_view(), Some(max_seq_length)),
{
    let mask = build_padding_mask(pad_id, sequences, Some(max_seq_length));
    ClassificationInferenceBatch { tokens: mask.tokens, mask_pad: mask.mask_pad }
}

/// `ids` is an outcome that `tokenizer.encode` can give on a text holding the
/// characters `text`.
pub open spec fn encodes_to<T: TextTokenizer>(tokenizer: &T, text: Seq<char>, ids: Seq<usize>) -> bool {
    exists|s: &str, v: Vec<usize>|
        #![trigger call_ensures(T::encode, (tokenizer, s), Some(v))]
        s@ == text && v@ == ids && call_ensures(T::encode, (tokenizer, s), Some(v))
}

/// `tokenizer.encode` can give ids for a text holding the characters `text`.
pub open spec fn accepts<T: TextTokenizer>(tokenizer: &T, text: Seq<char>) -> bool {
    exists|s: &str, v: Vec<usize>|
        #![trigger call_ensures(T::encode, (tokenizer, s), Some(v))]
        s@ == text && call_ensures(T::encode, (tokenizer, s), Some(v))
}

/// `tokenizer.encode` can refuse a text holding the characters `text`.
pub open spec fn refuses<T: TextTokenizer>(tokenizer: &T, text: Seq<char>) -> bool {
    exists|s: &str|
        #![trigger call_ensures(T::encode, (tokenizer, s), None::<Vec<usize>>)]
        s@ == text && call_ensures(T::encode, (tokenizer, s), None::<Vec<usize>>)
}

/// `pad_id` came from `tokenizer.pad_token` and, for each `k`, `seqs[k]`
/// came from encoding `texts[k]`.
pub open spec fn encodes_texts<T: TextTokenizer>(
    tokenizer: &T,
    pad_id: usize,
    texts: Seq<String>,
    seqs: Seq<Seq<usize>>,
) -> bool {
    &&& call_ensures(T::pad_token, (tokenizer,), pad_id)
    &&& seqs.len() == texts.len()
    &&& forall|k: int| 0 <= k < texts.len() ==> #[trigger] encodes_to(tokenizer, texts[k]@, seqs[k])
}

/// As `encodes_texts`, for the texts of the records.
pub open spec fn encodes_items<T: TextTokenizer>(
    tokenizer: &T,
    pad_id: usize,
    items: Seq<ClassificationItem>,
    seqs: Seq<Seq<usize>>,
) -> bool {
    &&& call_ensures(T::pad_token, (tokenizer,), pad_id)
    &&& seqs.len() == items.len()
    &&& forall|k: int|
        0 <= k < items.len() ==> #[trigger] encodes_to(tokenizer, items[k].text@, seqs[k])
}

/// The texts of the records, in record order.
pub fn item_texts(items: &Vec<ClassificationItem>) -> (r: Vec<String>)
    ensures
        r@.len() == items@.len(),
        forall|k: int| 0 <= k < items@.len() ==> #[trigger] r@[k]@ == items@[k].text@,
{
    let mut texts: Vec<String> = Vec::new();
    let mut i: usize = 0;
    while i < items.len()
        invariant
            i <= items.len(),
            texts@.len() == i,
            forall|k: int| 0 <= k < i ==> #[trigger] texts@[k]@ == items@[k].text@,
        decreases items.len() - i,
    {
        texts.push(items[i].text.clone());
        i = i + 1;
    }
    texts
}

/// The labels of the records, in record order.
pub fn item_label_vec(items: &Vec<ClassificationItem>) -> (r: Vec<usize>)
    ensures
        r@ == item_labels(items@),
{
    let mut labels: Vec<usize> = Vec::new();
    let mut i: usize = 0;
    while i < items.len()
        invariant
            i <= items.len(),
            labels@ =~= item_labels(items@).take(i as int),
        decreases items.len() - i,
    {
        labels.push(items[i].label);
        i = i + 1;
    }
    assert(labels@ =~= item_labels(items@));
    labels
}

/// What a batcher's training batch holds at record `i`, given the pad id and
/// the encodings that `batch` says it used: the row comes from encoding the
/// text of record `i`, its label is that record's label, and the row is that
/// encoding right-padded with the tokenizer's pad id (exactly the trailing
/// positions masked) or cut to `max_seq_length` (no position masked).
pub proof fn lemma_batcher_rows<T: TextTokenizer>(
    tokenizer: &T,
    r: Result<ClassificationTrainingBatch, BatchError>,
    pad_id: usize,
    seqs: Seq<Seq<usize>>,
    items: Seq<ClassificationItem>,
    max_seq_length: usize,
    num_classes: usize,
    i: int,
)
    requires
        training_batch_matches(r, pad_id, seqs, item_labels(items), max_seq_length, num_classes),
        encodes_items(tokenizer, pad_id, items, seqs),
        r is Ok,
        0 <= i < items.len(),
    ensures
        call_ensures(T::pad_token, (tokenizer,), pad_id),
        encodes_to(tokenizer, items[i].text@, seqs[i]),
        r->Ok_0.labels@[i] == items[i].label,
        r->Ok_0.tokens.deep_view()[i] == padded_row(seqs[i], pad_id, max_seq_length as nat),
        r->Ok_0.mask_pad.deep_view()[i] == mask_row(seqs[i], max_seq_length as nat),
        seqs[i].len() < max_seq_length ==> {
            &&& r->Ok_0.tokens.deep_view()[i] == seqs[i] + Seq::new(
                (max_seq_length - seqs[i].len()) as nat,
                |_j: int| pad_id,
            )
            &&& r->Ok_0.mask_pad.deep_view()[i] == Seq::new(seqs[i].len(), |_j: int| false)
                + Seq::new((max_seq_length - seqs[i].len()) as nat, |_j: int| true)
        },
        seqs[i].len() > max_seq_length ==> {
            &&& r->Ok_0.tokens.deep_view()[i] == seqs[i].take(max_seq_length as int)
            &&& r->Ok_0.mask_pad.deep_view()[i] == Seq::new(max_seq_length as nat, |_j: int| false)
        },
{
    lemma_batch_preserves_order(r, pad_id, seqs, item_labels(items), max_seq_length, num_classes, i);
    lemma_batch_rows_fit_width(r, pad_id, seqs, item_labels(items), max_seq_length, num_classes, i);
}

/// Turns text records into padded batches with a tokenizer, cutting every
/// sequence to `max_seq_length` ids.
pub struct ClassificationBatcher<T: TextTokenizer> {
    tokenizer: T,
    max_seq_length: usize,
    num_classes: usize,
}

impl<T: TextTokenizer> ClassificationBatcher<T> {
    pub fn new(tokenizer: T, max_seq_length: usize, num_classes: usize) -> (r: ClassificationBatcher<T>)
        ensures
            r.tokenizer() == tokenizer,
            r.max_seq_length() == max_seq_length,
            r.num_classes() == num_classes,
    {
        ClassificationBatcher { tokenizer, max_seq_length, num_classes }
    }

    pub closed spec fn max_seq_length(&self) -> usize {
        self.max_seq_length
    }

    pub closed spec fn num_classes(&self) -> usize {
        self.num_classes
    }

    /// The tokenizer that encodes the records' texts.
    pub closed spec fn tokenizer(&self) -> T {
        self.tokenizer
    }

    fn encode_all(&self, texts: &Vec<String>) -> (r: Result<Vec<Vec<usize>>, BatchError>)
        ensures
            r matches Ok(seqs) ==> seqs@.len() == texts@.len() && forall|k: int|
                0 <= k < texts@.len() ==> #[trigger] encodes_to(
                    &self.tokenizer(),
                    texts@[k]@,
                    seqs@[k]@,
                ),
            r matches Err(e) ==> (e matches BatchError::EncodingError { index } && index
                < texts@.len() && refuses(&self.tokenizer(), texts@[index as int]@) && forall|j: int|
                0 <= j < index ==> #[trigger] accepts(&self.tokenizer(), texts@[j]@)),
    {
        let mut seqs: Vec<Vec<usize>> = Vec::new();
        let mut i: usize = 0;
        while i < texts.len()
            invariant
                i <= texts.len(),
                seqs@.len() == i,
                forall|k: int|
                    0 <= k < i ==> #[trigger] encodes_to(&self.tokenizer(), texts@[k]@, seqs@[k]@),
            decreases texts.len() - i,
        {
            let text = texts[i].as_str();
            let encoded = self.tokenizer.encode(text);
            match encoded {
                Some(ids) => {
                    assert(call_ensures(T::encode, (&self.tokenizer, text), Some(ids)));
                    seqs.push(ids);
                },
                None => {
                    assert(call_ensures(T::encode, (&self.tokenizer, text), None::<Vec<usize>>));
                    assert forall|j: int| 0 <= j < i implies #[trigger] accepts(
                        &self.tokenizer(),
                        texts@[j]@,
                    ) by {
                        assert(encodes_to(&self.tokenizer(), texts@[j]@, seqs@[j]@));
                    }
                    return Err(BatchError::EncodingError { index: i });
                },
            }
            i = i + 1;
        }
        Ok(seqs)
    }

    /// Encodes each record's text, row `k` from `items[k]`, pads the ids to
    /// `max_seq_length` with the tokenizer's padding id and keeps the labels
    /// in record order. Fails with an encoding error naming a record whose
    /// text the tokenizer refused, or else exactly as `batch_encoded` does on
    /// the encoded texts.
    pub fn batch(&self, items: &Vec<ClassificationItem>) -> (r: Result<
        ClassificationTrainingBatch,
        BatchError,
    >)
        ensures
            r matches Err(BatchError::EncodingError { index }) ==> index < items@.len() && refuses(
                &self.tokenizer(),
                items@[index as int].text@,
            ) && forall|j: int| 0 <= j < index ==> #[trigger] accepts(&self.tokenizer(), items@[j].text@),
            !(r matches Err(BatchError::EncodingError { .. })) ==> exists|
                pad_id: usize,
                seqs: Seq<Seq<usize>>,
            |
                #[trigger] training_batch_matches(
                    r,
                    pad_id,
                    seqs,
                    item_labels(items@),
                    self.max_seq_length(),
                    self.num_classes(),
                ) && encodes_items(&self.tokenizer(), pad_id, items@, seqs),
    {
        let texts = item_texts(items);
        let labels = item_label_vec(items);
        let seqs = match self.encode_all(&texts) {
            Ok(seqs) => seqs,
            Err(e) => {
                assert forall|j: int| 0 <= j < items@.len() implies #[trigger] items@[j].text@
                    == texts@[j]@ by {}
                return Err(e);
            },
        };
        let pad_id = self.tokenizer.pad_token();
        let r = batch_encoded(pad_id, &seqs, &labels, self.max_seq_length, self.num_classes);
        assert(seqs.deep_view().len() == items@.len());
        assert(call_ensures(T::pad_token, (&self.tokenizer,), pad_id));
        assert forall|k: int| 0 <= k < items@.len() implies #[trigger] encodes_to(
            &self.tokenizer(),
            items@[k].text@,
            seqs.deep_view()[k],
        ) by {
            assert(seqs.deep_view()[k] =~= seqs@[k]@);
            assert(encodes_to(&self.tokenizer(), texts@[k]@, seqs@[k]@));
        }
        assert(encodes_items(&self.tokenizer(), pad_id, items@, seqs.deep_view()));
        assert(training_batch_matches(
            r,
            pad_id,
            seqs.deep_view(),
            item_labels(items@),
            self.max_seq_length(),
            self.num_classes(),
        ));
        r
    }

    /// Encodes each text, row `k` from `items[k]`, and pads the ids to
    /// `max_seq_length` with the tokenizer's padding id. Fails with an
    /// encoding error naming a text that the tokenizer refused.
    pub fn batch_inference(&self, items: &Vec<String>) -> (r: Result<
        ClassificationInferenceBatch,
        BatchError,
    >)
        ensures
            r matches Err(e) ==> (e matches BatchError::EncodingError { index } && index
                < items@.len() && refuses(&self.tokenizer(), items@[index as int]@) && forall|j: int|
                0 <= j < index ==> #[trigger] accepts(&self.tokenizer(), items@[j]@)),
            r matches Ok(b) ==> exists|pad_id: usize, seqs: Seq<Seq<usize>>|
                #[trigger] encodes_texts(&self.tokenizer(), pad_id, items@, seqs)
                    && b.tokens.deep_view() == padded_grid(
                    pad_id,
                    seqs,
                    Some(self.max_seq_length()),
                ) && b.mask_pad.deep_view() == mask_grid(seqs, Some(self.max_seq_length())),
    {
        let seqs = match self.encode_all(items) {
            Ok(seqs) => seqs,
            Err(e) => {
                return Err(e);
            },
        };
        let pad_id = self.tokenizer.pad_token();
        let b = batch_encoded_inference(pad_id, &seqs, self.max_seq_length);
        assert(seqs.deep_view().len() == items@.len());
        assert(call_ensures(T::pad_token, (&self.tokenizer,), pad_id));
        assert forall|k: int| 0 <= k < items@.len() implies #[trigger] encodes_to(
            &self.tokenizer(),
            items@[k]@,
            seqs.deep_view()[k],
        ) by {
            assert(seqs.deep_view()[k] =~= seqs@[k]@);
            assert(encodes_to(&self.tokenizer(), items@[k]@, seqs@[k]@));
        }
        assert(encodes_texts(&self.tokenizer(), pad_id, items@, seqs.deep_view()));
        Ok(b)
    }
}

} // verus!
