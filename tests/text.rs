use batching::error::BatchError;
use batching::text::{
    batch_encoded, batch_encoded_inference, item_label_vec, item_texts, ClassificationBatcher,
    ClassificationItem,
};
use batching::tokenizer::{BertCasedTokenizer, TextTokenizer};

/// Splits on spaces and uses each word's length as its id; "!" cannot be
/// encoded.
struct LengthTokenizer;

impl TextTokenizer for LengthTokenizer {
    fn encode(&self, value: &str) -> Option<Vec<usize>> {
        if value.contains('!') {
            return None;
        }
        Some(value.split_whitespace().map(|w| w.len()).collect())
    }

    fn decode(&self, tokens: &[usize]) -> Option<String> {
        Some(tokens.iter().map(|t| "x".repeat(*t)).collect::<Vec<_>>().join(" "))
    }

    fn vocab_size(&self) -> usize {
        100
    }

    fn pad_token(&self) -> usize {
        0
    }
}

const WORD_LEVEL: &str = r#"{
  "version": "1.0",
  "truncation": null,
  "padding": null,
  "added_tokens": [],
  "normalizer": null,
  "pre_tokenizer": {"type": "WhitespaceSplit"},
  "post_processor": null,
  "decoder": null,
  "model": {
    "type": "WordLevel",
    "vocab": {"[PAD]": 0, "[UNK]": 1, "good": 2, "bad": 3, "movie": 4},
    "unk_token": "[UNK]"
  }
}"#;

const NO_PAD: &str = r#"{
  "version": "1.0",
  "truncation": null,
  "padding": null,
  "added_tokens": [],
  "normalizer": null,
  "pre_tokenizer": {"type": "WhitespaceSplit"},
  "post_processor": null,
  "decoder": null,
  "model": {
    "type": "WordLevel",
    "vocab": {"[UNK]": 0, "good": 1},
    "unk_token": "[UNK]"
  }
}"#;

const TRUNCATING: &str = r#"{
  "version": "1.0",
  "truncation": {"direction": "Right", "max_length": 2, "strategy": "LongestFirst", "stride": 5},
  "padding": {"strategy": {"Fixed": 6}, "direction": "Right", "pad_to_multiple_of": null,
              "pad_id": 0, "pad_type_id": 0, "pad_token": "[PAD]"},
  "added_tokens": [],
  "normalizer": null,
  "pre_tokenizer": {"type": "WhitespaceSplit"},
  "post_processor": null,
  "decoder": null,
  "model": {
    "type": "WordLevel",
    "vocab": {"[PAD]": 0, "[UNK]": 1, "good": 2},
    "unk_token": "[UNK]"
  }
}"#;

const BPE_DECODER: &str = r#"{
  "version": "1.0",
  "truncation": null,
  "padding": null,
  "added_tokens": [],
  "normalizer": null,
  "pre_tokenizer": {"type": "WhitespaceSplit"},
  "post_processor": null,
  "decoder": {"type": "BPEDecoder", "suffix": "</w>"},
  "model": {
    "type": "WordLevel",
    "vocab": {"[PAD]": 0, "[UNK]": 1, "good": 2},
    "unk_token": "[UNK]"
  }
}"#;

#[test]
fn tokenizer_own_truncation_and_padding_are_cleared() {
    let inner = tokenizers::Tokenizer::from_bytes(TRUNCATING.as_bytes()).unwrap();
    let tokenizer = BertCasedTokenizer::new(inner).ok().unwrap();
    assert_eq!(tokenizer.encode("good good good"), Some(vec![2, 2, 2]));
    assert_eq!(tokenizer.vocab_size(), 3);
}

#[test]
fn tokenizer_with_panicking_decoder_is_rejected() {
    let inner = tokenizers::Tokenizer::from_bytes(BPE_DECODER.as_bytes()).unwrap();
    assert_eq!(BertCasedTokenizer::new(inner).err(), Some(BatchError::ConfigurationError));
}

#[test]
fn encoded_batch_keeps_record_order() {
    let seqs = vec![vec![5, 6, 7], vec![5], vec![1, 2, 3, 4, 5, 6]];
    let labels = vec![2, 0, 1];
    let b = batch_encoded(0, &seqs, &labels, 4, 3).unwrap();
    assert_eq!(b.tokens, vec![vec![5, 6, 7, 0], vec![5, 0, 0, 0], vec![1, 2, 3, 4]]);
    assert_eq!(
        b.mask_pad,
        vec![
            vec![false, false, false, true],
            vec![false, true, true, true],
            vec![false, false, false, false]
        ]
    );
    assert_eq!(b.labels, vec![2, 0, 1]);
}

#[test]
fn encoded_batch_errors() {
    let seqs = vec![vec![1], vec![2]];
    assert_eq!(
        batch_encoded(0, &seqs, &vec![0], 4, 2).err(),
        Some(BatchError::ShapeError)
    );
    assert_eq!(
        batch_encoded(0, &seqs, &vec![1, 5], 4, 2).err(),
        Some(BatchError::DataError { index: 1 })
    );
    assert_eq!(
        batch_encoded(0, &seqs, &vec![7, 5], 4, 2).err(),
        Some(BatchError::DataError { index: 0 })
    );
}

#[test]
fn encoded_inference_batch() {
    let b = batch_encoded_inference(9, &vec![vec![1, 2], vec![]], 3);
    assert_eq!(b.tokens, vec![vec![1, 2, 9], vec![9, 9, 9]]);
    assert_eq!(b.mask_pad, vec![vec![false, false, true], vec![true, true, true]]);
}

#[test]
fn batcher_encodes_pads_and_keeps_labels() {
    let batcher = ClassificationBatcher::new(LengthTokenizer, 3, 4);
    let items = vec![
        ClassificationItem::new("a bb ccc dddd".to_string(), 3),
        ClassificationItem::new("ee".to_string(), 0),
    ];
    let b = batcher.batch(&items).unwrap();
    assert_eq!(b.tokens, vec![vec![1, 2, 3], vec![2, 0, 0]]);
    assert_eq!(b.mask_pad, vec![vec![false, false, false], vec![false, true, true]]);
    assert_eq!(b.labels, vec![3, 0]);
}

#[test]
fn batcher_reports_bad_records() {
    let batcher = ClassificationBatcher::new(LengthTokenizer, 3, 2);
    let items = vec![
        ClassificationItem::new("a".to_string(), 0),
        ClassificationItem::new("b".to_string(), 2),
    ];
    assert_eq!(batcher.batch(&items).err(), Some(BatchError::DataError { index: 1 }));
    let items = vec![
        ClassificationItem::new("a".to_string(), 0),
        ClassificationItem::new("b!".to_string(), 0),
    ];
    assert_eq!(batcher.batch(&items).err(), Some(BatchError::EncodingError { index: 1 }));
    let texts = vec!["ok".to_string(), "no!".to_string()];
    assert_eq!(
        batcher.batch_inference(&texts).err(),
        Some(BatchError::EncodingError { index: 1 })
    );
}

#[test]
fn batcher_inference_batch() {
    let batcher = ClassificationBatcher::new(LengthTokenizer, 2, 2);
    let texts = vec!["abc".to_string(), "a b c".to_string()];
    let b = batcher.batch_inference(&texts).unwrap();
    assert_eq!(b.tokens, vec![vec![3, 0], vec![1, 1]]);
    assert_eq!(b.mask_pad, vec![vec![false, true], vec![false, false]]);
}

#[test]
fn subword_tokenizer_feeds_the_batcher() {
    let inner = tokenizers::Tokenizer::from_bytes(WORD_LEVEL.as_bytes()).unwrap();
    let tokenizer = BertCasedTokenizer::new(inner).ok().unwrap();
    assert_eq!(tokenizer.pad_token(), 0);
    assert_eq!(tokenizer.vocab_size(), 5);
    assert_eq!(tokenizer.encode("good movie"), Some(vec![2, 4]));
    assert_eq!(tokenizer.encode("bad unknown"), Some(vec![3, 1]));
    assert_eq!(tokenizer.pad_token_value(), Some("[PAD]".to_string()));
    assert_eq!(tokenizer.decode(&[2, 4]), Some("good movie".to_string()));
    assert_eq!(tokenizer.decode(&[usize::MAX]), None);

    let batcher = ClassificationBatcher::new(tokenizer, 3, 2);
    let items = vec![
        ClassificationItem::new("bad movie".to_string(), 0),
        ClassificationItem::new("good good good good".to_string(), 1),
    ];
    let b = batcher.batch(&items).unwrap();
    assert_eq!(b.tokens, vec![vec![3, 4, 0], vec![2, 2, 2]]);
    assert_eq!(b.mask_pad, vec![vec![false, false, true], vec![false, false, false]]);
    assert_eq!(b.labels, vec![0, 1]);
}

#[test]
fn tokenizer_without_pad_token_is_rejected() {
    let inner = tokenizers::Tokenizer::from_bytes(NO_PAD.as_bytes()).unwrap();
    assert_eq!(BertCasedTokenizer::new(inner).err(), Some(BatchError::ConfigurationError));
}

#[test]
fn texts_and_labels_follow_records() {
    let items = vec![
        ClassificationItem::new("first".to_string(), 1),
        ClassificationItem::new("second".to_string(), 0),
    ];
    assert_eq!(item_texts(&items), vec!["first".to_string(), "second".to_string()]);
    assert_eq!(item_label_vec(&items), vec![1, 0]);
}
