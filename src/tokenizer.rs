use vstd::prelude::*;

use crate::error::BatchError;

verus! {

#[verifier::external_type_specification]
#[verifier::external_body]
pub struct ExTokenizer(tokenizers::Tokenizer);

/// Turns text into token ids and back. The batchers are generic over it, so
/// any subword model can be plugged in.
pub trait TextTokenizer {
    /// The ids of `value`, or `None` when it cannot be encoded.
    fn encode(&self, value: &str) -> Option<Vec<usize>>;

    /// The text of `tokens`, or `None` when they cannot be decoded.
    fn decode(&self, tokens: &[usize]) -> Option<String>;

    /// Number of ids the tokenizer knows, added tokens included.
    fn vocab_size(&self) -> usize;

    /// Id used to pad sequences to a common width.
    fn pad_token(&self) -> usize;

    /// The text of the padding id: what `decode` gives on the one-element
    /// list holding `pad_token()`.
    fn pad_token_value(&self) -> (r: Option<String>)
        ensures
            exists|pad: usize, ids: &[usize]|
                #![trigger call_ensures(Self::pad_token, (self,), pad), call_ensures(Self::decode, (self, ids), r)]
                call_ensures(Self::pad_token, (self,), pad) && ids@ == seq![pad]
                    && call_ensures(Self::decode, (self, ids), r),
    {
        let pad = self.pad_token();
        let ids: Vec<usize> = vec![pad];
        let slice = ids.as_slice();
        let r = self.decode(slice);
        assert(slice@ == seq![pad]);
        r
    }
}

/// The id that the vocabulary of `tokenizer` gives `token`, if any.
pub uninterp spec fn vocab_id_of(tokenizer: tokenizers::Tokenizer, token: Seq<char>) -> Option<u32>;

/// The size of the vocabulary of `tokenizer`, added tokens included.
pub uninterp spec fn vocab_len_of(tokenizer: tokenizers::Tokenizer) -> usize;

/// `tokenizer` has truncation parameters set.
pub uninterp spec fn truncates(tokenizer: tokenizers::Tokenizer) -> bool;

/// `tokenizer` has padding parameters set.
pub uninterp spec fn pads(tokenizer: tokenizers::Tokenizer) -> bool;

/// The decoder of `tokenizer` is absent or of a kind whose decoding does not
/// panic: any kind but BPE, Strip and Sequence.
pub uninterp spec fn plain_decoder(tokenizer: tokenizers::Tokenizer) -> bool;

/// Relies on tokenizers::Tokenizer::encode with special tokens added and on
/// Encoding::get_ids: the ids of `text`, or `None` when encoding fails.
/// Without truncation parameters encoding reaches no truncation code.
#[verifier::external_body]
fn encode_ids(tokenizer: &tokenizers::Tokenizer, text: &str) -> (r: Option<Vec<u32>>)
    requires
        !truncates(*tokenizer),
{
    match tokenizer.encode(text, true) {
        Ok(encoding) => Some(encoding.get_ids().to_vec()),
        Err(_) => None,
    }
}

/// Relies on tokenizers::Tokenizer::decode, keeping special tokens: the text
/// of `ids`, or `None` when decoding fails.
#[verifier::external_body]
fn decode_ids(tokenizer: &tokenizers::Tokenizer, ids: &[u32]) -> (r: Option<String>)
    requires
        plain_decoder(*tokenizer),
{
    tokenizer.decode(ids, false).ok()
}

/// Relies on tokenizers::Tokenizer::get_vocab_size, added tokens included.
#[verifier::external_body]
fn vocab_len(tokenizer: &tokenizers::Tokenizer) -> (r: usize)
    ensures
        r == vocab_len_of(*tokenizer),
{
    tokenizer.get_vocab_size(true)
}

/// Relies on tokenizers::Tokenizer::token_to_id: a lookup of `token` in the
/// vocabulary.
#[verifier::external_body]
fn token_id(tokenizer: &tokenizers::Tokenizer, token: &str) -> (r: Option<u32>)
    ensures
        r == vocab_id_of(*tokenizer, token@),
{
    tokenizer.token_to_id(token)
}

/// Relies on tokenizers::Tokenizer::with_truncation with no parameters, which
/// always succeeds and only clears the truncation parameters.
#[verifier::external_body]
fn clear_truncation(tokenizer: &mut tokenizers::Tokenizer)
    ensures
        !truncates(*final(tokenizer)),
        pads(*final(tokenizer)) == pads(*old(tokenizer)),
        plain_decoder(*final(tokenizer)) == plain_decoder(*old(tokenizer)),
        vocab_len_of(*final(tokenizer)) == vocab_len_of(*old(tokenizer)),
        forall|t: Seq<char>| #[trigger]
            vocab_id_of(*final(tokenizer), t) == vocab_id_of(*old(tokenizer), t),
{
    let _ = tokenizer.with_truncation(None);
}

/// Relies on tokenizers::Tokenizer::with_padding with no parameters, which
/// only clears the padding parameters.
#[verifier::external_body]
fn clear_padding(tokenizer: &mut tokenizers::Tokenizer)
    ensures
        !pads(*final(tokenizer)),
        truncates(*final(tokenizer)) == truncates(*old(tokenizer)),
        plain_decoder(*final(tokenizer)) == plain_decoder(*old(tokenizer)),
        vocab_len_of(*final(tokenizer)) == vocab_len_of(*old(tokenizer)),
        forall|t: Seq<char>| #[trigger]
            vocab_id_of(*final(tokenizer), t) == vocab_id_of(*old(tokenizer), t),
{
    tokenizer.with_padding(None);
}

/// Relies on tokenizers::Tokenizer::get_decoder: tells the kinds of decoder
/// apart.
#[verifier::external_body]
fn has_plain_decoder(tokenizer: &tokenizers::Tokenizer) -> (r: bool)
    ensures
        r == plain_decoder(*tokenizer),
{
    match tokenizer.get_decoder() {
        Some(tokenizers::DecoderWrapper::BPE(_)) => false,
        Some(tokenizers::DecoderWrapper::Strip(_)) => false,
        Some(tokenizers::DecoderWrapper::Sequence(_)) => false,
        _ => true,
    }
}

/// A pretrained subword tokenizer (such as BERT's cased vocabulary), with
/// its own truncation and padding switched off (the batchers cut and pad),
/// and the id of its `[PAD]` token looked up once.
pub struct BertCasedTokenizer {
    tokenizer: tokenizers::Tokenizer,
    pad: usize,
}

impl BertCasedTokenizer {
    #[verifier::type_invariant]
    spec fn prepared(self) -> bool {
        &&& !truncates(self.tokenizer)
        &&& !pads(self.tokenizer)
        &&& plain_decoder(self.tokenizer)
        &&& vocab_id_of(self.tokenizer, "[PAD]"@) == Some(self.pad as u32)
    }

    /// Wraps a loaded tokenizer after clearing its truncation and padding
    /// parameters. Fails with a configuration error when its vocabulary has
    /// no `[PAD]` token, or when its decoder is a BPE, Strip or Sequence
    /// decoder, whose decoding can panic.
    pub fn new(tokenizer: tokenizers::Tokenizer) -> (r: Result<BertCasedTokenizer, BatchError>)
        ensures
            (r is Ok) == (plain_decoder(tokenizer) && vocab_id_of(tokenizer, "[PAD]"@) is Some),
            r is Err ==> r == Err::<BertCasedTokenizer, BatchError>(BatchError::ConfigurationError),
            r matches Ok(t) ==> t.pad_id() == vocab_id_of(tokenizer, "[PAD]"@)->Some_0 as usize
                && t.vocab_len() == vocab_len_of(tokenizer),
    {
        let mut tokenizer = tokenizer;
        clear_truncation(&mut tokenizer);
        clear_padding(&mut tokenizer);
        if !has_plain_decoder(&tokenizer) {
            return Err(BatchError::ConfigurationError);
        }
        match token_id(&tokenizer, "[PAD]") {
            Some(id) => Ok(BertCasedTokenizer { tokenizer, pad: id as usize }),
            None => Err(BatchError::ConfigurationError),
        }
    }

    /// The padding id found when the tokenizer was wrapped.
    pub closed spec fn pad_id(&self) -> usize {
        self.pad
    }

    /// The size of the wrapped tokenizer's vocabulary.
    pub closed spec fn vocab_len(&self) -> usize {
        vocab_len_of(self.tokenizer)
    }
}

impl TextTokenizer for BertCasedTokenizer {
    fn encode(&self, value: &str) -> (r: Option<Vec<usize>>)
        ensures
            r matches Some(v) ==> forall|k: int| 0 <= k < v@.len() ==> #[trigger] v@[k] <= u32::MAX,
    {
        proof {
            use_type_invariant(self);
        }
        match encode_ids(&self.tokenizer, value) {
            Some(ids) => {
                let mut out: Vec<usize> = Vec::new();
                let mut i: usize = 0;
                while i < ids.len()
                    invariant
                        i <= ids.len(),
                        out@.len() == i,
                        forall|k: int| 0 <= k < i ==> #[trigger] out@[k] == ids@[k] as usize,
                    decreases ids.len() - i,
                {
                    out.push(ids[i] as usize);
                    i = i + 1;
                }
                Some(out)
            },
            None => None,
        }
    }

    fn decode(&self, tokens: &[usize]) -> (r: Option<String>)
        ensures
            (exists|k: int| 0 <= k < tokens@.len() && #[trigger] tokens@[k] > u32::MAX) ==> r is None,
    {
        proof {
            use_type_invariant(self);
        }
        let mut ids: Vec<u32> = Vec::new();
        let mut i: usize = 0;
        while i < tokens.len()
            invariant
                i <= tokens@.len(),
                ids@.len() == i,
                forall|k: int| 0 <= k < i ==> #[trigger] ids@[k] == tokens@[k],
                forall|k: int| 0 <= k < i ==> #[trigger] tokens@[k] <= u32::MAX,
            decreases tokens@.len() - i,
        {
            if tokens[i] > u32::MAX as usize {
                return None;
            }
            ids.push(tokens[i] as u32);
            i = i + 1;
        }
        decode_ids(&self.tokenizer, ids.as_slice())
    }

    fn vocab_size(&self) -> (r: usize)
        ensures
            r == self.vocab_len(),
    {
        vocab_len(&self.tokenizer)
    }

    fn pad_token(&self) -> (r: usize)
        ensures
            r == self.pad_id(),
    {
        self.pad
    }
}

} // verus!
