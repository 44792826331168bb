use vstd::prelude::*;

verus! {

/// A padded token grid together with its padding mask. Both have one row
/// per input sequence and the same width on every row.
pub struct PaddingMask {
    pub tokens: Vec<Vec<usize>>,
    pub mask_pad: Vec<Vec<bool>>,
}

/// Length of the longest sequence, 0 for none.
pub open spec fn longest(seqs: Seq<Seq<usize>>) -> nat
    decreases seqs.len(),
{
    if seqs.len() == 0 {
        0
    } else {
        let rest = longest(seqs.drop_last());
        if seqs.last().len() > rest {
            seqs.last().len()
        } else {
            rest
        }
    }
}

/// Width of every row of the grid: the given maximum, or else the longest
/// sequence.
pub open spec fn effective_width(seqs: Seq<Seq<usize>>, max_length: Option<usize>) -> nat {
    match max_length {
        Some(m) => m as nat,
        None => longest(seqs),
    }
}

/// One sequence cut or right-padded with `pad_id` to `width` positions.
pub open spec fn padded_row(seq: Seq<usize>, pad_id: usize, width: nat) -> Seq<usize> {
    Seq::new(width, |j: int| if j < seq.len() { seq[j] } else { pad_id })
}

/// Mask of one row: true exactly at the positions that hold no token of the
/// sequence.
pub open spec fn mask_row(seq: Seq<usize>, width: nat) -> Seq<bool> {
    Seq::new(width, |j: int| j >= seq.len())
}

/// The token grid that `build_padding_mask` returns.
pub open spec fn padded_grid(
    pad_id: usize,
    seqs: Seq<Seq<usize>>,
    max_length: Option<usize>,
) -> Seq<Seq<usize>> {
    Seq::new(seqs.len(), |i: int| padded_row(seqs[i], pad_id, effective_width(seqs, max_length)))
}

/// The mask grid that `build_padding_mask` returns.
pub open spec fn mask_grid(seqs: Seq<Seq<usize>>, max_length: Option<usize>) -> Seq<Seq<bool>> {
    Seq::new(seqs.len(), |i: int| mask_row(seqs[i], effective_width(seqs, max_length)))
}

fn longest_length(sequences: &Vec<Vec<usize>>) -> (r: usize)
    ensures
        r == longest(sequences.deep_view()),
{
    let ghost seqs = sequences.deep_view();
    let mut best: usize = 0;
    let mut i: usize = 0;
    while i < sequences.len()
        invariant
            i <= sequences.len(),
            seqs == sequences.deep_view(),
            best == longest(seqs.take(i as int)),
        decreases sequences.len() - i,
    {
        assert(seqs.take(i + 1).drop_last() =~= seqs.take(i as int));
        if sequences[i].len() > best {
            best = sequences[i].len();
        }
        i = i + 1;
    }
    assert(seqs.take(i as int) =~= seqs);
    best
}

fn build_row(seq: &Vec<usize>, pad_id: usize, width: usize) -> (r: (Vec<usize>, Vec<bool>))
    ensures
        r.0@ == padded_row(seq@, pad_id, width as nat),
        r.1@ == mask_row(seq@, width as nat),
{
    let mut row: Vec<usize> = Vec::new();
    let mut mask: Vec<bool> = Vec::new();
    let mut j: usize = 0;
    while j < width
        invariant
            j <= width,
            row@ =~= padded_row(seq@, pad_id, width as nat).take(j as int),
            mask@ =~= mask_row(seq@, width as nat).take(j as int),
        decreases width - j,
    {
        if j < seq.len() {
            row.push(seq[j]);
            mask.push(false);
        } else {
            row.push(pad_id);
            mask.push(true);
        }
        j = j + 1;
    }
    (row, mask)
}

/// Pads (or cuts) every sequence to one common width and marks the padded
/// positions. The width is `max_length` when given, else the length of the
/// longest sequence; row `i` of both grids belongs to `sequences[i]`.
pub fn build_padding_mask(
    pad_id: usize,
    sequences: &Vec<Vec<usize>>,
    max_length: Option<usize>,
) -> (r: PaddingMask)
    ensures
        r.tokens.deep_view() == padded_grid(pad_id, sequences.deep_view(), max_length),
        r.mask_pad.deep_view() == mask_grid(sequences.deep_view(), max_length),
{
    let ghost seqs = sequences.deep_view();
    let width: usize = match max_length {
        Some(m) => m,
        None => longest_length(sequences),
    };
    let mut tokens: Vec<Vec<usize>> = Vec::new();
    let mut mask_pad: Vec<Vec<bool>> = Vec::new();
    let mut i: usize = 0;
    while i < sequences.len()
        invariant
            i <= sequences.len(),
            seqs == sequences.deep_view(),
            width == effective_width(seqs, max_length),
            tokens@.len() == i,
            mask_pad@.len() == i,
            forall|k: int| 0 <= k < i ==> #[trigger] tokens@[k]@ == padded_row(seqs[k], pad_id, width as nat),
            forall|k: int| 0 <= k < i ==> #[trigger] mask_pad@[k]@ == mask_row(seqs[k], width as nat),
        decreases sequences.len() - i,
    {
        let (row, mask) = build_row(&sequences[i], pad_id, width);
        tokens.push(row);
        mask_pad.push(mask);
        i = i + 1;
    }
    assert(tokens.deep_view() =~~= padded_grid(pad_id, seqs, max_length));
    assert(mask_pad.deep_view() =~~= mask_grid(seqs, max_length));
    PaddingMask { tokens, mask_pad }
}

/// A sequence shorter than `max_length` keeps all its tokens and is
/// right-padded with `pad_id`; its mask row is false on its own tokens and
/// true on exactly the `max_length - len` trailing positions.
pub proof fn lemma_short_sequence_is_padded(
    pad_id: usize,
    seqs: Seq<Seq<usize>>,
    max_length: usize,
    i: int,
)
    requires
        0 <= i < seqs.len(),
        seqs[i].len() < max_length,
    ensures
        padded_grid(pad_id, seqs, Some(max_length))[i] == seqs[i] + Seq::new(
            (max_length - seqs[i].len()) as nat,
            |_j: int| pad_id,
        ),
        mask_grid(seqs, Some(max_length))[i] == Seq::new(seqs[i].len(), |_j: int| false) + Seq::new(
            (max_length - seqs[i].len()) as nat,
            |_j: int| true,
        ),
{
    let n = (max_length - seqs[i].len()) as nat;
    assert(padded_grid(pad_id, seqs, Some(max_length))[i] =~= seqs[i] + Seq::new(n, |_j: int| pad_id));
    assert(mask_grid(seqs, Some(max_length))[i] =~= Seq::new(seqs[i].len(), |_j: int| false) + Seq::new(
        n,
        |_j: int| true,
    ));
}

/// A sequence longer than `max_length` is cut to its first `max_length`
/// tokens, and none of its positions is marked as padding.
pub proof fn lemma_long_sequence_is_truncated(
    pad_id: usize,
    seqs: Seq<Seq<usize>>,
    max_length: usize,
    i: int,
)
    requires
        0 <= i < seqs.len(),
        seqs[i].len() > max_length,
    ensures
        padded_grid(pad_id, seqs, Some(max_length))[i] == seqs[i].take(max_length as int),
        mask_grid(seqs, Some(max_length))[i] == Seq::new(max_length as nat, |_j: int| false),
{
    assert(padded_grid(pad_id, seqs, Some(max_length))[i] =~= seqs[i].take(max_length as int));
    assert(mask_grid(seqs, Some(max_length))[i] =~= Seq::new(max_length as nat, |_j: int| false));
}

} // verus!
