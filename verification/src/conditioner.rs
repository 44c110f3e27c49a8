//! Signal conditioning: the noise gate, the collapse of silence, the extent
//! of a block and the limit on what leaves.
//!
//! Conditioning a block takes three steps. [`condition`] gates the block
//! and decides what becomes of it. Where it calls for rescaling, the caller
//! maps every gated sample `s` to `2 * (s - lo) / (hi - lo) - 1`, times the
//! gain, in floating point. [`Conditioning::finish`] then limits the
//! results to the range from minus one to one.

use vstd::prelude::*;
use crate::sample::{
    abs_bits,
    below,
    in_unit_range,
    is_finite,
    is_nan,
    less,
    level,
    magnitude,
    nan,
    NEG_UNITY,
    SIGN_BIT,
    SILENCE,
    UNITY,
};

verus! {

/// The noise gate's threshold, the single-precision number nearest to one
/// ten-thousandth: a sample of smaller magnitude counts as zero.
pub const GATE: u32 = 0x38d1_b717;

/// A sample after the noise gate.
pub open spec fn gated(sample: u32) -> u32 {
    if magnitude(sample) < GATE {
        SILENCE
    } else {
        sample
    }
}

/// A block after the noise gate.
pub open spec fn gated_block(block: Seq<u32>) -> Seq<u32> {
    Seq::new(block.len(), |i: int| gated(block[i]))
}

/// Whether the noise gate leaves nothing of the block.
pub open spec fn silent(block: Seq<u32>) -> bool {
    forall|i: int| 0 <= i < block.len() ==> magnitude(#[trigger] block[i]) < GATE
}

/// Whether the block holds a number at all.
pub open spec fn has_number(block: Seq<u32>) -> bool {
    exists|i: int| 0 <= i < block.len() && !is_nan(#[trigger] block[i])
}

/// Whether `lo` is the least number in the block.
pub open spec fn is_lowest(block: Seq<u32>, lo: u32) -> bool {
    &&& !is_nan(lo)
    &&& exists|i: int| 0 <= i < block.len() && #[trigger] block[i] == lo
    &&& forall|j: int|
        0 <= j < block.len() && !is_nan(#[trigger] block[j]) ==> level(lo) <= level(block[j])
}

/// Whether `hi` is the greatest number in the block.
pub open spec fn is_highest(block: Seq<u32>, hi: u32) -> bool {
    &&& !is_nan(hi)
    &&& exists|i: int| 0 <= i < block.len() && #[trigger] block[i] == hi
    &&& forall|j: int|
        0 <= j < block.len() && !is_nan(#[trigger] block[j]) ==> level(block[j]) <= level(hi)
}

/// Whether all numbers in the block are the same number: its least and its
/// greatest coincide, or it holds no number at all.
pub open spec fn flat(block: Seq<u32>) -> bool {
    forall|i: int, j: int|
        0 <= i < block.len() && 0 <= j < block.len() && !is_nan(#[trigger] block[i]) && !is_nan(
            #[trigger] block[j],
        ) ==> level(block[i]) == level(block[j])
}

/// The least number in the block, where it has one.
pub open spec fn lowest(block: Seq<u32>) -> u32 {
    choose|lo: u32| is_lowest(block, lo)
}

/// The greatest number in the block, where it has one.
pub open spec fn highest(block: Seq<u32>) -> u32 {
    choose|hi: u32| is_highest(block, hi)
}

/// A sample after the limiter: a pattern that is not a number becomes
/// silence, a number beyond one or minus one becomes that bound, and any
/// other number stays.
pub open spec fn limited(sample: u32) -> u32 {
    if is_nan(sample) {
        SILENCE
    } else if magnitude(sample) > UNITY {
        if sample >= SIGN_BIT {
            NEG_UNITY
        } else {
            UNITY
        }
    } else {
        sample
    }
}

/// What becomes of a block.
#[derive(Debug, PartialEq, Eq)]
pub enum Conditioning {
    /// The noise gate left nothing: there is nothing to send.
    Silence,
    /// The block holds one number throughout, so there is no span to
    /// rescale over: `len` zeros go out.
    Flat { len: usize },
    /// The gated `samples` are to be rescaled from the span `lo` to `hi`
    /// onto the span minus one to one.
    Rescale { samples: Vec<u32>, lo: u32, hi: u32 },
}

/// A conditioning with its samples as a sequence.
pub enum ConditioningView {
    Silence,
    Flat { len: usize },
    Rescale { samples: Seq<u32>, lo: u32, hi: u32 },
}

impl View for Conditioning {
    type V = ConditioningView;

    open spec fn view(&self) -> ConditioningView {
        match self {
            Conditioning::Silence => ConditioningView::Silence,
            Conditioning::Flat { len } => ConditioningView::Flat { len: *len },
            Conditioning::Rescale { samples, lo, hi } => ConditioningView::Rescale {
                samples: samples@,
                lo: *lo,
                hi: *hi,
            },
        }
    }
}

/// The conditioned block, given the conditioning and the rescaled samples.
/// Silence gives the empty block and a flat block gives zeros. A rescaled
/// block gives one sample for each gated one: the limited result where the
/// caller supplied one, silence where it did not.
pub open spec fn finished(conditioning: ConditioningView, rescaled: Seq<u32>) -> Seq<u32> {
    match conditioning {
        ConditioningView::Silence => Seq::empty(),
        ConditioningView::Flat { len } => Seq::new(len as nat, |i: int| SILENCE),
        ConditioningView::Rescale { samples, .. } => Seq::new(
            samples.len(),
            |i: int|
                if i < rescaled.len() {
                    limited(rescaled[i])
                } else {
                    SILENCE
                },
        ),
    }
}

/// What becomes of a block: silence if the noise gate leaves nothing of
/// it, zeros if what is left is flat, and otherwise a rescaling of the
/// gated block over the span from its least to its greatest number.
pub open spec fn conditioning(block: Seq<u32>) -> ConditioningView {
    if silent(block) {
        ConditioningView::Silence
    } else if flat(gated_block(block)) {
        ConditioningView::Flat { len: block.len() as usize }
    } else {
        ConditioningView::Rescale {
            samples: gated_block(block),
            lo: lowest(gated_block(block)),
            hi: highest(gated_block(block)),
        }
    }
}

/// A gated block has at most one least and one greatest number: the noise
/// gate leaves no negative zero, so equal numbers are equal patterns.
pub proof fn lemma_span_is_unique(block: Seq<u32>, lo: u32, hi: u32)
    requires
        is_lowest(gated_block(block), lo),
        is_highest(gated_block(block), hi),
    ensures
        lowest(gated_block(block)) == lo,
        highest(gated_block(block)) == hi,
{
    let g = gated_block(block);
    let lo_chosen = lowest(g);
    let hi_chosen = highest(g);
    assert(is_lowest(g, lo_chosen));
    assert(is_highest(g, hi_chosen));
    let a = choose|i: int| 0 <= i < g.len() && #[trigger] g[i] == lo;
    let b = choose|i: int| 0 <= i < g.len() && #[trigger] g[i] == lo_chosen;
    assert(g[a] == gated(block[a]) && g[b] == gated(block[b]));
    assert(level(lo) == level(lo_chosen));
    let c = choose|i: int| 0 <= i < g.len() && #[trigger] g[i] == hi;
    let d = choose|i: int| 0 <= i < g.len() && #[trigger] g[i] == hi_chosen;
    assert(g[c] == gated(block[c]) && g[d] == gated(block[d]));
    assert(level(hi) == level(hi_chosen));
}

/// Whatever the caller hands in as rescaled samples, the conditioned block
/// is empty or holds only numbers between minus one and one: no infinity,
/// and nothing that is not a number.
pub proof fn lemma_output_within_unit_range(conditioning: ConditioningView, rescaled: Seq<u32>)
    ensures
        forall|i: int|
            0 <= i < finished(conditioning, rescaled).len() ==> {
                &&& in_unit_range(#[trigger] finished(conditioning, rescaled)[i])
                &&& is_finite(finished(conditioning, rescaled)[i])
                &&& !is_nan(finished(conditioning, rescaled)[i])
            },
{
}

/// A block whose samples are all below the noise gate conditions to the
/// empty block. Any other block conditions to as many samples as it has.
pub proof fn lemma_silence_collapses(block: Seq<u32>, rescaled: Seq<u32>)
    requires
        block.len() <= usize::MAX,
    ensures
        silent(block) ==> finished(conditioning(block), rescaled) == Seq::<u32>::empty(),
        !silent(block) ==> finished(conditioning(block), rescaled).len() == block.len(),
{
    if silent(block) {
        assert(finished(conditioning(block), rescaled) =~= Seq::<u32>::empty());
    }
}

/// A block that repeats one value has no span to divide by, and none is
/// asked for: it conditions to nothing if the value is below the noise
/// gate and to as many zeros as it has samples otherwise, whatever the
/// value.
pub proof fn lemma_constant_block_gives_zeros(block: Seq<u32>, value: u32, rescaled: Seq<u32>)
    requires
        block.len() <= usize::MAX,
        forall|i: int| 0 <= i < block.len() ==> block[i] == value,
    ensures
        !(conditioning(block) is Rescale),
        magnitude(value) < GATE ==> finished(conditioning(block), rescaled) == Seq::<u32>::empty(),
        magnitude(value) >= GATE ==> finished(conditioning(block), rescaled) == Seq::new(
            block.len(),
            |i: int| SILENCE,
        ),
{
    let g = gated_block(block);
    assert forall|i: int, j: int|
        0 <= i < g.len() && 0 <= j < g.len() && !is_nan(#[trigger] g[i]) && !is_nan(
            #[trigger] g[j],
        ) implies level(g[i]) == level(g[j]) by {
        assert(g[i] == gated(block[i]) && g[j] == gated(block[j]));
    }
    if magnitude(value) < GATE {
        assert(silent(block));
        assert(finished(conditioning(block), rescaled) =~= Seq::<u32>::empty());
    } else if block.len() > 0 {
        assert(magnitude(block[0]) >= GATE);
        assert(!silent(block));
        assert(finished(conditioning(block), rescaled) =~= Seq::new(block.len(), |i: int| SILENCE));
    } else {
        assert(finished(conditioning(block), rescaled) =~= Seq::new(block.len(), |i: int| SILENCE));
    }
}

/// A block of numbers between minus one and one that holds both bounds is
/// rescaled over exactly that span, where `2 * (s - lo) / (hi - lo) - 1`
/// is `s`. With every gated sample as its own result, the conditioned
/// block is the gated block; and the gated block is the block itself where
/// no sample is below the noise gate.
pub proof fn lemma_normalized_block_keeps_span(block: Seq<u32>)
    requires
        forall|i: int| 0 <= i < block.len() ==> in_unit_range(#[trigger] block[i]),
        exists|i: int| 0 <= i < block.len() && #[trigger] block[i] == NEG_UNITY,
        exists|i: int| 0 <= i < block.len() && #[trigger] block[i] == UNITY,
    ensures
        conditioning(block) == (ConditioningView::Rescale {
            samples: gated_block(block),
            lo: NEG_UNITY,
            hi: UNITY,
        }),
        finished(conditioning(block), gated_block(block)) == gated_block(block),
        (forall|i: int| 0 <= i < block.len() ==> magnitude(#[trigger] block[i]) >= GATE)
            ==> gated_block(block) == block,
{
    let g = gated_block(block);
    let low = choose|i: int| 0 <= i < block.len() && #[trigger] block[i] == NEG_UNITY;
    let high = choose|i: int| 0 <= i < block.len() && #[trigger] block[i] == UNITY;
    assert(g[low] == NEG_UNITY && g[high] == UNITY);
    assert(magnitude(block[low]) >= GATE);
    assert(!silent(block));
    assert(!flat(g));
    assert forall|j: int| 0 <= j < g.len() && !is_nan(#[trigger] g[j]) implies level(NEG_UNITY)
        <= level(g[j]) && level(g[j]) <= level(UNITY) by {
        assert(in_unit_range(block[j]));
    }
    assert(is_lowest(g, NEG_UNITY));
    assert(is_highest(g, UNITY));
    lemma_span_is_unique(block, NEG_UNITY, UNITY);
    assert forall|i: int| 0 <= i < g.len() implies limited(#[trigger] g[i]) == g[i] by {
        assert(in_unit_range(block[i]));
    }
    assert(finished(conditioning(block), g) =~= g);
    if forall|i: int| 0 <= i < block.len() ==> magnitude(#[trigger] block[i]) >= GATE {
        assert(g =~= block);
    }
}

/// The limiter never moves a result away from a number between minus one
/// and one: what it gives is the result itself or lies between the two.
pub proof fn lemma_limiter_moves_toward_range(sample: u32, result: u32)
    requires
        in_unit_range(sample),
        !is_nan(result),
    ensures
        level(sample) <= level(result) ==> level(sample) <= level(limited(result)) <= level(
            result,
        ),
        level(result) <= level(sample) ==> level(result) <= level(limited(result)) <= level(
            sample,
        ),
{
}

/// For a block of numbers between minus one and one that holds both
/// bounds, and as many rescaled samples as the block has, the conditioned
/// block has the block's length, and how far it is from the block is a
/// matter of the caller's arithmetic alone. The noise gate changes a sample
/// only to zero and only below its threshold, and the limiter leaves each
/// result that is a number where it is or moves it toward the gated sample.
pub proof fn lemma_normalized_block_stays_close(block: Seq<u32>, rescaled: Seq<u32>)
    requires
        forall|i: int| 0 <= i < block.len() ==> in_unit_range(#[trigger] block[i]),
        exists|i: int| 0 <= i < block.len() && #[trigger] block[i] == NEG_UNITY,
        exists|i: int| 0 <= i < block.len() && #[trigger] block[i] == UNITY,
        rescaled.len() == block.len(),
    ensures
        finished(conditioning(block), rescaled).len() == block.len(),
        forall|i: int|
            0 <= i < block.len() ==> {
                let kept = #[trigger] gated_block(block)[i];
                let out = finished(conditioning(block), rescaled)[i];
                &&& in_unit_range(kept)
                &&& kept == block[i] || (kept == SILENCE && magnitude(block[i]) < GATE)
                &&& out == limited(rescaled[i])
                &&& !is_nan(rescaled[i]) && level(kept) <= level(rescaled[i]) ==> level(kept)
                    <= level(out) <= level(rescaled[i])
                &&& !is_nan(rescaled[i]) && level(rescaled[i]) <= level(kept) ==> level(
                    rescaled[i],
                ) <= level(out) <= level(kept)
            },
{
    lemma_normalized_block_keeps_span(block);
    assert forall|i: int| 0 <= i < block.len() implies {
        let kept = #[trigger] gated_block(block)[i];
        let out = finished(conditioning(block), rescaled)[i];
        &&& in_unit_range(kept)
        &&& kept == block[i] || (kept == SILENCE && magnitude(block[i]) < GATE)
        &&& out == limited(rescaled[i])
        &&& !is_nan(rescaled[i]) && level(kept) <= level(rescaled[i]) ==> level(kept) <= level(
            out,
        ) <= level(rescaled[i])
        &&& !is_nan(rescaled[i]) && level(rescaled[i]) <= level(kept) ==> level(rescaled[i])
            <= level(out) <= level(kept)
    } by {
        assert(in_unit_range(block[i]));
        if !is_nan(rescaled[i]) {
            lemma_limiter_moves_toward_range(gated_block(block)[i], rescaled[i]);
        }
    }
}

/// Passes a sample through the noise gate.
pub fn gate(sample: u32) -> (r: u32)
    ensures
        r == gated(sample),
{
    if abs_bits(sample) < GATE {
        SILENCE
    } else {
        sample
    }
}

/// Passes a sample through the limiter.
pub fn limit(sample: u32) -> (r: u32)
    ensures
        r == limited(sample),
        in_unit_range(r),
{
    if nan(sample) {
        SILENCE
    } else if abs_bits(sample) > UNITY {
        if sample >= SIGN_BIT {
            NEG_UNITY
        } else {
            UNITY
        }
    } else {
        sample
    }
}

/// A block with one more sample is silent if the block is and the sample
/// is below the noise gate, and gating it gates the sample.
proof fn lemma_gate_extends(block: Seq<u32>, sample: u32)
    ensures
        silent(block.push(sample)) <==> silent(block) && magnitude(sample) < GATE,
        gated_block(block.push(sample)) == gated_block(block).push(gated(sample)),
{
    let longer = block.push(sample);
    assert(longer[block.len() as int] == sample);
    if silent(longer) {
        assert forall|i: int| 0 <= i < block.len() implies magnitude(#[trigger] block[i])
            < GATE by {
            assert(longer[i] == block[i]);
        }
    }
    assert(gated_block(longer) =~= gated_block(block).push(gated(sample)));
}

/// A block with one more sample holds a number if the block does or the
/// sample is one.
proof fn lemma_number_extends(block: Seq<u32>, sample: u32)
    ensures
        has_number(block.push(sample)) <==> has_number(block) || !is_nan(sample),
{
    let longer = block.push(sample);
    assert(longer[block.len() as int] == sample);
    if has_number(block) {
        let at = choose|i: int| 0 <= i < block.len() && !is_nan(#[trigger] block[i]);
        assert(longer[at] == block[at]);
    }
    if has_number(longer) {
        let at = choose|i: int| 0 <= i < longer.len() && !is_nan(#[trigger] longer[i]);
        if at < block.len() {
            assert(longer[at] == block[at]);
        }
    }
}

/// The first number of a block is its least and its greatest.
proof fn lemma_span_begins(block: Seq<u32>, sample: u32)
    requires
        !has_number(block),
        !is_nan(sample),
    ensures
        is_lowest(block.push(sample), sample),
        is_highest(block.push(sample), sample),
{
    let longer = block.push(sample);
    assert(longer[block.len() as int] == sample);
    assert forall|j: int| 0 <= j < longer.len() && !is_nan(#[trigger] longer[j]) implies level(
        longer[j],
    ) == level(sample) by {
        if j < block.len() {
            assert(longer[j] == block[j]);
        }
    }
}

/// With one more sample, the least number of a block gives way to the
/// sample if that is smaller, and the greatest if it is greater.
proof fn lemma_span_extends(block: Seq<u32>, lo: u32, hi: u32, sample: u32)
    requires
        is_lowest(block, lo),
        is_highest(block, hi),
    ensures
        is_lowest(
            block.push(sample),
            if below(sample, lo) {
                sample
            } else {
                lo
            },
        ),
        is_highest(
            block.push(sample),
            if below(hi, sample) {
                sample
            } else {
                hi
            },
        ),
{
    let longer = block.push(sample);
    let lo_at = choose|i: int| 0 <= i < block.len() && #[trigger] block[i] == lo;
    let hi_at = choose|i: int| 0 <= i < block.len() && #[trigger] block[i] == hi;
    assert(longer[lo_at] == lo && longer[hi_at] == hi);
    assert(longer[block.len() as int] == sample);
    assert forall|j: int| 0 <= j < longer.len() && !is_nan(#[trigger] longer[j]) implies level(lo)
        <= level(longer[j]) || j == block.len() by {
        if j < block.len() {
            assert(longer[j] == block[j]);
        }
    }
    assert forall|j: int| 0 <= j < longer.len() && !is_nan(#[trigger] longer[j]) implies level(
        longer[j],
    ) <= level(hi) || j == block.len() by {
        if j < block.len() {
            assert(longer[j] == block[j]);
        }
    }
}

/// A block is flat exactly when its least number is not below its
/// greatest, or it holds no number.
proof fn lemma_flat_by_span(block: Seq<u32>, lo: u32, hi: u32)
    requires
        is_lowest(block, lo),
        is_highest(block, hi),
    ensures
        flat(block) <==> !below(lo, hi),
{
    let lo_at = choose|i: int| 0 <= i < block.len() && #[trigger] block[i] == lo;
    let hi_at = choose|i: int| 0 <= i < block.len() && #[trigger] block[i] == hi;
    assert(!is_nan(block[lo_at]) && !is_nan(block[hi_at]));
}

/// Gates a block and decides what becomes of it.
///
/// The answer is `Silence` exactly when every sample is below the noise
/// gate, `Flat` exactly when something passes the noise gate but the gated
/// block is flat, and otherwise `Rescale` with the gated block, its least
/// number and its greatest, which then differ.
pub fn condition(block: &[u32]) -> (r: Conditioning)
    ensures
        r@ == conditioning(block@),
        r matches Conditioning::Rescale { samples, lo, hi } ==> {
            &&& is_lowest(samples@, lo)
            &&& is_highest(samples@, hi)
            &&& level(lo) < level(hi)
        },
{
    let length: usize = block.len();
    let mut samples: Vec<u32> = Vec::new();
    let mut loud: bool = false;
    let mut found: bool = false;
    let mut lo: u32 = SILENCE;
    let mut hi: u32 = SILENCE;
    let mut i: usize = 0;
    while i < length
        invariant
            i <= length,
            length == block@.len(),
            samples@ == gated_block(block@.take(i as int)),
            loud <==> !silent(block@.take(i as int)),
            found <==> has_number(samples@),
            found ==> is_lowest(samples@, lo) && is_highest(samples@, hi),
        decreases length - i,
    {
        let raw: u32 = block[i];
        let sample: u32 = gate(raw);
        proof {
            assert(block@.take(i + 1) =~= block@.take(i as int).push(raw));
            lemma_gate_extends(block@.take(i as int), raw);
            lemma_number_extends(samples@, sample);
            if found {
                lemma_span_extends(samples@, lo, hi, sample);
            } else if !is_nan(sample) {
                lemma_span_begins(samples@, sample);
            }
        }
        samples.push(sample);
        if abs_bits(raw) >= GATE {
            loud = true;
        }
        if !nan(sample) {
            if !found {
                found = true;
                lo = sample;
                hi = sample;
            } else {
                if less(sample, lo) {
                    lo = sample;
                }
                if less(hi, sample) {
                    hi = sample;
                }
            }
        }
        i = i + 1;
    }
    assert(block@.take(length as int) =~= block@);
    if !loud {
        Conditioning::Silence
    } else if !found {
        Conditioning::Flat { len: length }
    } else {
        proof {
            lemma_flat_by_span(samples@, lo, hi);
        }
        if less(lo, hi) {
            proof {
                lemma_span_is_unique(block@, lo, hi);
            }
            Conditioning::Rescale { samples, lo, hi }
        } else {
            Conditioning::Flat { len: length }
        }
    }
}

impl Conditioning {
    /// Completes the conditioning with the rescaled samples; see
    /// [`finished`]. Every sample of the result is a number between minus
    /// one and one.
    pub fn finish(&self, rescaled: &[u32]) -> (out: Vec<u32>)
        ensures
            out@ == finished(self@, rescaled@),
            forall|i: int| 0 <= i < out@.len() ==> in_unit_range(#[trigger] out@[i]),
    {
        let mut out: Vec<u32> = Vec::new();
        match self {
            Conditioning::Silence => {},
            Conditioning::Flat { len } => {
                let mut i: usize = 0;
                while i < *len
                    invariant
                        i <= *len,
                        out@ == Seq::new(i as nat, |k: int| SILENCE),
                    decreases *len - i,
                {
                    out.push(SILENCE);
                    i = i + 1;
                    assert(out@ =~= Seq::new(i as nat, |k: int| SILENCE));
                }
            },
            Conditioning::Rescale { samples, .. } => {
                let count: usize = samples.len();
                let supplied: usize = rescaled.len();
                let mut i: usize = 0;
                while i < count
                    invariant
                        i <= count,
                        count == samples@.len(),
                        supplied == rescaled@.len(),
                        out@.len() == i,
                        forall|k: int|
                            0 <= k < i ==> #[trigger] out@[k] == if k < rescaled@.len() {
                                limited(rescaled@[k])
                            } else {
                                SILENCE
                            },
                    decreases count - i,
                {
                    if i < supplied {
                        out.push(limit(rescaled[i]));
                    } else {
                        out.push(SILENCE);
                    }
                    i = i + 1;
                }
            },
        }
        assert(out@ =~= finished(self@, rescaled@));
        out
    }
}

} // verus!
