//! The weighted index sampler's core: a binary search over a non-decreasing
//! sequence of cumulative weights. Each index owns the half-open band from
//! the cumulative weight before it (zero before index 0) up to but not
//! including its own, so a zero-width band — a zero weight — holds no draw
//! and is never selected. A draw below the final cumulative weight lands in
//! exactly one band; a draw at or above it selects the last band of positive
//! width. The sampler owns the generator it draws from; turning a draw and a
//! weight sequence into cumulative keys is the caller's side of the
//! boundary, since the keys only need their order.

use crate::pcg;
use crate::pcg::Pcg32;
use vstd::prelude::*;

verus! {

/// A sequence is non-decreasing — what prefix sums of non-negative weights
/// always are.
pub open spec fn sorted(cum: Seq<u64>) -> bool {
    forall|i: int, j: int| 0 <= i <= j < cum.len() ==> #[trigger] cum[i] <= #[trigger] cum[j]
}

/// Index `i`'s band holds the draw `r`: `r` is at least the cumulative
/// weight before `i` (zero before index 0) and strictly below `cum[i]`.
/// Strictness on the right is what keeps a zero-width band from ever
/// holding a draw.
pub open spec fn in_band(cum: Seq<u64>, r: u64, i: int) -> bool {
    &&& 0 <= i < cum.len()
    &&& r < cum[i]
    &&& (i == 0 || cum[i - 1] <= r)
}

/// Index `i` is the last band of positive width: the first index carrying
/// the final cumulative weight. A draw at or above that weight — one equal
/// to the total — selects it.
pub open spec fn final_band(cum: Seq<u64>, i: int) -> bool {
    &&& 0 <= i < cum.len()
    &&& cum[i] == cum[cum.len() - 1]
    &&& (i == 0 || cum[i - 1] < cum[cum.len() - 1])
}

/// On sorted keys the bands partition the draws: no draw lies in two bands,
/// so the selected index is unique.
pub proof fn lemma_band_unique(cum: Seq<u64>, r: u64, i: int, j: int)
    requires
        sorted(cum),
        in_band(cum, r, i),
        in_band(cum, r, j),
    ensures
        i == j,
{
    if i < j {
        assert(cum[i] <= cum[j - 1]);
    }
    if j < i {
        assert(cum[j] <= cum[i - 1]);
    }
}

/// On sorted keys the last band of positive width is unique.
pub proof fn lemma_final_band_unique(cum: Seq<u64>, i: int, j: int)
    requires
        sorted(cum),
        final_band(cum, i),
        final_band(cum, j),
    ensures
        i == j,
{
    if i < j {
        assert(cum[i] <= cum[j - 1]);
    }
    if j < i {
        assert(cum[j] <= cum[i - 1]);
    }
}

/// A band that holds a draw has positive width: an index whose weight is
/// zero — whose cumulative weight equals its predecessor's — is never
/// selected for a draw below the total.
pub proof fn lemma_zero_width_never_selected(cum: Seq<u64>, r: u64, i: int)
    requires
        in_band(cum, r, i),
        i > 0,
    ensures
        cum[i - 1] < cum[i],
{
}

/// The weighted index sampler: it owns the generator its draws come from and
/// is the sole mutator of that generator's state.
pub struct BinarySearch {
    generator: Pcg32,
}

impl View for BinarySearch {
    type V = pcg::Pcg32View;

    closed spec fn view(&self) -> pcg::Pcg32View {
        self.generator@
    }
}

impl BinarySearch {
    /// Seeds the sampler's own generator.
    pub fn new(seed: u64) -> (s: Self)
        ensures
            s@.state == pcg::seeded_state(seed),
            s@.increment == pcg::seeded_increment(seed),
    {
        BinarySearch { generator: Pcg32::new(seed) }
    }

    /// Takes the one raw draw a selection uses, advancing the owned
    /// generator exactly once.
    pub fn next_raw(&mut self) -> (r: u32)
        ensures
            final(self)@.state == pcg::advance(old(self)@.state, old(self)@.increment),
            final(self)@.increment == old(self)@.increment,
            r == pcg::output(old(self)@.state),
    {
        self.generator.next_int()
    }

    /// The band search over cumulative weights: `-1` on an empty sequence;
    /// for a draw below the final cumulative weight, the index of the band
    /// holding it — on sorted keys the one and only such index, by
    /// [`lemma_band_unique`]; for a draw at or above the final weight, the
    /// last band of positive width. The length bound is a machine limit,
    /// not a restriction: a vector of eight-byte keys can never be longer.
    pub fn search_cumulative(cum: &Vec<u64>, r: u64) -> (idx: i64)
        requires
            cum@.len() < 0x1000_0000_0000_0000,
        ensures
            cum@.len() == 0 <==> idx == -1,
            cum@.len() > 0 ==> 0 <= idx < cum@.len(),
            cum@.len() == 1 ==> idx == 0,
            cum@.len() > 0 && r < cum@[cum@.len() - 1] ==> in_band(cum@, r, idx as int),
            sorted(cum@) && cum@.len() > 0 && r >= cum@[cum@.len() - 1] ==> final_band(
                cum@,
                idx as int,
            ),
    {
        let length: usize = cum.len();
        if length < 1 {
            return -1;
        }
        let last: u64 = cum[length - 1];
        if r >= last {
            // The draw is at or above the total: take the first index that
            // carries the final cumulative weight, the last band of
            // positive width.
            let mut bottom: i64 = 0;
            let mut top: i64 = (length - 1) as i64;
            while bottom < top
                invariant
                    cum@.len() == length,
                    1 <= length < 0x1000_0000_0000_0000,
                    0 <= bottom <= top <= length - 1,
                    last == cum@[length - 1],
                    cum@[top as int] >= last,
                    bottom == 0 || cum@[bottom - 1] < last,
                decreases top - bottom,
            {
                let middle: i64 = (bottom + top) / 2;
                if cum[middle as usize] >= last {
                    top = middle;
                } else {
                    bottom = middle + 1;
                }
            }
            return top;
        }
        // The draw is below the total: narrow onto the one band holding it,
        // leaving early as soon as the candidate's band is seen to hold it.
        let mut bottom: i64 = 0;
        let mut top: i64 = (length - 1) as i64;
        while bottom < top
            invariant
                cum@.len() == length,
                1 <= length < 0x1000_0000_0000_0000,
                0 <= bottom <= top <= length - 1,
                r < cum@[top as int],
                bottom == 0 || cum@[bottom - 1] <= r,
            decreases top - bottom,
        {
            let middle: i64 = (bottom + top) / 2;
            if r >= cum[middle as usize] {
                bottom = middle + 1;
            } else {
                let p: u64 = if middle > 0 {
                    cum[(middle - 1) as usize]
                } else {
                    0
                };
                if r >= p {
                    return middle;
                }
                top = middle;
            }
        }
        top
    }
}

} // verus!
