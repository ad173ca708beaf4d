//! Range mapping shared by the generators: a raw draw is folded into an
//! inclusive integer range by remainder. The mapping carries the classic
//! modulo bias whenever the range does not evenly divide the draw's width;
//! that bias is part of the stated behaviour and is kept on purpose.

use vstd::prelude::*;

verus! {

/// The value `[min, max]` and a raw draw map to: `min` plus the draw's
/// remainder by the range width.
pub open spec fn mapped(raw: u64, min: i64, max: i64) -> int {
    min + (raw as int) % (max - min + 1)
}

/// Range containment: the mapped value always lies inside `[min, max]`.
pub proof fn lemma_mapped_in_range(raw: u64, min: i64, max: i64)
    requires
        min <= max,
    ensures
        min <= mapped(raw, min, max) <= max,
{
}

/// The width of `[min, max]` less one, as an exact `u64`; the difference
/// always fits, whatever the signs of the two bounds.
fn span(min: i64, max: i64) -> (s: u64)
    requires
        min <= max,
    ensures
        s == max - min,
{
    if min >= 0 {
        (max - min) as u64
    } else if max >= 0 {
        let neg_min: u64 = ((-(min + 1)) as u64) + 1;
        (max as u64) + neg_min
    } else {
        (max - min) as u64
    }
}

/// Folds a 64-bit raw draw into `[min, max]` by remainder.
pub fn map_draw_64(raw: u64, min: i64, max: i64) -> (r: i64)
    requires
        min <= max,
        max - min < u64::MAX,
    ensures
        r == mapped(raw, min, max),
        min <= r <= max,
{
    let range: u64 = span(min, max) + 1;
    let d: u64 = raw % range;
    min.wrapping_add_unsigned(d)
}

/// Folds a 32-bit raw draw into `[min, max]` by remainder over a 32-bit
/// range width.
pub fn map_draw_32(raw: u32, min: i64, max: i64) -> (r: i64)
    requires
        min <= max,
        max - min < u32::MAX,
    ensures
        r == mapped(raw as u64, min, max),
        min <= r <= max,
{
    let range: u32 = (span(min, max) as u32) + 1;
    let d: u32 = raw % range;
    min.wrapping_add_unsigned(d as u64)
}

} // verus!
