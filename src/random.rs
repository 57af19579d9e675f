use rand::Rng;
use vstd::prelude::*;

verus! {

/// rand's seedable generator, the owned random source of a simulation; the
/// library only hands it to `uniform`.
#[verifier::external_type_specification]
#[verifier::external_body]
pub struct ExStdRng(rand::rngs::StdRng);

/// Relies on rand::Rng::gen_range over `lo..hi` for `i64`: it returns a value
/// of the half-open range, and panics when the range is empty.
#[verifier::external_body]
pub(crate) fn uniform(rng: &mut rand::rngs::StdRng, lo: i64, hi: i64) -> (r: i64)
    requires
        lo < hi,
    ensures
        lo <= r < hi,
{
    rng.gen_range(lo..hi)
}

/// Lower end of a bounded walk's next interval: `max(min, current - delta)`.
pub open spec fn walk_lo(min: int, current: int, delta: int) -> int {
    if current - delta > min {
        current - delta
    } else {
        min
    }
}

/// Upper end of a bounded walk's next interval: `min(max, current + delta)`.
pub open spec fn walk_hi(max: int, current: int, delta: int) -> int {
    if current + delta < max {
        current + delta
    } else {
        max
    }
}

/// `r` is a legal next value of a walk in `[min, max)` from `current` with
/// step bound `delta`: it lies in `[walk_lo, walk_hi)`, or is `walk_lo` itself
/// when that interval is empty.
pub open spec fn walk_allows(min: int, max: int, current: int, delta: int, r: int) -> bool {
    let lo = walk_lo(min, current, delta);
    let hi = walk_hi(max, current, delta);
    if lo < hi {
        lo <= r < hi
    } else {
        r == lo
    }
}

/// A value drawn from `[lo, hi)`, or `lo` itself when that range is empty.
pub open spec fn sample_allows(lo: int, hi: int, r: int) -> bool {
    if lo < hi {
        lo <= r < hi
    } else {
        r == lo
    }
}

/// Draws from `[lo, hi)`; a degenerate range gives `lo`.
pub(crate) fn sample_in(rng: &mut rand::rngs::StdRng, lo: i64, hi: i64) -> (r: i64)
    ensures
        sample_allows(lo as int, hi as int, r as int),
{
    if lo < hi {
        uniform(rng, lo, hi)
    } else {
        lo
    }
}

/// One step of a bounded random walk: a value drawn from
/// `[max(min, current - delta), min(max, current + delta))`.
pub(crate) fn walk(rng: &mut rand::rngs::StdRng, min: i64, max: i64, current: i64, delta: u64) -> (r: i64)
    ensures
        walk_allows(min as int, max as int, current as int, delta as int, r as int),
        min <= current <= max ==> min <= r <= max,
{
    let down: i128 = current as i128 - delta as i128;
    let up: i128 = current as i128 + delta as i128;
    let lo: i64 = if down > min as i128 { down as i64 } else { min };
    let hi: i64 = if up < max as i128 { up as i64 } else { max };
    if lo < hi {
        uniform(rng, lo, hi)
    } else {
        lo
    }
}

} // verus!
