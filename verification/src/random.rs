//! Unbiased-ish random selection over an inclusive range.
//!
//! The draw comes from the process randomness source; the reduction to the
//! range is plain modulo, deliberately so: the protocol accepts the small
//! modulo bias rather than rejection-sampling, and the selection is a pure
//! function of the bounds and the raw draw.

use vstd::prelude::*;
use vstd::arithmetic::div_mod::lemma_mod_bound;

verus! {

pub assume_specification<T>[ rand::random::<T> ]() -> (r: T)
    where
        rand::distributions::Standard: rand::distributions::Distribution<T>,
;

/// The value selected from the inclusive range between `min` and `max`
/// (in either order) by the raw 32-bit draw `raw`: the low bound plus
/// `raw` reduced modulo the window size.
pub open spec fn selected(min: u32, max: u32, raw: u32) -> u32
    decreases (if min > max { 1int } else { 0int }),
{
    if min == max {
        min
    } else if min > max {
        selected(max, min, raw)
    } else {
        ((min as int) + (raw as int) % ((max as int) - (min as int) + 1)) as u32
    }
}

/// Every selection lands in the inclusive range spanned by the two bounds,
/// whichever order they are given in; equal bounds select that bound.
pub proof fn lemma_selected_in_range(min: u32, max: u32, raw: u32)
    ensures
        min <= max ==> min <= selected(min, max, raw) <= max,
        max <= min ==> max <= selected(min, max, raw) <= min,
        min == max ==> selected(min, max, raw) == min,
    decreases (if min > max { 1int } else { 0int }),
{
    if min == max {
    } else if min > max {
        lemma_selected_in_range(max, min, raw);
    } else {
        let w = (max as int) - (min as int) + 1;
        lemma_mod_bound(raw as int, w);
    }
}

/// Swapping the bounds gives the same selection for every draw, so the two
/// orders have the same achievable set of values.
pub proof fn lemma_selected_symmetric(min: u32, max: u32, raw: u32)
    ensures
        selected(min, max, raw) == selected(max, min, raw),
{
}

/// The selection as an executable function of the bounds and the raw draw.
pub fn generate_randomness_from(min: u32, max: u32, raw: u32) -> (r: u32)
    ensures
        r == selected(min, max, raw),
{
    let lo = if min <= max { min } else { max };
    let hi = if min <= max { max } else { min };
    if lo == hi {
        return lo;
    }
    if lo == 0 && hi == u32::MAX {
        // The window is 2^32, so every 32-bit draw is its own residue.
        proof {
            assert((raw as int) % 0x1_0000_0000int == raw as int);
            assert(selected(lo, hi, raw) == raw);
            assert(selected(min, max, raw) == selected(lo, hi, raw));
        }
        return raw;
    }
    let window = hi - lo + 1;
    proof {
        lemma_mod_bound(raw as int, window as int);
    }
    let r = lo + raw % window;
    proof {
        assert(r == ((lo as int) + (raw as int) % ((hi as int) - (lo as int) + 1)) as u32);
        assert(selected(lo, hi, raw) == r);
        assert(selected(min, max, raw) == selected(lo, hi, raw));
    }
    r
}

/// Draws four bytes of process randomness and selects a value from the
/// inclusive range between `min` and `max`.
pub fn generate_randomness(min: u32, max: u32) -> (r: u32)
    ensures
        min <= max ==> min <= r <= max,
        max <= min ==> max <= r <= min,
        min == max ==> r == min,
        exists|raw: u32| r == selected(min, max, raw),
{
    let raw: u32 = rand::random::<u32>();
    let r = generate_randomness_from(min, max, raw);
    proof {
        lemma_selected_in_range(min, max, raw);
        assert(r == selected(min, max, raw));
    }
    r
}

} // verus!
