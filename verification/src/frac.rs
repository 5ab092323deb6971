//! Exact fractions over millisecond-based time, and the interpolation step
//! shared by all lenses.

use vstd::prelude::*;
use vstd::arithmetic::div_mod::{lemma_div_by_multiple, lemma_div_is_ordered, lemma_div_pos_is_pos};
use vstd::arithmetic::mul::{lemma_mul_inequality, lemma_mul_nonnegative, lemma_mul_upper_bound};

verus! {

/// Cap on the duration of a single animation or delay step, in milliseconds
/// (about 16 minutes). It keeps cubic-curve arithmetic on exact fractions
/// within `u64`.
pub const MAX_DURATION_MS: u64 = 1_000_000;

/// Cap on the elapsed time handed to one tick, in milliseconds (about 31
/// years). It keeps progress integration within `u64`.
pub const MAX_TICK_MS: u64 = 1_000_000_000_000;

/// Largest denominator a curve output may carry: the cube of
/// `MAX_DURATION_MS`. Lenses accept any fraction up to this size.
pub const MAX_CURVE_DEN: u64 = 1_000_000_000_000_000_000;

/// An exact non-negative fraction `num / den`, never reduced; the denominator
/// is always at least 1. Animator progress is `elapsed_ms / duration_ms`, and
/// curve outputs reuse the same shape.
#[derive(Clone, Copy, PartialEq, Eq, Structural, Debug)]
pub struct Frac {
    pub num: u64,
    pub den: u64,
}

impl Frac {
    /// The denominator is positive.
    pub open spec fn wf(self) -> bool {
        self.den >= 1
    }

    /// The fraction lies in `[0, 1]`.
    pub open spec fn unit(self) -> bool {
        self.wf() && self.num <= self.den
    }

    /// Strict comparison of the rational values.
    pub open spec fn spec_lt(self, other: Frac) -> bool {
        self.num * other.den < other.num * self.den
    }
}

/// `start + (end - start) * p`, rounded towards `start`: the value a lens
/// writes for progress `p`.
pub open spec fn lerp_val(start: i64, end: i64, p: Frac) -> int {
    if end >= start {
        start + ((end - start) * p.num) / (p.den as int)
    } else {
        start - ((start - end) * p.num) / (p.den as int)
    }
}

/// Interpolates between two coordinates at progress `p`, exactly as
/// `lerp_val` describes. The result always lies between `start` and `end`.
pub fn lerp_i64(start: i64, end: i64, p: Frac) -> (r: i64)
    requires
        p.unit(),
        p.den <= MAX_CURVE_DEN,
    ensures
        r == lerp_val(start, end, p),
        start <= end ==> start <= r <= end,
        end <= start ==> end <= r <= start,
{
    let pn = p.num as u128;
    let pd = p.den as u128;
    if end >= start {
        let diff = (end as i128 - start as i128) as u128;
        proof {
            let d = end - start;
            let n = p.num as int;
            let de = p.den as int;
            lemma_mul_nonnegative(d, n);
            lemma_div_pos_is_pos(d * n, de);
            lemma_mul_inequality(n, de, d);
            lemma_div_is_ordered(d * n, d * de, de);
            lemma_div_by_multiple(d, de);
            lemma_mul_upper_bound(d, 0x1_0000_0000_0000_0000, n, MAX_CURVE_DEN as int);
        }
        let add = (diff * pn) / pd;
        (start as i128 + add as i128) as i64
    } else {
        let diff = (start as i128 - end as i128) as u128;
        proof {
            let d = start - end;
            let n = p.num as int;
            let de = p.den as int;
            lemma_mul_nonnegative(d, n);
            lemma_div_pos_is_pos(d * n, de);
            lemma_mul_inequality(n, de, d);
            lemma_div_is_ordered(d * n, d * de, de);
            lemma_div_by_multiple(d, de);
            lemma_mul_upper_bound(d, 0x1_0000_0000_0000_0000, n, MAX_CURVE_DEN as int);
        }
        let sub = (diff * pn) / pd;
        (start as i128 - sub as i128) as i64
    }
}

} // verus!
