//! Pure easing functions on exact fractions. They are the curves a caller can
//! plug into an animation besides the built-in linear and step shapes.

use vstd::prelude::*;
use crate::frac::{Frac, MAX_DURATION_MS};

verus! {

/// The identity curve.
pub fn linear(x: Frac) -> (r: Frac)
    ensures
        r == x,
{
    x
}

/// `x * x`, computed exactly.
pub fn second_order(x: Frac) -> (r: Frac)
    requires
        x.unit(),
        x.den <= MAX_DURATION_MS,
    ensures
        r.num == x.num * x.num,
        r.den == x.den * x.den,
        r.unit(),
{
    proof {
        assert(x.num * x.num <= x.den * x.den <= MAX_DURATION_MS * MAX_DURATION_MS
            && 1 <= x.den * x.den)
            by (nonlinear_arith)
            requires
                x.num <= x.den <= MAX_DURATION_MS,
                1 <= x.den,
        ;
    }
    Frac { num: x.num * x.num, den: x.den * x.den }
}

/// `x * x * x`, computed exactly.
pub fn third_order(x: Frac) -> (r: Frac)
    requires
        x.unit(),
        x.den <= MAX_DURATION_MS,
    ensures
        r.num == x.num * x.num * x.num,
        r.den == x.den * x.den * x.den,
        r.unit(),
{
    proof {
        assert(x.num * x.num <= x.den * x.den <= MAX_DURATION_MS * MAX_DURATION_MS)
            by (nonlinear_arith)
            requires
                x.num <= x.den <= MAX_DURATION_MS,
        ;
        assert(x.num * x.num * x.num <= x.den * x.den * x.den
            <= MAX_DURATION_MS * MAX_DURATION_MS * MAX_DURATION_MS
            && 1 <= x.den * x.den * x.den)
            by (nonlinear_arith)
            requires
                x.num <= x.den <= MAX_DURATION_MS,
                1 <= x.den,
        ;
    }
    Frac { num: x.num * x.num * x.num, den: x.den * x.den * x.den }
}

} // verus!
