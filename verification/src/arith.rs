//! The numeric kernel of the engine: truncating division and the floor
//! square root, with the algebraic facts about them that the force laws
//! rely on (oddness under negation, cancellation, nesting, and bounds).

use vstd::prelude::*;
use vstd::arithmetic::div_mod::{
    lemma_div_denominator, lemma_div_is_ordered, lemma_div_multiples_vanish,
    lemma_div_multiples_vanish_quotient, lemma_div_nonincreasing, lemma_div_pos_is_pos,
};

verus! {

/// The quotient of `a` by `b`, rounded toward zero, as Rust's `/` rounds.
/// For nonnegative `a` this is Euclidean division; for negative `a` it is
/// the negation of the quotient of `-a` by `b`.
pub open spec fn trunc_div(a: int, b: int) -> int {
    if a >= 0 {
        a / b
    } else {
        -((-a) / b)
    }
}

/// The floor of the square root of `n` (and 0 for negative `n`),
/// defined by counting upward.
pub open spec fn sqrt_floor(n: int) -> int
    decreases n,
{
    if n <= 0 {
        0
    } else {
        let r = sqrt_floor(n - 1);
        if (r + 1) * (r + 1) <= n {
            r + 1
        } else {
            r
        }
    }
}

/// `sqrt_floor(n)` is the unique nonnegative integer whose square is at
/// most `n` while the next square is beyond `n`.
pub proof fn lemma_sqrt_floor_bracket(n: int)
    requires
        n >= 0,
    ensures
        0 <= sqrt_floor(n),
        sqrt_floor(n) * sqrt_floor(n) <= n,
        n < (sqrt_floor(n) + 1) * (sqrt_floor(n) + 1),
    decreases n,
{
    if n == 0 {
    } else {
        lemma_sqrt_floor_bracket(n - 1);
        let r = sqrt_floor(n - 1);
        if (r + 1) * (r + 1) <= n {
            assert((r + 2) * (r + 2) > (r + 1) * (r + 1)) by (nonlinear_arith)
                requires r >= 0;
        }
    }
}

/// Any integer that satisfies the square-root bracket for `n` is `sqrt_floor(n)`.
pub proof fn lemma_sqrt_floor_unique(n: int, r: int)
    requires
        n >= 0,
        r >= 0,
        r * r <= n,
        n < (r + 1) * (r + 1),
    ensures
        r == sqrt_floor(n),
{
    lemma_sqrt_floor_bracket(n);
    let s = sqrt_floor(n);
    if r < s {
        assert((r + 1) * (r + 1) <= s * s) by (nonlinear_arith)
            requires 0 <= r < s;
    }
    if s < r {
        assert((s + 1) * (s + 1) <= r * r) by (nonlinear_arith)
            requires 0 <= s < r;
    }
}

/// Truncating division is odd in the numerator: negating the numerator
/// negates the quotient.
pub proof fn lemma_trunc_div_neg(a: int, b: int)
    requires
        b > 0,
    ensures
        trunc_div(-a, b) == -trunc_div(a, b),
{
    if a == 0 {
        assert(0int / b == 0) by {
            lemma_div_pos_is_pos(0, b);
            lemma_div_nonincreasing(0, b);
        }
    }
}

/// Dividing a quotient again is dividing by the product of the divisors.
pub proof fn lemma_trunc_div_nested(a: int, b: int, c: int)
    requires
        b > 0,
        c > 0,
    ensures
        trunc_div(trunc_div(a, b), c) == trunc_div(a, b * c),
{
    assert(b * c > 0) by (nonlinear_arith)
        requires b > 0 && c > 0;
    if a >= 0 {
        lemma_div_pos_is_pos(a, b);
        lemma_div_denominator(a, b, c);
    } else {
        lemma_div_pos_is_pos(-a, b);
        lemma_div_denominator(-a, b, c);
        assert(trunc_div(a, b) == -((-a) / b));
        assert(trunc_div(trunc_div(a, b), c) == -(((-a) / b) / c));
    }
}

/// A common positive factor of numerator and denominator cancels.
pub proof fn lemma_trunc_div_scale(a: int, b: int, k: int)
    requires
        b > 0,
        k > 0,
    ensures
        trunc_div(k * a, k * b) == trunc_div(a, b),
{
    assert(k * b > 0) by (nonlinear_arith)
        requires k > 0 && b > 0;
    if a >= 0 {
        assert(k * a >= 0) by (nonlinear_arith)
            requires k > 0 && a >= 0;
        lemma_div_multiples_vanish_quotient(k, a, b);
    } else {
        assert(k * a < 0) by (nonlinear_arith)
            requires k > 0 && a < 0;
        assert(-(k * a) == k * (-a)) by (nonlinear_arith);
        assert(k * (-a) >= 0) by (nonlinear_arith)
            requires k > 0 && a < 0;
        lemma_div_multiples_vanish_quotient(k, -a, b);
    }
}

/// If the numerator is at most `c` times the denominator in magnitude,
/// the truncated quotient is at most `c` in magnitude.
pub proof fn lemma_trunc_div_bound(a: int, b: int, c: int)
    requires
        b > 0,
        c >= 0,
        -(c * b) <= a <= c * b,
    ensures
        -c <= trunc_div(a, b) <= c,
{
    lemma_div_multiples_vanish(c, b);
    assert(c * b >= 0) by (nonlinear_arith)
        requires c >= 0 && b > 0;
    if a >= 0 {
        lemma_div_pos_is_pos(a, b);
        lemma_div_is_ordered(a, c * b, b);
        assert((b * c) / b == c);
    } else {
        lemma_div_pos_is_pos(-a, b);
        lemma_div_is_ordered(-a, c * b, b);
        assert((b * c) / b == c);
    }
}

/// Truncating division, executable. Rust's own `/` on signed integers
/// rounds toward zero; this computes the same quotient through unsigned
/// division so that its value is pinned to `trunc_div`.
pub fn div_trunc(a: i128, b: i128) -> (q: i128)
    requires
        b > 0,
        a > i128::MIN,
    ensures
        q == trunc_div(a as int, b as int),
{
    if a >= 0 {
        let ua: u128 = a as u128;
        let ub: u128 = b as u128;
        let uq: u128 = ua / ub;
        proof {
            lemma_div_nonincreasing(ua as int, ub as int);
        }
        uq as i128
    } else {
        let ua: u128 = (-a) as u128;
        let ub: u128 = b as u128;
        let uq: u128 = ua / ub;
        proof {
            lemma_div_nonincreasing(ua as int, ub as int);
        }
        -(uq as i128)
    }
}

/// The floor square root, executable, by bisection.
pub fn sqrt_floor_exec(n: u128) -> (r: u128)
    ensures
        r * r <= n < (r + 1) * (r + 1),
        r == sqrt_floor(n as int),
        r < 0x1_0000_0000_0000_0000,
{
    let mut lo: u128 = 0;
    let mut hi: u128 = 0x1_0000_0000_0000_0000;
    proof {
        assert(n < 0x1_0000_0000_0000_0000 * 0x1_0000_0000_0000_0000);
    }
    while hi - lo > 1
        invariant
            lo < hi <= 0x1_0000_0000_0000_0000,
            lo * lo <= n,
            n < hi * hi,
        decreases hi - lo,
    {
        let mid: u128 = lo + (hi - lo) / 2;
        assert(lo < mid < hi);
        assert(mid * mid < 0x1_0000_0000_0000_0000 * 0x1_0000_0000_0000_0000) by (nonlinear_arith)
            requires mid < 0x1_0000_0000_0000_0000u128;
        if mid * mid <= n {
            lo = mid;
        } else {
            hi = mid;
        }
    }
    proof {
        lemma_sqrt_floor_unique(n as int, lo as int);
    }
    lo
}

} // verus!
