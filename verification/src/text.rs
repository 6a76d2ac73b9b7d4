//! Exact decimal rendering of integers, for the human-readable particle
//! snapshots: a spec of what the digits are, and an executable renderer
//! proved to produce exactly them.

use vstd::prelude::*;
use vstd::arithmetic::div_mod::lemma_fundamental_div_mod;
use vstd::string::StringExecFns;
use crate::arith::div_trunc;

verus! {

/// The single decimal digit `d` as characters.
pub open spec fn digit_seq(d: int) -> Seq<char> {
    if d == 0 {
        "0"@
    } else if d == 1 {
        "1"@
    } else if d == 2 {
        "2"@
    } else if d == 3 {
        "3"@
    } else if d == 4 {
        "4"@
    } else if d == 5 {
        "5"@
    } else if d == 6 {
        "6"@
    } else if d == 7 {
        "7"@
    } else if d == 8 {
        "8"@
    } else {
        "9"@
    }
}

/// The decimal rendering of a nonnegative integer, most significant
/// digit first.
pub open spec fn dec_seq(n: int) -> Seq<char>
    decreases n,
{
    if n <= 9 {
        digit_seq(n)
    } else {
        dec_seq(n / 10) + digit_seq(n % 10)
    }
}

/// The decimal rendering of an integer: a leading minus for negatives.
pub open spec fn int_seq(n: int) -> Seq<char> {
    if n < 0 {
        "-"@ + dec_seq(-n)
    } else {
        dec_seq(n)
    }
}

/// The digit `d` as a string slice.
fn digit_str(d: i128) -> (s: &'static str)
    requires
        0 <= d <= 9,
    ensures
        s@ == digit_seq(d as int),
{
    if d == 0 {
        "0"
    } else if d == 1 {
        "1"
    } else if d == 2 {
        "2"
    } else if d == 3 {
        "3"
    } else if d == 4 {
        "4"
    } else if d == 5 {
        "5"
    } else if d == 6 {
        "6"
    } else if d == 7 {
        "7"
    } else if d == 8 {
        "8"
    } else {
        "9"
    }
}

/// The decimal rendering of a nonnegative integer, exactly `dec_seq`.
pub fn decimal_string(n: i128) -> (r: String)
    requires
        n >= 0,
    ensures
        r@ == dec_seq(n as int),
    decreases n,
{
    if n <= 9 {
        String::from_str(digit_str(n))
    } else {
        let q = div_trunc(n, 10);
        proof {
            lemma_fundamental_div_mod(n as int, 10);
        }
        let rem = n - q * 10;
        let mut s = decimal_string(q);
        s.append(digit_str(rem));
        s
    }
}

/// The decimal rendering of an integer, exactly `int_seq`.
pub fn int_string(n: i128) -> (r: String)
    requires
        n > i128::MIN,
    ensures
        r@ == int_seq(n as int),
{
    if n < 0 {
        let mut s = String::from_str("-");
        let digits = decimal_string(-n);
        s.append(digits.as_str());
        s
    } else {
        decimal_string(n)
    }
}

} // verus!
