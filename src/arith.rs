//! Rounding division on signed machine integers, stated over the mathematical
//! (flooring) division of specifications.
use vstd::prelude::*;
use vstd::arithmetic::div_mod::{lemma_fundamental_div_mod, lemma_fundamental_div_mod_converse};

verus! {

/// `a / b` rounded towards negative infinity.
pub fn floor_div(a: i64, b: i64) -> (r: i64)
    requires
        b > 0,
        a > i64::MIN,
    ensures
        r == a / b,
{
    if a >= 0 {
        a / b
    } else {
        let n: i64 = -a - 1;
        let q: i64 = n / b;
        proof {
            lemma_fundamental_div_mod(n as int, b as int);
            let s = n % b;
            assert(a == (-q - 1) * b + (b - s - 1)) by (nonlinear_arith)
                requires n == b * q + s, a == -n - 1;
            lemma_fundamental_div_mod_converse(a as int, b as int, -q - 1, b - s - 1);
        }
        -q - 1
    }
}

/// The remainder of `a` modulo a positive `b`, in `0..b`.
pub fn floor_mod(a: i64, b: i64) -> (r: i64)
    requires
        0 < b < 0x4000_0000_0000_0000,
        a > -0x4000_0000_0000_0000,
    ensures
        r == a % b,
        0 <= r < b,
{
    let q = floor_div(a, b);
    proof {
        lemma_fundamental_div_mod(a as int, b as int);
        assert(0 <= a % b < b);
        assert(b * q <= a) by (nonlinear_arith)
            requires a == b * q + a % b, a % b >= 0;
        assert(b * q > a - b) by (nonlinear_arith)
            requires a == b * q + a % b, a % b < b;
    }
    a - b * q
}

} // verus!
