//! Floor division for signed machine integers.
//!
//! Specifications in this crate state positions with the mathematical `/`
//! on `int`, which for a positive divisor rounds toward negative infinity.
//! Rust's `/` on signed integers truncates toward zero instead, so the
//! executable code goes through [`floor_div_i128`], which is proved to
//! agree with the specification operator.

use vstd::prelude::*;
use vstd::arithmetic::div_mod::{lemma_fundamental_div_mod, lemma_fundamental_div_mod_converse};

verus! {

/// Quotient of `a / b` rounded toward negative infinity, i.e. the
/// mathematical `a / b` of specifications for a positive divisor.
pub fn floor_div_i128(a: i128, b: i128) -> (q: i128)
    requires
        b > 0,
        a > i128::MIN,
    ensures
        q == a as int / b as int,
{
    let bu: u128 = b as u128;
    if a >= 0 {
        let qu: u128 = (a as u128) / bu;
        proof {
            lemma_floor_div_range(a as int, b as int);
        }
        qu as i128
    } else {
        let n: u128 = (-a) as u128;
        let qd: u128 = n / bu;
        let r: u128 = n % bu;
        proof {
            lemma_fundamental_div_mod(n as int, b as int);
            lemma_floor_div_range(n as int, b as int);
            assert(n == qd * b + r) by (nonlinear_arith)
                requires n as int == b as int * (qd as int) + r as int;
        }
        if r == 0 {
            proof {
                assert(a as int == (-(qd as int)) * (b as int) + 0) by (nonlinear_arith)
                    requires a as int == -(n as int), n == qd * b + r, r == 0;
                lemma_fundamental_div_mod_converse(a as int, b as int, -(qd as int), 0);
            }
            -(qd as i128)
        } else {
            proof {
                assert(qd < n) by (nonlinear_arith)
                    requires n == qd * b + r, r > 0, b > 0, qd >= 0;
                assert(a as int == (-(qd as int) - 1) * (b as int) + (b - r)) by (nonlinear_arith)
                    requires a as int == -(n as int), n == qd * b + r;
                lemma_fundamental_div_mod_converse(a as int, b as int, -(qd as int) - 1, b - r);
            }
            -((qd as i128) + 1)
        }
    }
}

/// For a positive divisor, the floor quotient lies between the dividend
/// and zero.
pub proof fn lemma_floor_div_range(a: int, b: int)
    requires
        b > 0,
    ensures
        a >= 0 ==> 0 <= a / b <= a,
        a < 0 ==> a <= a / b <= 0,
{
    lemma_fundamental_div_mod(a, b);
    let q = a / b;
    let r = a % b;
    if a >= 0 {
        assert(q >= 0) by (nonlinear_arith)
            requires b > 0, 0 <= r < b, a == b * q + r, a >= 0;
        assert(q <= a) by (nonlinear_arith)
            requires b > 0, 0 <= r < b, a == b * q + r, q >= 0;
    } else {
        assert(q <= 0) by (nonlinear_arith)
            requires b > 0, 0 <= r < b, a == b * q + r, a < 0;
        assert(q >= a) by (nonlinear_arith)
            requires b > 0, 0 <= r < b, a == b * q + r, q <= 0, a < 0;
    }
}

/// A quotient whose dividend is bounded by `k` times the divisor is
/// bounded by `k`.
pub proof fn lemma_div_scaled_bound(num: int, den: int, k: int)
    requires
        den > 0,
        k >= 0,
        -(k * den) <= num <= k * den,
    ensures
        -k <= num / den <= k,
{
    lemma_fundamental_div_mod(num, den);
    let q = num / den;
    let r = num % den;
    assert(q <= k) by (nonlinear_arith)
        requires den > 0, 0 <= r < den, num == den * q + r, num <= k * den, k >= 0;
    assert(q >= -k) by (nonlinear_arith)
        requires den > 0, 0 <= r < den, num == den * q + r, num >= -(k * den), k >= 0;
}

} // verus!
