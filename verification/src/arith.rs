//! Exact integer helpers: flooring and rounding-up division on wide
//! integers, and clamping of a wide result into a layout unit.

use vstd::prelude::*;

verus! {

/// Bound on the magnitude of the factors that `scale_floor` takes: wide
/// enough for a few differences of 32-bit coordinates added up.
pub open spec fn span_bound() -> int {
    0x100_0000_0000
}

/// `v` brought into the range of a 32-bit integer.
pub open spec fn clamp_unit(v: int) -> int {
    if v < i32::MIN {
        i32::MIN as int
    } else if v > i32::MAX {
        i32::MAX as int
    } else {
        v
    }
}

/// `v / d` rounded towards positive infinity, for a positive `d`.
pub open spec fn ceil_div(v: int, d: int) -> int {
    -((-v) / d)
}

/// The product of two spans stays far inside the 128-bit range.
pub proof fn lemma_span_product(a: int, b: int)
    requires
        -span_bound() <= a <= span_bound(),
        -span_bound() <= b <= span_bound(),
    ensures
        -span_bound() * span_bound() <= a * b <= span_bound() * span_bound(),
{
    assert(-span_bound() * span_bound() <= a * b <= span_bound() * span_bound())
        by (nonlinear_arith)
        requires
            -span_bound() <= a <= span_bound(),
            -span_bound() <= b <= span_bound(),
    ;
}

/// Flooring division by a positive divisor.
pub fn floor_div(n: i128, d: i128) -> (q: i128)
    requires
        d > 0,
        i128::MIN < n,
    ensures
        q == n / d,
        n >= 0 ==> 0 <= q <= n,
        n < 0 ==> n <= q < 0,
{
    if n >= 0 {
        let q: i128 = n / d;
        proof {
            assert(0 <= (n as int) / (d as int) <= n as int) by (nonlinear_arith)
                requires
                    n as int >= 0,
                    d as int > 0,
            ;
        }
        q
    } else {
        let m: i128 = -n - 1;
        let k: i128 = m / d;
        proof {
            let mi = m as int;
            let di = d as int;
            let ki = k as int;
            assert(ki == mi / di);
            assert((n as int) / di == -ki - 1) by (nonlinear_arith)
                requires
                    di > 0,
                    mi >= 0,
                    ki == mi / di,
                    n as int == -mi - 1,
            ;
            assert(0 <= mi / di <= mi) by (nonlinear_arith)
                requires
                    di > 0,
                    mi >= 0,
            ;
        }
        -k - 1
    }
}

/// Division by a positive divisor, rounded towards positive infinity.
pub fn ceil_div_wide(n: i128, d: i128) -> (q: i128)
    requires
        d > 0,
        i128::MIN < n,
    ensures
        q == ceil_div(n as int, d as int),
        n > 0 ==> 0 < q <= n,
        n <= 0 ==> n <= q <= 0,
{
    let f: i128 = floor_div(-n, d);
    -f
}

/// Clamps a wide value into a 32-bit layout unit.
pub fn clamp_to_unit(v: i128) -> (r: i32)
    ensures
        r == clamp_unit(v as int),
{
    if v < i32::MIN as i128 {
        i32::MIN
    } else if v > i32::MAX as i128 {
        i32::MAX
    } else {
        v as i32
    }
}

/// `value * num / den`, floored, for spans `value` and `num` and a positive
/// span `den`.
pub fn scale_floor(value: i64, num: i64, den: i64) -> (r: i128)
    requires
        -span_bound() <= value <= span_bound(),
        -span_bound() <= num <= span_bound(),
        0 < den,
    ensures
        r == (value * num) / (den as int),
{
    proof {
        lemma_span_product(value as int, num as int);
    }
    let p: i128 = (value as i128) * (num as i128);
    floor_div(p, den as i128)
}

} // verus!
