use vstd::prelude::*;

verus! {

/// The quotient `n / d` rounded to the nearest whole number, halves rounded up.
///
/// Meant for `n >= 0` and `d > 0`.
pub open spec fn div_round(n: int, d: int) -> int {
    (2 * n + d) / (2 * d)
}

/// The value of `lo..=hi` that is nearest to `x`.
pub open spec fn clamp(x: int, lo: int, hi: int) -> int {
    if x < lo {
        lo
    } else if x > hi {
        hi
    } else {
        x
    }
}

/// The magnitude of `x`.
pub open spec fn abs(x: int) -> int {
    if x < 0 {
        -x
    } else {
        x
    }
}

/// A rounded quotient is as far from the exact quotient as half a unit at most.
pub proof fn lemma_div_round_error(n: int, d: int)
    requires
        0 <= n,
        0 < d,
    ensures
        2 * n - d < 2 * d * div_round(n, d) <= 2 * n + d,
        0 <= div_round(n, d),
{
    let q = div_round(n, d);
    assert(2 * n - d < 2 * d * q <= 2 * n + d && 0 <= q) by (nonlinear_arith)
        requires
            q == (2 * n + d) / (2 * d),
            0 <= n,
            0 < d,
    ;
}

/// A rounded quotient does not exceed a whole bound that the exact quotient does not exceed.
pub proof fn lemma_div_round_bound(n: int, d: int, c: int)
    requires
        0 <= n <= c * d,
        0 < d,
    ensures
        0 <= div_round(n, d) <= c,
{
    lemma_div_round_error(n, d);
    let q = div_round(n, d);
    assert(q <= c) by (nonlinear_arith)
        requires
            2 * d * q <= 2 * n + d,
            n <= c * d,
            0 < d,
    ;
}

/// Rounding the quotient of a multiple of the divisor is exact.
pub proof fn lemma_div_round_multiple(k: int, d: int)
    requires
        0 <= k,
        0 < d,
    ensures
        div_round(k * d, d) == k,
{
    assert(0 <= k * d) by (nonlinear_arith)
        requires
            0 <= k,
            0 < d,
    ;
    lemma_div_round_error(k * d, d);
    let q = div_round(k * d, d);
    assert(q == k) by (nonlinear_arith)
        requires
            2 * (k * d) - d < 2 * d * q <= 2 * (k * d) + d,
            0 < d,
    ;
}

/// Rounded quotients grow with the dividend.
pub proof fn lemma_div_round_monotonic(n1: int, n2: int, d: int)
    requires
        0 <= n1 <= n2,
        0 < d,
    ensures
        div_round(n1, d) <= div_round(n2, d),
{
    lemma_div_round_error(n1, d);
    lemma_div_round_error(n2, d);
    let q1 = div_round(n1, d);
    let q2 = div_round(n2, d);
    assert(q1 <= q2) by (nonlinear_arith)
        requires
            2 * d * q1 <= 2 * n1 + d,
            2 * n2 - d < 2 * d * q2,
            n1 <= n2,
            0 < d,
    ;
}

/// Computes the rounded quotient of two machine numbers.
pub fn div_round_u128(n: u128, d: u128) -> (r: u128)
    requires
        0 < d,
        2 * n + d <= u128::MAX,
        2 * d <= u128::MAX,
    ensures
        r == div_round(n as int, d as int),
{
    (2 * n + d) / (2 * d)
}

} // verus!
