//! Facts about integer division that the reserve arithmetic rests on.

use vstd::prelude::*;

verus! {

/// Integer division rounds down: the quotient times the divisor misses the
/// dividend by less than the divisor.
pub proof fn lemma_floor_bounds(k: int, n: int)
    requires
        0 <= k,
        0 < n,
    ensures
        0 <= k / n,
        (k / n) * n <= k,
        k < (k / n) * n + n,
        n * (k / n) + k % n == k,
        0 <= k % n < n,
{
    vstd::arithmetic::div_mod::lemma_fundamental_div_mod(k, n);
    vstd::arithmetic::div_mod::lemma_mod_bound(k, n);
    vstd::arithmetic::div_mod::lemma_div_pos_is_pos(k, n);
    vstd::arithmetic::mul::lemma_mul_is_commutative(n, k / n);
}

/// A quotient is the only integer in the window that the divisor leaves.
pub proof fn lemma_floor_unique(k: int, n: int, q: int)
    requires
        0 < n,
        q * n <= k,
        k < q * n + n,
    ensures
        k / n == q,
{
    let r = k - q * n;
    vstd::arithmetic::mul::lemma_mul_is_commutative(n, q);
    vstd::arithmetic::div_mod::lemma_fundamental_div_mod_converse(k, n, q, r);
}

/// Dividing a product by something no smaller than one factor gives at most
/// the other factor.
pub proof fn lemma_quotient_at_most_factor(a: int, b: int, extra: int)
    requires
        0 <= a,
        0 <= b,
        0 <= extra,
        0 < a + extra,
    ensures
        (a * b) / (a + extra) <= b,
{
    let n = a + extra;
    let k = a * b;
    assert(0 <= k) by (nonlinear_arith)
        requires
            0 <= a,
            0 <= b,
            k == a * b,
    ;
    lemma_floor_bounds(k, n);
    let q = k / n;
    assert(q <= b) by (nonlinear_arith)
        requires
            q * n <= k,
            k == a * b,
            n == a + extra,
            0 <= a,
            0 <= b,
            0 <= extra,
            0 < n,
            0 <= q,
    ;
}

/// A dividend of more than 128 bits over a divisor of at most 64 bits leaves
/// a quotient of more than 64 bits.
pub proof fn lemma_wide_quotient(k: int, n: int)
    requires
        k > u128::MAX,
        0 < n <= u64::MAX,
    ensures
        k / n > u64::MAX,
{
    lemma_floor_bounds(k, n);
    let q = k / n;
    assert(q > 0xffff_ffff_ffff_ffff) by (nonlinear_arith)
        requires
            k < q * n + n,
            k > 0xffff_ffff_ffff_ffff_ffff_ffff_ffff_ffff,
            0 < n <= 0xffff_ffff_ffff_ffff,
            0 <= q,
    ;
}

} // verus!
