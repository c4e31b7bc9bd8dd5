//! Quotients and remainders, as the grid needs them to go between a pair of
//! coordinates and one index.

use vstd::prelude::*;

verus! {

/// A quotient and a remainder are those of the number put together from them.
pub proof fn lemma_split(n: int, q: int, r: int)
    by (nonlinear_arith)
    requires
        0 <= r < n,
    ensures
        (q * n + r) / n == q,
        (q * n + r) % n == r,
{
}

/// Among numbers put together from a quotient and a remainder, the order goes
/// by the quotient first.
pub proof fn lemma_below(n: int, m: int, q: int, r: int)
    by (nonlinear_arith)
    requires
        0 <= r < n,
        0 <= q,
        0 <= m,
    ensures
        q * n + r < m * n <==> q < m,
        q * n + r >= 0,
{
}

/// A number below `m * n` has a remainder below `n` and a quotient below `m`,
/// and is put together from them.
pub proof fn lemma_quotient_and_remainder(n: int, m: int, k: int)
    by (nonlinear_arith)
    requires
        0 < n,
        0 < m,
        0 <= k < m * n,
    ensures
        0 <= k % n < n,
        0 <= k / n < m,
        k == (k / n) * n + k % n,
{
}

} // verus!
