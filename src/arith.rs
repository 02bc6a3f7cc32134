use vstd::prelude::*;
use vstd::arithmetic::div_mod::{lemma_fundamental_div_mod, lemma_fundamental_div_mod_converse};

verus! {

/// Rounds the quotient `n / d` down.
pub open spec fn floor_div(n: int, d: int) -> int {
    n / d
}

/// Rounds the quotient `n / d` up.
pub open spec fn ceil_div(n: int, d: int) -> int {
    -((-n) / d)
}

/// The quotient rounded down is the integer `q` with `q * d <= n < q * d + d`.
pub proof fn lemma_floor_div_bounds(n: int, d: int)
    requires
        d > 0,
    ensures
        floor_div(n, d) * d <= n < floor_div(n, d) * d + d,
{
    lemma_fundamental_div_mod(n, d);
    assert(0 <= n % d < d);
    assert(d * (n / d) == (n / d) * d) by (nonlinear_arith);
}

/// Any `q` with `q * d <= n < q * d + d` is the quotient rounded down.
pub proof fn lemma_floor_div_unique(n: int, d: int, q: int)
    requires
        d > 0,
        q * d <= n < q * d + d,
    ensures
        floor_div(n, d) == q,
{
    lemma_fundamental_div_mod_converse(n, d, q, n - q * d);
}

/// The quotient rounded up is the integer `q` with `q * d - d < n <= q * d`.
pub proof fn lemma_ceil_div_bounds(n: int, d: int)
    requires
        d > 0,
    ensures
        ceil_div(n, d) * d - d < n <= ceil_div(n, d) * d,
{
    lemma_floor_div_bounds(-n, d);
    assert(ceil_div(n, d) * d == -(((-n) / d) * d)) by (nonlinear_arith);
}

/// Any `q` with `q * d - d < n <= q * d` is the quotient rounded up.
pub proof fn lemma_ceil_div_unique(n: int, d: int, q: int)
    requires
        d > 0,
        q * d - d < n <= q * d,
    ensures
        ceil_div(n, d) == q,
{
    assert((-q) * d == -(q * d)) by (nonlinear_arith);
    lemma_floor_div_unique(-n, d, -q);
}

/// Division rounding down, for any sign of the dividend.
pub fn floor_div_exec(n: i128, d: i128) -> (r: i128)
    requires
        d > 0,
        -0x1_0000_0000_0000_0000_0000_0000_0000 <= n <= 0x1_0000_0000_0000_0000_0000_0000_0000,
    ensures
        r == floor_div(n as int, d as int),
{
    if n >= 0 {
        n / d
    } else {
        let m: i128 = -n - 1;
        let q: i128 = m / d;
        proof {
            lemma_floor_div_bounds(m as int, d as int);
            assert(q * d <= m < q * d + d);
            assert((-q - 1) * d == -(q * d) - d) by (nonlinear_arith);
            lemma_floor_div_unique(n as int, d as int, -q - 1);
        }
        -q - 1
    }
}

/// Division rounding up, for any sign of the dividend.
pub fn ceil_div_exec(n: i128, d: i128) -> (r: i128)
    requires
        d > 0,
        -0x1_0000_0000_0000_0000_0000_0000_0000 <= n <= 0x1_0000_0000_0000_0000_0000_0000_0000,
    ensures
        r == ceil_div(n as int, d as int),
{
    let q: i128 = floor_div_exec(-n, d);
    proof {
        lemma_floor_div_bounds(-n as int, d as int);
        assert(-0x1_0000_0000_0000_0000_0000_0000_0000 - 1 <= q <= 0x1_0000_0000_0000_0000_0000_0000_0000)
            by (nonlinear_arith)
            requires
                q * d <= -n < q * d + d,
                d > 0,
                -0x1_0000_0000_0000_0000_0000_0000_0000 <= n <= 0x1_0000_0000_0000_0000_0000_0000_0000;
    }
    -q
}

} // verus!
