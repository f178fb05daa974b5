use vstd::prelude::*;
use vstd::arithmetic::div_mod::{lemma_fundamental_div_mod, lemma_fundamental_div_mod_converse};

verus! {

/// Magnitude bound on the operands of `floor_div`.
pub const ARITH_LIMIT: i128 = 0x1_0000_0000_0000_0000_0000_0000_0000;

/// `v / d` rounded toward negative infinity.
pub fn floor_div(v: i128, d: i128) -> (q: i128)
    requires
        0 < d <= ARITH_LIMIT,
        -ARITH_LIMIT <= v <= ARITH_LIMIT,
    ensures
        q == v as int / d as int,
        -ARITH_LIMIT <= q <= ARITH_LIMIT,
{
    if v >= 0 {
        let q = ((v as u128) / (d as u128)) as i128;
        assert(q <= v) by (nonlinear_arith)
            requires
                q == v as int / d as int,
                0 <= v,
                0 < d,
        ;
        q
    } else {
        let n = (-v) as u128;
        let du = d as u128;
        let c = (n + du - 1) / du;
        proof {
            let x = n + du - 1;
            lemma_fundamental_div_mod(x as int, du as int);
            assert(c <= x) by (nonlinear_arith)
                requires
                    c == x as int / du as int,
                    0 <= x,
                    0 < du,
            ;
            assert(c <= n) by (nonlinear_arith)
                requires
                    du * c <= n + du - 1,
                    du >= 1,
                    n >= 1,
            ;
            let rem = du * c - n;
            assert(0 <= rem < du);
            assert(v == (-c) * d + rem) by (nonlinear_arith)
                requires
                    rem == du * c - n,
                    n == -v,
                    du == d,
            ;
            lemma_fundamental_div_mod_converse(v as int, d as int, -(c as int), rem);
        }
        -(c as i128)
    }
}

/// The remainder of `v` by `m`, in `[0, m)`.
pub fn floor_mod(v: i128, m: i128) -> (r: i128)
    requires
        0 < m <= ARITH_LIMIT,
        -ARITH_LIMIT <= v <= ARITH_LIMIT,
    ensures
        r == v as int % m as int,
        0 <= r < m,
{
    let q = floor_div(v, m);
    proof {
        lemma_fundamental_div_mod(v as int, m as int);
        assert(-ARITH_LIMIT * ARITH_LIMIT <= q * m <= ARITH_LIMIT * ARITH_LIMIT) by (nonlinear_arith)
            requires
                -ARITH_LIMIT <= q <= ARITH_LIMIT,
                0 < m <= ARITH_LIMIT,
        ;
    }
    v - q * m
}

} // verus!
