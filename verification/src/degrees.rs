//! Integer-degree angle bookkeeping.
//!
//! Orientations and edge directions are integer degrees, always normalized
//! into [0, 360).  Keeping this layer in exact integer arithmetic means a
//! chain of placements never accumulates rounding drift.

use vstd::arithmetic::div_mod::*;
use vstd::prelude::*;

verus! {

/// An angle reduced to [0, 360): the mathematical (Euclidean) remainder.
pub open spec fn norm360(x: int) -> int {
    x % 360
}

/// The normalized angle is in range.
pub proof fn lemma_norm360_range(x: int)
    ensures
        0 <= norm360(x) < 360,
{
    lemma_mod_bound(x, 360);
}

/// Normalizing keeps the residue modulo 36, the grid the tile shapes use.
pub proof fn lemma_norm360_mod36(x: int)
    ensures
        norm360(x) % 36 == x % 36,
{
    lemma_fundamental_div_mod(x, 360);
    let q = x / 360;
    assert(norm360(x) == 36 * (-10 * q) + x) by {
        lemma_fundamental_div_mod(x, 360);
    }
    lemma_mod_multiples_vanish(-10 * q, x, 36);
}

/// Normalizing one summand first does not change the normalized sum.
pub proof fn lemma_norm360_add(x: int, y: int)
    ensures
        norm360(norm360(x) + y) == norm360(x + y),
{
    lemma_add_mod_noop_right(y, x, 360);
    assert(norm360(x) + y == y + (x % 360));
}

/// Adding a multiple of 360 does not change the normalized angle.
pub proof fn lemma_norm360_vanish(n: int, x: int)
    ensures
        norm360(360 * n + x) == norm360(x),
{
    lemma_mod_multiples_vanish(n, x, 360);
}

/// The normalized angle is what the double-remainder idiom computes:
/// `((a % 360) + 360) % 360`, for every integer `a`.
pub proof fn lemma_norm360_formula(a: int)
    ensures
        norm360(a) == ((a % 360) + 360) % 360,
{
    lemma_mod_bound(a, 360);
    lemma_mod_add_multiples_vanish(a % 360, 360);
    lemma_small_mod((a % 360) as nat, 360);
}

/// Reduce an integer number of degrees into [0, 360).
pub fn norm_deg(v: i64) -> (r: i32)
    requires
        -8_000_000_000 <= v <= 8_000_000_000,
    ensures
        r == norm360(v as int),
        0 <= r < 360,
{
    let t: i64 = v + 12_960_000_000;
    proof {
        lemma_mod_multiples_vanish(36_000_000, v as int, 360);
        assert(360 * 36_000_000 + v == t);
        lemma_mod_bound(t as int, 360);
    }
    let m: i64 = t % 360;
    m as i32
}

} // verus!
