//! The parts of a globe's specification that concern its grid: the
//! resolution of its root quads and of its chunks.
use vstd::prelude::*;

use super::chunk_origin::lemma_round_down;
use crate::GridCoord;

verus! {

/// Integer division of `a` by a positive `b`, rounding towards zero as
/// Rust's `/` does.
pub open spec fn div_toward_zero(a: int, b: int) -> int {
    if a >= 0 {
        a / b
    } else {
        -((-a) / b)
    }
}

/// Rounding towards zero gives back `a` after multiplying by `b` exactly
/// when `b` divides `a`; the product is never further from zero than `a`.
proof fn lemma_div_toward_zero(a: int, b: int)
    requires
        b > 0,
    ensures
        (div_toward_zero(a, b) * b == a) <==> (a % b == 0),
        a >= 0 ==> 0 <= div_toward_zero(a, b) * b <= a,
        a < 0 ==> a <= div_toward_zero(a, b) * b <= 0,
{
    if a >= 0 {
        lemma_round_down(a, b);
    } else {
        lemma_round_down(-a, b);
        let q = (-a) / b;
        assert(-q * b == -(q * b)) by (nonlinear_arith);
        vstd::arithmetic::div_mod::lemma_mod_multiples_vanish(0, a, b);
        if (-a) % b == 0 {
            vstd::arithmetic::div_mod::lemma_fundamental_div_mod_converse(a, b, -q, 0);
        }
        if a % b == 0 {
            vstd::arithmetic::div_mod::lemma_fundamental_div_mod(a, b);
            let k = a / b;
            assert(-a == (-k) * b) by (nonlinear_arith)
                requires
                    a == b * k,
            ;
            vstd::arithmetic::div_mod::lemma_fundamental_div_mod_converse(-a, b, -k, 0);
        }
    }
}

/// How many chunks fit along each side of a root quad, assuming the chunk
/// resolution divides the root resolution.
pub fn chunks_per_root_side(root_resolution: [GridCoord; 2], chunk_resolution: [GridCoord; 3]) -> (c: [GridCoord; 2])
    requires
        chunk_resolution[0] > 0,
        chunk_resolution[1] > 0,
    ensures
        c[0] == div_toward_zero(root_resolution[0] as int, chunk_resolution[0] as int),
        c[1] == div_toward_zero(root_resolution[1] as int, chunk_resolution[1] as int),
{
    [root_resolution[0] / chunk_resolution[0], root_resolution[1] / chunk_resolution[1]]
}

/// Whether a globe with these resolutions is valid: the chunk resolution
/// divides perfectly into the root resolution, and root quads are exactly
/// twice as long in the y-direction as in the x-direction.
pub open spec fn is_valid_resolution(root_resolution: [GridCoord; 2], chunk_resolution: [GridCoord; 3]) -> bool {
    &&& root_resolution[0] % chunk_resolution[0] == 0
    &&& root_resolution[1] % chunk_resolution[1] == 0
    &&& root_resolution[1] == 2 * root_resolution[0]
}

/// Checks that a globe with these resolutions is valid; see
/// `is_valid_resolution`.
pub fn is_valid(root_resolution: [GridCoord; 2], chunk_resolution: [GridCoord; 3]) -> (b: bool)
    requires
        chunk_resolution[0] > 0,
        chunk_resolution[1] > 0,
        i64::MIN <= root_resolution[0] * 2 <= i64::MAX,
    ensures
        b == is_valid_resolution(root_resolution, chunk_resolution),
{
    // Chunk resolution needs to divide perfectly into root resolution.
    let cprs = chunks_per_root_side(root_resolution, chunk_resolution);
    proof {
        lemma_div_toward_zero(root_resolution[0] as int, chunk_resolution[0] as int);
        lemma_div_toward_zero(root_resolution[1] as int, chunk_resolution[1] as int);
    }
    let calculated_root_resolution = [cprs[0] * chunk_resolution[0], cprs[1] * chunk_resolution[1]];
    if calculated_root_resolution[0] != root_resolution[0] || calculated_root_resolution[1] != root_resolution[1] {
        return false;
    }

    // Root resolution needs to be exactly twice in the y-direction
    // that it is in the x-direction.
    if root_resolution[1] != root_resolution[0] * 2 {
        return false;
    }

    true
}

} // verus!
