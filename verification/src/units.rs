//! Units, shared constants, and the exact-arithmetic helpers the camera
//! pipeline is built on.
//!
//! World positions are stored in *subpixel* units: `SUBPIXEL` subpixel units
//! make one world unit. `SUBPIXEL` is `2 * 840 * 840`, where `840` is the
//! least common multiple of the zoom factors `1..=8`, so dividing a pixel
//! distance by a zoom factor, or a zoom correction by `2 * z0 * z1`, always
//! lands exactly on a subpixel unit.

use vstd::prelude::*;
use vstd::arithmetic::div_mod::lemma_fundamental_div_mod;
use vstd::arithmetic::div_mod::lemma_fundamental_div_mod_converse;

verus! {

/// Subpixel units per world unit: `2 * 840 * 840`, with `840 = lcm(1..=8)`.
pub const SUBPIXEL: i64 = 1_411_200;

/// Half of `SUBPIXEL`: `840 * 840`.
pub const HALF_SUBPIXEL: i64 = 705_600;

/// Least common multiple of all admissible zoom factors.
pub const ZOOM_LCM: i64 = 840;

/// Largest admissible zoom factor; zoom factors are integers in
/// `1..=ZOOM_LIMIT`.
pub const ZOOM_LIMIT: i64 = 8;

/// The far-plane value is this base scaled by the current zoom factor.
pub const BASE_FAR: i64 = 1000;

/// Keyboard pan speed along a single axis, in world units per frame.
pub const KEY_STEP: i64 = 10;

/// Keyboard pan speed per axis when both axes are active, in world units
/// per frame: the axis step scaled by roughly `1 / sqrt(2)`, held exactly
/// at 7 so diagonal movement stays on subpixel units.
pub const KEY_DIAG: i64 = 7;

/// Largest viewport dimension and cursor coordinate, in pixels.
pub const SCREEN_LIMIT: i64 = 100_000;

/// Largest camera translation or bound coordinate magnitude, in subpixel
/// units (`2^55`, about `2.5 * 10^10` world units). The limit leaves each
/// frame's arithmetic comfortably inside `i64`.
pub const TRANS_LIMIT: i64 = 0x80_0000_0000_0000;

/// Magnitude every stage's output translation stays under when its input
/// was within `TRANS_LIMIT`: `TRANS_LIMIT` plus `2^48` of headroom, far
/// more than any single frame can add.
pub const STAGE_LIMIT: i64 = 0x81_0000_0000_0000;

/// Clamping of an integer to an inclusive range.
pub open spec fn clamp_int(x: int, lo: int, hi: int) -> int {
    if x < lo {
        lo
    } else if x > hi {
        hi
    } else {
        x
    }
}

/// Every admissible zoom factor divides `ZOOM_LCM`.
pub proof fn lemma_zoom_divides_lcm(z: int)
    requires
        1 <= z <= ZOOM_LIMIT,
    ensures
        ZOOM_LCM as int % z == 0,
{
    if z == 1 {
    } else if z == 2 {
    } else if z == 3 {
    } else if z == 4 {
    } else if z == 5 {
    } else if z == 6 {
    } else if z == 7 {
    } else {
        assert(z == 8);
    }
}

/// The product of two admissible zoom factors divides `HALF_SUBPIXEL`.
pub proof fn lemma_zoom_pair_divides(z0: int, z1: int)
    requires
        1 <= z0 <= ZOOM_LIMIT,
        1 <= z1 <= ZOOM_LIMIT,
    ensures
        HALF_SUBPIXEL as int % (z0 * z1) == 0,
{
    lemma_zoom_divides_lcm(z0);
    lemma_zoom_divides_lcm(z1);
    lemma_fundamental_div_mod(ZOOM_LCM as int, z0);
    lemma_fundamental_div_mod(ZOOM_LCM as int, z1);
    let k0 = ZOOM_LCM as int / z0;
    let k1 = ZOOM_LCM as int / z1;
    assert(ZOOM_LCM == z0 * k0);
    assert(ZOOM_LCM == z1 * k1);
    assert(k0 >= 1 && k1 >= 1) by (nonlinear_arith)
        requires
            z0 * k0 == 840,
            z1 * k1 == 840,
            1 <= z0 <= 8,
            1 <= z1 <= 8,
    ;
    assert(HALF_SUBPIXEL == (k0 * k1) * (z0 * z1)) by (nonlinear_arith)
        requires
            z0 * k0 == 840,
            z1 * k1 == 840,
            HALF_SUBPIXEL == 705_600,
    ;
    assert(0 <= z0 * z1) by (nonlinear_arith)
        requires
            1 <= z0,
            1 <= z1,
    ;
    lemma_fundamental_div_mod_converse(
        HALF_SUBPIXEL as int,
        z0 * z1,
        k0 * k1,
        0,
    );
}

/// Every admissible zoom factor divides `SUBPIXEL`.
pub proof fn lemma_zoom_divides_subpixel(z: int)
    requires
        1 <= z <= ZOOM_LIMIT,
    ensures
        SUBPIXEL as int % z == 0,
{
    lemma_zoom_divides_lcm(z);
    lemma_fundamental_div_mod(ZOOM_LCM as int, z);
    let k = ZOOM_LCM as int / z;
    assert(ZOOM_LCM == z * k);
    assert(SUBPIXEL == (k * 1680) * z && 0 <= k * 1680) by (nonlinear_arith)
        requires
            z * k == 840,
            1 <= z <= 8,
            SUBPIXEL == 1_411_200,
    ;
    lemma_fundamental_div_mod_converse(SUBPIXEL as int, z, k * 1680, 0);
}

/// Exact division: when `d` divides `x`, the quotient multiplied back gives
/// `x` again.
pub proof fn lemma_div_exact(x: int, d: int)
    requires
        0 < d,
        x % d == 0,
    ensures
        (x / d) * d == x,
{
    lemma_fundamental_div_mod(x, d);
    assert(d * (x / d) == (x / d) * d) by (nonlinear_arith);
}

/// Floor division by a positive divisor (the quotient rounds toward
/// negative infinity, matching mathematical integer division).
pub fn floor_div(a: i64, d: i64) -> (q: i64)
    requires
        0 < d,
        -0x4000_0000_0000_0000 <= a <= 0x4000_0000_0000_0000,
        d <= 0x4000_0000_0000_0000,
    ensures
        q == a as int / d as int,
{
    proof {
        lemma_fundamental_div_mod(a as int, d as int);
        vstd::arithmetic::div_mod::lemma_mod_bound(a as int, d as int);
        let qi = a as int / d as int;
        let r = a as int % d as int;
        assert(a == d * qi + r);
        assert(i64::MIN < qi <= i64::MAX) by (nonlinear_arith)
            requires
                a == d * qi + r,
                0 <= r < d,
                0 < d <= 0x4000_0000_0000_0000,
                -0x4000_0000_0000_0000 <= a <= 0x4000_0000_0000_0000,
        ;
    }
    match a.checked_div_euclid(d) {
        Some(q) => q,
        None => {
            proof {
                assert(false);
            }
            0
        },
    }
}

} // verus!
