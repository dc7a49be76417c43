//! Stage two of the frame: pull the camera's visible rectangle back inside
//! its world bounds.
//!
//! Each axis is corrected independently and identically. When both viewport
//! edges fit inside the bound the axis is untouched; when the viewport is
//! at least as wide as the bound (which covers the case of both edges
//! violating at once) the axis center snaps to the bound's midpoint; when
//! exactly one edge violates, the center shifts by that edge's overshoot,
//! leaving the opposite margin unchanged. The correction is idempotent:
//! clamping a clamped translation changes nothing.

use vstd::prelude::*;
use crate::camera::CamView;
use crate::camera::Free2DCamera;
use crate::camera::Vec2View;
use crate::input::Viewport;
use crate::input::ViewportView;
use crate::units::floor_div;
use crate::units::lemma_div_exact;
use crate::units::lemma_zoom_pair_divides;
use crate::units::HALF_SUBPIXEL;
use crate::units::STAGE_LIMIT;
use crate::units::SUBPIXEL;
use crate::units::TRANS_LIMIT;
use crate::units::ZOOM_LIMIT;

verus! {

/// Half the visible world-space span on one axis at zoom factor `z`, in
/// subpixel units: exactly `screen / (2 * z)` world units (see
/// `lemma_half_extent_exact`). The division is exact because `z` divides
/// `HALF_SUBPIXEL`.
pub open spec fn half_extent(screen: int, z: int) -> int {
    screen * (HALF_SUBPIXEL as int / z)
}

/// The clamped center position on one axis: `t` is the axis center, `h`
/// the viewport's half-extent, `[lo, hi]` the bound.
pub open spec fn clamp_axis(t: int, h: int, lo: int, hi: int) -> int {
    if lo <= t - h && t + h <= hi {
        t
    } else if 2 * h >= hi - lo {
        (lo + hi) / 2
    } else if t - h < lo {
        lo + h
    } else {
        hi - h
    }
}

/// Stage two on views: with no bounds the camera is untouched; with bounds
/// each translation axis is clamped against its bound edges using the
/// viewport's half-extent at the current zoom.
pub open spec fn spec_clamp_camera(c: CamView, vp: ViewportView) -> CamView {
    match c.bounds {
        None => c,
        Some(b) => CamView {
            translation: Vec2View {
                x: clamp_axis(
                    c.translation.x,
                    half_extent(vp.width, c.current_zoom),
                    b.left,
                    b.right,
                ),
                y: clamp_axis(
                    c.translation.y,
                    half_extent(vp.height, c.current_zoom),
                    b.bottom,
                    b.top,
                ),
            },
            ..c
        },
    }
}

/// The half-extent is the exact rational span: multiplied by `2 * z` it
/// equals `screen * SUBPIXEL`, that is, `screen / (2 * z)` world units with
/// no rounding.
pub proof fn lemma_half_extent_exact(screen: int, z: int)
    requires
        1 <= z <= ZOOM_LIMIT,
    ensures
        half_extent(screen, z) * 2 * z == screen * (SUBPIXEL as int),
{
    lemma_zoom_pair_divides(z, 1);
    assert(HALF_SUBPIXEL as int % z == 0);
    lemma_div_exact(HALF_SUBPIXEL as int, z);
    let q = HALF_SUBPIXEL as int / z;
    assert((screen * q) * 2 * z == screen * (2 * (q * z))) by (nonlinear_arith);
}

/// Clamping is idempotent on each axis: re-running the correction with the
/// same half-extent and bound changes nothing.
pub proof fn lemma_clamp_axis_idempotent(t: int, h: int, lo: int, hi: int)
    requires
        0 <= h,
        lo <= hi,
    ensures
        clamp_axis(clamp_axis(t, h, lo, hi), h, lo, hi) == clamp_axis(t, h, lo, hi),
{
}

/// The centering tie-break: whenever the viewport's span is at least the
/// bound's span on an axis (in particular whenever the half-extent exceeds
/// the whole span), the clamped center is the bound's midpoint, regardless
/// of the starting translation.
pub proof fn lemma_clamp_axis_centers(t: int, h: int, lo: int, hi: int)
    requires
        0 <= h,
        lo <= hi,
        2 * h >= hi - lo,
    ensures
        clamp_axis(t, h, lo, hi) == (lo + hi) / 2,
{
}

/// Clamping really clamps: when the bound can contain the viewport, the
/// clamped viewport lies fully inside the bound; otherwise the center sits
/// on the bound's midpoint.
pub proof fn lemma_clamp_axis_contains(t: int, h: int, lo: int, hi: int)
    requires
        0 <= h,
        lo <= hi,
    ensures
        2 * h <= hi - lo ==> {
            let r = clamp_axis(t, h, lo, hi);
            lo <= r - h && r + h <= hi
        },
        2 * h >= hi - lo ==> clamp_axis(t, h, lo, hi) == (lo + hi) / 2,
{
    if 2 * h <= hi - lo && 2 * h >= hi - lo {
        assert(2 * h == hi - lo);
        assert(lo + hi == 2 * (lo + h));
        assert((lo + hi) / 2 == lo + h);
    }
}

/// After the clamp stage, on each axis the camera's visible rectangle is
/// either fully inside the bounds or — when the viewport cannot fit on
/// that axis — centered on the bound's midpoint. With no bounds the camera
/// is untouched.
pub proof fn lemma_clamp_camera_contains(c: CamView, vp: ViewportView)
    requires
        c.wf(),
        vp.wf(),
    ensures
        match c.bounds {
            Some(b) => {
                let r = spec_clamp_camera(c, vp);
                let hx = half_extent(vp.width, c.current_zoom);
                let hy = half_extent(vp.height, c.current_zoom);
                &&& (b.left <= r.translation.x - hx && r.translation.x + hx <= b.right)
                    || r.translation.x == (b.left + b.right) / 2
                &&& (b.bottom <= r.translation.y - hy && r.translation.y + hy <= b.top)
                    || r.translation.y == (b.bottom + b.top) / 2
            },
            None => spec_clamp_camera(c, vp) == c,
        },
{
    match c.bounds {
        None => {},
        Some(b) => {
            let z = c.current_zoom;
            lemma_zoom_pair_divides(z, 1);
            vstd::arithmetic::div_mod::lemma_div_pos_is_pos(HALF_SUBPIXEL as int, z);
            let q = HALF_SUBPIXEL as int / z;
            assert(0 <= vp.width * q && 0 <= vp.height * q) by (nonlinear_arith)
                requires
                    0 <= q,
                    0 < vp.width,
                    0 < vp.height,
            ;
            lemma_clamp_axis_contains(c.translation.x, half_extent(vp.width, z), b.left, b.right);
            lemma_clamp_axis_contains(c.translation.y, half_extent(vp.height, z), b.bottom, b.top);
        },
    }
}

/// Stage two is idempotent on whole cameras.
pub proof fn lemma_clamp_camera_idempotent(c: CamView, vp: ViewportView)
    requires
        c.wf(),
        vp.wf(),
    ensures
        spec_clamp_camera(spec_clamp_camera(c, vp), vp) == spec_clamp_camera(c, vp),
{
    match c.bounds {
        None => {},
        Some(b) => {
            let z = c.current_zoom;
            lemma_zoom_pair_divides(z, 1);
            vstd::arithmetic::div_mod::lemma_div_pos_is_pos(HALF_SUBPIXEL as int, z);
            let q = HALF_SUBPIXEL as int / z;
            assert(0 <= vp.width * q && 0 <= vp.height * q) by (nonlinear_arith)
                requires
                    0 <= q,
                    0 < vp.width,
                    0 < vp.height,
            ;
            lemma_clamp_axis_idempotent(c.translation.x, half_extent(vp.width, z), b.left, b.right);
            lemma_clamp_axis_idempotent(
                c.translation.y,
                half_extent(vp.height, z),
                b.bottom,
                b.top,
            );
        },
    }
}

/// Exec counterpart of `clamp_axis`.
pub fn apply_clamp_axis(t: i64, h: i64, lo: i64, hi: i64) -> (r: i64)
    requires
        0 <= h <= 0x20_0000_0000,
        -TRANS_LIMIT <= lo <= hi <= TRANS_LIMIT,
        -STAGE_LIMIT + SUBPIXEL <= t <= STAGE_LIMIT - SUBPIXEL,
    ensures
        r == clamp_axis(t as int, h as int, lo as int, hi as int),
        -STAGE_LIMIT + SUBPIXEL <= r <= STAGE_LIMIT - SUBPIXEL,
{
    if lo <= t - h && t + h <= hi {
        t
    } else if 2 * h >= hi - lo {
        floor_div(lo + hi, 2)
    } else if t - h < lo {
        lo + h
    } else {
        hi - h
    }
}

impl Free2DCamera {
    /// Stage two of the frame for one camera: corrects the translation so
    /// the visible viewport stays within (or best-fits) the camera's world
    /// bounds, exactly as `spec_clamp_camera` describes. With no bounds set
    /// this changes nothing.
    pub fn clamp(&mut self, viewport: Viewport)
        requires
            old(self)@.wf(),
            viewport@.wf(),
            -STAGE_LIMIT + SUBPIXEL <= old(self)@.translation.x <= STAGE_LIMIT - SUBPIXEL,
            -STAGE_LIMIT + SUBPIXEL <= old(self)@.translation.y <= STAGE_LIMIT - SUBPIXEL,
        ensures
            final(self)@ == spec_clamp_camera(old(self)@, viewport@),
            final(self)@.wf(),
            -STAGE_LIMIT + SUBPIXEL <= final(self)@.translation.x <= STAGE_LIMIT - SUBPIXEL,
            -STAGE_LIMIT + SUBPIXEL <= final(self)@.translation.y <= STAGE_LIMIT - SUBPIXEL,
    {
        let ghost c0 = self@;
        match self.bounds {
            None => {},
            Some(b) => {
                let q = floor_div(HALF_SUBPIXEL, self.current_zoom);
                proof {
                    lemma_zoom_pair_divides(self.current_zoom as int, 1);
                    lemma_div_exact(HALF_SUBPIXEL as int, self.current_zoom as int);
                    assert(0 <= q <= HALF_SUBPIXEL) by (nonlinear_arith)
                        requires
                            (q as int) * (self.current_zoom as int) == HALF_SUBPIXEL as int,
                            1 <= self.current_zoom as int,
                            HALF_SUBPIXEL == 705_600i64,
                    ;
                    assert(0 <= (viewport.width as int) * (q as int) <= 70_560_000_000)
                        by (nonlinear_arith)
                        requires
                            0 < viewport.width as int <= 100_000,
                            0 <= q as int <= 705_600,
                    ;
                    assert(0 <= (viewport.height as int) * (q as int) <= 70_560_000_000)
                        by (nonlinear_arith)
                        requires
                            0 < viewport.height as int <= 100_000,
                            0 <= q as int <= 705_600,
                    ;
                }
                let hx = viewport.width * q;
                let hy = viewport.height * q;
                let tx = apply_clamp_axis(self.translation.x, hx, b.left, b.right);
                let ty = apply_clamp_axis(self.translation.y, hy, b.bottom, b.top);
                self.translation.x = tx;
                self.translation.y = ty;
            },
        }
        assert(self@ == spec_clamp_camera(c0, viewport@));
    }
}

} // verus!
