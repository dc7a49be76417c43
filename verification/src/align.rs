//! Stage three of the frame: snap the translation down to whole world
//! units.
//!
//! Snapping avoids sub-pixel shimmer when the transform is handed to the
//! renderer. It is the only place in the pipeline where anything is
//! rounded: each translation axis moves down to the nearest multiple of
//! `SUBPIXEL`, that is, to the floor of its world-unit value. The render
//! depth is never touched. The stage is idempotent and must run after the
//! clamp stage, so clamped values are what get aligned.

use vstd::prelude::*;
use vstd::arithmetic::div_mod::lemma_fundamental_div_mod;
use vstd::arithmetic::div_mod::lemma_mod_bound;
use vstd::arithmetic::div_mod::lemma_mod_multiples_basic;
use vstd::arithmetic::div_mod::lemma_div_multiples_vanish;
use crate::camera::CamView;
use crate::camera::Free2DCamera;
use crate::camera::Vec2View;
use crate::units::STAGE_LIMIT;
use crate::units::SUBPIXEL;
use crate::units::floor_div;

verus! {

/// The greatest multiple of `SUBPIXEL` at most `t`: the floor of `t` in
/// world units, expressed in subpixel units.
pub open spec fn align_floor(t: int) -> int {
    (t / (SUBPIXEL as int)) * (SUBPIXEL as int)
}

/// Stage three on views: each translation axis snaps down to a whole world
/// unit; depth and everything else are untouched.
pub open spec fn spec_align_camera(c: CamView) -> CamView {
    CamView {
        translation: Vec2View {
            x: align_floor(c.translation.x),
            y: align_floor(c.translation.y),
        },
        ..c
    }
}

/// `align_floor` really is the floor: the result is a whole world unit, at
/// most `t`, and less than one world unit below it; a value that is
/// already whole is left unchanged, so aligning is idempotent.
pub proof fn lemma_align_floor_is_floor(t: int)
    ensures
        align_floor(t) % (SUBPIXEL as int) == 0,
        t - (SUBPIXEL as int) < align_floor(t) <= t,
        t % (SUBPIXEL as int) == 0 ==> align_floor(t) == t,
        align_floor(align_floor(t)) == align_floor(t),
{
    let s = SUBPIXEL as int;
    let q = t / s;
    lemma_fundamental_div_mod(t, s);
    lemma_mod_bound(t, s);
    assert(q * s == t - t % s);
    lemma_mod_multiples_basic(q, s);
    lemma_div_multiples_vanish(q, s);
    assert((s * q) / s == q);
    assert(s * q == q * s);
}

impl Free2DCamera {
    /// Stage three of the frame for one camera: snaps `translation.x` and
    /// `translation.y` down to whole world units, exactly as
    /// `spec_align_camera` describes. The depth is untouched.
    pub fn align(&mut self)
        requires
            -STAGE_LIMIT + SUBPIXEL <= old(self)@.translation.x <= STAGE_LIMIT - SUBPIXEL,
            -STAGE_LIMIT + SUBPIXEL <= old(self)@.translation.y <= STAGE_LIMIT - SUBPIXEL,
        ensures
            final(self)@ == spec_align_camera(old(self)@),
            final(self)@.wf() == old(self)@.wf(),
            -STAGE_LIMIT <= final(self)@.translation.x <= STAGE_LIMIT,
            -STAGE_LIMIT <= final(self)@.translation.y <= STAGE_LIMIT,
    {
        let ghost c0 = self@;
        proof {
            lemma_align_floor_is_floor(c0.translation.x);
            lemma_align_floor_is_floor(c0.translation.y);
        }
        let qx = floor_div(self.translation.x, SUBPIXEL);
        let qy = floor_div(self.translation.y, SUBPIXEL);
        self.translation.x = qx * SUBPIXEL;
        self.translation.y = qy * SUBPIXEL;
        assert(self@ == spec_align_camera(c0));
    }
}

} // verus!
