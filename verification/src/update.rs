//! Stage one of the frame: translate raw per-frame input into a new zoom
//! factor and translation for one camera.
//!
//! Three steps run in order, each specified by a function on views:
//!
//! * wheel zoom, anchored at the cursor so the world point under it stays
//!   fixed (`spec_zoom_stage`);
//! * drag panning against the anchor captured when the pan button went
//!   down (`spec_drag_stage`);
//! * keyboard panning at a fixed speed (`spec_key_stage`).

use vstd::prelude::*;
use crate::camera::AnchorView;
use crate::camera::CamView;
use crate::camera::DragAnchor;
use crate::camera::Free2DCamera;
use crate::camera::Vec2View;
use crate::camera::Vec2i;
use crate::input::FrameInput;
use crate::input::InputView;
use crate::input::Viewport;
use crate::input::ViewportView;
use crate::units::clamp_int;
use crate::units::floor_div;
use crate::units::lemma_div_exact;
use crate::units::lemma_zoom_divides_subpixel;
use crate::units::lemma_zoom_pair_divides;
use crate::units::BASE_FAR;
use crate::units::HALF_SUBPIXEL;
use crate::units::KEY_DIAG;
use crate::units::KEY_STEP;
use crate::units::SCREEN_LIMIT;
use crate::units::STAGE_LIMIT;
use crate::units::SUBPIXEL;
use crate::units::ZOOM_LIMIT;

verus! {

/// The zoom factor after one wheel event: the old factor plus the summed
/// wheel delta, clamped to the admissible range.
pub open spec fn next_zoom(z: int, wheel: int, lo: int, hi: int) -> int {
    clamp_int(z + wheel, lo, hi)
}

/// The translation correction, in subpixel units, that keeps the world
/// point under the cursor fixed while the zoom factor moves from `z0` to
/// `z1`, on one axis: exactly `(cursor - screen/2) * (1/z0 - 1/z1)` world
/// units (see `lemma_zoom_shift_exact`). The division is exact because
/// `z0 * z1` divides `HALF_SUBPIXEL`.
pub open spec fn zoom_shift(cursor: int, screen: int, z0: int, z1: int) -> int {
    (2 * cursor - screen) * (z1 - z0) * (HALF_SUBPIXEL as int / (z0 * z1))
}

/// The pan offset, in subpixel units, from the anchored cursor position to
/// the current one, on one axis: exactly `(anchor - cursor) / z` world
/// units (see `lemma_drag_shift_exact`). The division is exact because `z`
/// divides `SUBPIXEL`.
pub open spec fn drag_shift(anchor: int, cursor: int, z: int) -> int {
    (anchor - cursor) * (SUBPIXEL as int / z)
}

/// Direction on one axis from a pair of opposing keys; opposing keys
/// cancel.
pub open spec fn key_axis(neg: bool, pos: bool) -> int {
    (if pos {
        1int
    } else {
        0int
    }) - (if neg {
        1int
    } else {
        0int
    })
}

/// Keyboard pan step on one axis, in subpixel units, given this axis's
/// direction and the other axis's: a full step alone, a diagonal step when
/// both axes move.
pub open spec fn key_step(dir: int, other: int) -> int {
    if dir == 0 {
        0
    } else if other == 0 {
        dir * (KEY_STEP as int) * (SUBPIXEL as int)
    } else {
        dir * (KEY_DIAG as int) * (SUBPIXEL as int)
    }
}

/// Step one, wheel zoom: when the summed wheel delta is nonzero, clamp the
/// new zoom factor to the admissible range, shift the translation so the
/// world point under the cursor stays fixed (no shift when the cursor is
/// unknown: the default is the exact viewport center, whose correction is
/// zero), and recompute the far plane. A zero delta leaves the camera
/// untouched.
pub open spec fn spec_zoom_stage(
    c: CamView,
    wheel: int,
    cursor: Option<Vec2View>,
    vp: ViewportView,
) -> CamView {
    if wheel == 0 {
        c
    } else {
        let z1 = next_zoom(c.current_zoom, wheel, c.zoom_levels.min, c.zoom_levels.max);
        let dx = match cursor {
            Some(p) => zoom_shift(p.x, vp.width, c.current_zoom, z1),
            None => 0,
        };
        let dy = match cursor {
            Some(p) => zoom_shift(p.y, vp.height, c.current_zoom, z1),
            None => 0,
        };
        CamView {
            translation: Vec2View { x: c.translation.x + dx, y: c.translation.y + dy },
            current_zoom: z1,
            far_plane: (BASE_FAR as int) * z1,
            ..c
        }
    }
}

/// Step two, drag panning: releasing the pan button clears the anchor;
/// holding it with no anchor captures one (the cursor and the camera
/// position as they are now — a capture, not a movement); holding it with
/// an anchor recomputes the translation absolutely from the anchor and the
/// screen-space cursor delta divided by the zoom factor.
pub open spec fn spec_drag_stage(c: CamView, pan_held: bool, last_cursor: Vec2View) -> CamView {
    if !pan_held {
        CamView { drag_origin: None, ..c }
    } else {
        match c.drag_origin {
            Some(a) => CamView {
                translation: Vec2View {
                    x: a.camera.x + drag_shift(a.cursor.x, last_cursor.x, c.current_zoom),
                    y: a.camera.y + drag_shift(a.cursor.y, last_cursor.y, c.current_zoom),
                },
                ..c
            },
            None => CamView {
                drag_origin: Some(AnchorView { cursor: last_cursor, camera: c.translation }),
                ..c
            },
        }
    }
}

/// Step three, keyboard panning: add the directional step on each axis;
/// it applies whether or not a drag is active.
pub open spec fn spec_key_stage(
    c: CamView,
    left: bool,
    right: bool,
    up: bool,
    down: bool,
) -> CamView {
    let dx = key_axis(left, right);
    let dy = key_axis(down, up);
    CamView {
        translation: Vec2View {
            x: c.translation.x + key_step(dx, dy),
            y: c.translation.y + key_step(dy, dx),
        },
        ..c
    }
}

/// The whole update stage: zoom, then drag, then keyboard, in that order.
/// `last_cursor` is the last cursor position the pipeline has seen,
/// already refreshed with this frame's cursor event if there was one.
pub open spec fn spec_update_camera(
    c: CamView,
    input: InputView,
    last_cursor: Vec2View,
    vp: ViewportView,
) -> CamView {
    spec_key_stage(
        spec_drag_stage(spec_zoom_stage(c, input.wheel, input.cursor, vp), input.pan_held, last_cursor),
        input.key_left,
        input.key_right,
        input.key_up,
        input.key_down,
    )
}

/// The zoom correction is the exact rational correction: multiplied by
/// `z0 * z1` it equals `(2*cursor - screen) * (z1 - z0) * HALF_SUBPIXEL`,
/// that is, `(cursor - screen/2) * (1/z0 - 1/z1)` world units with no
/// rounding.
pub proof fn lemma_zoom_shift_exact(cursor: int, screen: int, z0: int, z1: int)
    requires
        1 <= z0 <= ZOOM_LIMIT,
        1 <= z1 <= ZOOM_LIMIT,
    ensures
        zoom_shift(cursor, screen, z0, z1) * (z0 * z1) == (2 * cursor - screen) * (z1 - z0) * (
        HALF_SUBPIXEL as int),
{
    lemma_zoom_pair_divides(z0, z1);
    assert(0 < z0 * z1) by (nonlinear_arith)
        requires
            1 <= z0,
            1 <= z1,
    ;
    lemma_div_exact(HALF_SUBPIXEL as int, z0 * z1);
    let q = HALF_SUBPIXEL as int / (z0 * z1);
    assert(((2 * cursor - screen) * (z1 - z0) * q) * (z0 * z1) == (2 * cursor - screen) * (z1 - z0)
        * (q * (z0 * z1))) by (nonlinear_arith);
}

/// The drag offset is the exact rational offset: multiplied by `z` it
/// equals `(anchor - cursor) * SUBPIXEL`, that is, `(anchor - cursor) / z`
/// world units with no rounding.
pub proof fn lemma_drag_shift_exact(anchor: int, cursor: int, z: int)
    requires
        1 <= z <= ZOOM_LIMIT,
    ensures
        drag_shift(anchor, cursor, z) * z == (anchor - cursor) * (SUBPIXEL as int),
{
    lemma_zoom_divides_subpixel(z);
    lemma_div_exact(SUBPIXEL as int, z);
    let k = SUBPIXEL as int / z;
    assert(((anchor - cursor) * k) * z == (anchor - cursor) * (k * z)) by (nonlinear_arith);
}

/// Zoom clamp invariant, one frame: the update stage keeps the zoom factor
/// inside the camera's admissible range — a nonzero wheel delta clamps the
/// new factor into the range, a zero delta leaves it untouched — and never
/// changes the configuration, the bounds, or the depth.
pub proof fn lemma_update_zoom_in_levels(
    c: CamView,
    input: InputView,
    last_cursor: Vec2View,
    vp: ViewportView,
)
    requires
        c.zoom_wf(),
    ensures
        ({
            let c1 = spec_update_camera(c, input, last_cursor, vp);
            &&& c1.zoom_wf()
            &&& c1.zoom_levels == c.zoom_levels
            &&& c1.bounds == c.bounds
            &&& c1.depth == c.depth
        }),
{
}

/// The drag anchor exists exactly while the pan button is held: any frame
/// with the button up clears it (a release is never missed), and any frame
/// with the button down leaves one captured.
pub proof fn lemma_drag_origin_tracks_pan(
    c: CamView,
    input: InputView,
    last_cursor: Vec2View,
    vp: ViewportView,
)
    ensures
        !input.pan_held ==> spec_update_camera(c, input, last_cursor, vp).drag_origin is None,
        input.pan_held ==> spec_update_camera(c, input, last_cursor, vp).drag_origin is Some,
{
}

/// Cursor-anchored zoom, centered cursor: when the cursor sits on the
/// exact viewport center and the frame carries nothing but wheel input,
/// the update stage leaves the translation unchanged — the position
/// correction of a center-anchored zoom is zero.
pub proof fn lemma_center_anchored_zoom(
    c: CamView,
    input: InputView,
    last_cursor: Vec2View,
    vp: ViewportView,
)
    requires
        c.zoom_wf(),
        !input.pan_held,
        !input.key_left,
        !input.key_right,
        !input.key_up,
        !input.key_down,
        match input.cursor {
            Some(p) => 2 * p.x == vp.width && 2 * p.y == vp.height,
            None => false,
        },
    ensures
        spec_update_camera(c, input, last_cursor, vp).translation == c.translation,
{
    match input.cursor {
        Some(p) => {
            if input.wheel != 0 {
                let z0 = c.current_zoom;
                let z1 = next_zoom(z0, input.wheel, c.zoom_levels.min, c.zoom_levels.max);
                let q = HALF_SUBPIXEL as int / (z0 * z1);
                assert((2 * p.x - vp.width) * (z1 - z0) * q == 0) by (nonlinear_arith)
                    requires
                        2 * p.x - vp.width == 0,
                ;
                assert((2 * p.y - vp.height) * (z1 - z0) * q == 0) by (nonlinear_arith)
                    requires
                        2 * p.y - vp.height == 0,
                ;
            }
        },
        None => {
            assert(false);
        },
    }
}

/// Drag round-trip: pressing pan at cursor `p0` captures an anchor without
/// moving the camera; with the cursor at `p1` on the next held frame the
/// translation is exactly the anchored position plus `(p0 - p1) / zoom`
/// world units; releasing clears the anchor; pressing again at `p2`
/// captures a fresh anchor at the camera's current position, with no drift
/// from the old anchor. All four frames carry no wheel or key input.
pub proof fn lemma_drag_round_trip(
    c: CamView,
    p0: Vec2View,
    p1: Vec2View,
    p2: Vec2View,
    vp: ViewportView,
)
    requires
        c.zoom_wf(),
        c.drag_origin is None,
    ensures
        ({
            let press0 = InputView {
                wheel: 0,
                cursor: Some(p0),
                pan_held: true,
                key_left: false,
                key_right: false,
                key_up: false,
                key_down: false,
            };
            let press1 = InputView { cursor: Some(p1), ..press0 };
            let release = InputView { cursor: Some(p1), pan_held: false, ..press0 };
            let press2 = InputView { cursor: Some(p2), ..press0 };
            let c1 = spec_update_camera(c, press0, p0, vp);
            let c2 = spec_update_camera(c1, press1, p1, vp);
            let c3 = spec_update_camera(c2, release, p1, vp);
            let c4 = spec_update_camera(c3, press2, p2, vp);
            &&& c1.translation == c.translation
            &&& c1.drag_origin == Some(AnchorView { cursor: p0, camera: c.translation })
            &&& c2.translation.x == c.translation.x + drag_shift(p0.x, p1.x, c.current_zoom)
            &&& c2.translation.y == c.translation.y + drag_shift(p0.y, p1.y, c.current_zoom)
            &&& (c2.translation.x - c.translation.x) * c.current_zoom == (p0.x - p1.x) * (
            SUBPIXEL as int)
            &&& (c2.translation.y - c.translation.y) * c.current_zoom == (p0.y - p1.y) * (
            SUBPIXEL as int)
            &&& c3.drag_origin is None
            &&& c4.translation == c3.translation
            &&& c4.drag_origin == Some(AnchorView { cursor: p2, camera: c3.translation })
        }),
{
    lemma_drag_shift_exact(p0.x, p1.x, c.current_zoom);
    lemma_drag_shift_exact(p0.y, p1.y, c.current_zoom);
}

impl Free2DCamera {
    /// Stage one of the frame for one camera. Consumes this frame's
    /// aggregated input and the pipeline's last known cursor position and
    /// produces the new raw zoom and translation, exactly as
    /// `spec_update_camera` describes.
    pub fn update(&mut self, input: &FrameInput, last_cursor: Vec2i, viewport: Viewport)
        requires
            old(self)@.wf(),
            old(self)@.in_range(),
            input@.wf(),
            viewport@.wf(),
            0 <= last_cursor@.x <= SCREEN_LIMIT,
            0 <= last_cursor@.y <= SCREEN_LIMIT,
        ensures
            final(self)@ == spec_update_camera(old(self)@, input@, last_cursor@, viewport@),
            final(self)@.wf(),
            -STAGE_LIMIT + SUBPIXEL <= final(self)@.translation.x <= STAGE_LIMIT - SUBPIXEL,
            -STAGE_LIMIT + SUBPIXEL <= final(self)@.translation.y <= STAGE_LIMIT - SUBPIXEL,
    {
        let ghost c0 = self@;

        // Step one: wheel zoom.
        if input.wheel != 0 {
            let z0 = self.current_zoom;
            let z1 = if input.wheel >= 0 {
                if input.wheel >= self.zoom_levels.max - z0 {
                    self.zoom_levels.max
                } else {
                    z0 + input.wheel
                }
            } else {
                if input.wheel <= self.zoom_levels.min - z0 {
                    self.zoom_levels.min
                } else {
                    z0 + input.wheel
                }
            };
            assert(z1 == next_zoom(c0.current_zoom, input@.wheel, c0.zoom_levels.min,
                    c0.zoom_levels.max));
            proof {
                assert(1 <= z0 as int <= ZOOM_LIMIT as int);
                assert(1 <= z1 as int <= ZOOM_LIMIT as int);
                assert(1 <= (z0 as int) * (z1 as int) <= 64) by (nonlinear_arith)
                    requires
                        1 <= z0 as int <= 8,
                        1 <= z1 as int <= 8,
                ;
            }
            let q = floor_div(HALF_SUBPIXEL, z0 * z1);
            proof {
                lemma_zoom_pair_divides(z0 as int, z1 as int);
                lemma_div_exact(HALF_SUBPIXEL as int, (z0 as int) * (z1 as int));
                assert(0 <= q <= HALF_SUBPIXEL) by (nonlinear_arith)
                    requires
                        (q as int) * ((z0 as int) * (z1 as int)) == HALF_SUBPIXEL as int,
                        1 <= z0 as int,
                        1 <= z1 as int,
                        HALF_SUBPIXEL == 705_600i64,
                ;
            }
            match input.cursor {
                Some(p) => {
                    let offx = 2 * p.x - viewport.width;
                    let offy = 2 * p.y - viewport.height;
                    let dz = z1 - z0;
                    proof {
                        assert(-200_000 <= offx as int <= 200_000);
                        assert(-200_000 <= offy as int <= 200_000);
                        assert(-7 <= dz as int <= 7);
                        assert(-1_400_000 <= (offx as int) * (dz as int) <= 1_400_000)
                            by (nonlinear_arith)
                            requires
                                -200_000 <= offx as int <= 200_000,
                                -7 <= dz as int <= 7,
                        ;
                        assert(-1_400_000 <= (offy as int) * (dz as int) <= 1_400_000)
                            by (nonlinear_arith)
                            requires
                                -200_000 <= offy as int <= 200_000,
                                -7 <= dz as int <= 7,
                        ;
                    }
                    let mx = offx * dz;
                    let my = offy * dz;
                    proof {
                        assert(-987_840_000_000 <= (mx as int) * (q as int) <= 987_840_000_000)
                            by (nonlinear_arith)
                            requires
                                -1_400_000 <= mx as int <= 1_400_000,
                                0 <= q as int <= 705_600,
                        ;
                        assert(-987_840_000_000 <= (my as int) * (q as int) <= 987_840_000_000)
                            by (nonlinear_arith)
                            requires
                                -1_400_000 <= my as int <= 1_400_000,
                                0 <= q as int <= 705_600,
                        ;
                    }
                    let sx = mx * q;
                    let sy = my * q;
                    self.translation.x = self.translation.x + sx;
                    self.translation.y = self.translation.y + sy;
                },
                None => {},
            }
            self.current_zoom = z1;
            self.far_plane = BASE_FAR * z1;
        }
        let ghost c1 = spec_zoom_stage(c0, input@.wheel, input@.cursor, viewport@);
        assert(self@ == c1);

        // Step two: drag panning.
        if input.pan_held {
            match self.drag_origin {
                Some(anchor) => {
                    let k = floor_div(SUBPIXEL, self.current_zoom);
                    proof {
                        lemma_zoom_divides_subpixel(self.current_zoom as int);
                        lemma_div_exact(SUBPIXEL as int, self.current_zoom as int);
                        assert(0 <= k <= SUBPIXEL) by (nonlinear_arith)
                            requires
                                (k as int) * (self.current_zoom as int) == SUBPIXEL as int,
                                1 <= self.current_zoom as int,
                                SUBPIXEL == 1_411_200i64,
                        ;
                    }
                    let dx = anchor.cursor.x - last_cursor.x;
                    let dy = anchor.cursor.y - last_cursor.y;
                    proof {
                        assert(-141_120_000_000 <= (dx as int) * (k as int) <= 141_120_000_000)
                            by (nonlinear_arith)
                            requires
                                -100_000 <= dx as int <= 100_000,
                                0 <= k as int <= 1_411_200,
                        ;
                        assert(-141_120_000_000 <= (dy as int) * (k as int) <= 141_120_000_000)
                            by (nonlinear_arith)
                            requires
                                -100_000 <= dy as int <= 100_000,
                                0 <= k as int <= 1_411_200,
                        ;
                    }
                    self.translation.x = anchor.camera.x + dx * k;
                    self.translation.y = anchor.camera.y + dy * k;
                },
                None => {
                    self.drag_origin = Some(
                        DragAnchor { cursor: last_cursor, camera: self.translation },
                    );
                },
            }
        } else {
            self.drag_origin = None;
        }
        let ghost c2 = spec_drag_stage(c1, input@.pan_held, last_cursor@);
        assert(self@ == c2);

        // Step three: keyboard panning.
        let kx: i64 = (if input.key_right {
            1
        } else {
            0
        }) - (if input.key_left {
            1
        } else {
            0
        });
        let ky: i64 = (if input.key_up {
            1
        } else {
            0
        }) - (if input.key_down {
            1
        } else {
            0
        });
        let sx: i64 = if kx == 0 {
            0
        } else if ky == 0 {
            kx * (KEY_STEP * SUBPIXEL)
        } else {
            kx * (KEY_DIAG * SUBPIXEL)
        };
        let sy: i64 = if ky == 0 {
            0
        } else if kx == 0 {
            ky * (KEY_STEP * SUBPIXEL)
        } else {
            ky * (KEY_DIAG * SUBPIXEL)
        };
        self.translation.x = self.translation.x + sx;
        self.translation.y = self.translation.y + sy;
        assert(self@ == spec_key_stage(c2, input@.key_left, input@.key_right, input@.key_up,
                input@.key_down));
    }
}

} // verus!
