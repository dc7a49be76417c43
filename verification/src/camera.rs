//! The per-viewport camera record and its mathematical model.
//!
//! `Free2DCamera` is the persistent state the three pipeline stages operate
//! on: a translation in subpixel units, a render depth, the authoritative
//! zoom factor with its admissible range, optional world bounds, the
//! transient drag anchor, and the derived far-plane value. Its ghost view
//! (`CamView`) carries the same fields over unbounded integers; every stage
//! is specified as a function on views.

use vstd::prelude::*;
use crate::units::BASE_FAR;
use crate::units::SCREEN_LIMIT;
use crate::units::TRANS_LIMIT;
use crate::units::ZOOM_LIMIT;

verus! {

/// A two-component integer vector; components are pixels or subpixel units
/// depending on context.
#[derive(Clone, Copy, PartialEq, Eq, Structural, Debug)]
pub struct Vec2i {
    pub x: i64,
    pub y: i64,
}

/// Mathematical view of a `Vec2i`.
pub ghost struct Vec2View {
    pub x: int,
    pub y: int,
}

impl View for Vec2i {
    type V = Vec2View;

    open spec fn view(&self) -> Vec2View {
        Vec2View { x: self.x as int, y: self.y as int }
    }
}

/// A world-space axis-aligned rectangle in subpixel units, the limit the
/// visible viewport must stay within.
#[derive(Clone, Copy, PartialEq, Eq, Structural, Debug)]
pub struct Rect {
    pub left: i64,
    pub right: i64,
    pub bottom: i64,
    pub top: i64,
}

/// Mathematical view of a `Rect`.
pub ghost struct RectView {
    pub left: int,
    pub right: int,
    pub bottom: int,
    pub top: int,
}

impl View for Rect {
    type V = RectView;

    open spec fn view(&self) -> RectView {
        RectView {
            left: self.left as int,
            right: self.right as int,
            bottom: self.bottom as int,
            top: self.top as int,
        }
    }
}

impl RectView {
    /// A rectangle is well-formed when each axis's low edge is at most its
    /// high edge and every coordinate is within the translation limit.
    pub open spec fn wf(self) -> bool {
        &&& self.left <= self.right
        &&& self.bottom <= self.top
        &&& -TRANS_LIMIT <= self.left
        &&& self.right <= TRANS_LIMIT
        &&& -TRANS_LIMIT <= self.bottom
        &&& self.top <= TRANS_LIMIT
    }
}

/// The inclusive range of admissible zoom factors for one camera.
#[derive(Clone, Copy, PartialEq, Eq, Structural, Debug)]
pub struct ZoomRange {
    pub min: i64,
    pub max: i64,
}

/// Mathematical view of a `ZoomRange`.
pub ghost struct ZoomRangeView {
    pub min: int,
    pub max: int,
}

impl View for ZoomRange {
    type V = ZoomRangeView;

    open spec fn view(&self) -> ZoomRangeView {
        ZoomRangeView { min: self.min as int, max: self.max as int }
    }
}

/// The pair captured when a pan gesture starts: the cursor position (in
/// pixels) and the camera translation (in subpixel units) at that moment.
/// Pan deltas are computed against this anchor, independent of per-frame
/// motion noise.
#[derive(Clone, Copy, PartialEq, Eq, Structural, Debug)]
pub struct DragAnchor {
    pub cursor: Vec2i,
    pub camera: Vec2i,
}

/// Mathematical view of a `DragAnchor`.
pub ghost struct AnchorView {
    pub cursor: Vec2View,
    pub camera: Vec2View,
}

impl View for DragAnchor {
    type V = AnchorView;

    open spec fn view(&self) -> AnchorView {
        AnchorView { cursor: self.cursor@, camera: self.camera@ }
    }
}

/// One camera's persistent state.
#[derive(Clone, Copy, Debug)]
pub struct Free2DCamera {
    /// World-space position the viewport is centered on, in subpixel units.
    pub translation: Vec2i,
    /// Render-order depth; preserved by every stage.
    pub depth: i64,
    /// The authoritative zoom factor; the render scale is its reciprocal.
    pub current_zoom: i64,
    /// Immutable configuration: the admissible zoom factors.
    pub zoom_levels: ZoomRange,
    /// Optional world-space limit the visible viewport must stay within,
    /// in subpixel units; `None` means unconstrained.
    pub bounds: Option<Rect>,
    /// Transient state, present only while the pan button is held.
    pub drag_origin: Option<DragAnchor>,
    /// Derived depth-sorting value, recomputed whenever the zoom changes:
    /// `BASE_FAR * current_zoom`.
    pub far_plane: i64,
}

/// Mathematical view of a `Free2DCamera`.
pub ghost struct CamView {
    pub translation: Vec2View,
    pub depth: int,
    pub current_zoom: int,
    pub zoom_levels: ZoomRangeView,
    pub bounds: Option<RectView>,
    pub drag_origin: Option<AnchorView>,
    pub far_plane: int,
}

impl View for Free2DCamera {
    type V = CamView;

    open spec fn view(&self) -> CamView {
        CamView {
            translation: self.translation@,
            depth: self.depth as int,
            current_zoom: self.current_zoom as int,
            zoom_levels: self.zoom_levels@,
            bounds: match self.bounds {
                Some(r) => Some(r@),
                None => None,
            },
            drag_origin: match self.drag_origin {
                Some(a) => Some(a@),
                None => None,
            },
            far_plane: self.far_plane as int,
        }
    }
}

impl CamView {
    /// The zoom invariant alone: the zoom factor sits inside its admissible
    /// range, which itself sits inside `1..=ZOOM_LIMIT`.
    pub open spec fn zoom_wf(self) -> bool {
        &&& 1 <= self.zoom_levels.min
        &&& self.zoom_levels.min <= self.current_zoom
        &&& self.current_zoom <= self.zoom_levels.max
        &&& self.zoom_levels.max <= ZOOM_LIMIT
    }

    /// Structural invariant of a camera: the zoom invariant holds; the
    /// far plane matches the zoom; the bounds rectangle, if any, is
    /// well-formed; a captured anchor's cursor is a plausible pixel
    /// position.
    pub open spec fn wf(self) -> bool {
        &&& self.zoom_wf()
        &&& self.far_plane == BASE_FAR * self.current_zoom
        &&& match self.bounds {
            Some(b) => b.wf(),
            None => true,
        }
        &&& match self.drag_origin {
            Some(a) => {
                &&& 0 <= a.cursor.x <= SCREEN_LIMIT
                &&& 0 <= a.cursor.y <= SCREEN_LIMIT
            },
            None => true,
        }
    }

    /// Magnitude bound under which one frame's arithmetic stays inside
    /// `i64`: the translation and any captured anchor position are within
    /// the translation limit. A caller that lets the camera drift past the
    /// limit must stop feeding it input.
    pub open spec fn in_range(self) -> bool {
        &&& -TRANS_LIMIT <= self.translation.x <= TRANS_LIMIT
        &&& -TRANS_LIMIT <= self.translation.y <= TRANS_LIMIT
        &&& match self.drag_origin {
            Some(a) => {
                &&& -TRANS_LIMIT <= a.camera.x <= TRANS_LIMIT
                &&& -TRANS_LIMIT <= a.camera.y <= TRANS_LIMIT
            },
            None => true,
        }
    }
}

impl Free2DCamera {
    /// A camera at the world origin with a fixed zoom factor: the
    /// admissible range is the single factor given, there are no bounds,
    /// and no pan gesture is in progress.
    pub fn new(current_zoom: i64) -> (cam: Free2DCamera)
        requires
            1 <= current_zoom <= ZOOM_LIMIT,
        ensures
            cam@ == (CamView {
                translation: Vec2View { x: 0, y: 0 },
                depth: 0,
                current_zoom: current_zoom as int,
                zoom_levels: ZoomRangeView {
                    min: current_zoom as int,
                    max: current_zoom as int,
                },
                bounds: None,
                drag_origin: None,
                far_plane: BASE_FAR * current_zoom,
            }),
            cam@.wf(),
            cam@.in_range(),
    {
        Free2DCamera {
            translation: Vec2i { x: 0, y: 0 },
            depth: 0,
            current_zoom,
            zoom_levels: ZoomRange { min: current_zoom, max: current_zoom },
            bounds: None,
            drag_origin: None,
            far_plane: BASE_FAR * current_zoom,
        }
    }

    /// Replaces the admissible zoom range. The current zoom factor must lie
    /// inside the new range, which keeps the camera's invariant intact.
    pub fn with_scale_range(self, zoom_levels: ZoomRange) -> (cam: Free2DCamera)
        requires
            1 <= zoom_levels.min,
            zoom_levels.min <= self.current_zoom,
            self.current_zoom <= zoom_levels.max,
            zoom_levels.max <= ZOOM_LIMIT,
        ensures
            cam@ == (CamView { zoom_levels: zoom_levels@, ..self@ }),
    {
        Free2DCamera { zoom_levels, ..self }
    }

    /// Replaces the optional world bounds.
    pub fn with_limits(self, limits: Option<Rect>) -> (cam: Free2DCamera)
        requires
            match limits {
                Some(r) => r@.wf(),
                None => true,
            },
        ensures
            cam@ == (CamView {
                bounds: match limits {
                    Some(r) => Some(r@),
                    None => None,
                },
                ..self@
            }),
    {
        Free2DCamera { bounds: limits, ..self }
    }

    /// Places the camera: sets the translation (in subpixel units) and the
    /// render depth.
    pub fn with_translation(self, translation: Vec2i, depth: i64) -> (cam: Free2DCamera)
        ensures
            cam@ == (CamView {
                translation: translation@,
                depth: depth as int,
                ..self@
            }),
    {
        Free2DCamera { translation, depth, ..self }
    }
}

} // verus!
