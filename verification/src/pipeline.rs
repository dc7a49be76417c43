//! The per-frame pipeline over an owned collection of cameras.
//!
//! Three stages run once per frame, in strict order — update, clamp, align
//! — each a total function of the current frame's input and the cameras'
//! persisted state. Cameras are processed independently; no state is shared
//! between them but this frame's aggregated input. The pipeline also owns
//! the one piece of cross-frame input state: the last cursor position any
//! frame reported, which drag math needs even on frames without a cursor
//! event.
//!
//! The clamp and align stages run unconditionally every frame. Gating them
//! on change tracking (did the transform, the camera configuration, or the
//! window change this tick?) would only save work: both stages are
//! idempotent, so re-running them on settled state changes nothing.

use vstd::prelude::*;
use crate::align::spec_align_camera;
use crate::camera::CamView;
use crate::camera::Free2DCamera;
use crate::camera::Vec2View;
use crate::camera::Vec2i;
use crate::clamp::spec_clamp_camera;
use crate::input::FrameInput;
use crate::input::InputView;
use crate::input::Viewport;
use crate::input::ViewportView;
use crate::units::floor_div;
use crate::units::SCREEN_LIMIT;
use crate::units::STAGE_LIMIT;
use crate::units::SUBPIXEL;
use crate::update::lemma_update_zoom_in_levels;
use crate::update::spec_update_camera;

verus! {

/// The pipeline's persistent state: the cameras it drives and the last
/// cursor position it has seen.
pub struct CameraPipeline {
    pub cameras: Vec<Free2DCamera>,
    /// The last cursor position any frame reported, in pixels; initialized
    /// to the viewport center on first run and retained across frames with
    /// no cursor event.
    pub last_cursor: Vec2i,
}

/// Mathematical view of a `CameraPipeline`.
pub ghost struct PipelineView {
    pub cameras: Seq<CamView>,
    pub last_cursor: Vec2View,
}

impl View for CameraPipeline {
    type V = PipelineView;

    open spec fn view(&self) -> PipelineView {
        PipelineView {
            cameras: self.cameras@.map_values(|c: Free2DCamera| c@),
            last_cursor: self.last_cursor@,
        }
    }
}

/// The cursor position drag math uses this frame: this frame's cursor
/// event if there was one, else the last known position.
pub open spec fn spec_resolve_cursor(last: Vec2View, cursor: Option<Vec2View>) -> Vec2View {
    match cursor {
        Some(p) => p,
        None => last,
    }
}

/// Stage one over the whole pipeline: refresh the last known cursor, then
/// update every camera independently against the same input.
pub open spec fn spec_update_pipeline(
    p: PipelineView,
    input: InputView,
    vp: ViewportView,
) -> PipelineView {
    let lc = spec_resolve_cursor(p.last_cursor, input.cursor);
    PipelineView {
        cameras: p.cameras.map_values(|c: CamView| spec_update_camera(c, input, lc, vp)),
        last_cursor: lc,
    }
}

/// Stage two over the whole pipeline.
pub open spec fn spec_clamp_pipeline(p: PipelineView, vp: ViewportView) -> PipelineView {
    PipelineView { cameras: p.cameras.map_values(|c: CamView| spec_clamp_camera(c, vp)), ..p }
}

/// Stage three over the whole pipeline.
pub open spec fn spec_align_pipeline(p: PipelineView) -> PipelineView {
    PipelineView { cameras: p.cameras.map_values(|c: CamView| spec_align_camera(c)), ..p }
}

/// One whole frame for one camera: update, then clamp, then align.
pub open spec fn spec_frame_camera(
    c: CamView,
    input: InputView,
    lc: Vec2View,
    vp: ViewportView,
) -> CamView {
    spec_align_camera(spec_clamp_camera(spec_update_camera(c, input, lc, vp), vp))
}

/// One whole frame for the pipeline.
pub open spec fn spec_frame_pipeline(
    p: PipelineView,
    input: InputView,
    vp: ViewportView,
) -> PipelineView {
    spec_align_pipeline(spec_clamp_pipeline(spec_update_pipeline(p, input, vp), vp))
}

impl PipelineView {
    /// Every camera is well-formed and the remembered cursor is a
    /// plausible pixel position.
    pub open spec fn wf(self) -> bool {
        &&& forall|i: int|
            0 <= i < self.cameras.len() ==> (#[trigger] self.cameras[i]).wf()
        &&& 0 <= self.last_cursor.x <= SCREEN_LIMIT
        &&& 0 <= self.last_cursor.y <= SCREEN_LIMIT
    }

    /// Every camera's translation and anchor are within the translation
    /// limit, so a frame's arithmetic stays inside `i64`.
    pub open spec fn in_range(self) -> bool {
        forall|i: int| 0 <= i < self.cameras.len() ==> (#[trigger] self.cameras[i]).in_range()
    }

    /// Every camera's translation is within one stage's output magnitude.
    pub open spec fn staged(self) -> bool {
        forall|i: int|
            0 <= i < self.cameras.len() ==> {
                &&& -STAGE_LIMIT + SUBPIXEL <= (#[trigger] self.cameras[i]).translation.x
                    <= STAGE_LIMIT - SUBPIXEL
                &&& -STAGE_LIMIT + SUBPIXEL <= self.cameras[i].translation.y <= STAGE_LIMIT
                    - SUBPIXEL
            }
    }
}

impl CameraPipeline {
    /// An empty pipeline. The last known cursor position starts at the
    /// viewport center.
    pub fn new(viewport: Viewport) -> (p: CameraPipeline)
        requires
            viewport@.wf(),
        ensures
            p@.cameras.len() == 0,
            p@.last_cursor == (Vec2View { x: viewport@.width / 2, y: viewport@.height / 2 }),
            p@.wf(),
            p@.in_range(),
    {
        let cx = floor_div(viewport.width, 2);
        let cy = floor_div(viewport.height, 2);
        CameraPipeline { cameras: Vec::new(), last_cursor: Vec2i { x: cx, y: cy } }
    }

    /// Hands one more camera to the pipeline.
    pub fn add_camera(&mut self, cam: Free2DCamera)
        ensures
            final(self)@.cameras == old(self)@.cameras.push(cam@),
            final(self)@.last_cursor == old(self)@.last_cursor,
    {
        let ghost before = self@.cameras;
        self.cameras.push(cam);
        proof {
            assert(self.cameras@.map_values(|c: Free2DCamera| c@) =~= before.push(cam@));
        }
    }

    /// Stage one of the frame: refreshes the last known cursor position
    /// from this frame's input, then updates every camera, exactly as
    /// `spec_update_pipeline` describes.
    #[verifier::loop_isolation(false)]
    pub fn update_camera(&mut self, input: &FrameInput, viewport: Viewport)
        requires
            old(self)@.wf(),
            old(self)@.in_range(),
            input@.wf(),
            viewport@.wf(),
        ensures
            final(self)@ == spec_update_pipeline(old(self)@, input@, viewport@),
            final(self)@.wf(),
            final(self)@.staged(),
    {
        let ghost p0 = self@;
        match input.cursor {
            Some(p) => {
                self.last_cursor = p;
            },
            None => {},
        }
        let lc = self.last_cursor;
        assert(lc@ == spec_resolve_cursor(p0.last_cursor, input@.cursor));
        let ghost target = spec_update_pipeline(p0, input@, viewport@);
        let n = self.cameras.len();
        let mut i: usize = 0;
        while i < n
            invariant
                i <= n,
                self.cameras@.len() == n,
                self.last_cursor == lc,
                forall|j: int|
                    0 <= j < i ==> (#[trigger] self.cameras@[j])@ == target.cameras[j],
                forall|j: int|
                    0 <= j < i ==> {
                        &&& (#[trigger] self.cameras@[j])@.wf()
                        &&& -STAGE_LIMIT + SUBPIXEL <= self.cameras@[j]@.translation.x
                            <= STAGE_LIMIT - SUBPIXEL
                        &&& -STAGE_LIMIT + SUBPIXEL <= self.cameras@[j]@.translation.y
                            <= STAGE_LIMIT - SUBPIXEL
                    },
                forall|j: int|
                    i <= j < n ==> (#[trigger] self.cameras@[j])@ == p0.cameras[j],
            decreases n - i,
        {
            let cam = &mut self.cameras[i];
            proof {
                assert(cam@ == p0.cameras[i as int]);
            }
            cam.update(input, lc, viewport);
            i += 1;
        }
        proof {
            assert(self.cameras@.map_values(|c: Free2DCamera| c@) =~= target.cameras);
            assert forall|j: int| 0 <= j < n implies (#[trigger] self@.cameras[j]).wf() by {
            }
        }
    }

    /// Stage two of the frame: clamps every camera against its bounds,
    /// exactly as `spec_clamp_pipeline` describes.
    #[verifier::loop_isolation(false)]
    pub fn clamp_camera(&mut self, viewport: Viewport)
        requires
            old(self)@.wf(),
            old(self)@.staged(),
            viewport@.wf(),
        ensures
            final(self)@ == spec_clamp_pipeline(old(self)@, viewport@),
            final(self)@.wf(),
            final(self)@.staged(),
            final(self)@.last_cursor == old(self)@.last_cursor,
    {
        let ghost p0 = self@;
        let ghost target = spec_clamp_pipeline(p0, viewport@);
        let n = self.cameras.len();
        let mut i: usize = 0;
        while i < n
            invariant
                i <= n,
                self.cameras@.len() == n,
                self.last_cursor == old(self).last_cursor,
                forall|j: int|
                    0 <= j < i ==> (#[trigger] self.cameras@[j])@ == target.cameras[j],
                forall|j: int|
                    0 <= j < i ==> {
                        &&& (#[trigger] self.cameras@[j])@.wf()
                        &&& -STAGE_LIMIT + SUBPIXEL <= self.cameras@[j]@.translation.x
                            <= STAGE_LIMIT - SUBPIXEL
                        &&& -STAGE_LIMIT + SUBPIXEL <= self.cameras@[j]@.translation.y
                            <= STAGE_LIMIT - SUBPIXEL
                    },
                forall|j: int|
                    i <= j < n ==> (#[trigger] self.cameras@[j])@ == p0.cameras[j],
            decreases n - i,
        {
            let cam = &mut self.cameras[i];
            proof {
                assert(cam@ == p0.cameras[i as int]);
            }
            cam.clamp(viewport);
            i += 1;
        }
        proof {
            assert(self.cameras@.map_values(|c: Free2DCamera| c@) =~= target.cameras);
        }
    }

    /// Stage three of the frame: snaps every camera's translation down to
    /// whole world units, exactly as `spec_align_pipeline` describes.
    #[verifier::loop_isolation(false)]
    pub fn align_camera(&mut self)
        requires
            old(self)@.wf(),
            old(self)@.staged(),
        ensures
            final(self)@ == spec_align_pipeline(old(self)@),
            final(self)@.wf(),
            final(self)@.last_cursor == old(self)@.last_cursor,
    {
        let ghost p0 = self@;
        let ghost target = spec_align_pipeline(p0);
        let n = self.cameras.len();
        let mut i: usize = 0;
        while i < n
            invariant
                i <= n,
                self.cameras@.len() == n,
                self.last_cursor == old(self).last_cursor,
                forall|j: int|
                    0 <= j < i ==> (#[trigger] self.cameras@[j])@ == target.cameras[j],
                forall|j: int|
                    0 <= j < i ==> (#[trigger] self.cameras@[j])@.wf(),
                forall|j: int|
                    i <= j < n ==> (#[trigger] self.cameras@[j])@ == p0.cameras[j],
            decreases n - i,
        {
            let cam = &mut self.cameras[i];
            proof {
                assert(cam@ == p0.cameras[i as int]);
            }
            cam.align();
            i += 1;
        }
        proof {
            assert(self.cameras@.map_values(|c: Free2DCamera| c@) =~= target.cameras);
        }
    }

    /// One whole frame: update, clamp, align, in strict order. When the
    /// primary viewport cannot be resolved the whole frame is skipped and
    /// the stale state persists unchanged — a recoverable no-op, not an
    /// error.
    pub fn frame(&mut self, input: &FrameInput, viewport: Option<Viewport>)
        requires
            old(self)@.wf(),
            old(self)@.in_range(),
            input@.wf(),
            match viewport {
                Some(v) => v@.wf(),
                None => true,
            },
        ensures
            final(self)@ == match viewport {
                Some(v) => spec_frame_pipeline(old(self)@, input@, v@),
                None => old(self)@,
            },
            final(self)@.wf(),
    {
        match viewport {
            None => {},
            Some(vp) => {
                self.update_camera(input, vp);
                self.clamp_camera(vp);
                self.align_camera();
            },
        }
    }
}

/// Pixel alignment: after a whole frame, each translation axis equals the
/// floor of the value the clamp stage produced — a whole world unit — and
/// the render depth is exactly what it was before the frame.
pub proof fn lemma_frame_aligned(c: CamView, input: InputView, lc: Vec2View, vp: ViewportView)
    ensures
        ({
            let c1 = spec_frame_camera(c, input, lc, vp);
            &&& c1.translation.x % (SUBPIXEL as int) == 0
            &&& c1.translation.y % (SUBPIXEL as int) == 0
            &&& c1.translation == spec_align_camera(c1).translation
            &&& c1.depth == c.depth
        }),
{
    let before = spec_clamp_camera(
        spec_update_camera(c, input, lc, vp),
        vp,
    );
    crate::align::lemma_align_floor_is_floor(before.translation.x);
    crate::align::lemma_align_floor_is_floor(before.translation.y);
}

/// One recorded frame of input: what the pipeline consumes each tick.
pub ghost struct FrameEvent {
    pub input: InputView,
    pub viewport: ViewportView,
}

/// The pipeline state after consuming a sequence of frames, oldest first.
pub open spec fn run_frames(p: PipelineView, frames: Seq<FrameEvent>) -> PipelineView
    decreases frames.len(),
{
    if frames.len() == 0 {
        p
    } else {
        run_frames(
            spec_frame_pipeline(p, frames[0].input, frames[0].viewport),
            frames.subrange(1, frames.len() as int),
        )
    }
}

/// Zoom clamp invariant: for every sequence of frames — whatever wheel
/// deltas they carry — every camera's zoom factor stays within its
/// admissible range, and the range itself never changes.
pub proof fn lemma_zoom_stays_in_levels(p: PipelineView, frames: Seq<FrameEvent>, i: int)
    requires
        forall|j: int| 0 <= j < p.cameras.len() ==> (#[trigger] p.cameras[j]).zoom_wf(),
        0 <= i < p.cameras.len(),
    ensures
        ({
            let q = run_frames(p, frames);
            &&& q.cameras.len() == p.cameras.len()
            &&& q.cameras[i].zoom_wf()
            &&& q.cameras[i].zoom_levels == p.cameras[i].zoom_levels
        }),
    decreases frames.len(),
{
    if frames.len() == 0 {
    } else {
        let input = frames[0].input;
        let vp = frames[0].viewport;
        let lc = spec_resolve_cursor(p.last_cursor, input.cursor);
        let p1 = spec_frame_pipeline(p, input, vp);
        assert forall|j: int| 0 <= j < p1.cameras.len() implies {
            &&& (#[trigger] p1.cameras[j]).zoom_wf()
            &&& p1.cameras[j].zoom_levels == p.cameras[j].zoom_levels
        } by {
            lemma_update_zoom_in_levels(p.cameras[j], input, lc, vp);
        }
        lemma_zoom_stays_in_levels(p1, frames.subrange(1, frames.len() as int), i);
    }
}

} // verus!
