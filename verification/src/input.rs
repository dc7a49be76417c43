//! Per-frame input, aggregated once for all cameras sharing a frame.
//!
//! The surrounding application drains its event queues each tick and reduces
//! them to this record: wheel events are summed, cursor events keep only the
//! latest position, button and key state is sampled. The pipeline consumes
//! the record; it never reads a device directly.

use vstd::prelude::*;
use crate::camera::Vec2i;
use crate::camera::Vec2View;
use crate::units::SCREEN_LIMIT;

verus! {

/// One frame's aggregated input.
#[derive(Clone, Copy, Debug)]
pub struct FrameInput {
    /// Summed vertical wheel delta this frame, in whole notches.
    pub wheel: i64,
    /// The pointer's position in window pixels, if the window knows it;
    /// `None` when the pointer is unknown (outside the window, or never
    /// seen).
    pub cursor: Option<Vec2i>,
    /// Whether the pan (right) mouse button is currently held.
    pub pan_held: bool,
    /// Directional key state.
    pub key_left: bool,
    pub key_right: bool,
    pub key_up: bool,
    pub key_down: bool,
}

/// Mathematical view of a `FrameInput`.
pub ghost struct InputView {
    pub wheel: int,
    pub cursor: Option<Vec2View>,
    pub pan_held: bool,
    pub key_left: bool,
    pub key_right: bool,
    pub key_up: bool,
    pub key_down: bool,
}

impl View for FrameInput {
    type V = InputView;

    open spec fn view(&self) -> InputView {
        InputView {
            wheel: self.wheel as int,
            cursor: match self.cursor {
                Some(p) => Some(p@),
                None => None,
            },
            pan_held: self.pan_held,
            key_left: self.key_left,
            key_right: self.key_right,
            key_up: self.key_up,
            key_down: self.key_down,
        }
    }
}

impl InputView {
    /// A reported cursor position is a plausible pixel coordinate.
    pub open spec fn wf(self) -> bool {
        match self.cursor {
            Some(p) => 0 <= p.x <= SCREEN_LIMIT && 0 <= p.y <= SCREEN_LIMIT,
            None => true,
        }
    }
}

/// The primary viewport's pixel dimensions.
#[derive(Clone, Copy, PartialEq, Eq, Structural, Debug)]
pub struct Viewport {
    pub width: i64,
    pub height: i64,
}

/// Mathematical view of a `Viewport`.
pub ghost struct ViewportView {
    pub width: int,
    pub height: int,
}

impl View for Viewport {
    type V = ViewportView;

    open spec fn view(&self) -> ViewportView {
        ViewportView { width: self.width as int, height: self.height as int }
    }
}

impl ViewportView {
    /// A viewport has positive dimensions of a plausible pixel size.
    pub open spec fn wf(self) -> bool {
        &&& 0 < self.width <= SCREEN_LIMIT
        &&& 0 < self.height <= SCREEN_LIMIT
    }
}

} // verus!
