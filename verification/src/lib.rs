//! A verified 2D viewport camera controller for tile-based worlds.
//!
//! The controller owns a camera's position, zoom factor, and world-bounds
//! clamping, driven by pointer, wheel, and keyboard input once per frame.
//! Each frame runs three stages in strict order:
//!
//! 1. update: wheel zoom anchored at the cursor, drag panning against a
//!    captured anchor, and keyboard panning;
//! 2. clamp: pull the visible rectangle back inside the optional world
//!    bounds, centering on an axis the viewport cannot fit;
//! 3. align: snap the translation down to whole world units.
//!
//! All coordinates are exact: world positions are held in subpixel units
//! (fixed multiples of `1 / SUBPIXEL` of a world unit) and zoom factors are
//! small integers, so every quantity the pipeline computes — pan deltas
//! divided by the zoom factor, cursor-anchored zoom corrections, bound
//! midpoints — is an integer with no rounding anywhere but the final
//! alignment stage.

pub mod align;
pub mod camera;
pub mod clamp;
pub mod input;
pub mod pipeline;
pub mod units;
pub mod update;

pub use units::SUBPIXEL;
pub use units::ZOOM_LIMIT;
