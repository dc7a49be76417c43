use camera2d::camera::Free2DCamera;
use camera2d::camera::Vec2i;
use camera2d::camera::ZoomRange;
use camera2d::input::FrameInput;
use camera2d::input::Viewport;
use camera2d::units::SUBPIXEL;

fn world(units: i64) -> i64 {
    units * SUBPIXEL
}

fn quiet_input() -> FrameInput {
    FrameInput {
        wheel: 0,
        cursor: None,
        pan_held: false,
        key_left: false,
        key_right: false,
        key_up: false,
        key_down: false,
    }
}

fn ranged_camera() -> Free2DCamera {
    Free2DCamera::new(1).with_scale_range(ZoomRange { min: 1, max: 4 })
}

const SCREEN: Viewport = Viewport { width: 800, height: 600 };

#[test]
fn zoom_at_exact_center_leaves_translation_unchanged() {
    let mut cam = ranged_camera().with_translation(Vec2i { x: world(12), y: world(-8) }, 0);
    let center = Vec2i { x: 400, y: 300 };
    let input = FrameInput { wheel: 1, cursor: Some(center), ..quiet_input() };
    cam.update(&input, center, SCREEN);
    assert_eq!(cam.translation.x, world(12));
    assert_eq!(cam.translation.y, world(-8));
    assert_eq!(cam.current_zoom, 2);

    let input = FrameInput { wheel: -1, cursor: Some(center), ..quiet_input() };
    cam.update(&input, center, SCREEN);
    assert_eq!(cam.translation.x, world(12));
    assert_eq!(cam.translation.y, world(-8));
    assert_eq!(cam.current_zoom, 1);
}

#[test]
fn zoom_off_center_keeps_world_point_under_cursor() {
    // Cursor 200 px right of center; zooming 1 -> 2 shifts the camera by
    // (cursor - screen/2) * (1/1 - 1/2) = 200 * 1/2 = 100 world units.
    let mut cam = ranged_camera();
    let cursor = Vec2i { x: 600, y: 300 };
    let input = FrameInput { wheel: 1, cursor: Some(cursor), ..quiet_input() };
    cam.update(&input, cursor, SCREEN);
    assert_eq!(cam.current_zoom, 2);
    assert_eq!(cam.translation.x, world(100));
    assert_eq!(cam.translation.y, 0);
}

#[test]
fn zoom_clamps_to_range_ends() {
    let mut cam = ranged_camera();
    let input = FrameInput { wheel: 1_000_000, cursor: None, ..quiet_input() };
    cam.update(&input, Vec2i { x: 400, y: 300 }, SCREEN);
    assert_eq!(cam.current_zoom, 4);

    let input = FrameInput { wheel: -1_000_000, cursor: None, ..quiet_input() };
    cam.update(&input, Vec2i { x: 400, y: 300 }, SCREEN);
    assert_eq!(cam.current_zoom, 1);
}

#[test]
fn zoom_sequence_stays_within_levels() {
    let mut cam = ranged_camera();
    let deltas = vec![3, -1, -7, 2, 2, 2, 2, -3, 9, 0, -2];
    for d in deltas {
        let input = FrameInput { wheel: d, cursor: None, ..quiet_input() };
        cam.update(&input, Vec2i { x: 400, y: 300 }, SCREEN);
        assert!(1 <= cam.current_zoom && cam.current_zoom <= 4);
    }
}

#[test]
fn zoom_updates_far_plane() {
    let mut cam = ranged_camera();
    let input = FrameInput { wheel: 2, cursor: None, ..quiet_input() };
    cam.update(&input, Vec2i { x: 400, y: 300 }, SCREEN);
    assert_eq!(cam.current_zoom, 3);
    assert_eq!(cam.far_plane, 3000);
}

#[test]
fn zero_wheel_changes_nothing_about_zoom() {
    let mut cam = ranged_camera().with_translation(Vec2i { x: world(1), y: world(2) }, 0);
    cam.update(&quiet_input(), Vec2i { x: 0, y: 0 }, SCREEN);
    assert_eq!(cam.current_zoom, 1);
    assert_eq!(cam.far_plane, 1000);
    assert_eq!(cam.translation.x, world(1));
    assert_eq!(cam.translation.y, world(2));
}

#[test]
fn unknown_cursor_zooms_without_translation_shift() {
    let mut cam = ranged_camera().with_translation(Vec2i { x: world(5), y: world(5) }, 0);
    let input = FrameInput { wheel: 1, cursor: None, ..quiet_input() };
    cam.update(&input, Vec2i { x: 123, y: 456 }, SCREEN);
    assert_eq!(cam.current_zoom, 2);
    assert_eq!(cam.translation.x, world(5));
    assert_eq!(cam.translation.y, world(5));
}

#[test]
fn drag_press_captures_anchor_without_moving() {
    let mut cam = ranged_camera().with_translation(Vec2i { x: world(50), y: 0 }, 0);
    let p0 = Vec2i { x: 100, y: 100 };
    let input = FrameInput { pan_held: true, cursor: Some(p0), ..quiet_input() };
    cam.update(&input, p0, SCREEN);
    assert_eq!(cam.translation.x, world(50));
    assert_eq!(cam.translation.y, 0);
    let anchor = cam.drag_origin.expect("anchor captured");
    assert_eq!(anchor.cursor, p0);
    assert_eq!(anchor.camera, Vec2i { x: world(50), y: 0 });
}

#[test]
fn drag_moves_translation_by_cursor_delta_over_zoom() {
    // Zoom 2: translation == C0 + (P0 - P1) / 2.
    let mut cam = Free2DCamera::new(2)
        .with_scale_range(ZoomRange { min: 1, max: 4 })
        .with_translation(Vec2i { x: world(50), y: 0 }, 0);
    let p0 = Vec2i { x: 100, y: 100 };
    let press = FrameInput { pan_held: true, cursor: Some(p0), ..quiet_input() };
    cam.update(&press, p0, SCREEN);

    let p1 = Vec2i { x: 60, y: 80 };
    let hold = FrameInput { pan_held: true, cursor: Some(p1), ..quiet_input() };
    cam.update(&hold, p1, SCREEN);
    assert_eq!(cam.translation.x, world(50) + world(40) / 2);
    assert_eq!(cam.translation.y, world(20) / 2);
}

#[test]
fn drag_release_clears_anchor_and_repress_starts_fresh() {
    let mut cam = ranged_camera().with_translation(Vec2i { x: world(50), y: 0 }, 0);
    let p0 = Vec2i { x: 100, y: 100 };
    let press = FrameInput { pan_held: true, cursor: Some(p0), ..quiet_input() };
    cam.update(&press, p0, SCREEN);
    let p1 = Vec2i { x: 90, y: 100 };
    let hold = FrameInput { pan_held: true, cursor: Some(p1), ..quiet_input() };
    cam.update(&hold, p1, SCREEN);
    assert_eq!(cam.translation.x, world(60));

    let release = FrameInput { pan_held: false, cursor: Some(p1), ..quiet_input() };
    cam.update(&release, p1, SCREEN);
    assert!(cam.drag_origin.is_none());

    // Re-pressing at a new cursor position resets the anchor: the camera
    // does not move, and the new anchor is the current state, not the old.
    let p2 = Vec2i { x: 10, y: 10 };
    let press2 = FrameInput { pan_held: true, cursor: Some(p2), ..quiet_input() };
    cam.update(&press2, p2, SCREEN);
    assert_eq!(cam.translation.x, world(60));
    let anchor = cam.drag_origin.expect("anchor captured");
    assert_eq!(anchor.cursor, p2);
    assert_eq!(anchor.camera, Vec2i { x: world(60), y: 0 });
}

#[test]
fn keyboard_pans_ten_world_units_per_axis() {
    let mut cam = ranged_camera();
    let input = FrameInput { key_right: true, ..quiet_input() };
    cam.update(&input, Vec2i { x: 0, y: 0 }, SCREEN);
    assert_eq!(cam.translation.x, world(10));
    assert_eq!(cam.translation.y, 0);

    let input = FrameInput { key_down: true, ..quiet_input() };
    cam.update(&input, Vec2i { x: 0, y: 0 }, SCREEN);
    assert_eq!(cam.translation.x, world(10));
    assert_eq!(cam.translation.y, world(-10));
}

#[test]
fn opposing_keys_cancel() {
    let mut cam = ranged_camera();
    let input = FrameInput { key_left: true, key_right: true, key_up: true, ..quiet_input() };
    cam.update(&input, Vec2i { x: 0, y: 0 }, SCREEN);
    assert_eq!(cam.translation.x, 0);
    assert_eq!(cam.translation.y, world(10));
}

#[test]
fn diagonal_keys_use_the_diagonal_step() {
    let mut cam = ranged_camera();
    let input = FrameInput { key_right: true, key_up: true, ..quiet_input() };
    cam.update(&input, Vec2i { x: 0, y: 0 }, SCREEN);
    assert_eq!(cam.translation.x, world(7));
    assert_eq!(cam.translation.y, world(7));
}

#[test]
fn keyboard_applies_after_drag_resolution() {
    let mut cam = ranged_camera();
    let p0 = Vec2i { x: 100, y: 100 };
    let press = FrameInput { pan_held: true, cursor: Some(p0), ..quiet_input() };
    cam.update(&press, p0, SCREEN);

    // Drag sets an absolute position, then the keyboard still nudges it.
    let p1 = Vec2i { x: 80, y: 100 };
    let hold = FrameInput { pan_held: true, cursor: Some(p1), key_up: true, ..quiet_input() };
    cam.update(&hold, p1, SCREEN);
    assert_eq!(cam.translation.x, world(20));
    assert_eq!(cam.translation.y, world(10));
}
