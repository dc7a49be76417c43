use camera2d::camera::Free2DCamera;
use camera2d::camera::Rect;
use camera2d::camera::Vec2i;
use camera2d::input::Viewport;
use camera2d::units::SUBPIXEL;

fn world(units: i64) -> i64 {
    units * SUBPIXEL
}

fn wide_bounds() -> Rect {
    Rect { left: world(-100), right: world(100), bottom: world(-50), top: world(50) }
}

#[test]
fn clamp_shifts_violating_high_edge_flush() {
    // Bounds x in [-100, 100], zoom 1, screen 100x50: half-extents 50x25.
    // Translation (90, 0): x edges [40, 140], 140 > 100, so the camera
    // shifts until the high edge is flush: x = 50. The y axis fits.
    let mut cam = Free2DCamera::new(1)
        .with_limits(Some(wide_bounds()))
        .with_translation(Vec2i { x: world(90), y: 0 }, 0);
    cam.clamp(Viewport { width: 100, height: 50 });
    assert_eq!(cam.translation.x, world(50));
    assert_eq!(cam.translation.y, 0);
}

#[test]
fn clamp_shifts_violating_low_edge_flush() {
    let mut cam = Free2DCamera::new(1)
        .with_limits(Some(wide_bounds()))
        .with_translation(Vec2i { x: world(-90), y: world(-40) }, 0);
    cam.clamp(Viewport { width: 100, height: 50 });
    assert_eq!(cam.translation.x, world(-50));
    assert_eq!(cam.translation.y, world(-25));
}

#[test]
fn clamp_without_bounds_is_a_no_op() {
    let mut cam = Free2DCamera::new(1).with_translation(Vec2i { x: world(9999), y: world(-9999) }, 0);
    cam.clamp(Viewport { width: 100, height: 50 });
    assert_eq!(cam.translation.x, world(9999));
    assert_eq!(cam.translation.y, world(-9999));
}

#[test]
fn clamp_inside_bounds_is_a_no_op() {
    let mut cam = Free2DCamera::new(1)
        .with_limits(Some(wide_bounds()))
        .with_translation(Vec2i { x: world(10), y: world(-20) }, 0);
    cam.clamp(Viewport { width: 100, height: 50 });
    assert_eq!(cam.translation.x, world(10));
    assert_eq!(cam.translation.y, world(-20));
}

#[test]
fn clamp_centers_when_viewport_cannot_fit() {
    // Bounds x in [10, 30] (span 20 world units); viewport half-extent 50:
    // the axis centers on the midpoint 20, wherever the camera started.
    let bounds = Rect { left: world(10), right: world(30), bottom: world(-50), top: world(50) };
    for start in [world(-500), 0, world(20), world(777)] {
        let mut cam = Free2DCamera::new(1)
            .with_limits(Some(bounds))
            .with_translation(Vec2i { x: start, y: 0 }, 0);
        cam.clamp(Viewport { width: 100, height: 50 });
        assert_eq!(cam.translation.x, world(20));
        assert_eq!(cam.translation.y, 0);
    }
}

#[test]
fn clamp_twice_equals_clamp_once() {
    let screens = [
        Viewport { width: 100, height: 50 },
        Viewport { width: 640, height: 480 },
        Viewport { width: 3, height: 7 },
    ];
    let starts = [
        Vec2i { x: world(90), y: world(49) },
        Vec2i { x: world(-400), y: world(400) },
        Vec2i { x: 1234567, y: -7654321 },
    ];
    for screen in screens {
        for start in starts {
            let mut once = Free2DCamera::new(1)
                .with_limits(Some(wide_bounds()))
                .with_translation(start, 0);
            once.clamp(screen);
            let mut twice = once;
            twice.clamp(screen);
            assert_eq!(once.translation, twice.translation);
        }
    }
}

#[test]
fn clamp_uses_half_extent_scaled_by_zoom() {
    // Zoom 2 halves the visible span: screen 100 wide sees 25 world units
    // to each side; at x = 90 the high edge is 115 > 100, shift to 75.
    let mut cam = Free2DCamera::new(2)
        .with_limits(Some(wide_bounds()))
        .with_translation(Vec2i { x: world(90), y: 0 }, 0);
    cam.clamp(Viewport { width: 100, height: 50 });
    assert_eq!(cam.translation.x, world(75));
}

#[test]
fn clamp_axes_are_independent() {
    // x too large on the high side, y viewport too tall to fit: x shifts
    // flush, y centers.
    let bounds = Rect { left: world(-100), right: world(100), bottom: world(-5), top: world(15) };
    let mut cam = Free2DCamera::new(1)
        .with_limits(Some(bounds))
        .with_translation(Vec2i { x: world(90), y: world(-200) }, 0);
    cam.clamp(Viewport { width: 100, height: 50 });
    assert_eq!(cam.translation.x, world(50));
    assert_eq!(cam.translation.y, world(5));
}

#[test]
fn clamp_preserves_depth_zoom_and_anchor() {
    let mut cam = Free2DCamera::new(1)
        .with_limits(Some(wide_bounds()))
        .with_translation(Vec2i { x: world(90), y: 0 }, 42);
    cam.clamp(Viewport { width: 100, height: 50 });
    assert_eq!(cam.depth, 42);
    assert_eq!(cam.current_zoom, 1);
    assert_eq!(cam.far_plane, 1000);
    assert!(cam.drag_origin.is_none());
}
