use camera2d::camera::Free2DCamera;
use camera2d::camera::Vec2i;
use camera2d::units::SUBPIXEL;

fn world(units: i64) -> i64 {
    units * SUBPIXEL
}

#[test]
fn align_floors_fractional_translations() {
    // 2.5 world units floors to 2; -2.5 floors to -3 (toward negative
    // infinity, not toward zero).
    let mut cam = Free2DCamera::new(1).with_translation(
        Vec2i { x: world(5) / 2, y: -world(5) / 2 },
        0,
    );
    cam.align();
    assert_eq!(cam.translation.x, world(2));
    assert_eq!(cam.translation.y, world(-3));
}

#[test]
fn align_leaves_whole_units_unchanged() {
    let mut cam = Free2DCamera::new(1).with_translation(Vec2i { x: world(17), y: world(-9) }, 0);
    cam.align();
    assert_eq!(cam.translation.x, world(17));
    assert_eq!(cam.translation.y, world(-9));
}

#[test]
fn align_is_idempotent() {
    let mut cam = Free2DCamera::new(1).with_translation(Vec2i { x: 12345678, y: -87654321 }, 0);
    cam.align();
    let once = cam.translation;
    cam.align();
    assert_eq!(cam.translation, once);
}

#[test]
fn align_result_is_a_whole_world_unit() {
    for start in [0, 1, SUBPIXEL - 1, SUBPIXEL, -1, -SUBPIXEL, 99999999, -99999999] {
        let mut cam = Free2DCamera::new(1).with_translation(Vec2i { x: start, y: start }, 0);
        cam.align();
        assert_eq!(cam.translation.x % SUBPIXEL, 0);
        assert_eq!(cam.translation.y % SUBPIXEL, 0);
        assert!(cam.translation.x <= start);
        assert!(start - cam.translation.x < SUBPIXEL);
    }
}

#[test]
fn align_never_touches_depth() {
    let mut cam = Free2DCamera::new(1).with_translation(Vec2i { x: 12345, y: 678 }, -77);
    cam.align();
    assert_eq!(cam.depth, -77);
}
