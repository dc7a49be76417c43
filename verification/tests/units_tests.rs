use camera2d::units::floor_div;
use camera2d::units::HALF_SUBPIXEL;
use camera2d::units::SUBPIXEL;
use camera2d::units::ZOOM_LIMIT;

#[test]
fn floor_div_rounds_toward_negative_infinity() {
    assert_eq!(floor_div(7, 2), 3);
    assert_eq!(floor_div(-7, 2), -4);
    assert_eq!(floor_div(6, 3), 2);
    assert_eq!(floor_div(-6, 3), -2);
    assert_eq!(floor_div(0, 5), 0);
    assert_eq!(floor_div(-1, SUBPIXEL), -1);
}

#[test]
fn subpixel_is_divisible_by_every_zoom_pair() {
    assert_eq!(SUBPIXEL, 2 * HALF_SUBPIXEL);
    for z0 in 1..=ZOOM_LIMIT {
        assert_eq!(SUBPIXEL % z0, 0);
        for z1 in 1..=ZOOM_LIMIT {
            assert_eq!(HALF_SUBPIXEL % (z0 * z1), 0);
        }
    }
}
