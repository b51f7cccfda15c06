use voxel_render::fixed::{clamp_byte, floor_div, floor_mod, sat_add};
use voxel_render::shade::directional_shade;
use voxel_render::volume::Rgb;

fn grey(l: u8) -> Rgb {
    Rgb { r: l, g: l, b: l }
}

#[test]
fn bright_voxel_clamps_to_white() {
    assert_eq!(directional_shade(16, 0), grey(255));
}

#[test]
fn dark_voxel_clamps_to_black() {
    assert_eq!(directional_shade(-16, 0), grey(0));
}

#[test]
fn directional_levels() {
    assert_eq!(directional_shade(0, 0), grey(127));
    assert_eq!(directional_shade(0, 1), grey(217));
}

#[test]
fn fixed_point_helpers() {
    assert_eq!(floor_div(-7, 2), -4);
    assert_eq!(floor_div(7, -2), -4);
    assert_eq!(floor_div(-7, -2), 3);
    assert_eq!(floor_mod(-1, 3600), 3599);
    assert_eq!(floor_mod(7205, 3600), 5);
    assert_eq!(clamp_byte(300), 255);
    assert_eq!(clamp_byte(-3), 0);
    assert_eq!(clamp_byte(77), 77);
    assert_eq!(sat_add(i64::MAX, 1), i64::MAX);
    assert_eq!(sat_add(i64::MIN, -1), i64::MIN);
    assert_eq!(sat_add(2, -5), -3);
}
