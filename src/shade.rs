//! Flat per-voxel shading from a fixed directional light.
use vstd::prelude::*;
use crate::fixed::{COORD_MAX, FIXED_ONE, clamp_byte, clamp_byte_spec, floor_div, floor_div_spec};
use crate::volume::Rgb;

verus! {

/// Sine of the light angle (a quarter of a half turn), in units of `FIXED_ONE`.
pub const LIGHT_SIN: i64 = 46341;

/// Cosine of the light angle, in units of `FIXED_ONE`.
pub const LIGHT_COS: i64 = 46341;

/// Light intensity at `(x, y)`: `sin(angle) * x + cos(angle) * y`, in units
/// of `FIXED_ONE`.
pub open spec fn intensity(x: int, y: int) -> int {
    LIGHT_SIN * x + LIGHT_COS * y
}

/// Brightness `(intensity + 1) / 2` scaled to `0..=255`, rounded down and
/// clamped (never wrapped) into the byte range.
pub open spec fn brightness_byte(x: int, y: int) -> u8 {
    clamp_byte_spec(floor_div_spec((intensity(x, y) + FIXED_ONE) * 255, 2 * FIXED_ONE))
}

pub open spec fn grey(level: u8) -> Rgb {
    Rgb { r: level, g: level, b: level }
}

/// The grey level of a voxel at `(x, y, _)` under the directional light.
pub fn directional_shade(x: i64, y: i64) -> (c: Rgb)
    requires
        -COORD_MAX <= x <= COORD_MAX,
        -COORD_MAX <= y <= COORD_MAX,
    ensures
        c == grey(brightness_byte(x as int, y as int)),
{
    let level = (LIGHT_SIN * x + LIGHT_COS * y + FIXED_ONE) * 255;
    let b = clamp_byte(floor_div(level, 2 * FIXED_ONE));
    Rgb { r: b, g: b, b: b }
}

} // verus!
