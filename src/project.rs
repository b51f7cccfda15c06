//! Projection of world-space voxels to screen coordinates, in fixed point.
//! A point whose depth (or clip `w`) is zero has no image and is skipped.
use vstd::prelude::*;
use crate::fixed::{COORD_MAX, FIXED_ONE, floor_div, floor_div_spec};
use crate::camera::OrbitCamera;
use crate::volume::Voxel;

verus! {

/// Logical width of the canvas in pixels.
pub const WINDOW_WIDTH: u32 = 640;

/// Logical height of the canvas in pixels.
pub const WINDOW_HEIGHT: u32 = 480;

/// Largest window side the projection accepts.
pub const MAX_WINDOW_SIDE: u32 = 65536;

/// Largest magnitude of a fixed-point clip coordinate.
pub const CLIP_MAX: i64 = 1_099_511_627_776;

/// Size of a canvas in pixels.
#[derive(Clone, Copy, Debug, PartialEq, Eq, Structural)]
pub struct Window {
    pub width: u32,
    pub height: u32,
}

/// Cosine and sine of the orbit camera's angle, in units of `FIXED_ONE`.
#[derive(Clone, Copy, Debug, PartialEq, Eq, Structural)]
pub struct Trig {
    pub cos: i64,
    pub sin: i64,
}

/// Homogeneous clip coordinates after the projection and view transforms,
/// in units of `FIXED_ONE`.
#[derive(Clone, Copy, Debug, PartialEq, Eq, Structural)]
pub struct Clip {
    pub x: i64,
    pub y: i64,
    pub w: i64,
}

/// A pixel position on the canvas (possibly off it).
#[derive(Clone, Copy, Debug, PartialEq, Eq, Structural)]
pub struct ScreenPoint {
    pub x: i64,
    pub y: i64,
}

impl Window {
    pub open spec fn wf(&self) -> bool {
        self.width <= MAX_WINDOW_SIDE && self.height <= MAX_WINDOW_SIDE
    }

    /// The fixed canvas size.
    pub fn canvas() -> (w: Window)
        ensures
            w == (Window { width: WINDOW_WIDTH, height: WINDOW_HEIGHT }),
            w.wf(),
    {
        Window { width: WINDOW_WIDTH, height: WINDOW_HEIGHT }
    }
}

impl Trig {
    pub open spec fn wf(&self) -> bool {
        -FIXED_ONE <= self.cos <= FIXED_ONE && -FIXED_ONE <= self.sin <= FIXED_ONE
    }
}

impl Clip {
    pub open spec fn wf(&self) -> bool {
        -CLIP_MAX <= self.x <= CLIP_MAX && -CLIP_MAX <= self.y <= CLIP_MAX && -CLIP_MAX <= self.w
            <= CLIP_MAX
    }
}

/// Maps a normalised coordinate `n / d` from `[-1, 1]` onto `0..side`
/// pixels: the floor of `(n / d + 1) * side / 2`.
pub open spec fn to_pixels(n: int, d: int, side: int) -> int {
    floor_div_spec((n + d) * side, 2 * d)
}

/// The screen position of the voxel at `(vx, vy, vz)` seen by the orbit
/// camera: the position relative to the camera is turned in-plane by minus
/// the camera angle, then divided by its depth and centred on the window.
pub open spec fn orbit_point(
    cam: OrbitCamera,
    trig: Trig,
    vx: int,
    vy: int,
    vz: int,
    win: Window,
) -> Option<(int, int)> {
    let rx = vx - cam.x;
    let ry = vy - cam.y;
    let rz = vz - cam.z;
    if rz == 0 {
        None
    } else {
        let xr = rx * trig.cos + ry * trig.sin;
        let yr = ry * trig.cos - rx * trig.sin;
        Some((to_pixels(xr, rz * FIXED_ONE, win.width as int),
            to_pixels(yr, rz * FIXED_ONE, win.height as int)))
    }
}

/// The screen position of a clip vector: perspective divide by `w`, then
/// from `[-1, 1]` onto the window.
pub open spec fn clip_point(c: Clip, win: Window) -> Option<(int, int)> {
    if c.w == 0 {
        None
    } else {
        Some((to_pixels(c.x as int, c.w as int, win.width as int),
            to_pixels(c.y as int, c.w as int, win.height as int)))
    }
}

pub open spec fn as_point(p: Option<ScreenPoint>) -> Option<(int, int)> {
    match p {
        Some(s) => Some((s.x as int, s.y as int)),
        None => None,
    }
}

proof fn lemma_mul_bound(a: int, am: int, b: int, bm: int)
    requires
        -am <= a <= am,
        0 <= b <= bm,
    ensures
        -(am * bm) <= a * b <= am * bm,
{
    assert(-(am * bm) <= a * b <= am * bm) by (nonlinear_arith)
        requires
            -am <= a <= am,
            0 <= b <= bm,
    ;
}

proof fn lemma_signed_mul_bound(a: int, am: int, b: int, bm: int)
    requires
        -am <= a <= am,
        -bm <= b <= bm,
        0 <= bm,
    ensures
        -(am * bm) <= a * b <= am * bm,
{
    assert(-(am * bm) <= a * b <= am * bm) by (nonlinear_arith)
        requires
            -am <= a <= am,
            -bm <= b <= bm,
            0 <= bm,
    ;
}

/// `(n / d + 1) * side / 2`, rounded down.
fn pixels(n: i64, d: i64, side: u32) -> (p: i64)
    requires
        d != 0,
        -CLIP_MAX <= n <= CLIP_MAX,
        -CLIP_MAX <= d <= CLIP_MAX,
        side <= MAX_WINDOW_SIDE,
    ensures
        p == to_pixels(n as int, d as int, side as int),
{
    proof {
        lemma_mul_bound(n + d, 2 * CLIP_MAX, side as int, MAX_WINDOW_SIDE as int);
    }
    floor_div((n + d) * (side as i64), 2 * d)
}

/// Projects a voxel through the orbit camera; `None` when the voxel lies in
/// the camera's depth plane.
pub fn project_orbit(cam: &OrbitCamera, trig: Trig, v: &Voxel, win: Window) -> (p: Option<
    ScreenPoint,
>)
    requires
        cam.wf(),
        trig.wf(),
        win.wf(),
        -COORD_MAX <= v.x <= COORD_MAX,
        -COORD_MAX <= v.y <= COORD_MAX,
        -COORD_MAX <= v.z <= COORD_MAX,
    ensures
        as_point(p) == orbit_point(*cam, trig, v.x as int, v.y as int, v.z as int, win),
{
    let rx = v.x - cam.x;
    let ry = v.y - cam.y;
    let rz = v.z - cam.z;
    if rz == 0 {
        return None;
    }
    proof {
        let m = 2 * COORD_MAX as int;
        let one = FIXED_ONE as int;
        lemma_signed_mul_bound(rx as int, m, trig.cos as int, one);
        lemma_signed_mul_bound(ry as int, m, trig.sin as int, one);
        lemma_signed_mul_bound(ry as int, m, trig.cos as int, one);
        lemma_signed_mul_bound(rx as int, m, trig.sin as int, one);
        lemma_signed_mul_bound(rz as int, m, one, one);
    }
    let xr = rx * trig.cos + ry * trig.sin;
    let yr = ry * trig.cos - rx * trig.sin;
    let d = rz * FIXED_ONE;
    let sx = pixels(xr, d, win.width);
    let sy = pixels(yr, d, win.height);
    Some(ScreenPoint { x: sx, y: sy })
}

/// Maps a clip vector to the screen; `None` when `w` is zero.
pub fn project_clip(c: Clip, win: Window) -> (p: Option<ScreenPoint>)
    requires
        c.wf(),
        win.wf(),
    ensures
        as_point(p) == clip_point(c, win),
{
    if c.w == 0 {
        None
    } else {
        Some(ScreenPoint { x: pixels(c.x, c.w, win.width), y: pixels(c.y, c.w, win.height) })
    }
}

/// Orbit projection depends on its inputs alone: two results that meet its
/// contract for the same voxel, camera, angle and window are the same.
pub proof fn lemma_orbit_projection_pure(
    cam: OrbitCamera,
    trig: Trig,
    v: Voxel,
    win: Window,
    p1: Option<ScreenPoint>,
    p2: Option<ScreenPoint>,
)
    requires
        as_point(p1) == orbit_point(cam, trig, v.x as int, v.y as int, v.z as int, win),
        as_point(p2) == orbit_point(cam, trig, v.x as int, v.y as int, v.z as int, win),
    ensures
        p1 == p2,
{
}

/// Turning the orbit camera by an angle and back leaves the screen position
/// of every voxel as it was.
pub proof fn lemma_orbit_round_trip(
    cam: OrbitCamera,
    delta: int,
    trig: Trig,
    vx: int,
    vy: int,
    vz: int,
    win: Window,
)
    requires
        cam.wf(),
    ensures
        orbit_point(cam.rotated(delta).rotated(-delta), trig, vx, vy, vz, win) == orbit_point(
            cam,
            trig,
            vx,
            vy,
            vz,
            win,
        ),
{
    crate::camera::lemma_rotate_round_trip(cam, delta);
}

} // verus!
