//! Camera state. Angles and positions are held in exact integer units so
//! that every input adds a whole number of units:
//! - the orbit camera turns in tenths of a degree and keeps its angle
//!   normalised into one full turn;
//! - the free-look camera keeps its position in tenths of a world unit and
//!   its pitch, yaw and roll in hundredths of a radian.
use vstd::prelude::*;
use crate::fixed::{COORD_MAX, floor_mod, sat_add, sat_add_spec};

verus! {

/// Angle units in one full turn of the orbit camera.
pub const ANGLE_TURN: i64 = 3600;

/// Angle the orbit camera turns by on its own each frame.
pub const AUTO_ROTATE_STEP: i64 = 10;

/// A camera at a fixed point that turns about the depth axis.
#[derive(Clone, Copy, Debug, PartialEq, Eq, Structural)]
pub struct OrbitCamera {
    pub x: i64,
    pub y: i64,
    pub z: i64,
    /// In `0..ANGLE_TURN`.
    pub angle: i64,
}

/// A camera whose position and orientation follow pointer and key input.
#[derive(Clone, Copy, Debug, PartialEq, Eq, Structural)]
pub struct FreeLookCamera {
    /// Position, in tenths of a world unit.
    pub x: i64,
    pub y: i64,
    pub z: i64,
    /// Rotation about each axis, in hundredths of a radian.
    pub pitch: i64,
    pub yaw: i64,
    pub roll: i64,
}

impl OrbitCamera {
    pub open spec fn wf(&self) -> bool {
        &&& -COORD_MAX <= self.x <= COORD_MAX
        &&& -COORD_MAX <= self.y <= COORD_MAX
        &&& -COORD_MAX <= self.z <= COORD_MAX
        &&& 0 <= self.angle < ANGLE_TURN
    }

    /// The camera turned by `delta` angle units, its angle taken modulo one turn.
    pub open spec fn rotated(self, delta: int) -> OrbitCamera {
        OrbitCamera { angle: ((self.angle + delta) % (ANGLE_TURN as int)) as i64, ..self }
    }

    /// A camera at `(cx, cy, radius)` with angle zero.
    pub fn new(cx: i64, cy: i64, radius: i64) -> (c: OrbitCamera)
        requires
            -COORD_MAX <= cx <= COORD_MAX,
            -COORD_MAX <= cy <= COORD_MAX,
            -COORD_MAX <= radius <= COORD_MAX,
        ensures
            c == (OrbitCamera { x: cx, y: cy, z: radius, angle: 0 }),
            c.wf(),
    {
        OrbitCamera { x: cx, y: cy, z: radius, angle: 0 }
    }

    /// Adds `delta` to the angle, keeping it within one turn.
    pub fn rotate(&mut self, delta: i64)
        requires
            old(self).wf(),
        ensures
            *final(self) == old(self).rotated(delta as int),
            final(self).wf(),
    {
        let t = ANGLE_TURN;
        let d = floor_mod(delta, t);
        let a = self.angle + d;
        proof {
            let ti = t as int;
            vstd::arithmetic::div_mod::lemma_add_mod_noop(self.angle as int, delta as int, ti);
            vstd::arithmetic::div_mod::lemma_small_mod(self.angle as nat, ti as nat);
            if a < t {
                vstd::arithmetic::div_mod::lemma_small_mod(a as nat, ti as nat);
            } else {
                vstd::arithmetic::div_mod::lemma_fundamental_div_mod_converse(a as int, ti, 1, a - ti);
            }
        }
        self.angle = if a >= t {
            a - t
        } else {
            a
        };
    }

    /// The per-frame automatic turn.
    pub fn auto_rotate(&mut self)
        requires
            old(self).wf(),
        ensures
            *final(self) == old(self).rotated(AUTO_ROTATE_STEP as int),
            final(self).wf(),
    {
        self.rotate(AUTO_ROTATE_STEP);
    }
}

/// Turning the orbit camera by an angle and then by its negation gives back
/// the camera as it was.
pub proof fn lemma_rotate_round_trip(cam: OrbitCamera, delta: int)
    requires
        cam.wf(),
    ensures
        cam.rotated(delta).rotated(-delta) == cam,
{
    let t = ANGLE_TURN as int;
    let a = cam.angle as int;
    let m = (a + delta) % t;
    vstd::arithmetic::div_mod::lemma_mod_bound(a + delta, t);
    vstd::arithmetic::div_mod::lemma_add_mod_noop(a + delta, -delta, t);
    vstd::arithmetic::div_mod::lemma_mod_twice(a + delta, t);
    vstd::arithmetic::div_mod::lemma_add_mod_noop(m, -delta, t);
    vstd::arithmetic::div_mod::lemma_small_mod(a as nat, t as nat);
    assert((m + -delta) % t == a);
}

impl FreeLookCamera {
    /// A camera at `(x, y, z)` (in tenths of a unit), looking straight ahead.
    pub fn new(x: i64, y: i64, z: i64) -> (c: FreeLookCamera)
        ensures
            c == (FreeLookCamera { x, y, z, pitch: 0, yaw: 0, roll: 0 }),
    {
        FreeLookCamera { x, y, z, pitch: 0, yaw: 0, roll: 0 }
    }

    /// The camera after a pointer drag of `(dx, dy)` pixels.
    pub open spec fn dragged(self, dx: int, dy: int) -> FreeLookCamera {
        FreeLookCamera {
            pitch: sat_add_spec(self.pitch as int, dy),
            yaw: sat_add_spec(self.yaw as int, -dx),
            ..self
        }
    }

    /// A pointer drag of `(dx, dy)` pixels adds `dy` to the pitch and `-dx`
    /// to the yaw, one hundredth of a radian per pixel.
    pub fn drag(&mut self, dx: i32, dy: i32)
        ensures
            *final(self) == old(self).dragged(dx as int, dy as int),
    {
        self.pitch = sat_add(self.pitch, dy as i64);
        self.yaw = sat_add(self.yaw, -(dx as i64));
    }

    /// Moves one tenth of a unit forward: the depth coordinate decreases.
    pub fn step_forward(&mut self)
        ensures
            *final(self) == (FreeLookCamera { z: sat_add_spec(old(self).z as int, -1), ..*old(self) }),
    {
        self.z = sat_add(self.z, -1);
    }

    /// Moves one tenth of a unit back: the depth coordinate increases.
    pub fn step_back(&mut self)
        ensures
            *final(self) == (FreeLookCamera { z: sat_add_spec(old(self).z as int, 1), ..*old(self) }),
    {
        self.z = sat_add(self.z, 1);
    }
}

} // verus!
