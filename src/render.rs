//! The render loop's decisions: how each input event changes the loop, and
//! which quads a frame draws. Polling, drawing and pacing are the caller's.
use vstd::prelude::*;
use crate::camera::{FreeLookCamera, OrbitCamera};
use crate::fixed::COORD_MAX;
use crate::project::{Clip, Trig, Window, clip_point, orbit_point, project_clip, project_orbit};
use crate::shade::{brightness_byte, directional_shade, grey};
use crate::volume::{Rgb, Voxel};

verus! {

/// Side of the square drawn for each voxel, in pixels.
pub const QUAD_SIZE: u32 = 16;

/// Target frame duration: one sixtieth of a second, in whole nanoseconds.
pub const FRAME_NANOS: u64 = 16_666_666;

/// A key of interest to the loop.
#[derive(Clone, Copy, Debug, PartialEq, Eq, Structural)]
pub enum Key {
    Escape,
    W,
    S,
    Other,
}

/// An input event as the loop sees it.
#[derive(Clone, Copy, Debug, PartialEq, Eq, Structural)]
pub enum InputEvent {
    Quit,
    KeyDown { key: Key },
    PointerMotion { dx: i32, dy: i32, left_held: bool },
    Other,
}

#[derive(Clone, Copy, Debug, PartialEq, Eq, Structural)]
pub enum RunState {
    Running,
    Stopped,
}

/// An axis-aligned filled square with its top-left corner at `(x, y)`.
#[derive(Clone, Copy, Debug, PartialEq, Eq, Structural)]
pub struct Quad {
    pub x: i64,
    pub y: i64,
    pub size: u32,
    pub color: Rgb,
}

/// The state the loop carries from frame to frame.
#[derive(Clone, Copy, Debug, PartialEq, Eq, Structural)]
pub struct RenderLoop {
    pub state: RunState,
    pub camera: FreeLookCamera,
}

/// The loop after one event: a quit or escape stops it; a drag with the
/// left button held turns the camera; W and S move it forward and back.
pub open spec fn after_event(l: RenderLoop, e: InputEvent) -> RenderLoop {
    match e {
        InputEvent::Quit => RenderLoop { state: RunState::Stopped, ..l },
        InputEvent::KeyDown { key } => match key {
            Key::Escape => RenderLoop { state: RunState::Stopped, ..l },
            Key::W => RenderLoop {
                camera: FreeLookCamera {
                    z: crate::fixed::sat_add_spec(l.camera.z as int, -1),
                    ..l.camera
                },
                ..l
            },
            Key::S => RenderLoop {
                camera: FreeLookCamera {
                    z: crate::fixed::sat_add_spec(l.camera.z as int, 1),
                    ..l.camera
                },
                ..l
            },
            Key::Other => l,
        },
        InputEvent::PointerMotion { dx, dy, left_held } => if left_held {
            RenderLoop { camera: l.camera.dragged(dx as int, dy as int), ..l }
        } else {
            l
        },
        InputEvent::Other => l,
    }
}

/// The loop after a batch of events, applied in order.
pub open spec fn after_events(l: RenderLoop, es: Seq<InputEvent>) -> RenderLoop
    decreases es.len(),
{
    if es.len() == 0 {
        l
    } else {
        after_event(after_events(l, es.drop_last()), es.last())
    }
}

pub open spec fn quad_at(p: (int, int), color: Rgb) -> Quad {
    Quad { x: p.0 as i64, y: p.1 as i64, size: QUAD_SIZE, color }
}

/// The quads for voxels whose clip vectors are `cs`, in voxel order, each
/// voxel with a zero clip `w` left out.
pub open spec fn clip_quads(vs: Seq<Voxel>, cs: Seq<Clip>, win: Window) -> Seq<Quad>
    decreases vs.len(),
{
    if vs.len() == 0 || cs.len() == 0 {
        seq![]
    } else {
        let rest = clip_quads(vs.drop_last(), cs.drop_last(), win);
        match clip_point(cs.last(), win) {
            Some(p) => rest.push(quad_at(p, vs.last().color)),
            None => rest,
        }
    }
}

/// The quads the orbit camera sees, in voxel order, each in its directional
/// grey; a voxel in the camera's depth plane is left out.
pub open spec fn orbit_quads(cam: OrbitCamera, trig: Trig, vs: Seq<Voxel>, win: Window) -> Seq<
    Quad,
>
    decreases vs.len(),
{
    if vs.len() == 0 {
        seq![]
    } else {
        let rest = orbit_quads(cam, trig, vs.drop_last(), win);
        let v = vs.last();
        match orbit_point(cam, trig, v.x as int, v.y as int, v.z as int, win) {
            Some(p) => rest.push(quad_at(p, grey(brightness_byte(v.x as int, v.y as int)))),
            None => rest,
        }
    }
}

pub open spec fn voxels_in_range(vs: Seq<Voxel>) -> bool {
    forall|i: int|
        0 <= i < vs.len() ==> -COORD_MAX <= #[trigger] vs[i].x <= COORD_MAX && -COORD_MAX
            <= vs[i].y <= COORD_MAX && -COORD_MAX <= vs[i].z <= COORD_MAX
}

impl RenderLoop {
    /// A running loop with the given camera.
    pub fn new(camera: FreeLookCamera) -> (l: RenderLoop)
        ensures
            l == (RenderLoop { state: RunState::Running, camera }),
    {
        RenderLoop { state: RunState::Running, camera }
    }

    pub fn is_running(&self) -> (b: bool)
        ensures
            b == (self.state == RunState::Running),
    {
        match self.state {
            RunState::Running => true,
            RunState::Stopped => false,
        }
    }

    /// Applies one input event.
    pub fn handle_event(&mut self, e: InputEvent)
        ensures
            *final(self) == after_event(*old(self), e),
    {
        match e {
            InputEvent::Quit => {
                self.state = RunState::Stopped;
            },
            InputEvent::KeyDown { key } => match key {
                Key::Escape => {
                    self.state = RunState::Stopped;
                },
                Key::W => {
                    self.camera.step_forward();
                },
                Key::S => {
                    self.camera.step_back();
                },
                Key::Other => {},
            },
            InputEvent::PointerMotion { dx, dy, left_held } => {
                if left_held {
                    self.camera.drag(dx, dy);
                }
            },
            InputEvent::Other => {},
        }
    }

    /// Drains a frame's pending events, in order.
    pub fn handle_events(&mut self, events: &Vec<InputEvent>)
        ensures
            *final(self) == after_events(*old(self), events@),
    {
        let mut i: usize = 0;
        while i < events.len()
            invariant
                i <= events.len(),
                *self == after_events(*old(self), events@.take(i as int)),
            decreases events.len() - i,
        {
            proof {
                assert(events@.take(i + 1).drop_last() == events@.take(i as int));
            }
            self.handle_event(events[i]);
            i = i + 1;
        }
        proof {
            assert(events@.take(events.len() as int) == events@);
        }
    }

    /// The quads of one free-look frame, given each voxel's clip vector; no
    /// quad once the loop has stopped.
    pub fn plan_frame(&self, voxels: &Vec<Voxel>, clips: &Vec<Clip>, win: Window) -> (qs: Vec<Quad>)
        requires
            voxels.len() == clips.len(),
            forall|i: int| 0 <= i < clips.len() ==> (#[trigger] clips[i]).wf(),
            win.wf(),
        ensures
            self.state == RunState::Stopped ==> qs@.len() == 0,
            self.state == RunState::Running ==> qs@ == clip_quads(voxels@, clips@, win),
    {
        let mut out: Vec<Quad> = Vec::new();
        if !self.is_running() {
            return out;
        }
        let mut i: usize = 0;
        while i < voxels.len()
            invariant
                i <= voxels.len(),
                voxels.len() == clips.len(),
                forall|k: int| 0 <= k < clips.len() ==> (#[trigger] clips[k]).wf(),
                win.wf(),
                out@ == clip_quads(voxels@.take(i as int), clips@.take(i as int), win),
            decreases voxels.len() - i,
        {
            proof {
                assert(voxels@.take(i + 1).drop_last() == voxels@.take(i as int));
                assert(clips@.take(i + 1).drop_last() == clips@.take(i as int));
            }
            let p = project_clip(clips[i], win);
            match p {
                Some(s) => {
                    out.push(Quad { x: s.x, y: s.y, size: QUAD_SIZE, color: voxels[i].color });
                },
                None => {},
            }
            i = i + 1;
        }
        proof {
            assert(voxels@.take(voxels.len() as int) == voxels@);
            assert(clips@.take(clips.len() as int) == clips@);
        }
        out
    }
}

/// The quads of one orbit frame, each voxel shaded by the directional light;
/// no quad once the loop has stopped.
pub fn plan_orbit_frame(
    state: RunState,
    cam: &OrbitCamera,
    trig: Trig,
    voxels: &Vec<Voxel>,
    win: Window,
) -> (qs: Vec<Quad>)
    requires
        cam.wf(),
        trig.wf(),
        win.wf(),
        voxels_in_range(voxels@),
    ensures
        state == RunState::Stopped ==> qs@.len() == 0,
        state == RunState::Running ==> qs@ == orbit_quads(*cam, trig, voxels@, win),
{
    let mut out: Vec<Quad> = Vec::new();
    if let RunState::Stopped = state {
        return out;
    }
    let mut i: usize = 0;
    while i < voxels.len()
        invariant
            i <= voxels.len(),
            cam.wf(),
            trig.wf(),
            win.wf(),
            voxels_in_range(voxels@),
            out@ == orbit_quads(*cam, trig, voxels@.take(i as int), win),
        decreases voxels.len() - i,
    {
        proof {
            assert(voxels@.take(i + 1).drop_last() == voxels@.take(i as int));
        }
        let v = &voxels[i];
        let p = project_orbit(cam, trig, v, win);
        match p {
            Some(s) => {
                out.push(Quad { x: s.x, y: s.y, size: QUAD_SIZE, color: directional_shade(v.x, v.y) });
            },
            None => {},
        }
        i = i + 1;
    }
    proof {
        assert(voxels@.take(voxels.len() as int) == voxels@);
    }
    out
}

} // verus!
