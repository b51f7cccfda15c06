use voxel_render::camera::{FreeLookCamera, OrbitCamera};
use voxel_render::fixed::FIXED_ONE;
use voxel_render::project::{Clip, Trig, Window};
use voxel_render::render::{plan_orbit_frame, InputEvent, Key, Quad, RenderLoop, RunState, QUAD_SIZE};
use voxel_render::volume::{Rgb, Voxel};

fn red(x: i64, y: i64, z: i64) -> Voxel {
    Voxel { x, y, z, color: Rgb { r: 255, g: 0, b: 0 } }
}

#[test]
fn escape_stops_the_loop_and_the_drawing() {
    let mut l = RenderLoop::new(FreeLookCamera::new(0, 0, 100));
    assert!(l.is_running());
    let vs = vec![red(0, 0, 0)];
    let cs = vec![Clip { x: 0, y: 0, w: FIXED_ONE }];
    assert_eq!(l.plan_frame(&vs, &cs, Window::canvas()).len(), 1);
    l.handle_events(&vec![InputEvent::KeyDown { key: Key::Escape }]);
    assert_eq!(l.state, RunState::Stopped);
    assert!(!l.is_running());
    assert!(l.plan_frame(&vs, &cs, Window::canvas()).is_empty());
}

#[test]
fn quit_stops_the_loop() {
    let mut l = RenderLoop::new(FreeLookCamera::new(0, 0, 100));
    l.handle_event(InputEvent::Quit);
    assert_eq!(l.state, RunState::Stopped);
}

#[test]
fn input_moves_the_free_camera() {
    let mut l = RenderLoop::new(FreeLookCamera::new(0, 0, 100));
    l.handle_events(&vec![
        InputEvent::PointerMotion { dx: 10, dy: 5, left_held: true },
        InputEvent::PointerMotion { dx: 99, dy: 99, left_held: false },
        InputEvent::KeyDown { key: Key::W },
        InputEvent::KeyDown { key: Key::W },
        InputEvent::KeyDown { key: Key::S },
        InputEvent::KeyDown { key: Key::Other },
        InputEvent::Other,
    ]);
    assert_eq!(l.state, RunState::Running);
    assert_eq!(l.camera, FreeLookCamera { x: 0, y: 0, z: 99, pitch: 5, yaw: -10, roll: 0 });
}

#[test]
fn free_frame_skips_zero_w() {
    let l = RenderLoop::new(FreeLookCamera::new(0, 0, 100));
    let vs = vec![red(0, 0, 0), red(1, 0, 0)];
    let cs = vec![Clip { x: 0, y: 0, w: 0 }, Clip { x: 0, y: 0, w: FIXED_ONE }];
    let qs = l.plan_frame(&vs, &cs, Window::canvas());
    assert_eq!(qs, vec![Quad { x: 320, y: 240, size: QUAD_SIZE, color: Rgb { r: 255, g: 0, b: 0 } }]);
}

#[test]
fn orbit_frame_shades_and_skips() {
    let cam = OrbitCamera::new(0, 0, 10);
    let level = Trig { cos: FIXED_ONE, sin: 0 };
    let vs = vec![red(0, 0, 0), red(0, 0, 10)];
    let qs = plan_orbit_frame(RunState::Running, &cam, level, &vs, Window::canvas());
    assert_eq!(qs, vec![Quad { x: 320, y: 240, size: 16, color: Rgb { r: 127, g: 127, b: 127 } }]);
    assert!(plan_orbit_frame(RunState::Stopped, &cam, level, &vs, Window::canvas()).is_empty());
}
