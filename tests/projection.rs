use voxel_render::camera::OrbitCamera;
use voxel_render::fixed::FIXED_ONE;
use voxel_render::project::{project_clip, project_orbit, Clip, ScreenPoint, Trig, Window};
use voxel_render::volume::{Rgb, Voxel};

fn voxel(x: i64, y: i64, z: i64) -> Voxel {
    Voxel { x, y, z, color: Rgb { r: 0, g: 0, b: 0 } }
}

const LEVEL: Trig = Trig { cos: FIXED_ONE, sin: 0 };

#[test]
fn depth_plane_voxel_is_skipped() {
    let cam = OrbitCamera::new(8, 8, 16);
    let p = project_orbit(&cam, LEVEL, &voxel(0, 0, 16), Window::canvas());
    assert_eq!(p, None);
}

#[test]
fn orbit_projection_lands_on_canvas() {
    let cam = OrbitCamera::new(8, 8, 16);
    let p = project_orbit(&cam, LEVEL, &voxel(0, 0, 0), Window::canvas()).unwrap();
    assert_eq!(p, ScreenPoint { x: 480, y: 360 });
    assert!(0 <= p.x && p.x < 640 && 0 <= p.y && p.y < 480);
}

#[test]
fn orbit_projection_turns_with_camera() {
    let cam = OrbitCamera::new(0, 0, 10);
    let quarter = Trig { cos: 0, sin: FIXED_ONE };
    // relative (10, 0, -10): turned by minus a quarter turn gives (0, -10)
    let p = project_orbit(&cam, quarter, &voxel(10, 0, 0), Window::canvas()).unwrap();
    assert_eq!(p, ScreenPoint { x: 320, y: 480 });
}

#[test]
fn orbit_projection_is_repeatable() {
    let cam = OrbitCamera::new(1, 2, 20);
    let t = Trig { cos: 56756, sin: 32768 };
    let v = voxel(3, -4, 5);
    let a = project_orbit(&cam, t, &v, Window::canvas());
    let b = project_orbit(&cam, t, &v, Window::canvas());
    assert_eq!(a, b);
    assert!(a.is_some());
}

#[test]
fn rotation_round_trip_restores_projection() {
    let mut cam = OrbitCamera::new(8, 8, 16);
    cam.rotate(450);
    let before = cam;
    let t = Trig { cos: 0, sin: FIXED_ONE };
    let p0 = project_orbit(&cam, t, &voxel(2, 3, 4), Window::canvas());
    cam.rotate(1234);
    cam.rotate(-1234);
    assert_eq!(cam, before);
    assert_eq!(project_orbit(&cam, t, &voxel(2, 3, 4), Window::canvas()), p0);
}

#[test]
fn rotation_wraps_into_one_turn() {
    let mut cam = OrbitCamera::new(0, 0, 10);
    cam.rotate(-10);
    assert_eq!(cam.angle, 3590);
    cam.rotate(20);
    assert_eq!(cam.angle, 10);
    cam.rotate(7200 + 5);
    assert_eq!(cam.angle, 15);
    cam.auto_rotate();
    assert_eq!(cam.angle, 25);
}

#[test]
fn zero_w_clip_is_skipped() {
    assert_eq!(project_clip(Clip { x: 5, y: 7, w: 0 }, Window::canvas()), None);
}

#[test]
fn clip_maps_onto_pixels() {
    let w = Window::canvas();
    assert_eq!(project_clip(Clip { x: 0, y: 0, w: FIXED_ONE }, w), Some(ScreenPoint { x: 320, y: 240 }));
    assert_eq!(
        project_clip(Clip { x: FIXED_ONE, y: -FIXED_ONE, w: FIXED_ONE }, w),
        Some(ScreenPoint { x: 640, y: 0 })
    );
    assert_eq!(
        project_clip(Clip { x: FIXED_ONE, y: FIXED_ONE, w: -2 * FIXED_ONE }, w),
        Some(ScreenPoint { x: 160, y: 120 })
    );
}
