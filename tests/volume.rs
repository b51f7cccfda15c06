use voxel_render::volume::{generate, color_at, BallPolicy, Rgb, Voxel};

fn has(vs: &[Voxel], x: i64, y: i64, z: i64) -> bool {
    vs.iter().any(|v| v.x == x && v.y == y && v.z == z)
}

#[test]
fn inclusive_ball_counts() {
    assert_eq!(generate(0, BallPolicy::Inclusive).len(), 1);
    assert_eq!(generate(1, BallPolicy::Inclusive).len(), 7);
    assert_eq!(generate(2, BallPolicy::Inclusive).len(), 33);
    assert_eq!(generate(5, BallPolicy::Inclusive).len(), 515);
}

#[test]
fn strict_ball_counts() {
    assert_eq!(generate(0, BallPolicy::Strict).len(), 0);
    assert_eq!(generate(1, BallPolicy::Strict).len(), 1);
    assert_eq!(generate(2, BallPolicy::Strict).len(), 27);
    assert_eq!(generate(5, BallPolicy::Strict).len(), 485);
}

#[test]
fn inclusive_ball_is_exactly_the_closed_ball() {
    let r: i64 = 3;
    let vs = generate(r, BallPolicy::Inclusive);
    for x in -r..=r {
        for y in -r..=r {
            for z in -r..=r {
                assert_eq!(has(&vs, x, y, z), x * x + y * y + z * z <= r * r);
            }
        }
    }
}

#[test]
fn inclusive_ball_is_symmetric() {
    let vs = generate(4, BallPolicy::Inclusive);
    for v in &vs {
        assert!(has(&vs, -v.x, v.y, v.z));
        assert!(has(&vs, v.x, -v.y, v.z));
        assert!(has(&vs, v.x, v.y, -v.z));
        assert!(has(&vs, v.y, v.x, v.z));
        assert!(has(&vs, v.x, v.z, v.y));
        assert!(has(&vs, v.z, v.y, v.x));
    }
    let pos = vs.iter().filter(|v| v.x > 0).count();
    let neg = vs.iter().filter(|v| v.x < 0).count();
    let pos_z = vs.iter().filter(|v| v.z > 0).count();
    assert_eq!(pos, neg);
    assert_eq!(pos, pos_z);
}

#[test]
fn volume_is_sorted_without_repeats() {
    let vs = generate(3, BallPolicy::Strict);
    for w in vs.windows(2) {
        assert!((w[0].x, w[0].y, w[0].z) < (w[1].x, w[1].y, w[1].z));
    }
}

#[test]
fn strict_ball_excludes_boundary_and_colours_by_position() {
    let vs = generate(5, BallPolicy::Strict);
    assert!(!has(&vs, 5, 0, 0));
    let v = vs.iter().find(|v| v.x == 4 && v.y == 0 && v.z == 0).unwrap();
    assert_eq!(v.color, Rgb { r: 204, g: 0, b: 0 });
}

#[test]
fn inclusive_ball_keeps_boundary() {
    let vs = generate(5, BallPolicy::Inclusive);
    let v = vs.iter().find(|v| v.x == 5 && v.y == 0 && v.z == 0).unwrap();
    assert_eq!(v.color, Rgb { r: 255, g: 0, b: 0 });
}

#[test]
fn negative_components_clamp_to_zero() {
    assert_eq!(color_at(5, -4, 3, -5), Rgb { r: 0, g: 153, b: 0 });
    assert_eq!(color_at(0, 0, 0, 0), Rgb { r: 0, g: 0, b: 0 });
}
