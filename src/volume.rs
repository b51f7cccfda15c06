//! Generation of the static voxel volume: the lattice points of a cube that
//! lie inside a ball around the origin.
use vstd::prelude::*;
use crate::fixed::{COORD_MAX, clamp_byte_spec};

verus! {

/// Largest radius a volume may be generated with.
pub const MAX_RADIUS: i64 = COORD_MAX;

/// An opaque colour.
#[derive(Clone, Copy, Debug, PartialEq, Eq, Structural)]
pub struct Rgb {
    pub r: u8,
    pub g: u8,
    pub b: u8,
}

/// A unit volume element at an integer lattice point, with its colour.
#[derive(Clone, Copy, Debug, PartialEq, Eq, Structural)]
pub struct Voxel {
    pub x: i64,
    pub y: i64,
    pub z: i64,
    pub color: Rgb,
}

/// Which boundary shell of the ball belongs to the volume.
#[derive(Clone, Copy, Debug, PartialEq, Eq, Structural)]
pub enum BallPolicy {
    /// Closed ball: `x^2 + y^2 + z^2 <= radius^2`.
    Inclusive,
    /// Open ball: distance strictly below the radius.
    Strict,
}

pub open spec fn norm_sq(x: int, y: int, z: int) -> int {
    x * x + y * y + z * z
}

pub open spec fn within_cube(r: int, x: int, y: int, z: int) -> bool {
    -r <= x <= r && -r <= y <= r && -r <= z <= r
}

/// Whether the lattice point `(x, y, z)` belongs to the volume of radius `r`.
pub open spec fn in_ball(policy: BallPolicy, r: int, x: int, y: int, z: int) -> bool {
    within_cube(r, x, y, z) && match policy {
        BallPolicy::Inclusive => norm_sq(x, y, z) <= r * r,
        BallPolicy::Strict => norm_sq(x, y, z) < r * r,
    }
}

/// One colour channel of the position-encoded scheme: `c * 255 / r`,
/// clamped into the byte range (zero for a zero radius).
pub open spec fn channel_spec(c: int, r: int) -> u8 {
    if r <= 0 {
        0u8
    } else {
        clamp_byte_spec(c * 255 / r)
    }
}

pub open spec fn position_color(r: int, x: int, y: int, z: int) -> Rgb {
    Rgb { r: channel_spec(x, r), g: channel_spec(y, r), b: channel_spec(z, r) }
}

/// Strict lexicographic order on lattice points.
pub open spec fn lex_lt(a: (int, int, int), b: (int, int, int)) -> bool {
    a.0 < b.0 || (a.0 == b.0 && (a.1 < b.1 || (a.1 == b.1 && a.2 < b.2)))
}

pub open spec fn point_of(v: Voxel) -> (int, int, int) {
    (v.x as int, v.y as int, v.z as int)
}

/// Whether some voxel of `vs` sits at `(x, y, z)`.
pub open spec fn contains_point(vs: Seq<Voxel>, x: int, y: int, z: int) -> bool {
    exists|i: int| 0 <= i < vs.len() && #[trigger] point_of(vs[i]) == (x, y, z)
}

/// Each voxel of `vs` is a member of the volume and carries its position colour.
pub open spec fn all_members(vs: Seq<Voxel>, policy: BallPolicy, r: int) -> bool {
    forall|i: int|
        0 <= i < vs.len() ==> in_ball(policy, r, vs[i].x as int, vs[i].y as int, vs[i].z as int)
            && vs[i].color == position_color(r, vs[i].x as int, vs[i].y as int, vs[i].z as int)
}

pub open spec fn strictly_sorted(vs: Seq<Voxel>) -> bool {
    forall|i: int, j: int|
        0 <= i < j < vs.len() ==> lex_lt(#[trigger] point_of(vs[i]), #[trigger] point_of(vs[j]))
}

/// `vs` is exactly the volume of radius `r` under `policy`: each voxel is a
/// member carrying its position colour, each member occurs, and the voxels
/// are in strictly increasing lexicographic order (so none repeats).
pub open spec fn is_volume(vs: Seq<Voxel>, policy: BallPolicy, r: int) -> bool {
    &&& all_members(vs, policy, r)
    &&& forall|x: int, y: int, z: int|
        #[trigger] in_ball(policy, r, x, y, z) ==> contains_point(vs, x, y, z)
    &&& strictly_sorted(vs)
}

/// Colour channel `c * 255 / r`, clamped to a byte.
pub fn color_channel(c: i64, r: i64) -> (ch: u8)
    requires
        -MAX_RADIUS <= c <= MAX_RADIUS,
        0 <= r,
    ensures
        ch == channel_spec(c as int, r as int),
{
    if r == 0 || c <= 0 {
        proof {
            if r > 0 {
                assert(c * 255 <= 0);
                vstd::arithmetic::div_mod::lemma_div_is_ordered(c * 255, 0, r as int);
            }
        }
        0
    } else {
        let q: i64 = c * 255 / r;
        if q > 255 {
            255
        } else {
            q as u8
        }
    }
}

/// The position-encoded colour of the lattice point `(x, y, z)`.
pub fn color_at(r: i64, x: i64, y: i64, z: i64) -> (c: Rgb)
    requires
        0 <= r,
        within_cube(MAX_RADIUS as int, x as int, y as int, z as int),
    ensures
        c == position_color(r as int, x as int, y as int, z as int),
{
    Rgb { r: color_channel(x, r), g: color_channel(y, r), b: color_channel(z, r) }
}

proof fn lemma_square_bound(a: int)
    requires
        -1_000_000 <= a <= 1_000_000,
    ensures
        0 <= a * a <= 1_000_000_000_000,
{
    assert(0 <= a * a <= 1_000_000_000_000) by (nonlinear_arith)
        requires
            -1_000_000 <= a <= 1_000_000,
    ;
}

fn norm_sq_exec(x: i64, y: i64, z: i64) -> (n: i64)
    requires
        within_cube(MAX_RADIUS as int, x as int, y as int, z as int),
    ensures
        n == norm_sq(x as int, y as int, z as int),
{
    proof {
        lemma_square_bound(x as int);
        lemma_square_bound(y as int);
        lemma_square_bound(z as int);
    }
    x * x + y * y + z * z
}

proof fn lemma_push_keeps_points(vs: Seq<Voxel>, v: Voxel)
    ensures
        forall|x: int, y: int, z: int|
            contains_point(vs, x, y, z) ==> #[trigger] contains_point(vs.push(v), x, y, z),
        contains_point(vs.push(v), v.x as int, v.y as int, v.z as int),
{
    assert forall|x: int, y: int, z: int|
        contains_point(vs, x, y, z) implies #[trigger] contains_point(vs.push(v), x, y, z) by {
        let i = choose|i: int| 0 <= i < vs.len() && #[trigger] point_of(vs[i]) == (x, y, z);
        assert(point_of(vs.push(v)[i]) == (x, y, z));
    }
    assert(point_of(vs.push(v)[vs.len() as int]) == point_of(v));
}

/// Enumerates every lattice point of the cube of half-side `radius` in
/// lexicographic order and keeps those inside the ball that `policy`
/// describes, each with its position-encoded colour.
pub fn generate(radius: i64, policy: BallPolicy) -> (voxels: Vec<Voxel>)
    requires
        0 <= radius <= MAX_RADIUS,
    ensures
        is_volume(voxels@, policy, radius as int),
{
    let mut out: Vec<Voxel> = Vec::new();
    let ghost r = radius as int;
    let r2: i64 = norm_sq_exec(radius, 0, 0);
    let mut x: i64 = -radius;
    while x <= radius
        invariant
            0 <= radius <= MAX_RADIUS,
            r == radius,
            r2 == r * r,
            -r <= x <= r + 1,
            all_members(out@, policy, r),
            strictly_sorted(out@),
            forall|i: int| 0 <= i < out.len() ==> out[i].x < x,
            forall|a: int, b: int, c: int|
                #[trigger] in_ball(policy, r, a, b, c) && a < x ==> contains_point(out@, a, b, c),
        decreases r + 1 - x,
    {
        let mut y: i64 = -radius;
        while y <= radius
            invariant
                0 <= radius <= MAX_RADIUS,
                r == radius,
                r2 == r * r,
                -r <= x <= r,
                -r <= y <= r + 1,
                all_members(out@, policy, r),
                strictly_sorted(out@),
                forall|i: int|
                    0 <= i < out.len() ==> lex_lt(point_of(out[i]), (x as int, y as int, -r - 1)),
                forall|a: int, b: int, c: int|
                    #[trigger] in_ball(policy, r, a, b, c) && lex_lt((a, b, c), (x as int, y as int, -r - 1))
                        ==> contains_point(out@, a, b, c),
            decreases r + 1 - y,
        {
            let mut z: i64 = -radius;
            while z <= radius
                invariant
                    0 <= radius <= MAX_RADIUS,
                    r == radius,
                    r2 == r * r,
                    -r <= x <= r,
                    -r <= y <= r,
                    -r <= z <= r + 1,
                    all_members(out@, policy, r),
                    strictly_sorted(out@),
                    forall|i: int|
                        0 <= i < out.len() ==> lex_lt(point_of(out[i]), (x as int, y as int, z as int)),
                    forall|a: int, b: int, c: int|
                        #[trigger] in_ball(policy, r, a, b, c) && lex_lt((a, b, c), (x as int, y as int, z as int))
                            ==> contains_point(out@, a, b, c),
                decreases r + 1 - z,
            {
                let d = norm_sq_exec(x, y, z);
                let keep = match policy {
                    BallPolicy::Inclusive => d <= r2,
                    BallPolicy::Strict => d < r2,
                };
                if keep {
                    let v = Voxel { x, y, z, color: color_at(radius, x, y, z) };
                    proof {
                        lemma_push_keeps_points(out@, v);
                    }
                    out.push(v);
                }
                z = z + 1;
            }
            y = y + 1;
        }
        x = x + 1;
    }
    out
}

/// Membership in the volume does not change when an axis flips its sign or
/// two axes trade places.
pub proof fn lemma_ball_symmetric(policy: BallPolicy, r: int, x: int, y: int, z: int)
    ensures
        in_ball(policy, r, x, y, z) == in_ball(policy, r, -x, y, z),
        in_ball(policy, r, x, y, z) == in_ball(policy, r, x, -y, z),
        in_ball(policy, r, x, y, z) == in_ball(policy, r, x, y, -z),
        in_ball(policy, r, x, y, z) == in_ball(policy, r, y, x, z),
        in_ball(policy, r, x, y, z) == in_ball(policy, r, x, z, y),
        in_ball(policy, r, x, y, z) == in_ball(policy, r, z, y, x),
{
    assert((-x) * (-x) == x * x) by (nonlinear_arith);
    assert((-y) * (-y) == y * y) by (nonlinear_arith);
    assert((-z) * (-z) == z * z) by (nonlinear_arith);
}

/// A generated volume is closed under sign flips and axis exchanges: the
/// mirror image of each of its voxels is again one of its voxels.
pub proof fn lemma_volume_symmetric(vs: Seq<Voxel>, policy: BallPolicy, r: int, i: int)
    requires
        is_volume(vs, policy, r),
        0 <= i < vs.len(),
    ensures
        ({
            let (x, y, z) = point_of(vs[i]);
            &&& contains_point(vs, -x, y, z)
            &&& contains_point(vs, x, -y, z)
            &&& contains_point(vs, x, y, -z)
            &&& contains_point(vs, y, x, z)
            &&& contains_point(vs, x, z, y)
            &&& contains_point(vs, z, y, x)
        }),
{
    let (x, y, z) = point_of(vs[i]);
    lemma_ball_symmetric(policy, r, x, y, z);
    assert(in_ball(policy, r, x, y, z));
    assert(in_ball(policy, r, -x, y, z));
    assert(in_ball(policy, r, x, -y, z));
    assert(in_ball(policy, r, x, y, -z));
    assert(in_ball(policy, r, y, x, z));
    assert(in_ball(policy, r, x, z, y));
    assert(in_ball(policy, r, z, y, x));
}

proof fn lemma_find_point(vs: Seq<Voxel>, policy: BallPolicy, r: int, p: (int, int, int)) -> (j: int)
    requires
        is_volume(vs, policy, r),
        in_ball(policy, r, p.0, p.1, p.2),
    ensures
        0 <= j < vs.len(),
        point_of(vs[j]) == p,
{
    assert(contains_point(vs, p.0, p.1, p.2));
    choose|j: int| 0 <= j < vs.len() && #[trigger] point_of(vs[j]) == (p.0, p.1, p.2)
}

/// Two volumes of the same radius and policy agree on their first `k` voxels.
proof fn lemma_volume_prefix(a: Seq<Voxel>, b: Seq<Voxel>, policy: BallPolicy, r: int, k: int)
    requires
        is_volume(a, policy, r),
        is_volume(b, policy, r),
        0 <= k <= a.len(),
        k <= b.len(),
    ensures
        forall|i: int| 0 <= i < k ==> a[i] == b[i],
    decreases k,
{
    if k > 0 {
        let m = k - 1;
        lemma_volume_prefix(a, b, policy, r, m);
        let pa = point_of(a[m]);
        let pb = point_of(b[m]);
        let j = lemma_find_point(b, policy, r, pa);
        let jj = lemma_find_point(a, policy, r, pb);
        if j < m {
            assert(point_of(a[j]) == point_of(b[j]));
            assert(lex_lt(point_of(a[j]), point_of(a[m])));
        }
        if jj < m {
            assert(point_of(a[jj]) == point_of(b[jj]));
            assert(lex_lt(point_of(b[jj]), point_of(b[m])));
        }
        if j > m && jj > m {
            assert(lex_lt(point_of(a[m]), point_of(a[jj])));
            assert(lex_lt(point_of(b[m]), point_of(b[j])));
        }
        assert(pa == pb);
    }
}

/// The volume of a given radius and policy is one definite sequence: any two
/// sequences that both are that volume are equal, so its count is fixed.
pub proof fn lemma_volume_unique(a: Seq<Voxel>, b: Seq<Voxel>, policy: BallPolicy, r: int)
    requires
        is_volume(a, policy, r),
        is_volume(b, policy, r),
    ensures
        a == b,
{
    let k = if a.len() < b.len() {
        a.len() as int
    } else {
        b.len() as int
    };
    lemma_volume_prefix(a, b, policy, r, k);
    if k < a.len() {
        let j = lemma_find_point(b, policy, r, point_of(a[k]));
        assert(point_of(a[j]) == point_of(b[j]));
        assert(lex_lt(point_of(a[j]), point_of(a[k])));
    }
    if k < b.len() {
        let j = lemma_find_point(a, policy, r, point_of(b[k]));
        assert(point_of(a[j]) == point_of(b[j]));
        assert(lex_lt(point_of(b[j]), point_of(b[k])));
    }
    assert(a =~= b);
}

/// The lattice points of the volume of radius `r` under `policy`.
pub open spec fn ball_points(policy: BallPolicy, r: int) -> Set<(int, int, int)> {
    Set::new(|p: (int, int, int)| in_ball(policy, r, p.0, p.1, p.2))
}

/// The positions of the voxels of `vs`, in order.
pub open spec fn points_of(vs: Seq<Voxel>) -> Seq<(int, int, int)> {
    vs.map_values(|v: Voxel| point_of(v))
}

proof fn lemma_involution_map(s: Set<(int, int, int)>, f: spec_fn((int, int, int)) -> (int, int, int))
    requires
        forall|p: (int, int, int)| #[trigger] f(f(p)) == p,
        forall|p: (int, int, int)| s.contains(p) == s.contains(#[trigger] f(p)),
    ensures
        s.map(f) == s,
{
    assert forall|a: (int, int, int)| s.map(f).contains(a) <==> s.contains(a) by {
        if s.contains(a) {
            assert(s.contains(f(a)) && a == f(f(a)));
        }
    }
    assert(s.map(f) =~= s);
}

/// The basic symmetries of the cube, numbered `0..6`: sign flips of the
/// first, second and third axis, then exchanges of the first two, the last
/// two, and the first and last axes.
pub open spec fn mirror(k: int, p: (int, int, int)) -> (int, int, int) {
    if k == 0 {
        (-p.0, p.1, p.2)
    } else if k == 1 {
        (p.0, -p.1, p.2)
    } else if k == 2 {
        (p.0, p.1, -p.2)
    } else if k == 3 {
        (p.1, p.0, p.2)
    } else if k == 4 {
        (p.0, p.2, p.1)
    } else {
        (p.2, p.1, p.0)
    }
}

/// Each sign flip of an axis and each exchange of two axes maps the set of
/// lattice points of the volume onto itself.
pub proof fn lemma_ball_points_symmetric(policy: BallPolicy, r: int, k: int)
    requires
        0 <= k < 6,
    ensures
        ball_points(policy, r).map(|p: (int, int, int)| mirror(k, p)) == ball_points(policy, r),
{
    let s = ball_points(policy, r);
    let f = |p: (int, int, int)| mirror(k, p);
    assert forall|p: (int, int, int)| s.contains(p) == s.contains(#[trigger] f(p)) by {
        lemma_ball_symmetric(policy, r, p.0, p.1, p.2);
    }
    lemma_involution_map(s, f);
}

/// A volume lists each lattice point of its ball exactly once, so the number
/// of voxels is the size of that (symmetric) set of points.
pub proof fn lemma_volume_count(vs: Seq<Voxel>, policy: BallPolicy, r: int)
    requires
        is_volume(vs, policy, r),
    ensures
        points_of(vs).to_set() == ball_points(policy, r),
        vs.len() == ball_points(policy, r).len(),
{
    let ps = points_of(vs);
    assert forall|i: int, j: int| 0 <= i < ps.len() && 0 <= j < ps.len() && i != j implies ps[i]
        != ps[j] by {
        if i < j {
            assert(lex_lt(point_of(vs[i]), point_of(vs[j])));
        } else {
            assert(lex_lt(point_of(vs[j]), point_of(vs[i])));
        }
    }
    assert(ps.no_duplicates());
    assert forall|p: (int, int, int)| ps.to_set().contains(p) <==> ball_points(policy, r).contains(
        p,
    ) by {
        if ball_points(policy, r).contains(p) {
            let j = lemma_find_point(vs, policy, r, p);
            assert(ps[j] == p);
        }
        if ps.to_set().contains(p) {
            let i = choose|i: int| 0 <= i < ps.len() && ps[i] == p;
            assert(point_of(vs[i]) == p);
        }
    }
    assert(ps.to_set() =~= ball_points(policy, r));
    ps.unique_seq_to_set();
}

} // verus!
