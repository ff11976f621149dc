use vstd::prelude::*;
use rand::Rng;
use crate::point::Point3;
use crate::point::SCALE;
use crate::point::mag;
use crate::point::spec_rotate_x;
use crate::point::spec_rotate_y;
use crate::point::spec_rotate_z;

verus! {

/// Microdegrees in a full turn: the random angles are drawn in
/// `[0°, 360°)` at a resolution of one millionth of a degree.
pub const TURN_MICRODEG: u64 = 360_000_000;

/// The fixed pole the sampler starts from: the point `(0, 0, 1)` of the
/// unit sphere, in fixed-point coordinates.
pub open spec fn sphere_pole() -> Point3 {
    Point3 { x: 0, y: 0, z: SCALE }
}

/// Relies on `rand::thread_rng` and `Rng::gen_range` over an integer range:
/// the draw is uniformly distributed in `[0, n)` and never leaves it.
#[verifier::external_body]
fn draw_below(n: u64) -> (r: u64)
    requires
        n > 0,
    ensures
        r < n,
{
    rand::thread_rng().gen_range(0..n)
}

/// One uniformly drawn rotation angle in microdegrees, in `[0°, 360°)`.
pub fn random_angle_microdeg() -> (a: u64)
    ensures
        a < TURN_MICRODEG,
{
    draw_below(TURN_MICRODEG)
}

/// The point of the unit sphere reached from the pole `(0, 0, 1)` by the
/// rotation about the x-axis given by `(c1, s1)`, then the rotation about
/// the y-axis given by `(c2, s2)`, then the rotation about the z-axis given
/// by `(c3, s3)`, in that fixed order; each pair is a scaled cosine and
/// sine of one independently drawn angle.
pub fn rotated_sphere_point(c1: i64, s1: i64, c2: i64, s2: i64, c3: i64, s3: i64) -> (p: Point3)
    requires
        mag(c1 as int) <= SCALE as int,
        mag(s1 as int) <= SCALE as int,
        mag(c2 as int) <= SCALE as int,
        mag(s2 as int) <= SCALE as int,
        mag(c3 as int) <= SCALE as int,
        mag(s3 as int) <= SCALE as int,
    ensures
        p == spec_rotate_z(
            spec_rotate_y(spec_rotate_x(sphere_pole(), c1, s1), c2, s2),
            c3,
            s3,
        ),
        mag(p.x as int) <= 2 * (SCALE as int),
        mag(p.y as int) <= 2 * (SCALE as int),
        mag(p.z as int) <= 2 * (SCALE as int),
        p.in_range(),
{
    let start = Point3 { x: 0, y: 0, z: SCALE };
    let q1 = start.rotate_x(c1, s1);
    let q2 = q1.rotate_y(c2, s2);
    q2.rotate_z(c3, s3)
}

} // verus!
