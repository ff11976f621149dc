use vstd::prelude::*;

verus! {

/// Number of fixed-point units that stand for the real value 1.
///
/// A coordinate of `SCALE` means 1.0; the pole of the unit sphere is
/// `(0, 0, SCALE)`.
pub const SCALE: i64 = 1_000_000_000;

/// Largest coordinate magnitude the geometric routines accept.  The bound
/// keeps every intermediate product of the rotations and of the containment
/// solver inside `i128`.
pub const COORD_MAX: i64 = 100_000_000_000;

/// Magnitude of an integer.
pub open spec fn mag(x: int) -> int {
    if x >= 0 {
        x
    } else {
        -x
    }
}

/// Whether one fixed-point coordinate is within the accepted range.
pub open spec fn coord_ok(c: int) -> bool {
    -(COORD_MAX as int) <= c <= COORD_MAX as int
}

/// Division truncated toward zero, for a positive divisor; this is the
/// rounding the fixed-point rotations use.
pub open spec fn div_trunc(n: int, d: int) -> int {
    if n >= 0 {
        n / d
    } else {
        -((-n) / d)
    }
}

/// Bound on a product from bounds on its factors.
pub proof fn lemma_mul_bound(a: int, b: int, aa: int, bb: int)
    by (nonlinear_arith)
    requires
        -aa <= a <= aa,
        -bb <= b <= bb,
    ensures
        -(aa * bb) <= a * b <= aa * bb,
{
}

/// A point in 3-space.  Each coordinate is a fixed-point value in units of
/// `1 / SCALE`; the point is immutable and every rotation returns a new one.
#[derive(Clone, Copy, PartialEq, Eq, Structural, Debug)]
pub struct Point3 {
    pub x: i64,
    pub y: i64,
    pub z: i64,
}

impl Point3 {
    /// All three coordinates are within the accepted range.
    pub open spec fn in_range(self) -> bool {
        coord_ok(self.x as int) && coord_ok(self.y as int) && coord_ok(self.z as int)
    }
}

/// The fixed-point rotation about the x-axis: the x-coordinate is held, the
/// other two are combined with the scaled cosine `c` and sine `s` and brought
/// back to coordinate scale by a truncating division.
pub open spec fn spec_rotate_x(p: Point3, c: i64, s: i64) -> Point3 {
    Point3 {
        x: p.x,
        y: div_trunc(p.y * c - p.z * s, SCALE as int) as i64,
        z: div_trunc(p.y * s + p.z * c, SCALE as int) as i64,
    }
}

/// The fixed-point rotation about the y-axis.
pub open spec fn spec_rotate_y(p: Point3, c: i64, s: i64) -> Point3 {
    Point3 {
        x: div_trunc(p.x * c + p.z * s, SCALE as int) as i64,
        y: p.y,
        z: div_trunc(p.z * c - p.x * s, SCALE as int) as i64,
    }
}

/// The fixed-point rotation about the z-axis.
pub open spec fn spec_rotate_z(p: Point3, c: i64, s: i64) -> Point3 {
    Point3 {
        x: div_trunc(p.x * c - p.y * s, SCALE as int) as i64,
        y: div_trunc(p.x * s + p.y * c, SCALE as int) as i64,
        z: p.z,
    }
}

/// Product of a coordinate and a scaled trigonometric value.
fn prod_cs(a: i64, b: i64) -> (r: i128)
    requires
        coord_ok(a as int),
        mag(b as int) <= SCALE as int,
    ensures
        r == a * b,
        mag(r as int) <= mag(a as int) * (SCALE as int),
{
    proof {
        lemma_mul_bound(a as int, b as int, mag(a as int), SCALE as int);
    }
    (a as i128) * (b as i128)
}

/// Truncating division of a fixed-point product by `SCALE`.
fn scale_div(n: i128) -> (r: i64)
    requires
        mag(n as int) <= 2 * (COORD_MAX as int) * (SCALE as int),
    ensures
        r == div_trunc(n as int, SCALE as int),
        mag(r as int) * (SCALE as int) <= mag(n as int),
{
    if n >= 0 {
        let q: u128 = (n as u128) / (SCALE as u128);
        q as i64
    } else {
        let m: u128 = (-n) as u128;
        let q: u128 = m / (SCALE as u128);
        -(q as i64)
    }
}

impl Point3 {
    /// Rotation about the x-axis by the angle whose cosine and sine, scaled
    /// by `SCALE`, are `c` and `s`.
    pub fn rotate_x(&self, c: i64, s: i64) -> (q: Point3)
        requires
            self.in_range(),
            mag(c as int) <= SCALE as int,
            mag(s as int) <= SCALE as int,
        ensures
            q == spec_rotate_x(*self, c, s),
            q.x == self.x,
            mag(q.y as int) <= mag(self.y as int) + mag(self.z as int),
            mag(q.z as int) <= mag(self.y as int) + mag(self.z as int),
    {
        let n1: i128 = prod_cs(self.y, c) - prod_cs(self.z, s);
        let n2: i128 = prod_cs(self.y, s) + prod_cs(self.z, c);
        let qy: i64 = scale_div(n1);
        let qz: i64 = scale_div(n2);
        Point3 { x: self.x, y: qy, z: qz }
    }

    /// Rotation about the y-axis by the angle whose cosine and sine, scaled
    /// by `SCALE`, are `c` and `s`.
    pub fn rotate_y(&self, c: i64, s: i64) -> (q: Point3)
        requires
            self.in_range(),
            mag(c as int) <= SCALE as int,
            mag(s as int) <= SCALE as int,
        ensures
            q == spec_rotate_y(*self, c, s),
            q.y == self.y,
            mag(q.x as int) <= mag(self.x as int) + mag(self.z as int),
            mag(q.z as int) <= mag(self.x as int) + mag(self.z as int),
    {
        let n1: i128 = prod_cs(self.x, c) + prod_cs(self.z, s);
        let n2: i128 = prod_cs(self.z, c) - prod_cs(self.x, s);
        let qx: i64 = scale_div(n1);
        let qz: i64 = scale_div(n2);
        Point3 { x: qx, y: self.y, z: qz }
    }

    /// Rotation about the z-axis by the angle whose cosine and sine, scaled
    /// by `SCALE`, are `c` and `s`.
    pub fn rotate_z(&self, c: i64, s: i64) -> (q: Point3)
        requires
            self.in_range(),
            mag(c as int) <= SCALE as int,
            mag(s as int) <= SCALE as int,
        ensures
            q == spec_rotate_z(*self, c, s),
            q.z == self.z,
            mag(q.x as int) <= mag(self.x as int) + mag(self.y as int),
            mag(q.y as int) <= mag(self.x as int) + mag(self.y as int),
    {
        let n1: i128 = prod_cs(self.x, c) - prod_cs(self.y, s);
        let n2: i128 = prod_cs(self.x, s) + prod_cs(self.y, c);
        let qx: i64 = scale_div(n1);
        let qy: i64 = scale_div(n2);
        Point3 { x: qx, y: qy, z: self.z }
    }
}

/// Squared norm of an exact (unrounded) point.
pub open spec fn norm_sq3(x: int, y: int, z: int) -> int {
    x * x + y * y + z * z
}

impl Point3 {
    /// The squared norm of the point, exactly, in squared fixed-point
    /// units: a point of the unit sphere has squared norm close to
    /// `SCALE * SCALE`.
    pub fn norm_sq(&self) -> (n: i128)
        requires
            self.in_range(),
        ensures
            n == norm_sq3(self.x as int, self.y as int, self.z as int),
    {
        proof {
            lemma_mul_bound(self.x as int, self.x as int, 100_000_000_000, 100_000_000_000);
            lemma_mul_bound(self.y as int, self.y as int, 100_000_000_000, 100_000_000_000);
            lemma_mul_bound(self.z as int, self.z as int, 100_000_000_000, 100_000_000_000);
        }
        let xx: i128 = (self.x as i128) * (self.x as i128);
        let yy: i128 = (self.y as i128) * (self.y as i128);
        let zz: i128 = (self.z as i128) * (self.z as i128);
        xx + yy + zz
    }
}

/// The exact rotation about the x-axis, before the fixed-point rescaling:
/// the held coordinate carries the extra factor `r` that the combined
/// coordinates pick up from the scaled cosine and sine.
pub open spec fn rot_x_exact(x: int, y: int, z: int, c: int, s: int, r: int) -> (int, int, int) {
    (r * x, y * c - z * s, y * s + z * c)
}

/// The exact rotation about the y-axis, before the fixed-point rescaling.
pub open spec fn rot_y_exact(x: int, y: int, z: int, c: int, s: int, r: int) -> (int, int, int) {
    (x * c + z * s, r * y, z * c - x * s)
}

/// The exact rotation about the z-axis, before the fixed-point rescaling.
pub open spec fn rot_z_exact(x: int, y: int, z: int, c: int, s: int, r: int) -> (int, int, int) {
    (x * c - y * s, x * s + y * c, r * z)
}

/// Square of a difference.
proof fn lemma_sq_sub(a: int, b: int)
    by (nonlinear_arith)
    ensures
        (a - b) * (a - b) == a * a - 2 * (a * b) + b * b,
{
}

/// Square of a sum.
proof fn lemma_sq_add(a: int, b: int)
    by (nonlinear_arith)
    ensures
        (a + b) * (a + b) == a * a + 2 * (a * b) + b * b,
{
}

/// Regrouping a product of four factors.
proof fn lemma_mul4(p: int, q: int, r: int, s: int)
    by (nonlinear_arith)
    ensures
        (p * q) * (r * s) == (p * r) * (q * s),
{
}

/// The two coordinates a rotation combines pick up exactly the factor
/// `c² + s²` in the squared norm.
proof fn lemma_mix_norm(u: int, v: int, c: int, s: int)
    ensures
        (u * c - v * s) * (u * c - v * s) + (u * s + v * c) * (u * s + v * c)
            == (u * u + v * v) * (c * c + s * s),
{
    lemma_sq_sub(u * c, v * s);
    lemma_sq_add(u * s, v * c);
    lemma_mul4(u, c, u, c);
    lemma_mul4(v, s, v, s);
    lemma_mul4(u, s, u, s);
    lemma_mul4(v, c, v, c);
    lemma_mul4(u, c, v, s);
    lemma_mul4(u, s, v, c);
    assert(s * c == c * s) by (nonlinear_arith);
    assert((u * v) * (s * c) == (u * v) * (c * s)) by (nonlinear_arith)
        requires
            s * c == c * s,
    ;
    assert((u * u) * (c * c) + (v * v) * (s * s) + (u * u) * (s * s) + (v * v) * (c * c)
        == (u * u + v * v) * (c * c + s * s)) by (nonlinear_arith);
}

/// The same mixing identity, in the orientation the y-axis rotation uses.
proof fn lemma_mix_norm_swapped(u: int, v: int, c: int, s: int)
    ensures
        (u * c + v * s) * (u * c + v * s) + (v * c - u * s) * (v * c - u * s)
            == (u * u + v * v) * (c * c + s * s),
{
    lemma_sq_add(u * c, v * s);
    lemma_sq_sub(v * c, u * s);
    lemma_mul4(u, c, u, c);
    lemma_mul4(v, s, v, s);
    lemma_mul4(u, s, u, s);
    lemma_mul4(v, c, v, c);
    lemma_mul4(u, c, v, s);
    lemma_mul4(v, c, u, s);
    assert((v * u) * (c * s) == (u * v) * (c * s)) by (nonlinear_arith);
    assert((u * u) * (c * c) + (v * v) * (s * s) + (u * u) * (s * s) + (v * v) * (c * c)
        == (u * u + v * v) * (c * c + s * s)) by (nonlinear_arith);
}

/// Glue: the held coordinate's factor and the mixed coordinates' factor
/// combine into one factor `r²` on the whole squared norm.
proof fn lemma_norm_glue(h: int, u: int, v: int, c: int, s: int, r: int)
    requires
        c * c + s * s == r * r,
    ensures
        (r * h) * (r * h) + (u * u + v * v) * (c * c + s * s)
            == (r * r) * (h * h + u * u + v * v),
{
    assert((r * h) * (r * h) == (r * r) * (h * h)) by (nonlinear_arith);
    assert((u * u + v * v) * (c * c + s * s) == (u * u + v * v) * (r * r)) by (nonlinear_arith)
        requires
            c * c + s * s == r * r,
    ;
    assert((r * r) * (h * h) + (u * u + v * v) * (r * r) == (r * r) * (h * h + u * u + v * v))
        by (nonlinear_arith);
}

/// Rotation about the x-axis preserves the norm: when the scaled cosine and
/// sine lie exactly on the circle of radius `r`, the exact rotated point has
/// squared norm `r²` times that of the original.
pub proof fn lemma_rotate_x_preserves_norm(x: int, y: int, z: int, c: int, s: int, r: int)
    requires
        c * c + s * s == r * r,
    ensures
        ({
            let q = rot_x_exact(x, y, z, c, s, r);
            norm_sq3(q.0, q.1, q.2) == (r * r) * norm_sq3(x, y, z)
        }),
{
    lemma_mix_norm(y, z, c, s);
    lemma_norm_glue(x, y, z, c, s, r);
}

/// Rotation about the y-axis preserves the norm, in the same exact sense.
pub proof fn lemma_rotate_y_preserves_norm(x: int, y: int, z: int, c: int, s: int, r: int)
    requires
        c * c + s * s == r * r,
    ensures
        ({
            let q = rot_y_exact(x, y, z, c, s, r);
            norm_sq3(q.0, q.1, q.2) == (r * r) * norm_sq3(x, y, z)
        }),
{
    lemma_mix_norm_swapped(x, z, c, s);
    lemma_norm_glue(y, x, z, c, s, r);
}

/// Rotation about the z-axis preserves the norm, in the same exact sense.
pub proof fn lemma_rotate_z_preserves_norm(x: int, y: int, z: int, c: int, s: int, r: int)
    requires
        c * c + s * s == r * r,
    ensures
        ({
            let q = rot_z_exact(x, y, z, c, s, r);
            norm_sq3(q.0, q.1, q.2) == (r * r) * norm_sq3(x, y, z)
        }),
{
    lemma_mix_norm(x, y, c, s);
    lemma_norm_glue(z, x, y, c, s, r);
}

/// The truncating division loses less than one fixed-point unit: a
/// coordinate produced by `div_trunc`, scaled back up by the divisor,
/// differs from the exact numerator by less than the divisor.  This is the
/// whole gap between the executable rotations and the exact ones whose
/// norm the lemmas above preserve.
pub proof fn lemma_div_trunc_error(n: int, d: int)
    requires
        d > 0,
    ensures
        mag(div_trunc(n, d) * d - n) < d,
{
    if n >= 0 {
        vstd::arithmetic::div_mod::lemma_fundamental_div_mod(n, d);
        assert((n / d) * d == d * (n / d)) by (nonlinear_arith);
    } else {
        let m = -n;
        vstd::arithmetic::div_mod::lemma_fundamental_div_mod(m, d);
        assert((-(m / d)) * d == -(d * (m / d))) by (nonlinear_arith);
    }
}

/// A point rotated in turn about the x-, y- and z-axis keeps its norm: the
/// exact composed point has squared norm `r⁶` times that of the original,
/// one factor `r²` for each rotation whose scaled cosine and sine lie
/// exactly on the circle of radius `r`.
pub proof fn lemma_rotation_chain_preserves_norm(
    x: int,
    y: int,
    z: int,
    c1: int,
    s1: int,
    c2: int,
    s2: int,
    c3: int,
    s3: int,
    r: int,
)
    requires
        c1 * c1 + s1 * s1 == r * r,
        c2 * c2 + s2 * s2 == r * r,
        c3 * c3 + s3 * s3 == r * r,
    ensures
        ({
            let q1 = rot_x_exact(x, y, z, c1, s1, r);
            let q2 = rot_y_exact(q1.0, q1.1, q1.2, c2, s2, r);
            let q3 = rot_z_exact(q2.0, q2.1, q2.2, c3, s3, r);
            norm_sq3(q3.0, q3.1, q3.2) == (r * r) * (r * r) * (r * r) * norm_sq3(x, y, z)
        }),
{
    let q1 = rot_x_exact(x, y, z, c1, s1, r);
    let q2 = rot_y_exact(q1.0, q1.1, q1.2, c2, s2, r);
    let q3 = rot_z_exact(q2.0, q2.1, q2.2, c3, s3, r);
    lemma_rotate_x_preserves_norm(x, y, z, c1, s1, r);
    lemma_rotate_y_preserves_norm(q1.0, q1.1, q1.2, c2, s2, r);
    lemma_rotate_z_preserves_norm(q2.0, q2.1, q2.2, c3, s3, r);
    let n0 = norm_sq3(x, y, z);
    let n1 = norm_sq3(q1.0, q1.1, q1.2);
    let n2 = norm_sq3(q2.0, q2.1, q2.2);
    let n3 = norm_sq3(q3.0, q3.1, q3.2);
    assert(n3 == (r * r) * (r * r) * (r * r) * n0) by (nonlinear_arith)
        requires
            n1 == (r * r) * n0,
            n2 == (r * r) * n1,
            n3 == (r * r) * n2,
    ;
}

} // verus!
