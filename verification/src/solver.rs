use vstd::prelude::*;
use crate::point::COORD_MAX;
use crate::point::Point3;
use crate::point::lemma_mul_bound;
use crate::point::mag;
use crate::tetra::Mat3;
use crate::tetra::Tetrahedron;
use crate::tetra::spec_barycentric_matrix;

verus! {

/// The determinant of a 3×3 matrix, by cofactor expansion along the first
/// row of its column vectors.
pub open spec fn spec_det3(m: Mat3) -> int {
    m.c0.x * (m.c1.y * m.c2.z - m.c2.y * m.c1.z) - m.c1.x * (m.c0.y * m.c2.z - m.c2.y * m.c0.z)
        + m.c2.x * (m.c0.y * m.c1.z - m.c1.y * m.c0.z)
}

/// The right-hand side of the barycentric system: the origin translated by
/// the reference vertex, that is `-p0`.
pub open spec fn spec_rhs(t: Tetrahedron) -> Point3 {
    Point3 { x: (-t.p0.x) as i64, y: (-t.p0.y) as i64, z: (-t.p0.z) as i64 }
}

/// The determinant of the barycentric matrix of a tetrahedron.
pub open spec fn tetra_det(t: Tetrahedron) -> int {
    spec_det3(spec_barycentric_matrix(t))
}

/// Numerator of the first barycentric weight: the barycentric matrix with
/// its first column replaced by the right-hand side.
pub open spec fn tetra_d1(t: Tetrahedron) -> int {
    let m = spec_barycentric_matrix(t);
    spec_det3(Mat3 { c0: spec_rhs(t), c1: m.c1, c2: m.c2 })
}

/// Numerator of the second barycentric weight.
pub open spec fn tetra_d2(t: Tetrahedron) -> int {
    let m = spec_barycentric_matrix(t);
    spec_det3(Mat3 { c0: m.c0, c1: spec_rhs(t), c2: m.c2 })
}

/// Numerator of the third barycentric weight.
pub open spec fn tetra_d3(t: Tetrahedron) -> int {
    let m = spec_barycentric_matrix(t);
    spec_det3(Mat3 { c0: m.c0, c1: m.c1, c2: spec_rhs(t) })
}

/// The simplex-membership test on the barycentric weights
/// `t1 = d1/det`, `t2 = d2/det`, `t3 = d3/det`, written without division:
/// `t1 ∈ [0,1]`, `t2 ∈ [0, 1−t1]`, `t3 ∈ [0, 1−t1−t2]`, every bound
/// inclusive, each inequality multiplied through by `det` with its sign
/// respected.
pub open spec fn barycentric_inside(det: int, d1: int, d2: int, d3: int) -> bool {
    if det > 0 {
        0 <= d1 && d1 <= det && 0 <= d2 && d2 <= det - d1 && 0 <= d3 && d3 <= det - d1 - d2
    } else {
        d1 <= 0 && det <= d1 && d2 <= 0 && det - d1 <= d2 && d3 <= 0 && det - d1 - d2 <= d3
    }
}

/// Whether the origin lies within the closed tetrahedron: the barycentric
/// system is non-singular and the weights of the origin pass the
/// simplex-membership test.
pub open spec fn origin_in_tetra(t: Tetrahedron) -> bool {
    tetra_det(t) != 0 && barycentric_inside(tetra_det(t), tetra_d1(t), tetra_d2(t), tetra_d3(t))
}

/// Failure of the containment solve.
#[derive(Clone, Copy, PartialEq, Eq, Structural, Debug)]
pub enum SolveError {
    /// The four vertices are affinely dependent, so the barycentric matrix
    /// has no inverse.
    SingularMatrix,
}

/// Product of two matrix entries.
fn prod2(a: i64, b: i64) -> (r: i128)
    requires
        mag(a as int) <= 2 * (COORD_MAX as int),
        mag(b as int) <= 2 * (COORD_MAX as int),
    ensures
        r == a * b,
        mag(r as int) <= 40_000_000_000_000_000_000_000,
{
    proof {
        lemma_mul_bound(a as int, b as int, 200_000_000_000, 200_000_000_000);
    }
    (a as i128) * (b as i128)
}

/// Product of a matrix entry and a 2×2 cofactor.
fn prod_cof(a: i64, w: i128) -> (r: i128)
    requires
        mag(a as int) <= 2 * (COORD_MAX as int),
        mag(w as int) <= 80_000_000_000_000_000_000_000,
    ensures
        r == a * w,
        mag(r as int) <= 16_000_000_000_000_000_000_000_000_000_000_000,
{
    proof {
        lemma_mul_bound(a as int, w as int, 200_000_000_000, 80_000_000_000_000_000_000_000);
    }
    (a as i128) * w
}

/// The determinant of a 3×3 matrix of edge-vector entries, computed exactly
/// in 128-bit integers.
fn det3(m: &Mat3) -> (d: i128)
    requires
        m.in_range(),
    ensures
        d == spec_det3(*m),
        mag(d as int) <= 48_000_000_000_000_000_000_000_000_000_000_000,
{
    let w0: i128 = prod2(m.c1.y, m.c2.z) - prod2(m.c2.y, m.c1.z);
    let w1: i128 = prod2(m.c0.y, m.c2.z) - prod2(m.c2.y, m.c0.z);
    let w2: i128 = prod2(m.c0.y, m.c1.z) - prod2(m.c1.y, m.c0.z);
    prod_cof(m.c0.x, w0) - prod_cof(m.c1.x, w1) + prod_cof(m.c2.x, w2)
}

/// Whether the origin `(0, 0, 0)` lies within the closed tetrahedron.
///
/// The barycentric matrix `M` and the right-hand side `b = -p0` form the
/// linear system `M·t = b` whose solution holds the barycentric weights of
/// the origin; by Cramer's rule each weight is a ratio of determinants, and
/// the simplex-membership test is evaluated on the numerators, exactly.  A
/// degenerate (affinely dependent) tetrahedron is reported as an error, not
/// a crash.
pub fn includes_origin(tetra: &Tetrahedron) -> (r: Result<bool, SolveError>)
    requires
        tetra.in_range(),
    ensures
        match r {
            Ok(inside) => tetra_det(*tetra) != 0 && inside == origin_in_tetra(*tetra),
            Err(e) => tetra_det(*tetra) == 0 && e == SolveError::SingularMatrix,
        },
{
    let m = tetra.barycentric_matrix();
    let b = Point3 { x: -tetra.p0.x, y: -tetra.p0.y, z: -tetra.p0.z };
    let det: i128 = det3(&m);
    let d1: i128 = det3(&(Mat3 { c0: b, c1: m.c1, c2: m.c2 }));
    let d2: i128 = det3(&(Mat3 { c0: m.c0, c1: b, c2: m.c2 }));
    let d3: i128 = det3(&(Mat3 { c0: m.c0, c1: m.c1, c2: b }));
    if det == 0 {
        Err(SolveError::SingularMatrix)
    } else if det > 0 {
        Ok(0 <= d1 && d1 <= det && 0 <= d2 && d2 <= det - d1 && 0 <= d3 && d3 <= det - d1 - d2)
    } else {
        Ok(d1 <= 0 && det <= d1 && d2 <= 0 && det - d1 <= d2 && d3 <= 0 && det - d1 - d2 <= d3)
    }
}

/// A 3×3 determinant with a zero column vanishes, for each of the three
/// placements of the zero column.
proof fn lemma_det_col_zero(
    zx: int,
    zy: int,
    zz: int,
    ux: int,
    uy: int,
    uz: int,
    vx: int,
    vy: int,
    vz: int,
)
    by (nonlinear_arith)
    requires
        zx == 0,
        zy == 0,
        zz == 0,
    ensures
        zx * (uy * vz - vy * uz) - ux * (zy * vz - vy * zz) + vx * (zy * uz - uy * zz) == 0,
        ux * (zy * vz - vy * zz) - zx * (uy * vz - vy * uz) + vx * (uy * zz - zy * uz) == 0,
        ux * (vy * zz - zy * vz) - vx * (uy * zz - zy * uz) + zx * (uy * vz - vy * uz) == 0,
{
}

/// A tetrahedron with the origin exactly at its reference vertex contains
/// the origin, boundary inclusive: all three barycentric numerators vanish,
/// so every weight sits on the lower boundary of its interval.
pub proof fn lemma_origin_at_vertex_inside(t: Tetrahedron)
    requires
        t.p0 == (Point3 { x: 0i64, y: 0i64, z: 0i64 }),
        tetra_det(t) != 0,
    ensures
        origin_in_tetra(t),
{
    let m = spec_barycentric_matrix(t);
    let b = spec_rhs(t);
    assert(b.x == 0 && b.y == 0 && b.z == 0);
    lemma_det_col_zero(
        b.x as int,
        b.y as int,
        b.z as int,
        m.c1.x as int,
        m.c1.y as int,
        m.c1.z as int,
        m.c2.x as int,
        m.c2.y as int,
        m.c2.z as int,
    );
    assert(tetra_d1(t) == 0);
    lemma_det_col_zero(
        b.x as int,
        b.y as int,
        b.z as int,
        m.c0.x as int,
        m.c0.y as int,
        m.c0.z as int,
        m.c2.x as int,
        m.c2.y as int,
        m.c2.z as int,
    );
    assert(tetra_d2(t) == 0);
    lemma_det_col_zero(
        b.x as int,
        b.y as int,
        b.z as int,
        m.c0.x as int,
        m.c0.y as int,
        m.c0.z as int,
        m.c1.x as int,
        m.c1.y as int,
        m.c1.z as int,
    );
    assert(tetra_d3(t) == 0);
}

/// A 3×3 determinant with two equal columns vanishes, for each of the three
/// placements of the repeated column `a` beside the remaining column `v`.
proof fn lemma_det_equal_cols(ax: int, ay: int, az: int, vx: int, vy: int, vz: int)
    by (nonlinear_arith)
    ensures
        ax * (ay * vz - vy * az) - ax * (ay * vz - vy * az) + vx * (ay * az - ay * az) == 0,
        ax * (vy * az - ay * vz) - vx * (ay * az - ay * az) + ax * (ay * vz - vy * az) == 0,
        vx * (ay * az - ay * az) - ax * (vy * az - ay * vz) + ax * (vy * az - ay * vz) == 0,
{
}

/// A tetrahedron with the origin exactly at any of its four vertices
/// contains the origin, boundary inclusive: the barycentric weight of that
/// vertex is one and the other three weights are zero, all on the boundary
/// of their intervals.
pub proof fn lemma_origin_at_any_vertex_inside(t: Tetrahedron)
    requires
        tetra_det(t) != 0,
        t.p0 == (Point3 { x: 0i64, y: 0i64, z: 0i64 }) || t.p1 == (Point3 {
            x: 0i64,
            y: 0i64,
            z: 0i64,
        }) || t.p2 == (Point3 { x: 0i64, y: 0i64, z: 0i64 }) || t.p3 == (Point3 {
            x: 0i64,
            y: 0i64,
            z: 0i64,
        }),
    ensures
        origin_in_tetra(t),
{
    let m = spec_barycentric_matrix(t);
    let b = spec_rhs(t);
    if t.p0 == (Point3 { x: 0i64, y: 0i64, z: 0i64 }) {
        lemma_origin_at_vertex_inside(t);
    } else if t.p1 == (Point3 { x: 0i64, y: 0i64, z: 0i64 }) {
        // The first column equals the right-hand side, so d1 is det itself
        // and d2, d3 have two equal columns.
        assert(m.c0 == b);
        assert(tetra_d1(t) == tetra_det(t));
        lemma_det_equal_cols(b.x as int, b.y as int, b.z as int, m.c2.x as int, m.c2.y as int, m.c2.z as int);
        assert(tetra_d2(t) == 0);
        lemma_det_equal_cols(b.x as int, b.y as int, b.z as int, m.c1.x as int, m.c1.y as int, m.c1.z as int);
        assert(tetra_d3(t) == 0);
    } else if t.p2 == (Point3 { x: 0i64, y: 0i64, z: 0i64 }) {
        // The second column equals the right-hand side.
        assert(m.c1 == b);
        assert(tetra_d2(t) == tetra_det(t));
        lemma_det_equal_cols(b.x as int, b.y as int, b.z as int, m.c2.x as int, m.c2.y as int, m.c2.z as int);
        assert(tetra_d1(t) == 0);
        lemma_det_equal_cols(b.x as int, b.y as int, b.z as int, m.c0.x as int, m.c0.y as int, m.c0.z as int);
        assert(tetra_d3(t) == 0);
    } else {
        // The third column equals the right-hand side.
        assert(m.c2 == b);
        assert(tetra_d3(t) == tetra_det(t));
        lemma_det_equal_cols(b.x as int, b.y as int, b.z as int, m.c1.x as int, m.c1.y as int, m.c1.z as int);
        assert(tetra_d1(t) == 0);
        lemma_det_equal_cols(b.x as int, b.y as int, b.z as int, m.c0.x as int, m.c0.y as int, m.c0.z as int);
        assert(tetra_d2(t) == 0);
    }
}

/// Distributing a factor over a difference.
proof fn lemma_distrib2(t: int, a: int, b: int)
    by (nonlinear_arith)
    ensures
        t * (a - b) == t * a - t * b,
{
}

/// Distributing a factor over a three-part sum.
proof fn lemma_distrib3(t: int, a: int, b: int, c: int)
    by (nonlinear_arith)
    ensures
        t * (a + b + c) == t * a + t * b + t * c,
{
}

/// Swapping the two outer factors of a triple product.
proof fn lemma_mul3_swap(a: int, b: int, c: int)
    by (nonlinear_arith)
    ensures
        a * (b * c) == b * (a * c),
{
}

/// Rotating the factors of a triple product.
proof fn lemma_mul3_rot(a: int, b: int, c: int)
    by (nonlinear_arith)
    ensures
        a * (b * c) == b * (c * a),
{
}

/// Cramer's identity for the third row: the barycentric numerators `d1, d2,
/// d3`, weighted by the z-entries of the matrix columns, recover `det`
/// times the z-entry of the right-hand side.  Column entries are written
/// `u`, `v`, `w`, the right-hand side `b`.
proof fn lemma_cramer_row_z(
    bx: int,
    by: int,
    bz: int,
    ux: int,
    uy: int,
    uz: int,
    vx: int,
    vy: int,
    vz: int,
    wx: int,
    wy: int,
    wz: int,
)
    ensures
        uz * (bx * (vy * wz - wy * vz) - vx * (by * wz - wy * bz) + wx * (by * vz - vy * bz)) + vz
            * (ux * (by * wz - wy * bz) - bx * (uy * wz - wy * uz) + wx * (uy * bz - by * uz)) + wz
            * (ux * (vy * bz - by * vz) - vx * (uy * bz - by * uz) + bx * (uy * vz - vy * uz)) == (
        ux * (vy * wz - wy * vz) - vx * (uy * wz - wy * uz) + wx * (uy * vz - vy * uz)) * bz,
{
    let k11 = vy * wz - wy * vz;
    let k12 = wx * vz - vx * wz;
    let k13 = vx * wy - wx * vy;
    let k21 = wy * uz - uy * wz;
    let k22 = ux * wz - wx * uz;
    let k23 = wx * uy - ux * wy;
    let k31 = uy * vz - vy * uz;
    let k32 = vx * uz - ux * vz;
    let k33 = ux * vy - vx * uy;
    let d1 = bx * (vy * wz - wy * vz) - vx * (by * wz - wy * bz) + wx * (by * vz - vy * bz);
    let d2 = ux * (by * wz - wy * bz) - bx * (uy * wz - wy * uz) + wx * (uy * bz - by * uz);
    let d3 = ux * (vy * bz - by * vz) - vx * (uy * bz - by * uz) + bx * (uy * vz - vy * uz);
    let dd = ux * (vy * wz - wy * vz) - vx * (uy * wz - wy * uz) + wx * (uy * vz - vy * uz);
    // d1 as a linear form in b.
    assert(vx * (by * wz - wy * bz) == by * (vx * wz) - bz * (vx * wy)) by (nonlinear_arith);
    assert(wx * (by * vz - vy * bz) == by * (wx * vz) - bz * (wx * vy)) by (nonlinear_arith);
    assert(by * k12 == by * (wx * vz) - by * (vx * wz)) by (nonlinear_arith)
        requires
            k12 == wx * vz - vx * wz,
    ;
    assert(bz * k13 == bz * (vx * wy) - bz * (wx * vy)) by (nonlinear_arith)
        requires
            k13 == vx * wy - wx * vy,
    ;
    assert(d1 == bx * k11 + by * k12 + bz * k13);
    // d2 as a linear form in b.
    assert(ux * (by * wz - wy * bz) == by * (ux * wz) - bz * (ux * wy)) by (nonlinear_arith);
    assert(wx * (uy * bz - by * uz) == bz * (wx * uy) - by * (wx * uz)) by (nonlinear_arith);
    assert(bx * k21 == -(bx * (uy * wz - wy * uz))) by (nonlinear_arith)
        requires
            k21 == wy * uz - uy * wz,
    ;
    assert(by * k22 == by * (ux * wz) - by * (wx * uz)) by (nonlinear_arith)
        requires
            k22 == ux * wz - wx * uz,
    ;
    assert(bz * k23 == bz * (wx * uy) - bz * (ux * wy)) by (nonlinear_arith)
        requires
            k23 == wx * uy - ux * wy,
    ;
    assert(d2 == bx * k21 + by * k22 + bz * k23);
    // d3 as a linear form in b.
    assert(ux * (vy * bz - by * vz) == bz * (ux * vy) - by * (ux * vz)) by (nonlinear_arith);
    assert(vx * (uy * bz - by * uz) == bz * (vx * uy) - by * (vx * uz)) by (nonlinear_arith);
    assert(by * k32 == by * (vx * uz) - by * (ux * vz)) by (nonlinear_arith)
        requires
            k32 == vx * uz - ux * vz,
    ;
    assert(bz * k33 == bz * (ux * vy) - bz * (vx * uy)) by (nonlinear_arith)
        requires
            k33 == ux * vy - vx * uy,
    ;
    assert(d3 == bx * k31 + by * k32 + bz * k33);
    // Distribute the z-entries over the linear forms.
    lemma_distrib3(uz, bx * k11, by * k12, bz * k13);
    lemma_mul3_swap(uz, bx, k11);
    lemma_mul3_swap(uz, by, k12);
    lemma_mul3_swap(uz, bz, k13);
    assert(uz * (bx * k11 + by * k12 + bz * k13) == bx * (uz * k11) + by * (uz * k12) + bz * (uz
        * k13));
    lemma_distrib3(vz, bx * k21, by * k22, bz * k23);
    lemma_mul3_swap(vz, bx, k21);
    lemma_mul3_swap(vz, by, k22);
    lemma_mul3_swap(vz, bz, k23);
    assert(vz * (bx * k21 + by * k22 + bz * k23) == bx * (vz * k21) + by * (vz * k22) + bz * (vz
        * k23));
    lemma_distrib3(wz, bx * k31, by * k32, bz * k33);
    lemma_mul3_swap(wz, bx, k31);
    lemma_mul3_swap(wz, by, k32);
    lemma_mul3_swap(wz, bz, k33);
    assert(wz * (bx * k31 + by * k32 + bz * k33) == bx * (wz * k31) + by * (wz * k32) + bz * (wz
        * k33));
    // The three cofactor sums: two alien rows cancel, the matching row
    // recovers the determinant.
    assert(uz * k11 + vz * k21 + wz * k31 == 0) by (nonlinear_arith)
        requires
            k11 == vy * wz - wy * vz,
            k21 == wy * uz - uy * wz,
            k31 == uy * vz - vy * uz,
    ;
    assert(uz * k12 + vz * k22 + wz * k32 == 0) by (nonlinear_arith)
        requires
            k12 == wx * vz - vx * wz,
            k22 == ux * wz - wx * uz,
            k32 == vx * uz - ux * vz,
    ;
    lemma_distrib2(uz, vx * wy, wx * vy);
    lemma_distrib2(vz, wx * uy, ux * wy);
    lemma_distrib2(wz, ux * vy, vx * uy);
    lemma_distrib2(ux, vy * wz, wy * vz);
    lemma_distrib2(vx, uy * wz, wy * uz);
    lemma_distrib2(wx, uy * vz, vy * uz);
    lemma_mul3_rot(uz, vx, wy);
    lemma_mul3_rot(uz, wx, vy);
    lemma_mul3_rot(vz, wx, uy);
    lemma_mul3_rot(vz, ux, wy);
    lemma_mul3_rot(wz, ux, vy);
    lemma_mul3_rot(wz, vx, uy);
    assert(uz * k13 + vz * k23 + wz * k33 == ux * (vy * wz - wy * vz) - vx * (uy * wz - wy * uz)
        + wx * (uy * vz - vy * uz));
    // Collect by the entries of b.
    assert(bx * (uz * k11) + bx * (vz * k21) + bx * (wz * k31) == 0) by (nonlinear_arith)
        requires
            uz * k11 + vz * k21 + wz * k31 == 0,
    ;
    assert(by * (uz * k12) + by * (vz * k22) + by * (wz * k32) == 0) by (nonlinear_arith)
        requires
            uz * k12 + vz * k22 + wz * k32 == 0,
    ;
    assert(bz * (uz * k13) + bz * (vz * k23) + bz * (wz * k33) == dd * bz) by (nonlinear_arith)
        requires
            uz * k13 + vz * k23 + wz * k33 == dd,
    ;
    assert(uz * d1 + vz * d2 + wz * d3 == dd * bz);
}

/// Cramer's identity for the first row, stated like the third-row one.
proof fn lemma_cramer_row_x(
    bx: int,
    by: int,
    bz: int,
    ux: int,
    uy: int,
    uz: int,
    vx: int,
    vy: int,
    vz: int,
    wx: int,
    wy: int,
    wz: int,
)
    ensures
        ux * (bx * (vy * wz - wy * vz) - vx * (by * wz - wy * bz) + wx * (by * vz - vy * bz)) + vx
            * (ux * (by * wz - wy * bz) - bx * (uy * wz - wy * uz) + wx * (uy * bz - by * uz)) + wx
            * (ux * (vy * bz - by * vz) - vx * (uy * bz - by * uz) + bx * (uy * vz - vy * uz)) == (
        ux * (vy * wz - wy * vz) - vx * (uy * wz - wy * uz) + wx * (uy * vz - vy * uz)) * bx,
{
    let k11 = vy * wz - wy * vz;
    let k12 = wx * vz - vx * wz;
    let k13 = vx * wy - wx * vy;
    let k21 = wy * uz - uy * wz;
    let k22 = ux * wz - wx * uz;
    let k23 = wx * uy - ux * wy;
    let k31 = uy * vz - vy * uz;
    let k32 = vx * uz - ux * vz;
    let k33 = ux * vy - vx * uy;
    let d1 = bx * (vy * wz - wy * vz) - vx * (by * wz - wy * bz) + wx * (by * vz - vy * bz);
    let d2 = ux * (by * wz - wy * bz) - bx * (uy * wz - wy * uz) + wx * (uy * bz - by * uz);
    let d3 = ux * (vy * bz - by * vz) - vx * (uy * bz - by * uz) + bx * (uy * vz - vy * uz);
    let dd = ux * (vy * wz - wy * vz) - vx * (uy * wz - wy * uz) + wx * (uy * vz - vy * uz);
    // d1, d2, d3 as linear forms in b, exactly as for the third row.
    assert(vx * (by * wz - wy * bz) == by * (vx * wz) - bz * (vx * wy)) by (nonlinear_arith);
    assert(wx * (by * vz - vy * bz) == by * (wx * vz) - bz * (wx * vy)) by (nonlinear_arith);
    assert(by * k12 == by * (wx * vz) - by * (vx * wz)) by (nonlinear_arith)
        requires
            k12 == wx * vz - vx * wz,
    ;
    assert(bz * k13 == bz * (vx * wy) - bz * (wx * vy)) by (nonlinear_arith)
        requires
            k13 == vx * wy - wx * vy,
    ;
    assert(d1 == bx * k11 + by * k12 + bz * k13);
    assert(ux * (by * wz - wy * bz) == by * (ux * wz) - bz * (ux * wy)) by (nonlinear_arith);
    assert(wx * (uy * bz - by * uz) == bz * (wx * uy) - by * (wx * uz)) by (nonlinear_arith);
    assert(bx * k21 == -(bx * (uy * wz - wy * uz))) by (nonlinear_arith)
        requires
            k21 == wy * uz - uy * wz,
    ;
    assert(by * k22 == by * (ux * wz) - by * (wx * uz)) by (nonlinear_arith)
        requires
            k22 == ux * wz - wx * uz,
    ;
    assert(bz * k23 == bz * (wx * uy) - bz * (ux * wy)) by (nonlinear_arith)
        requires
            k23 == wx * uy - ux * wy,
    ;
    assert(d2 == bx * k21 + by * k22 + bz * k23);
    assert(ux * (vy * bz - by * vz) == bz * (ux * vy) - by * (ux * vz)) by (nonlinear_arith);
    assert(vx * (uy * bz - by * uz) == bz * (vx * uy) - by * (vx * uz)) by (nonlinear_arith);
    assert(by * k32 == by * (vx * uz) - by * (ux * vz)) by (nonlinear_arith)
        requires
            k32 == vx * uz - ux * vz,
    ;
    assert(bz * k33 == bz * (ux * vy) - bz * (vx * uy)) by (nonlinear_arith)
        requires
            k33 == ux * vy - vx * uy,
    ;
    assert(d3 == bx * k31 + by * k32 + bz * k33);
    // Distribute the x-entries over the linear forms.
    lemma_distrib3(ux, bx * k11, by * k12, bz * k13);
    lemma_mul3_swap(ux, bx, k11);
    lemma_mul3_swap(ux, by, k12);
    lemma_mul3_swap(ux, bz, k13);
    assert(ux * (bx * k11 + by * k12 + bz * k13) == bx * (ux * k11) + by * (ux * k12) + bz * (ux
        * k13));
    lemma_distrib3(vx, bx * k21, by * k22, bz * k23);
    lemma_mul3_swap(vx, bx, k21);
    lemma_mul3_swap(vx, by, k22);
    lemma_mul3_swap(vx, bz, k23);
    assert(vx * (bx * k21 + by * k22 + bz * k23) == bx * (vx * k21) + by * (vx * k22) + bz * (vx
        * k23));
    lemma_distrib3(wx, bx * k31, by * k32, bz * k33);
    lemma_mul3_swap(wx, bx, k31);
    lemma_mul3_swap(wx, by, k32);
    lemma_mul3_swap(wx, bz, k33);
    assert(wx * (bx * k31 + by * k32 + bz * k33) == bx * (wx * k31) + by * (wx * k32) + bz * (wx
        * k33));
    // The cofactor sums: the matching row recovers the determinant, the two
    // alien rows cancel monomial by monomial.
    assert(vx * k21 == -(vx * (uy * wz - wy * uz))) by (nonlinear_arith)
        requires
            k21 == wy * uz - uy * wz,
    ;
    assert(ux * k11 + vx * k21 + wx * k31 == dd);
    lemma_distrib2(ux, wx * vz, vx * wz);
    lemma_distrib2(vx, ux * wz, wx * uz);
    lemma_distrib2(wx, vx * uz, ux * vz);
    lemma_mul3_swap(ux, wx, vz);
    lemma_mul3_swap(ux, vx, wz);
    lemma_mul3_swap(vx, wx, uz);
    assert(ux * k12 + vx * k22 + wx * k32 == 0);
    assert(ux * k13 + vx * k23 + wx * k33 == 0) by (nonlinear_arith)
        requires
            k13 == vx * wy - wx * vy,
            k23 == wx * uy - ux * wy,
            k33 == ux * vy - vx * uy,
    ;
    // Collect by the entries of b.
    assert(bx * (ux * k11) + bx * (vx * k21) + bx * (wx * k31) == dd * bx) by (nonlinear_arith)
        requires
            ux * k11 + vx * k21 + wx * k31 == dd,
    ;
    assert(by * (ux * k12) + by * (vx * k22) + by * (wx * k32) == 0) by (nonlinear_arith)
        requires
            ux * k12 + vx * k22 + wx * k32 == 0,
    ;
    assert(bz * (ux * k13) + bz * (vx * k23) + bz * (wx * k33) == 0) by (nonlinear_arith)
        requires
            ux * k13 + vx * k23 + wx * k33 == 0,
    ;
    assert(ux * d1 + vx * d2 + wx * d3 == dd * bx);
}

/// Cramer's identity for the second row, stated like the third-row one.
proof fn lemma_cramer_row_y(
    bx: int,
    by: int,
    bz: int,
    ux: int,
    uy: int,
    uz: int,
    vx: int,
    vy: int,
    vz: int,
    wx: int,
    wy: int,
    wz: int,
)
    ensures
        uy * (bx * (vy * wz - wy * vz) - vx * (by * wz - wy * bz) + wx * (by * vz - vy * bz)) + vy
            * (ux * (by * wz - wy * bz) - bx * (uy * wz - wy * uz) + wx * (uy * bz - by * uz)) + wy
            * (ux * (vy * bz - by * vz) - vx * (uy * bz - by * uz) + bx * (uy * vz - vy * uz)) == (
        ux * (vy * wz - wy * vz) - vx * (uy * wz - wy * uz) + wx * (uy * vz - vy * uz)) * by,
{
    let k11 = vy * wz - wy * vz;
    let k12 = wx * vz - vx * wz;
    let k13 = vx * wy - wx * vy;
    let k21 = wy * uz - uy * wz;
    let k22 = ux * wz - wx * uz;
    let k23 = wx * uy - ux * wy;
    let k31 = uy * vz - vy * uz;
    let k32 = vx * uz - ux * vz;
    let k33 = ux * vy - vx * uy;
    let d1 = bx * (vy * wz - wy * vz) - vx * (by * wz - wy * bz) + wx * (by * vz - vy * bz);
    let d2 = ux * (by * wz - wy * bz) - bx * (uy * wz - wy * uz) + wx * (uy * bz - by * uz);
    let d3 = ux * (vy * bz - by * vz) - vx * (uy * bz - by * uz) + bx * (uy * vz - vy * uz);
    let dd = ux * (vy * wz - wy * vz) - vx * (uy * wz - wy * uz) + wx * (uy * vz - vy * uz);
    // d1, d2, d3 as linear forms in b, exactly as for the third row.
    assert(vx * (by * wz - wy * bz) == by * (vx * wz) - bz * (vx * wy)) by (nonlinear_arith);
    assert(wx * (by * vz - vy * bz) == by * (wx * vz) - bz * (wx * vy)) by (nonlinear_arith);
    assert(by * k12 == by * (wx * vz) - by * (vx * wz)) by (nonlinear_arith)
        requires
            k12 == wx * vz - vx * wz,
    ;
    assert(bz * k13 == bz * (vx * wy) - bz * (wx * vy)) by (nonlinear_arith)
        requires
            k13 == vx * wy - wx * vy,
    ;
    assert(d1 == bx * k11 + by * k12 + bz * k13);
    assert(ux * (by * wz - wy * bz) == by * (ux * wz) - bz * (ux * wy)) by (nonlinear_arith);
    assert(wx * (uy * bz - by * uz) == bz * (wx * uy) - by * (wx * uz)) by (nonlinear_arith);
    assert(bx * k21 == -(bx * (uy * wz - wy * uz))) by (nonlinear_arith)
        requires
            k21 == wy * uz - uy * wz,
    ;
    assert(by * k22 == by * (ux * wz) - by * (wx * uz)) by (nonlinear_arith)
        requires
            k22 == ux * wz - wx * uz,
    ;
    assert(bz * k23 == bz * (wx * uy) - bz * (ux * wy)) by (nonlinear_arith)
        requires
            k23 == wx * uy - ux * wy,
    ;
    assert(d2 == bx * k21 + by * k22 + bz * k23);
    assert(ux * (vy * bz - by * vz) == bz * (ux * vy) - by * (ux * vz)) by (nonlinear_arith);
    assert(vx * (uy * bz - by * uz) == bz * (vx * uy) - by * (vx * uz)) by (nonlinear_arith);
    assert(by * k32 == by * (vx * uz) - by * (ux * vz)) by (nonlinear_arith)
        requires
            k32 == vx * uz - ux * vz,
    ;
    assert(bz * k33 == bz * (ux * vy) - bz * (vx * uy)) by (nonlinear_arith)
        requires
            k33 == ux * vy - vx * uy,
    ;
    assert(d3 == bx * k31 + by * k32 + bz * k33);
    // Distribute the y-entries over the linear forms.
    lemma_distrib3(uy, bx * k11, by * k12, bz * k13);
    lemma_mul3_swap(uy, bx, k11);
    lemma_mul3_swap(uy, by, k12);
    lemma_mul3_swap(uy, bz, k13);
    assert(uy * (bx * k11 + by * k12 + bz * k13) == bx * (uy * k11) + by * (uy * k12) + bz * (uy
        * k13));
    lemma_distrib3(vy, bx * k21, by * k22, bz * k23);
    lemma_mul3_swap(vy, bx, k21);
    lemma_mul3_swap(vy, by, k22);
    lemma_mul3_swap(vy, bz, k23);
    assert(vy * (bx * k21 + by * k22 + bz * k23) == bx * (vy * k21) + by * (vy * k22) + bz * (vy
        * k23));
    lemma_distrib3(wy, bx * k31, by * k32, bz * k33);
    lemma_mul3_swap(wy, bx, k31);
    lemma_mul3_swap(wy, by, k32);
    lemma_mul3_swap(wy, bz, k33);
    assert(wy * (bx * k31 + by * k32 + bz * k33) == bx * (wy * k31) + by * (wy * k32) + bz * (wy
        * k33));
    // The cofactor sums: the alien rows cancel, the matching row recovers
    // the determinant monomial by monomial.
    assert(uy * k11 + vy * k21 + wy * k31 == 0) by (nonlinear_arith)
        requires
            k11 == vy * wz - wy * vz,
            k21 == wy * uz - uy * wz,
            k31 == uy * vz - vy * uz,
    ;
    lemma_distrib2(uy, wx * vz, vx * wz);
    lemma_distrib2(vy, ux * wz, wx * uz);
    lemma_distrib2(wy, vx * uz, ux * vz);
    lemma_distrib2(ux, vy * wz, wy * vz);
    lemma_distrib2(vx, uy * wz, wy * uz);
    lemma_distrib2(wx, uy * vz, vy * uz);
    lemma_mul3_swap(uy, wx, vz);
    lemma_mul3_swap(uy, vx, wz);
    lemma_mul3_swap(vy, ux, wz);
    lemma_mul3_swap(vy, wx, uz);
    lemma_mul3_swap(wy, vx, uz);
    lemma_mul3_swap(wy, ux, vz);
    assert(uy * k12 + vy * k22 + wy * k32 == dd);
    assert(uy * k13 + vy * k23 + wy * k33 == 0) by (nonlinear_arith)
        requires
            k13 == vx * wy - wx * vy,
            k23 == wx * uy - ux * wy,
            k33 == ux * vy - vx * uy,
    ;
    // Collect by the entries of b.
    assert(bx * (uy * k11) + bx * (vy * k21) + bx * (wy * k31) == 0) by (nonlinear_arith)
        requires
            uy * k11 + vy * k21 + wy * k31 == 0,
    ;
    assert(by * (uy * k12) + by * (vy * k22) + by * (wy * k32) == dd * by) by (nonlinear_arith)
        requires
            uy * k12 + vy * k22 + wy * k32 == dd,
    ;
    assert(bz * (uy * k13) + bz * (vy * k23) + bz * (wy * k33) == 0) by (nonlinear_arith)
        requires
            uy * k13 + vy * k23 + wy * k33 == 0,
    ;
    assert(uy * d1 + vy * d2 + wy * d3 == dd * by);
}

/// A weighted sum with strictly one-signed weights `z` and one-signed
/// coefficients `d` that do not all vanish cannot be zero.
proof fn lemma_signed_weighted_sum_nonzero(
    z0: int,
    z1: int,
    z2: int,
    z3: int,
    d0: int,
    d1: int,
    d2: int,
    d3: int,
)
    by (nonlinear_arith)
    requires
        (z0 > 0 && z1 > 0 && z2 > 0 && z3 > 0) || (z0 < 0 && z1 < 0 && z2 < 0 && z3 < 0),
        (d0 >= 0 && d1 >= 0 && d2 >= 0 && d3 >= 0) || (d0 <= 0 && d1 <= 0 && d2 <= 0 && d3 <= 0),
        d0 + d1 + d2 + d3 != 0,
    ensures
        z0 * d0 + z1 * d1 + z2 * d2 + z3 * d3 != 0,
{
}

/// The signed side of the plane through the origin with normal
/// `(nx, ny, nz)` on which a point lies.
pub open spec fn plane_side(nx: int, ny: int, nz: int, p: Point3) -> int {
    nx * p.x + ny * p.y + nz * p.z
}

/// A tetrahedron whose four vertices all lie strictly on one side of any
/// plane through the origin cannot contain the origin: every point of the
/// closed tetrahedron is a weighted mean of the vertices with nonnegative
/// weights summing to one, so its signed distance from the plane has the
/// sign shared by the four vertices and is not zero.
pub proof fn lemma_plane_excludes_origin(t: Tetrahedron, nx: int, ny: int, nz: int)
    requires
        t.in_range(),
        (plane_side(nx, ny, nz, t.p0) > 0 && plane_side(nx, ny, nz, t.p1) > 0 && plane_side(
            nx,
            ny,
            nz,
            t.p2,
        ) > 0 && plane_side(nx, ny, nz, t.p3) > 0) || (plane_side(nx, ny, nz, t.p0) < 0
            && plane_side(nx, ny, nz, t.p1) < 0 && plane_side(nx, ny, nz, t.p2) < 0 && plane_side(
            nx,
            ny,
            nz,
            t.p3,
        ) < 0),
    ensures
        !origin_in_tetra(t),
{
    if origin_in_tetra(t) {
        let m = spec_barycentric_matrix(t);
        let b = spec_rhs(t);
        let xx0 = t.p0.x as int;
        let xx1 = t.p1.x as int;
        let xx2 = t.p2.x as int;
        let xx3 = t.p3.x as int;
        let yy0 = t.p0.y as int;
        let yy1 = t.p1.y as int;
        let yy2 = t.p2.y as int;
        let yy3 = t.p3.y as int;
        let zz0 = t.p0.z as int;
        let zz1 = t.p1.z as int;
        let zz2 = t.p2.z as int;
        let zz3 = t.p3.z as int;
        let uxv = m.c0.x as int;
        let vxv = m.c1.x as int;
        let wxv = m.c2.x as int;
        let uyv = m.c0.y as int;
        let vyv = m.c1.y as int;
        let wyv = m.c2.y as int;
        let uzv = m.c0.z as int;
        let vzv = m.c1.z as int;
        let wzv = m.c2.z as int;
        let bxv = b.x as int;
        let byv = b.y as int;
        let bzv = b.z as int;
        assert(uxv == xx1 - xx0 && vxv == xx2 - xx0 && wxv == xx3 - xx0 && bxv == -xx0);
        assert(uyv == yy1 - yy0 && vyv == yy2 - yy0 && wyv == yy3 - yy0 && byv == -yy0);
        assert(uzv == zz1 - zz0 && vzv == zz2 - zz0 && wzv == zz3 - zz0 && bzv == -zz0);
        let dd1 = tetra_d1(t);
        let dd2 = tetra_d2(t);
        let dd3 = tetra_d3(t);
        let ddet = tetra_det(t);
        let dd0 = ddet - dd1 - dd2 - dd3;
        lemma_cramer_row_x(
            b.x as int,
            b.y as int,
            b.z as int,
            m.c0.x as int,
            m.c0.y as int,
            m.c0.z as int,
            m.c1.x as int,
            m.c1.y as int,
            m.c1.z as int,
            m.c2.x as int,
            m.c2.y as int,
            m.c2.z as int,
        );
        lemma_cramer_row_y(
            b.x as int,
            b.y as int,
            b.z as int,
            m.c0.x as int,
            m.c0.y as int,
            m.c0.z as int,
            m.c1.x as int,
            m.c1.y as int,
            m.c1.z as int,
            m.c2.x as int,
            m.c2.y as int,
            m.c2.z as int,
        );
        lemma_cramer_row_z(
            b.x as int,
            b.y as int,
            b.z as int,
            m.c0.x as int,
            m.c0.y as int,
            m.c0.z as int,
            m.c1.x as int,
            m.c1.y as int,
            m.c1.z as int,
            m.c2.x as int,
            m.c2.y as int,
            m.c2.z as int,
        );
        assert(uxv * dd1 + vxv * dd2 + wxv * dd3 == ddet * bxv);
        assert(uyv * dd1 + vyv * dd2 + wyv * dd3 == ddet * byv);
        assert(uzv * dd1 + vzv * dd2 + wzv * dd3 == ddet * bzv);
        // Rewrite each row identity over the vertex coordinates: the
        // barycentric numerators weight the coordinates to zero.
        assert(uxv * dd1 == xx1 * dd1 - xx0 * dd1) by (nonlinear_arith)
            requires
                uxv == xx1 - xx0,
        ;
        assert(vxv * dd2 == xx2 * dd2 - xx0 * dd2) by (nonlinear_arith)
            requires
                vxv == xx2 - xx0,
        ;
        assert(wxv * dd3 == xx3 * dd3 - xx0 * dd3) by (nonlinear_arith)
            requires
                wxv == xx3 - xx0,
        ;
        assert(ddet * bxv == -(xx0 * ddet)) by (nonlinear_arith)
            requires
                bxv == -xx0,
        ;
        assert(xx0 * dd0 == xx0 * ddet - xx0 * dd1 - xx0 * dd2 - xx0 * dd3) by (nonlinear_arith)
            requires
                dd0 == ddet - dd1 - dd2 - dd3,
        ;
        assert(xx0 * dd0 + xx1 * dd1 + xx2 * dd2 + xx3 * dd3 == 0);
        assert(uyv * dd1 == yy1 * dd1 - yy0 * dd1) by (nonlinear_arith)
            requires
                uyv == yy1 - yy0,
        ;
        assert(vyv * dd2 == yy2 * dd2 - yy0 * dd2) by (nonlinear_arith)
            requires
                vyv == yy2 - yy0,
        ;
        assert(wyv * dd3 == yy3 * dd3 - yy0 * dd3) by (nonlinear_arith)
            requires
                wyv == yy3 - yy0,
        ;
        assert(ddet * byv == -(yy0 * ddet)) by (nonlinear_arith)
            requires
                byv == -yy0,
        ;
        assert(yy0 * dd0 == yy0 * ddet - yy0 * dd1 - yy0 * dd2 - yy0 * dd3) by (nonlinear_arith)
            requires
                dd0 == ddet - dd1 - dd2 - dd3,
        ;
        assert(yy0 * dd0 + yy1 * dd1 + yy2 * dd2 + yy3 * dd3 == 0);
        assert(uzv * dd1 == zz1 * dd1 - zz0 * dd1) by (nonlinear_arith)
            requires
                uzv == zz1 - zz0,
        ;
        assert(vzv * dd2 == zz2 * dd2 - zz0 * dd2) by (nonlinear_arith)
            requires
                vzv == zz2 - zz0,
        ;
        assert(wzv * dd3 == zz3 * dd3 - zz0 * dd3) by (nonlinear_arith)
            requires
                wzv == zz3 - zz0,
        ;
        assert(ddet * bzv == -(zz0 * ddet)) by (nonlinear_arith)
            requires
                bzv == -zz0,
        ;
        assert(zz0 * dd0 == zz0 * ddet - zz0 * dd1 - zz0 * dd2 - zz0 * dd3) by (nonlinear_arith)
            requires
                dd0 == ddet - dd1 - dd2 - dd3,
        ;
        assert(zz0 * dd0 + zz1 * dd1 + zz2 * dd2 + zz3 * dd3 == 0);
        // Combine the three coordinate sums along the plane normal.
        let w0 = plane_side(nx, ny, nz, t.p0);
        let w1 = plane_side(nx, ny, nz, t.p1);
        let w2 = plane_side(nx, ny, nz, t.p2);
        let w3 = plane_side(nx, ny, nz, t.p3);
        assert(w0 * dd0 == nx * (xx0 * dd0) + ny * (yy0 * dd0) + nz * (zz0 * dd0))
            by (nonlinear_arith)
            requires
                w0 == nx * xx0 + ny * yy0 + nz * zz0,
        ;
        assert(w1 * dd1 == nx * (xx1 * dd1) + ny * (yy1 * dd1) + nz * (zz1 * dd1))
            by (nonlinear_arith)
            requires
                w1 == nx * xx1 + ny * yy1 + nz * zz1,
        ;
        assert(w2 * dd2 == nx * (xx2 * dd2) + ny * (yy2 * dd2) + nz * (zz2 * dd2))
            by (nonlinear_arith)
            requires
                w2 == nx * xx2 + ny * yy2 + nz * zz2,
        ;
        assert(w3 * dd3 == nx * (xx3 * dd3) + ny * (yy3 * dd3) + nz * (zz3 * dd3))
            by (nonlinear_arith)
            requires
                w3 == nx * xx3 + ny * yy3 + nz * zz3,
        ;
        assert(nx * (xx0 * dd0) + nx * (xx1 * dd1) + nx * (xx2 * dd2) + nx * (xx3 * dd3) == 0)
            by (nonlinear_arith)
            requires
                xx0 * dd0 + xx1 * dd1 + xx2 * dd2 + xx3 * dd3 == 0,
        ;
        assert(ny * (yy0 * dd0) + ny * (yy1 * dd1) + ny * (yy2 * dd2) + ny * (yy3 * dd3) == 0)
            by (nonlinear_arith)
            requires
                yy0 * dd0 + yy1 * dd1 + yy2 * dd2 + yy3 * dd3 == 0,
        ;
        assert(nz * (zz0 * dd0) + nz * (zz1 * dd1) + nz * (zz2 * dd2) + nz * (zz3 * dd3) == 0)
            by (nonlinear_arith)
            requires
                zz0 * dd0 + zz1 * dd1 + zz2 * dd2 + zz3 * dd3 == 0,
        ;
        assert(w0 * dd0 + w1 * dd1 + w2 * dd2 + w3 * dd3 == 0);
        assert(dd0 + dd1 + dd2 + dd3 == ddet);
        lemma_signed_weighted_sum_nonzero(w0, w1, w2, w3, dd0, dd1, dd2, dd3);
        assert(false);
    }
}

/// A tetrahedron whose four vertices all lie strictly on one side of the
/// plane `z = 0` cannot contain the origin: the instance of the plane law
/// for the normal `(0, 0, 1)`.
pub proof fn lemma_halfspace_excludes_origin(t: Tetrahedron)
    requires
        t.in_range(),
        (t.p0.z > 0 && t.p1.z > 0 && t.p2.z > 0 && t.p3.z > 0) || (t.p0.z < 0 && t.p1.z < 0
            && t.p2.z < 0 && t.p3.z < 0),
    ensures
        !origin_in_tetra(t),
{
    assert(plane_side(0, 0, 1, t.p0) == t.p0.z);
    assert(plane_side(0, 0, 1, t.p1) == t.p1.z);
    assert(plane_side(0, 0, 1, t.p2) == t.p2.z);
    assert(plane_side(0, 0, 1, t.p3) == t.p3.z);
    lemma_plane_excludes_origin(t, 0, 0, 1);
}

} // verus!
