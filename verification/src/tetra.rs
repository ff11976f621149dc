use vstd::prelude::*;
use crate::point::COORD_MAX;
use crate::point::Point3;

verus! {

/// Whether a matrix entry is within the range an edge vector of in-range
/// points can reach (a difference of two coordinates).
pub open spec fn entry_ok(c: int) -> bool {
    -(2 * (COORD_MAX as int)) <= c <= 2 * (COORD_MAX as int)
}

/// A 3×3 matrix held as its three column vectors.
#[derive(Clone, Copy, PartialEq, Eq, Structural, Debug)]
pub struct Mat3 {
    pub c0: Point3,
    pub c1: Point3,
    pub c2: Point3,
}

impl Mat3 {
    /// Every entry is within the range of an edge-vector coordinate.
    pub open spec fn in_range(self) -> bool {
        entry_ok(self.c0.x as int) && entry_ok(self.c0.y as int) && entry_ok(self.c0.z as int)
            && entry_ok(self.c1.x as int) && entry_ok(self.c1.y as int) && entry_ok(
            self.c1.z as int,
        ) && entry_ok(self.c2.x as int) && entry_ok(self.c2.y as int) && entry_ok(self.c2.z as int)
    }
}

/// An ordered 4-tuple of points on (or near) the sphere.  The order is
/// arbitrary but fixed: the first vertex is the reference vertex of the
/// barycentric transformation.
#[derive(Clone, Copy, PartialEq, Eq, Structural, Debug)]
pub struct Tetrahedron {
    pub p0: Point3,
    pub p1: Point3,
    pub p2: Point3,
    pub p3: Point3,
}

/// The barycentric transformation matrix of a tetrahedron: its columns are
/// the edge vectors `p1 - p0`, `p2 - p0`, `p3 - p0`.
pub open spec fn spec_barycentric_matrix(t: Tetrahedron) -> Mat3 {
    Mat3 {
        c0: Point3 {
            x: (t.p1.x - t.p0.x) as i64,
            y: (t.p1.y - t.p0.y) as i64,
            z: (t.p1.z - t.p0.z) as i64,
        },
        c1: Point3 {
            x: (t.p2.x - t.p0.x) as i64,
            y: (t.p2.y - t.p0.y) as i64,
            z: (t.p2.z - t.p0.z) as i64,
        },
        c2: Point3 {
            x: (t.p3.x - t.p0.x) as i64,
            y: (t.p3.y - t.p0.y) as i64,
            z: (t.p3.z - t.p0.z) as i64,
        },
    }
}

impl Tetrahedron {
    /// All four vertices have coordinates within the accepted range.
    pub open spec fn in_range(self) -> bool {
        self.p0.in_range() && self.p1.in_range() && self.p2.in_range() && self.p3.in_range()
    }

    /// A tetrahedron from its four vertices, in order.
    pub fn new(p0: Point3, p1: Point3, p2: Point3, p3: Point3) -> (t: Tetrahedron)
        ensures
            t == (Tetrahedron { p0, p1, p2, p3 }),
    {
        Tetrahedron { p0, p1, p2, p3 }
    }

    /// The matrix that carries barycentric coordinates (with respect to the
    /// reference vertex `p0`) to space coordinates: column `j` is the edge
    /// vector from `p0` to vertex `j + 1`.  A pure function of the four
    /// vertices; no state is read or written.
    pub fn barycentric_matrix(&self) -> (m: Mat3)
        requires
            self.in_range(),
        ensures
            m == spec_barycentric_matrix(*self),
            m.in_range(),
    {
        Mat3 {
            c0: Point3 {
                x: self.p1.x - self.p0.x,
                y: self.p1.y - self.p0.y,
                z: self.p1.z - self.p0.z,
            },
            c1: Point3 {
                x: self.p2.x - self.p0.x,
                y: self.p2.y - self.p0.y,
                z: self.p2.z - self.p0.z,
            },
            c2: Point3 {
                x: self.p3.x - self.p0.x,
                y: self.p3.y - self.p0.y,
                z: self.p3.z - self.p0.z,
            },
        }
    }
}

/// The barycentric matrix is a pure function of the four vertices: any two
/// computations of it over the same tetrahedron yield the same matrix.
pub proof fn lemma_barycentric_matrix_deterministic(t: Tetrahedron, m1: Mat3, m2: Mat3)
    requires
        m1 == spec_barycentric_matrix(t),
        m2 == spec_barycentric_matrix(t),
    ensures
        m1 == m2,
{
}

} // verus!
