use sphere_tetra::point::Point3;
use sphere_tetra::point::SCALE;
use sphere_tetra::solver::SolveError;
use sphere_tetra::solver::includes_origin;
use sphere_tetra::tetra::Tetrahedron;

/// A real coordinate as a fixed-point value.
fn fx(v: f64) -> i64 {
    (v * SCALE as f64).round() as i64
}

fn pt(x: f64, y: f64, z: f64) -> Point3 {
    Point3 { x: fx(x), y: fx(y), z: fx(z) }
}

/// The regular tetrahedron centered at the origin.
fn regular_tetrahedron() -> Tetrahedron {
    Tetrahedron::new(
        pt(1.0, 1.0, 1.0),
        pt(1.0, -1.0, -1.0),
        pt(-1.0, 1.0, -1.0),
        pt(-1.0, -1.0, 1.0),
    )
}

#[test]
fn regular_tetrahedron_contains_origin() {
    let t = regular_tetrahedron();
    assert_eq!(includes_origin(&t), Ok(true));
}

#[test]
fn origin_at_vertex_reports_inside() {
    let t = Tetrahedron::new(
        pt(0.0, 0.0, 0.0),
        pt(1.0, 0.0, 0.0),
        pt(0.0, 1.0, 0.0),
        pt(0.0, 0.0, 1.0),
    );
    assert_eq!(includes_origin(&t), Ok(true));
}

#[test]
fn origin_at_each_vertex_reports_inside() {
    let o = pt(0.0, 0.0, 0.0);
    let a = pt(1.0, 0.0, 0.0);
    let b = pt(0.0, 1.0, 0.0);
    let c = pt(0.0, 0.0, 1.0);
    assert_eq!(includes_origin(&Tetrahedron::new(o, a, b, c)), Ok(true));
    assert_eq!(includes_origin(&Tetrahedron::new(a, o, b, c)), Ok(true));
    assert_eq!(includes_origin(&Tetrahedron::new(a, b, o, c)), Ok(true));
    assert_eq!(includes_origin(&Tetrahedron::new(a, b, c, o)), Ok(true));
}

#[test]
fn tetrahedron_beyond_plane_reports_outside() {
    // All four vertices on the positive side of the plane z = 0.
    let t = Tetrahedron::new(
        pt(0.1, 0.0, 0.95),
        pt(-0.1, 0.05, 0.97),
        pt(0.0, -0.1, 0.96),
        pt(0.05, 0.05, 0.99),
    );
    assert_eq!(includes_origin(&t), Ok(false));
}

#[test]
fn tetrahedron_below_plane_reports_outside() {
    // All four vertices on the negative side of the plane z = 0.
    let t = Tetrahedron::new(
        pt(0.3, 0.1, -0.9),
        pt(-0.2, 0.4, -0.85),
        pt(0.1, -0.5, -0.8),
        pt(0.0, 0.0, -1.0),
    );
    assert_eq!(includes_origin(&t), Ok(false));
}

#[test]
fn cone_around_pole_reports_outside() {
    // Four points of the unit sphere inside a narrow cone around (0, 0, 1),
    // every z-coordinate above 0.9.
    let t = Tetrahedron::new(
        pt(0.05, 0.02, 0.99855),
        pt(-0.03, 0.04, 0.99875),
        pt(0.01, -0.06, 0.99815),
        pt(0.02, 0.03, 0.99935),
    );
    assert_eq!(includes_origin(&t), Ok(false));
}

#[test]
fn tetrahedron_beyond_tilted_plane_reports_outside() {
    // All four vertices on the positive side of the plane x + y + z = 0.
    let t = Tetrahedron::new(
        pt(0.9, 0.1, -0.2),
        pt(0.2, 0.8, -0.1),
        pt(-0.1, 0.3, 0.9),
        pt(0.5, 0.5, 0.5),
    );
    assert_eq!(includes_origin(&t), Ok(false));
}

#[test]
fn degenerate_tetrahedron_reports_singular_matrix() {
    // p3 = p0 + p1 - p2, so the four points are affinely dependent.
    let t = Tetrahedron::new(
        pt(1.0, 0.0, 0.0),
        pt(0.0, 1.0, 0.0),
        pt(0.0, 0.0, 1.0),
        pt(1.0, 1.0, -1.0),
    );
    assert_eq!(includes_origin(&t), Err(SolveError::SingularMatrix));
}

#[test]
fn barycentric_matrix_holds_edge_vectors() {
    let t = regular_tetrahedron();
    let m = t.barycentric_matrix();
    assert_eq!(m.c0.x, fx(1.0) - fx(1.0));
    assert_eq!(m.c0.y, fx(-1.0) - fx(1.0));
    assert_eq!(m.c0.z, fx(-1.0) - fx(1.0));
    assert_eq!(m.c1.x, fx(-1.0) - fx(1.0));
    assert_eq!(m.c1.y, fx(1.0) - fx(1.0));
    assert_eq!(m.c1.z, fx(-1.0) - fx(1.0));
    assert_eq!(m.c2.x, fx(-1.0) - fx(1.0));
    assert_eq!(m.c2.y, fx(-1.0) - fx(1.0));
    assert_eq!(m.c2.z, fx(1.0) - fx(1.0));
}

#[test]
fn barycentric_matrix_is_idempotent() {
    let t = regular_tetrahedron();
    let m1 = t.barycentric_matrix();
    let m2 = t.barycentric_matrix();
    assert_eq!(m1, m2);
}
