use sphere_tetra::point::Point3;
use sphere_tetra::point::SCALE;
use sphere_tetra::sampler::TURN_MICRODEG;
use sphere_tetra::sampler::random_angle_microdeg;
use sphere_tetra::sampler::rotated_sphere_point;

/// A real coordinate as a fixed-point value.
fn fx(v: f64) -> i64 {
    (v * SCALE as f64).round() as i64
}

/// A fixed-point coordinate as a real value.
fn fl(c: i64) -> f64 {
    c as f64 / SCALE as f64
}

/// The scaled cosine and sine of an angle in degrees.
fn cos_sin(deg: f64) -> (i64, i64) {
    let rad = deg.to_radians();
    (fx(rad.cos()), fx(rad.sin()))
}

fn norm(p: &Point3) -> f64 {
    (fl(p.x) * fl(p.x) + fl(p.y) * fl(p.y) + fl(p.z) * fl(p.z)).sqrt()
}

#[test]
fn rotate_x_preserves_norm_within_tolerance() {
    let p = Point3 { x: fx(0.3), y: fx(-0.5), z: fx(0.8) };
    let (c, s) = cos_sin(37.25);
    let q = p.rotate_x(c, s);
    assert!((norm(&q) - norm(&p)).abs() < 1e-6);
}

#[test]
fn rotate_y_preserves_norm_within_tolerance() {
    let p = Point3 { x: fx(0.3), y: fx(-0.5), z: fx(0.8) };
    let (c, s) = cos_sin(211.0);
    let q = p.rotate_y(c, s);
    assert!((norm(&q) - norm(&p)).abs() < 1e-6);
}

#[test]
fn rotate_z_preserves_norm_within_tolerance() {
    let p = Point3 { x: fx(0.3), y: fx(-0.5), z: fx(0.8) };
    let (c, s) = cos_sin(359.9);
    let q = p.rotate_z(c, s);
    assert!((norm(&q) - norm(&p)).abs() < 1e-6);
}

#[test]
fn rotate_z_quarter_turn_exact() {
    let p = Point3 { x: SCALE, y: 0, z: 0 };
    let q = p.rotate_z(0, SCALE);
    assert_eq!(q.x, 0);
    assert_eq!(q.y, SCALE);
    assert_eq!(q.z, 0);
}

#[test]
fn rotate_x_half_turn_exact() {
    let p = Point3 { x: fx(0.25), y: fx(0.5), z: fx(-0.75) };
    let q = p.rotate_x(-SCALE, 0);
    assert_eq!(q.x, p.x);
    assert_eq!(q.y, -p.y);
    assert_eq!(q.z, -p.z);
}

#[test]
fn sampled_point_lies_on_unit_sphere() {
    for _ in 0..32 {
        let a1 = random_angle_microdeg() as f64 / 1_000_000.0;
        let a2 = random_angle_microdeg() as f64 / 1_000_000.0;
        let a3 = random_angle_microdeg() as f64 / 1_000_000.0;
        let (c1, s1) = cos_sin(a1);
        let (c2, s2) = cos_sin(a2);
        let (c3, s3) = cos_sin(a3);
        let p = rotated_sphere_point(c1, s1, c2, s2, c3, s3);
        assert!((norm(&p) - 1.0).abs() < 1e-6);
    }
}

#[test]
fn norm_sq_of_pole_is_exact() {
    let pole = Point3 { x: 0, y: 0, z: SCALE };
    assert_eq!(pole.norm_sq(), (SCALE as i128) * (SCALE as i128));
}

#[test]
fn sampled_point_norm_sq_near_scale_squared() {
    let (c, s) = cos_sin(123.456);
    let p = rotated_sphere_point(c, s, s, c, c, s);
    let unit = (SCALE as i128) * (SCALE as i128);
    let err = (p.norm_sq() - unit).abs();
    // Each truncating division loses less than one fixed-point unit per
    // coordinate, and (c, s) is a rounded cosine/sine pair, so the squared
    // norm stays within a few parts in a billion of the exact value.
    assert!(err < unit / 100_000_000);
}

#[test]
fn random_angle_stays_below_full_turn() {
    for _ in 0..256 {
        let a = random_angle_microdeg();
        assert!(a < TURN_MICRODEG);
    }
}
