use rand::Rng;
use rand::SeedableRng;
use rand::rngs::StdRng;
use sphere_tetra::estimator::EstimationRun;
use sphere_tetra::estimator::estimate;
use sphere_tetra::point::Point3;
use sphere_tetra::point::SCALE;
use sphere_tetra::sampler::rotated_sphere_point;
use sphere_tetra::tetra::Tetrahedron;

fn fx(v: f64) -> i64 {
    (v * SCALE as f64).round() as i64
}

fn pt(x: f64, y: f64, z: f64) -> Point3 {
    Point3 { x: fx(x), y: fx(y), z: fx(z) }
}

fn inside_fixture() -> Tetrahedron {
    Tetrahedron::new(
        pt(1.0, 1.0, 1.0),
        pt(1.0, -1.0, -1.0),
        pt(-1.0, 1.0, -1.0),
        pt(-1.0, -1.0, 1.0),
    )
}

fn outside_fixture() -> Tetrahedron {
    Tetrahedron::new(
        pt(0.1, 0.0, 0.95),
        pt(-0.1, 0.05, 0.97),
        pt(0.0, -0.1, 0.96),
        pt(0.05, 0.05, 0.99),
    )
}

fn degenerate_fixture() -> Tetrahedron {
    Tetrahedron::new(
        pt(1.0, 0.0, 0.0),
        pt(0.0, 1.0, 0.0),
        pt(0.0, 0.0, 1.0),
        pt(1.0, 1.0, -1.0),
    )
}

#[test]
fn estimate_counts_exactly() {
    let trials = vec![
        inside_fixture(),
        outside_fixture(),
        inside_fixture(),
        outside_fixture(),
        outside_fixture(),
    ];
    let run = estimate(&trials).unwrap();
    assert_eq!(run.trials, 5);
    assert_eq!(run.successes, 2);
}

#[test]
fn estimate_on_empty_batch() {
    let trials: Vec<Tetrahedron> = vec![];
    let run = estimate(&trials).unwrap();
    assert_eq!(run.trials, 0);
    assert_eq!(run.successes, 0);
}

#[test]
fn estimate_reports_first_singular_trial() {
    let trials = vec![inside_fixture(), degenerate_fixture(), outside_fixture()];
    let err = estimate(&trials).unwrap_err();
    assert_eq!(err.trial_index, 1);
}

#[test]
fn record_accumulates_counts() {
    let mut run = EstimationRun::new();
    run.record(true);
    run.record(false);
    run.record(true);
    assert_eq!(run.trials, 3);
    assert_eq!(run.successes, 2);
}

/// One point of the unit sphere, drawn by composing three axis rotations
/// with independently drawn uniform angles, as the sampler specifies.
fn sample_point(rng: &mut StdRng) -> Point3 {
    let mut cs: [(i64, i64); 3] = [(0, 0); 3];
    for pair in cs.iter_mut() {
        let deg: f64 = rng.gen_range(0.0..360.0);
        let rad = deg.to_radians();
        *pair = (fx(rad.cos()), fx(rad.sin()));
    }
    rotated_sphere_point(cs[0].0, cs[0].1, cs[1].0, cs[1].1, cs[2].0, cs[2].1)
}

#[test]
fn estimate_ratio_is_statistically_plausible() {
    // The theoretical containment probability for uniformly sampled
    // vertices is 1/8; the rotation-composed sampler is close to that.
    // The bounds are kept loose so that only a broken solver or sampler,
    // not sampling noise, can fail them.
    let mut rng = StdRng::seed_from_u64(20_240_607);
    let mut trials: Vec<Tetrahedron> = Vec::new();
    for _ in 0..2000 {
        let p0 = sample_point(&mut rng);
        let p1 = sample_point(&mut rng);
        let p2 = sample_point(&mut rng);
        let p3 = sample_point(&mut rng);
        trials.push(Tetrahedron::new(p0, p1, p2, p3));
    }
    let run = estimate(&trials).unwrap();
    assert_eq!(run.trials, 2000);
    let ratio = run.successes as f64 / run.trials as f64;
    assert!(ratio > 0.02 && ratio < 0.35);
}
