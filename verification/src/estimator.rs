use vstd::prelude::*;
use crate::solver::SolveError;
use crate::solver::includes_origin;
use crate::solver::origin_in_tetra;
use crate::solver::tetra_det;
use crate::tetra::Tetrahedron;

verus! {

/// How many of the first `n` tetrahedra of the sequence contain the origin.
pub open spec fn count_inside(s: Seq<Tetrahedron>, n: int) -> int
    decreases n,
{
    if n <= 0 {
        0
    } else {
        count_inside(s, n - 1) + if origin_in_tetra(s[n - 1]) {
            1int
        } else {
            0int
        }
    }
}

/// The number of successes among the first `n` trials is between 0 and `n`.
pub proof fn lemma_count_inside_bound(s: Seq<Tetrahedron>, n: int)
    requires
        n >= 0,
    ensures
        0 <= count_inside(s, n) <= n,
    decreases n,
{
    if n > 0 {
        lemma_count_inside_bound(s, n - 1);
    }
}

/// The aggregate of one estimation run: how many trials were made and how
/// many of them found the origin inside the sampled tetrahedron.  Counts
/// are accumulated as integers; the ratio is left to the reporter.
#[derive(Clone, Copy, PartialEq, Eq, Structural, Debug)]
pub struct EstimationRun {
    pub successes: usize,
    pub trials: usize,
}

impl EstimationRun {
    /// A success count never exceeds its trial count.
    pub open spec fn wf(self) -> bool {
        self.successes <= self.trials
    }

    /// A fresh run with nothing recorded yet.
    pub fn new() -> (run: EstimationRun)
        ensures
            run == (EstimationRun { successes: 0, trials: 0 }),
    {
        EstimationRun { successes: 0, trials: 0 }
    }

    /// Record the outcome of one trial.
    pub fn record(&mut self, inside: bool)
        requires
            old(self).trials < usize::MAX,
            old(self).wf(),
        ensures
            final(self).trials == old(self).trials + 1,
            final(self).successes == old(self).successes + if inside {
                1int
            } else {
                0int
            },
            final(self).wf(),
    {
        self.trials = self.trials + 1;
        if inside {
            self.successes = self.successes + 1;
        }
    }
}

/// A failed estimation run: the trial at this index drew a degenerate
/// (affinely dependent) tetrahedron, and the run stops there rather than
/// silently skewing the count.
#[derive(Clone, Copy, PartialEq, Eq, Structural, Debug)]
pub struct SingularTrial {
    pub trial_index: usize,
}

/// Test every tetrahedron of one batch of trials for containment of the
/// origin and aggregate the successes.
///
/// When every trial is non-degenerate the run reports the exact number of
/// tetrahedra that contain the origin; the first degenerate trial, if any,
/// aborts the run and is reported by its index.
pub fn estimate(tetras: &Vec<Tetrahedron>) -> (r: Result<EstimationRun, SingularTrial>)
    requires
        forall|j: int| 0 <= j < tetras@.len() ==> (#[trigger] tetras@[j]).in_range(),
    ensures
        match r {
            Ok(run) => {
                &&& run.trials == tetras@.len()
                &&& run.successes == count_inside(tetras@, tetras@.len() as int)
                &&& run.wf()
                &&& forall|j: int| 0 <= j < tetras@.len() ==> tetra_det(#[trigger] tetras@[j]) != 0
            },
            Err(e) => {
                &&& e.trial_index < tetras@.len()
                &&& tetra_det(tetras@[e.trial_index as int]) == 0
                &&& forall|j: int| 0 <= j < e.trial_index ==> tetra_det(#[trigger] tetras@[j]) != 0
            },
        },
{
    let mut successes: usize = 0;
    let mut i: usize = 0;
    while i < tetras.len()
        invariant
            i <= tetras@.len(),
            successes == count_inside(tetras@, i as int),
            forall|j: int| 0 <= j < tetras@.len() ==> (#[trigger] tetras@[j]).in_range(),
            forall|j: int| 0 <= j < i ==> tetra_det(#[trigger] tetras@[j]) != 0,
        decreases tetras@.len() - i,
    {
        proof {
            lemma_count_inside_bound(tetras@, i as int);
        }
        let t = tetras[i];
        match includes_origin(&t) {
            Ok(inside) => {
                if inside {
                    successes = successes + 1;
                }
            },
            Err(SolveError::SingularMatrix) => {
                return Err(SingularTrial { trial_index: i });
            },
        }
        i = i + 1;
    }
    proof {
        lemma_count_inside_bound(tetras@, tetras@.len() as int);
    }
    Ok(EstimationRun { successes, trials: tetras.len() })
}

} // verus!
