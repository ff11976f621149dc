//! Estimates, by Monte Carlo sampling, the probability that a tetrahedron
//! whose four vertices are drawn at random on the unit sphere contains the
//! sphere's center.
//!
//! Coordinates are fixed-point integers in units of `1 / point::SCALE`, so
//! the rotations, the barycentric transformation and the containment solve
//! are exact integer computations with exact contracts; the scaled cosine
//! and sine of each randomly drawn angle are supplied by the caller.

pub mod estimator;
pub mod point;
pub mod sampler;
pub mod solver;
pub mod tetra;
