//! Outcomes of a quasi-Newton run: how it terminated, which numerical
//! condition aborted it, and the directives the driver hands back to the
//! surrounding numerical code.

use vstd::prelude::*;

verus! {

/// How a completed run ended.  The driver returns the current iterate in
/// either case; this tag tells the caller which terminal state was reached.
#[derive(Clone, Copy, Debug, PartialEq, Eq, Structural)]
pub enum Termination {
    /// The Euclidean norm of the gradient fell below the tolerance after
    /// `iterations` completed loop passes.
    Converged { iterations: u64 },
    /// The iteration cap was reached before the gradient norm fell below
    /// the tolerance.
    MaxIterationsReached,
}

/// A numerically ill-posed state, surfaced to the caller as a recoverable
/// error instead of being allowed to corrupt later iterations.
#[derive(Clone, Copy, Debug, PartialEq, Eq, Structural)]
pub enum OptimError {
    /// The linear system `H·direction = gradient` has no usable solution:
    /// the curvature approximation is singular or severely ill-conditioned.
    SingularCurvatureMatrix,
    /// The secant product `y·s` is zero or negligible, so the rank-two
    /// curvature update would not be finite.
    DegenerateStep,
    /// The objective returned a non-finite value (NaN or infinity) at an
    /// evaluated point.
    NonFiniteObjective,
}

/// What the driver does when the secant product `y·s` is reported as not
/// positive.  Either choice keeps a non-finite update out of the curvature
/// matrix.
#[derive(Clone, Copy, Debug, PartialEq, Eq, Structural)]
pub enum DegeneratePolicy {
    /// Keep the previous curvature approximation and continue iterating.
    SkipUpdate,
    /// Stop the run and surface [`OptimError::DegenerateStep`].
    RaiseError,
}

/// What the driver asks the surrounding numerical code to do next.
#[derive(Clone, Copy, Debug, PartialEq, Eq, Structural)]
pub enum Directive {
    /// Solve `H·direction = gradient` for the search direction.
    SolveDirection,
    /// Select a step length, move the iterate along the direction, recompute
    /// the gradient, and form the differences `s = x_new − x_old` and
    /// `y = g_new − g_old` together with their product `y·s`.
    AdvanceIterate,
    /// Apply the rank-two curvature update with the step just reported.
    UpdateCurvature,
    /// Keep the previous curvature approximation for this iteration.
    RetainCurvature,
    /// The run is over; return the current iterate to the caller.
    Stop(Termination),
    /// The run failed; surface the error instead of a result.
    Abort(OptimError),
}

} // verus!
