//! A small numerical-optimization toolkit: unconstrained minimization of
//! real-valued, vector-input objective functions.
//!
//! The heart of the crate is the quasi-Newton (BFGS) control driver in
//! [`driver`]: a verified state machine that owns every decision of the
//! optimization loop — convergence against the tolerance, the iteration cap,
//! and the handling of the numerically ill-posed states (a singular curvature
//! matrix, a degenerate secant step, a non-finite objective value).  The
//! floating-point work itself — gradient estimation, the linear solve, the
//! rank-two curvature update — is carried out by the surrounding numerical
//! code, which reports back to the driver and obeys its directives.

pub mod driver;
pub mod outcome;
