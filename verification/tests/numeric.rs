//! Full numerical runs in two dimensions, driven through the verified
//! control driver: the test code does the floating-point work and obeys the
//! driver's directives, exactly as a caller of the library would.

use optimax::driver::{Driver, Phase};
use optimax::outcome::{DegeneratePolicy, Directive, OptimError, Termination};

const EPSILON: f64 = 1e-5;
const ALPHA: f64 = 0.01;
const NEGLIGIBLE: f64 = 1e-12;

fn central_difference_gradient(f: &dyn Fn(&[f64; 2]) -> f64, x: &[f64; 2]) -> [f64; 2] {
    let mut g = [0.0, 0.0];
    for i in 0..2usize {
        let mut x_plus = *x;
        let mut x_minus = *x;
        x_plus[i] += EPSILON;
        x_minus[i] -= EPSILON;
        g[i] = (f(&x_plus) - f(&x_minus)) / (2.0 * EPSILON);
    }
    g
}

fn norm(v: &[f64; 2]) -> f64 {
    (v[0] * v[0] + v[1] * v[1]).sqrt()
}

fn solve2(h: &[[f64; 2]; 2], g: &[f64; 2]) -> Option<[f64; 2]> {
    let det = h[0][0] * h[1][1] - h[0][1] * h[1][0];
    if !det.is_finite() || det.abs() < NEGLIGIBLE {
        return None;
    }
    Some([
        (g[0] * h[1][1] - g[1] * h[0][1]) / det,
        (h[0][0] * g[1] - h[1][0] * g[0]) / det,
    ])
}

/// The two-sided rank-two update H_new = A·H·B + rho·(s sᵀ) with
/// A = I − rho·(s yᵀ) and B = I − rho·(y sᵀ), rho = 1/(y·s).
fn curvature_update(h: &[[f64; 2]; 2], s: &[f64; 2], y: &[f64; 2], ys: f64) -> [[f64; 2]; 2] {
    let rho = 1.0 / ys;
    let mut a = [[0.0; 2]; 2];
    let mut b = [[0.0; 2]; 2];
    for i in 0..2usize {
        for j in 0..2usize {
            let identity = if i == j { 1.0 } else { 0.0 };
            a[i][j] = identity - rho * s[i] * y[j];
            b[i][j] = identity - rho * y[i] * s[j];
        }
    }
    let mut hb = [[0.0; 2]; 2];
    for i in 0..2usize {
        for j in 0..2usize {
            hb[i][j] = h[i][0] * b[0][j] + h[i][1] * b[1][j];
        }
    }
    let mut new_h = [[0.0; 2]; 2];
    for i in 0..2usize {
        for j in 0..2usize {
            new_h[i][j] = a[i][0] * hb[0][j] + a[i][1] * hb[1][j] + rho * s[i] * s[j];
        }
    }
    new_h
}

/// One full run: the driver decides, this loop computes.  Returns the final
/// point, the terminal directive, and the gradient norm after each
/// evaluation.
fn run_bfgs(
    f: &dyn Fn(&[f64; 2]) -> f64,
    initial: [f64; 2],
    initial_curvature: [[f64; 2]; 2],
    tolerance: f64,
    max_iterations: u64,
    policy: DegeneratePolicy,
) -> ([f64; 2], Directive, Vec<f64>) {
    let mut x = initial;
    let mut h = initial_curvature;
    let mut driver = Driver::new(max_iterations, policy);
    let mut g = central_difference_gradient(f, &x);
    let mut norms = vec![norm(&g)];
    loop {
        let finite = g[0].is_finite() && g[1].is_finite();
        let below = norm(&g) < tolerance;
        match driver.on_gradient(finite, below) {
            Directive::SolveDirection => {}
            terminal => return (x, terminal, norms),
        }
        let direction = solve2(&h, &g);
        match driver.on_direction(direction.is_some()) {
            Directive::AdvanceIterate => {}
            terminal => return (x, terminal, norms),
        }
        let direction = direction.unwrap();
        let x_old = x;
        let g_old = g;
        x[0] -= ALPHA * direction[0];
        x[1] -= ALPHA * direction[1];
        g = central_difference_gradient(f, &x);
        let s = [x[0] - x_old[0], x[1] - x_old[1]];
        let y = [g[0] - g_old[0], g[1] - g_old[1]];
        let ys = y[0] * s[0] + y[1] * s[1];
        let objective_finite =
            f(&x).is_finite() && g[0].is_finite() && g[1].is_finite();
        let secant_positive = ys > NEGLIGIBLE;
        match driver.on_step(objective_finite, secant_positive) {
            Directive::UpdateCurvature => h = curvature_update(&h, &s, &y, ys),
            Directive::RetainCurvature => {}
            terminal => return (x, terminal, norms),
        }
        norms.push(norm(&g));
    }
}

fn bowl(x: &[f64; 2]) -> f64 {
    x[0] * x[0] + x[1] * x[1]
}

fn identity() -> [[f64; 2]; 2] {
    [[1.0, 0.0], [0.0, 1.0]]
}

#[test]
fn quadratic_bowl_descends_monotonically_toward_origin() {
    let (x, terminal, norms) =
        run_bfgs(&bowl, [1.0, 2.0], identity(), 1e-6, 100, DegeneratePolicy::SkipUpdate);
    assert!(matches!(terminal, Directive::Stop(_)));
    assert!(x[0].is_finite() && x[1].is_finite());
    for i in 1..norms.len() {
        assert!(norms[i] < norms[i - 1]);
    }
    assert!(norm(&x) < norms[0] / 2.0);
    assert!(norm(&x) < 0.1);
}

#[test]
fn stationary_start_returns_the_point_unmoved() {
    let (x, terminal, norms) =
        run_bfgs(&bowl, [0.0, 0.0], identity(), 1e-6, 100, DegeneratePolicy::SkipUpdate);
    assert_eq!(terminal, Directive::Stop(Termination::Converged { iterations: 0 }));
    assert_eq!(x, [0.0, 0.0]);
    assert_eq!(norms.len(), 1);
}

#[test]
fn zero_cap_returns_the_initial_point_unchanged() {
    let (x, terminal, _) =
        run_bfgs(&bowl, [1.0, 2.0], identity(), 1e-6, 0, DegeneratePolicy::SkipUpdate);
    assert_eq!(terminal, Directive::Stop(Termination::MaxIterationsReached));
    assert_eq!(x, [1.0, 2.0]);
}

#[test]
fn linear_objective_degenerate_secant_leaves_no_nan() {
    // A linear objective has a constant gradient, so y = 0 and y·s = 0 on
    // every step: the secant condition fails each time.
    let linear = |x: &[f64; 2]| x[0];
    let (x, terminal, _) =
        run_bfgs(&linear, [1.0, 2.0], identity(), 1e-6, 5, DegeneratePolicy::SkipUpdate);
    assert_eq!(terminal, Directive::Stop(Termination::MaxIterationsReached));
    assert!(x[0].is_finite() && x[1].is_finite());
    assert!(!x[0].is_nan() && !x[1].is_nan());
}

#[test]
fn degenerate_secant_aborts_under_strict_policy() {
    let linear = |x: &[f64; 2]| x[0];
    let (x, terminal, _) =
        run_bfgs(&linear, [1.0, 2.0], identity(), 1e-6, 5, DegeneratePolicy::RaiseError);
    assert_eq!(terminal, Directive::Abort(OptimError::DegenerateStep));
    assert!(x[0].is_finite() && x[1].is_finite());
}

#[test]
fn singular_initial_curvature_aborts_on_first_solve() {
    let singular = [[1.0, 1.0], [1.0, 1.0]];
    let (x, terminal, _) =
        run_bfgs(&bowl, [1.0, 2.0], singular, 1e-6, 100, DegeneratePolicy::SkipUpdate);
    assert_eq!(terminal, Directive::Abort(OptimError::SingularCurvatureMatrix));
    assert_eq!(x, [1.0, 2.0]);
}

#[test]
fn non_finite_objective_is_surfaced_not_propagated() {
    let nan_objective = |_: &[f64; 2]| f64::NAN;
    let (x, terminal, _) =
        run_bfgs(&nan_objective, [1.0, 2.0], identity(), 1e-6, 100, DegeneratePolicy::SkipUpdate);
    assert_eq!(terminal, Directive::Abort(OptimError::NonFiniteObjective));
    assert_eq!(x, [1.0, 2.0]);
}

#[test]
fn gradient_estimate_matches_analytic_gradient() {
    // For the bowl the analytic gradient at x is (2·x₀, 2·x₁); the central
    // difference is exact up to O(ε²).
    let g = central_difference_gradient(&bowl, &[1.0, 2.0]);
    assert!((g[0] - 2.0).abs() < 1e-9);
    assert!((g[1] - 4.0).abs() < 1e-9);
}

#[test]
fn curvature_update_preserves_symmetry() {
    let mut h = identity();
    let s = [0.3, -0.1];
    let y = [0.7, 0.2];
    let ys = y[0] * s[0] + y[1] * s[1];
    assert!(ys > 0.0);
    h = curvature_update(&h, &s, &y, ys);
    assert!((h[0][1] - h[1][0]).abs() < 1e-12);
    // A second update from an asymmetric-looking state stays symmetric too.
    let s2 = [-0.2, 0.5];
    let y2 = [0.1, 0.9];
    let ys2 = y2[0] * s2[0] + y2[1] * s2[1];
    assert!(ys2 > 0.0);
    h = curvature_update(&h, &s2, &y2, ys2);
    assert!((h[0][1] - h[1][0]).abs() < 1e-12);
}

#[test]
fn driver_phase_is_terminal_after_a_run() {
    let mut driver = Driver::new(1, DegeneratePolicy::SkipUpdate);
    driver.on_gradient(true, false);
    driver.on_direction(true);
    driver.on_step(true, true);
    driver.on_gradient(true, false);
    assert_eq!(driver.phase, Phase::Finished);
    assert!(!driver.expecting(&optimax::driver::Event::Direction { solved: true }));
}
