//! The quasi-Newton control driver.
//!
//! The driver is the decision core of the BFGS loop.  It never touches a
//! floating-point number: the surrounding numerical code evaluates the
//! objective, solves the linear system and updates the curvature matrix, and
//! reports the outcome of each piece of work as an [`Event`].  The driver
//! answers every report with a [`Directive`]: what to do next, or how the run
//! ends.  Every transition is specified exactly by [`Driver::transition`],
//! and the executable methods are proved to follow it.
//!
//! One loop pass follows the order: test the gradient norm against the
//! tolerance and the iteration count against the cap; solve for the
//! direction; select a step, move the iterate and recompute the gradient;
//! update (or retain) the curvature approximation; and count the pass.

use vstd::prelude::*;

use crate::outcome::{DegeneratePolicy, Directive, OptimError, Termination};

verus! {

/// Where the driver stands inside one pass of the loop.
///
/// `AwaitGradient` with no pass counted yet is the initial state; the three
/// `Await*` phases together make up the iterating regime; `Finished` is
/// terminal, reached with either a [`Termination`] or an [`OptimError`].
#[derive(Clone, Copy, Debug, PartialEq, Eq, Structural)]
pub enum Phase {
    /// A gradient for the current iterate is being evaluated; the driver
    /// next judges its norm against the tolerance and the count against
    /// the cap.
    AwaitGradient,
    /// The linear solve `H·direction = gradient` is in progress.
    AwaitDirection,
    /// A step along the direction is being taken: the iterate moves, the
    /// gradient is recomputed, and the secant product `y·s` is formed.
    AwaitStep,
    /// The run is over; no further event is expected.
    Finished,
}

/// A report from the surrounding numerical code: the outcome of the piece of
/// work the driver asked for.
#[derive(Clone, Copy, Debug, PartialEq, Eq, Structural)]
pub enum Event {
    /// A gradient was evaluated: were all of its entries finite, and is its
    /// Euclidean norm below the tolerance?
    Gradient { finite: bool, norm_below_tolerance: bool },
    /// The linear solve was attempted: did it produce a direction?
    Direction { solved: bool },
    /// A step was taken and the gradient recomputed: was the objective
    /// finite at every evaluated point, and is the secant product `y·s`
    /// positive (above the negligibility threshold)?
    Step { objective_finite: bool, secant_positive: bool },
}

/// The decision core of one optimization run.
///
/// It holds no numerical state — only the iteration accounting, the policy
/// for degenerate steps, and the phase of the loop.
#[derive(Clone, Copy, Debug, PartialEq, Eq, Structural)]
pub struct Driver {
    /// Cap on loop passes, fixed for the run.
    pub max_iterations: u64,
    /// Completed loop passes so far; never exceeds `max_iterations`.
    pub iterations_done: u64,
    /// How a non-positive secant product is treated.
    pub policy: DegeneratePolicy,
    /// Where the driver stands inside the loop.
    pub phase: Phase,
}

impl Driver {
    /// The driver's invariant: the count respects the cap, and the phases
    /// that lie beyond the loop guard imply the guard held.
    pub open spec fn inv(self) -> bool {
        &&& self.iterations_done <= self.max_iterations
        &&& ((self.phase is AwaitDirection || self.phase is AwaitStep)
            ==> self.iterations_done < self.max_iterations)
    }

    /// The driver freshly constructed for a run capped at `max_iterations`.
    pub open spec fn initial(max_iterations: u64, policy: DegeneratePolicy) -> Driver {
        Driver {
            max_iterations,
            iterations_done: 0,
            policy,
            phase: Phase::AwaitGradient,
        }
    }

    /// Whether an event is the report the current phase is waiting for.
    pub open spec fn expects(self, e: Event) -> bool {
        match e {
            Event::Gradient { .. } => self.phase is AwaitGradient,
            Event::Direction { .. } => self.phase is AwaitDirection,
            Event::Step { .. } => self.phase is AwaitStep,
        }
    }

    /// The transition function of the driver: the successor state and the
    /// directive answered to an expected event.
    ///
    /// On a gradient report, convergence is judged before the iteration cap,
    /// so a run that is both converged and out of budget counts as converged.
    pub open spec fn transition(self, e: Event) -> (Driver, Directive) {
        match e {
            Event::Gradient { finite, norm_below_tolerance } => {
                if !finite {
                    (
                        Driver { phase: Phase::Finished, ..self },
                        Directive::Abort(OptimError::NonFiniteObjective),
                    )
                } else if norm_below_tolerance {
                    (
                        Driver { phase: Phase::Finished, ..self },
                        Directive::Stop(
                            Termination::Converged { iterations: self.iterations_done },
                        ),
                    )
                } else if self.iterations_done == self.max_iterations {
                    (
                        Driver { phase: Phase::Finished, ..self },
                        Directive::Stop(Termination::MaxIterationsReached),
                    )
                } else {
                    (Driver { phase: Phase::AwaitDirection, ..self }, Directive::SolveDirection)
                }
            },
            Event::Direction { solved } => {
                if solved {
                    (Driver { phase: Phase::AwaitStep, ..self }, Directive::AdvanceIterate)
                } else {
                    (
                        Driver { phase: Phase::Finished, ..self },
                        Directive::Abort(OptimError::SingularCurvatureMatrix),
                    )
                }
            },
            Event::Step { objective_finite, secant_positive } => {
                if !objective_finite {
                    (
                        Driver { phase: Phase::Finished, ..self },
                        Directive::Abort(OptimError::NonFiniteObjective),
                    )
                } else if secant_positive {
                    (
                        Driver {
                            phase: Phase::AwaitGradient,
                            iterations_done: (self.iterations_done + 1) as u64,
                            ..self
                        },
                        Directive::UpdateCurvature,
                    )
                } else if self.policy is SkipUpdate {
                    (
                        Driver {
                            phase: Phase::AwaitGradient,
                            iterations_done: (self.iterations_done + 1) as u64,
                            ..self
                        },
                        Directive::RetainCurvature,
                    )
                } else {
                    (
                        Driver { phase: Phase::Finished, ..self },
                        Directive::Abort(OptimError::DegenerateStep),
                    )
                }
            },
        }
    }

    /// A whole run, as a fold of [`Driver::transition`] over a sequence of
    /// reports.  An event the current phase does not expect — in particular
    /// any event after the driver finished — ends the run where it stands.
    pub open spec fn run(self, events: Seq<Event>) -> Driver
        decreases events.len(),
    {
        if events.len() == 0 {
            self
        } else if self.expects(events[0]) {
            self.transition(events[0]).0.run(events.drop_first())
        } else {
            self
        }
    }

    /// How many `AdvanceIterate` directives — moves of the iterate — the
    /// driver answers over a recorded run.
    pub open spec fn moves(self, events: Seq<Event>) -> nat
        decreases events.len(),
    {
        if events.len() == 0 {
            0
        } else if self.expects(events[0]) {
            (if self.transition(events[0]).1 == Directive::AdvanceIterate {
                1nat
            } else {
                0nat
            }) + self.transition(events[0]).0.moves(events.drop_first())
        } else {
            0
        }
    }

    /// How many moves of the iterate a driver can still ask for.  In
    /// `AwaitStep` one move has been asked for but not yet counted, so one
    /// fewer remains.
    pub open spec fn remaining_moves(self) -> int {
        if self.phase is Finished {
            0
        } else if self.phase is AwaitStep {
            self.max_iterations - self.iterations_done - 1
        } else {
            self.max_iterations - self.iterations_done
        }
    }

    /// Build the driver for a fresh run.  The caller evaluates the gradient
    /// at the initial point first and reports it with [`Driver::on_gradient`].
    pub fn new(max_iterations: u64, policy: DegeneratePolicy) -> (d: Driver)
        ensures
            d == Driver::initial(max_iterations, policy),
            d.inv(),
    {
        Driver {
            max_iterations,
            iterations_done: 0,
            policy,
            phase: Phase::AwaitGradient,
        }
    }

    /// Judge a freshly evaluated gradient: abort on a non-finite value,
    /// declare convergence when the norm fell below the tolerance, stop when
    /// the iteration cap is exhausted, and otherwise ask for a direction.
    pub fn on_gradient(&mut self, finite: bool, norm_below_tolerance: bool) -> (r: Directive)
        requires
            old(self).inv(),
            old(self).phase is AwaitGradient,
        ensures
            final(self).inv(),
            *final(self) == old(self).transition(
                Event::Gradient { finite, norm_below_tolerance },
            ).0,
            r == old(self).transition(Event::Gradient { finite, norm_below_tolerance }).1,
            !finite ==> r == Directive::Abort(OptimError::NonFiniteObjective)
                && final(self).phase is Finished,
            finite && norm_below_tolerance ==> r == (Directive::Stop(
                Termination::Converged { iterations: old(self).iterations_done },
            )) && final(self).phase is Finished,
            finite && !norm_below_tolerance
                && old(self).iterations_done == old(self).max_iterations
                ==> r == Directive::Stop(Termination::MaxIterationsReached)
                    && final(self).phase is Finished,
            finite && !norm_below_tolerance
                && old(self).iterations_done < old(self).max_iterations
                ==> r == Directive::SolveDirection && final(self).phase is AwaitDirection,
            final(self).iterations_done == old(self).iterations_done,
            final(self).max_iterations == old(self).max_iterations,
            final(self).policy == old(self).policy,
    {
        if !finite {
            self.phase = Phase::Finished;
            Directive::Abort(OptimError::NonFiniteObjective)
        } else if norm_below_tolerance {
            let iterations: u64 = self.iterations_done;
            self.phase = Phase::Finished;
            Directive::Stop(Termination::Converged { iterations })
        } else if self.iterations_done == self.max_iterations {
            self.phase = Phase::Finished;
            Directive::Stop(Termination::MaxIterationsReached)
        } else {
            self.phase = Phase::AwaitDirection;
            Directive::SolveDirection
        }
    }

    /// Whether an event is the report the current phase is waiting for.
    pub fn expecting(&self, e: &Event) -> (r: bool)
        ensures
            r == self.expects(*e),
    {
        match e {
            Event::Gradient { .. } => match self.phase {
                Phase::AwaitGradient => true,
                _ => false,
            },
            Event::Direction { .. } => match self.phase {
                Phase::AwaitDirection => true,
                _ => false,
            },
            Event::Step { .. } => match self.phase {
                Phase::AwaitStep => true,
                _ => false,
            },
        }
    }

    /// Judge the linear solve `H·direction = gradient`: a failure is the
    /// singular-curvature condition and aborts the run; a success asks for
    /// the iterate to be advanced along the direction.
    pub fn on_direction(&mut self, solved: bool) -> (r: Directive)
        requires
            old(self).inv(),
            old(self).phase is AwaitDirection,
        ensures
            final(self).inv(),
            *final(self) == old(self).transition(Event::Direction { solved }).0,
            r == old(self).transition(Event::Direction { solved }).1,
            solved ==> r == Directive::AdvanceIterate && final(self).phase is AwaitStep,
            !solved ==> r == Directive::Abort(OptimError::SingularCurvatureMatrix)
                && final(self).phase is Finished,
            final(self).iterations_done == old(self).iterations_done,
            final(self).max_iterations == old(self).max_iterations,
            final(self).policy == old(self).policy,
    {
        if solved {
            self.phase = Phase::AwaitStep;
            Directive::AdvanceIterate
        } else {
            self.phase = Phase::Finished;
            Directive::Abort(OptimError::SingularCurvatureMatrix)
        }
    }

    /// Judge a completed step: abort on a non-finite objective value; with a
    /// positive secant product, ask for the curvature update and count the
    /// pass; with a degenerate one, follow the policy — retain the previous
    /// curvature and count the pass, or abort with `DegenerateStep`.
    pub fn on_step(&mut self, objective_finite: bool, secant_positive: bool) -> (r: Directive)
        requires
            old(self).inv(),
            old(self).phase is AwaitStep,
        ensures
            final(self).inv(),
            *final(self) == old(self).transition(
                Event::Step { objective_finite, secant_positive },
            ).0,
            r == old(self).transition(Event::Step { objective_finite, secant_positive }).1,
            !objective_finite ==> r == Directive::Abort(OptimError::NonFiniteObjective)
                && final(self).phase is Finished
                && final(self).iterations_done == old(self).iterations_done,
            objective_finite && secant_positive ==> r == Directive::UpdateCurvature
                && final(self).phase is AwaitGradient
                && final(self).iterations_done == old(self).iterations_done + 1,
            objective_finite && !secant_positive && old(self).policy is SkipUpdate
                ==> r == Directive::RetainCurvature
                    && final(self).phase is AwaitGradient
                    && final(self).iterations_done == old(self).iterations_done + 1,
            objective_finite && !secant_positive && old(self).policy is RaiseError
                ==> r == Directive::Abort(OptimError::DegenerateStep)
                    && final(self).phase is Finished
                    && final(self).iterations_done == old(self).iterations_done,
            final(self).max_iterations == old(self).max_iterations,
            final(self).policy == old(self).policy,
    {
        if !objective_finite {
            self.phase = Phase::Finished;
            Directive::Abort(OptimError::NonFiniteObjective)
        } else if secant_positive {
            self.phase = Phase::AwaitGradient;
            self.iterations_done = self.iterations_done + 1;
            Directive::UpdateCurvature
        } else {
            match self.policy {
                DegeneratePolicy::SkipUpdate => {
                    self.phase = Phase::AwaitGradient;
                    self.iterations_done = self.iterations_done + 1;
                    Directive::RetainCurvature
                },
                DegeneratePolicy::RaiseError => {
                    self.phase = Phase::Finished;
                    Directive::Abort(OptimError::DegenerateStep)
                },
            }
        }
    }
}

/// Replay a recorded sequence of reports against a fresh driver and return
/// where it ends up: the same accounting the live run reached, rebuilt
/// deterministically from the trace.  Replay stops at the first report the
/// driver does not expect — in particular, at anything recorded after the
/// run finished.
pub fn replay(max_iterations: u64, policy: DegeneratePolicy, events: &Vec<Event>) -> (d: Driver)
    ensures
        d == Driver::initial(max_iterations, policy).run(events@),
        d.inv(),
{
    let mut d = Driver::new(max_iterations, policy);
    proof {
        assert(events@.skip(0) =~= events@);
    }
    let mut i: usize = 0;
    while i < events.len()
        invariant
            i <= events.len(),
            d.inv(),
            Driver::initial(max_iterations, policy).run(events@) == d.run(
                events@.skip(i as int),
            ),
        decreases events.len() - i,
    {
        let e = events[i];
        proof {
            assert(events@.skip(i as int)[0] == events@[i as int]);
            assert(events@.skip(i as int).drop_first() =~= events@.skip(i as int + 1));
        }
        if !d.expecting(&e) {
            return d;
        }
        match e {
            Event::Gradient { finite, norm_below_tolerance } => {
                let _ = d.on_gradient(finite, norm_below_tolerance);
            },
            Event::Direction { solved } => {
                let _ = d.on_direction(solved);
            },
            Event::Step { objective_finite, secant_positive } => {
                let _ = d.on_step(objective_finite, secant_positive);
            },
        }
        i = i + 1;
    }
    proof {
        assert(events@.skip(events.len() as int) =~= Seq::<Event>::empty());
    }
    d
}

/// Every expected event keeps the driver's invariant, and never touches the
/// iteration cap or the policy of the run.
pub proof fn lemma_transition_preserves_inv(d: Driver, e: Event)
    requires
        d.inv(),
        d.expects(e),
    ensures
        d.transition(e).0.inv(),
        d.transition(e).0.max_iterations == d.max_iterations,
        d.transition(e).0.policy == d.policy,
{
}

/// In any run, however the reports fall out, the number of counted loop
/// passes never exceeds the iteration cap, and the cap and policy are those
/// the run began with.
pub proof fn lemma_run_within_cap(d: Driver, events: Seq<Event>)
    requires
        d.inv(),
    ensures
        d.run(events).inv(),
        d.run(events).iterations_done <= d.max_iterations,
        d.run(events).max_iterations == d.max_iterations,
        d.run(events).policy == d.policy,
    decreases events.len(),
{
    if events.len() > 0 && d.expects(events[0]) {
        lemma_transition_preserves_inv(d, events[0]);
        lemma_run_within_cap(d.transition(events[0]).0, events.drop_first());
    }
}

/// Idempotence at a stationary start: if the very first gradient report
/// already falls below the tolerance, the driver converges at once — it
/// answers a converged stop with zero completed passes and finishes.
pub proof fn lemma_stationary_start_converges(
    max_iterations: u64,
    policy: DegeneratePolicy,
    finite: bool,
    norm_below_tolerance: bool,
)
    requires
        finite,
        norm_below_tolerance,
    ensures
        Driver::initial(max_iterations, policy).transition(
            Event::Gradient { finite, norm_below_tolerance },
        ).1 == (Directive::Stop(Termination::Converged { iterations: 0u64 })),
        Driver::initial(max_iterations, policy).transition(
            Event::Gradient { finite, norm_below_tolerance },
        ).0.phase is Finished,
{
}

/// A converged stop always reports the driver's own count of completed
/// passes, and that count respects the cap.
pub proof fn lemma_converged_count_within_cap(d: Driver, e: Event)
    requires
        d.inv(),
        d.expects(e),
    ensures
        d.transition(e).1 matches Directive::Stop(Termination::Converged { iterations })
            ==> iterations == d.iterations_done && iterations <= d.max_iterations,
{
}

/// With an iteration cap of zero, the first expected event already ends the
/// run: the driver stops or aborts at once and never asks for a direction or
/// a step, so the initial iterate is returned unchanged.
pub proof fn lemma_zero_cap_stops_at_once(d: Driver, e: Event)
    requires
        d.inv(),
        d.max_iterations == 0,
        d.expects(e),
    ensures
        d.transition(e).0.phase is Finished,
        (d.transition(e).1 matches Directive::Stop(_))
            || (d.transition(e).1 matches Directive::Abort(_)),
{
}

/// The iterate is only ever moved under the cap: whenever the driver answers
/// `AdvanceIterate`, fewer passes have been counted than the cap allows.
pub proof fn lemma_steps_respect_cap(d: Driver, e: Event)
    requires
        d.inv(),
        d.expects(e),
    ensures
        d.transition(e).1 == Directive::AdvanceIterate
            ==> d.iterations_done < d.max_iterations,
{
}

/// The terminal phase is terminal: a finished driver expects no further
/// event, so a run that has stopped or aborted can never resume.
pub proof fn lemma_finished_is_terminal(d: Driver, e: Event)
    requires
        d.phase is Finished,
    ensures
        !d.expects(e),
{
}

/// A finished driver never moves the iterate again, whatever the trace
/// still holds.
pub proof fn lemma_finished_never_moves(d: Driver, events: Seq<Event>)
    requires
        d.phase is Finished,
    ensures
        d.moves(events) == 0,
{
}

/// The evaluation budget, at the control level: in any run, the driver asks
/// for at most as many moves of the iterate as it can still count.  Each
/// move costs the step selector one objective evaluation and the gradient
/// estimator `2n` more, so a run evaluates the objective at most
/// `(2n + 1)·max_iterations` times beyond the initial gradient.
pub proof fn lemma_moves_within_budget(d: Driver, events: Seq<Event>)
    requires
        d.inv(),
    ensures
        d.moves(events) <= d.remaining_moves(),
        d.moves(events) <= d.max_iterations,
    decreases events.len(),
{
    if events.len() > 0 && d.expects(events[0]) {
        lemma_transition_preserves_inv(d, events[0]);
        lemma_moves_within_budget(d.transition(events[0]).0, events.drop_first());
    }
}

/// Boundary law for a cap of zero: such a run never moves the iterate, so
/// the initial point is returned unchanged.
pub proof fn lemma_zero_cap_never_moves(d: Driver, events: Seq<Event>)
    requires
        d.inv(),
        d.max_iterations == 0,
    ensures
        d.moves(events) == 0,
{
    lemma_moves_within_budget(d, events);
}

/// Idempotence over whole runs: a run whose first gradient report already
/// falls below the tolerance never moves the iterate, whatever else the
/// trace holds.
pub proof fn lemma_stationary_run_never_moves(
    max_iterations: u64,
    policy: DegeneratePolicy,
    events: Seq<Event>,
)
    requires
        events.len() > 0,
        events[0] == (Event::Gradient { finite: true, norm_below_tolerance: true }),
    ensures
        Driver::initial(max_iterations, policy).moves(events) == 0,
{
    let d = Driver::initial(max_iterations, policy);
    lemma_finished_never_moves(d.transition(events[0]).0, events.drop_first());
}

} // verus!
