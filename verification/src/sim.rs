//! The simulation loop: what each frame does to the pendulum and its trail.
//!
//! The simulation owns the dynamical state and the trail. It does not
//! integrate the equations of motion itself. Each frame it is asked what to
//! do with the time that has passed ([`Simulation::begin_step`]); while it
//! runs it answers with a request for one integration step, and the host
//! hands back what the integrator made of it ([`Simulation::finish_step`]).
//! Only a step that ended in finite numbers is taken over.

use vstd::prelude::*;
use crate::error::SimError;
use crate::link::LinkParameters;
use crate::scalar::lemma_order_by_bits;
use crate::scalar::Scalar;
use crate::state::AngularState;
use crate::state::DynamicalState;
use crate::state::PositionPair;
use crate::trail::decayed;
use crate::trail::recorded;
use crate::trail::Marker;
use crate::trail::TrailBuffer;

verus! {

/// Whether time passes for the pendulum.
#[derive(Clone, Copy, Debug, PartialEq, Eq, Structural)]
pub enum RunState {
    Running,
    Paused,
}

/// One integration step, as the integrator is asked for it: advance `state`
/// by `dt` seconds under gravity `gravity`, for the two given links.
#[derive(Clone, Copy, Debug)]
pub struct StepRequest {
    pub state: DynamicalState,
    pub dt: Scalar,
    pub link1: LinkParameters,
    pub link2: LinkParameters,
    pub gravity: Scalar,
}

/// What a frame has to do.
#[derive(Clone, Copy, Debug)]
pub enum Tick {
    /// The simulation is paused: nothing moves, and the host shows that.
    Idle,
    /// The simulation runs: the host integrates this step and reports the
    /// outcome.
    Integrate(StepRequest),
}

/// What the integrator made of a step.
#[derive(Clone, Copy, Debug, PartialEq, Eq, Structural)]
pub enum StepOutcome {
    /// The state after the step and the positions of the two masses in it.
    Advanced { state: DynamicalState, pivots: PositionPair },
    /// The mass matrix was singular somewhere along the step.
    Degenerate,
}

/// What a frame shows.
#[derive(Clone, Copy, Debug, PartialEq, Eq, Structural)]
pub enum Frame {
    /// The simulation is paused.
    Paused,
    /// The pendulum moved; its masses are now at these positions.
    Moved(PositionPair),
}

impl StepOutcome {
    /// Whether the outcome can be taken over: the step succeeded and every
    /// number that it produced is finite.
    pub open spec fn usable(self) -> bool {
        self matches StepOutcome::Advanced { state, pivots } && state.finite() && pivots.finite()
    }

    /// Decides whether the outcome can be taken over.
    pub fn is_usable(&self) -> (r: bool)
        ensures
            r == self.usable(),
    {
        match self {
            StepOutcome::Advanced { state, pivots } => state.is_finite() && pivots.is_finite(),
            StepOutcome::Degenerate => false,
        }
    }
}

/// The simulation as a mathematical record.
pub struct SimulationView {
    pub link1: LinkParameters,
    pub link2: LinkParameters,
    pub gravity: Scalar,
    pub max_step: Scalar,
    pub state: DynamicalState,
    pub trail: Seq<Marker>,
    pub trail_cap: nat,
    pub run: RunState,
}

impl SimulationView {
    /// What holds of every simulation: its links are valid, gravity and
    /// the state are finite, the longest step is finite and strictly
    /// positive, and the trail is within its cap.
    pub open spec fn wf(self) -> bool {
        &&& self.link1.valid()
        &&& self.link2.valid()
        &&& self.gravity.finite()
        &&& self.max_step.positive()
        &&& self.state.finite()
        &&& self.trail.len() <= self.trail_cap
    }

    /// The simulation after a pause signal.
    pub open spec fn paused(self) -> SimulationView {
        SimulationView { run: RunState::Paused, ..self }
    }

    /// The simulation after a resume signal.
    pub open spec fn resumed(self) -> SimulationView {
        SimulationView { run: RunState::Running, ..self }
    }

    /// The simulation after the signal that pauses a running simulation and
    /// resumes a paused one.
    pub open spec fn toggled(self) -> SimulationView {
        match self.run {
            RunState::Running => self.paused(),
            RunState::Paused => self.resumed(),
        }
    }

    /// The step that the integrator is asked for when `dt` seconds have
    /// passed: from the current state, by `dt` or by the longest step,
    /// whichever is less.
    pub open spec fn request(self, dt: Scalar) -> StepRequest {
        StepRequest {
            state: self.state,
            dt: dt.capped(self.max_step),
            link1: self.link1,
            link2: self.link2,
            gravity: self.gravity,
        }
    }

    /// What a frame has to do when `dt` seconds have passed since the last.
    ///
    /// A paused simulation idles, whatever `dt` is. A running one refuses a
    /// time step that is not finite and strictly positive, and asks for
    /// [`SimulationView::request`] otherwise.
    pub open spec fn planned(self, dt: Scalar) -> Result<Tick, SimError> {
        if self.run is Paused {
            Ok(Tick::Idle)
        } else if !dt.positive() {
            Err(SimError::InvalidInput)
        } else {
            Ok(Tick::Integrate(self.request(dt)))
        }
    }

    /// The simulation after the integrator reported `outcome`.
    ///
    /// A paused simulation stays as it is, and so does a running one if the
    /// outcome is not usable. Otherwise the state is the one reported, and
    /// the trail has recorded the tip and decayed once.
    pub open spec fn finished(self, outcome: StepOutcome) -> SimulationView {
        if self.run is Running && outcome.usable() {
            SimulationView {
                state: outcome->state,
                trail: decayed(recorded(self.trail, self.trail_cap, outcome->pivots.pivot2)),
                ..self
            }
        } else {
            self
        }
    }

    /// What the frame shows after the integrator reported `outcome`.
    pub open spec fn shown(self, outcome: StepOutcome) -> Result<Frame, SimError> {
        if self.run is Paused {
            Ok(Frame::Paused)
        } else if outcome.usable() {
            Ok(Frame::Moved(outcome->pivots))
        } else {
            Err(SimError::DegenerateConfiguration)
        }
    }
}

/// A double pendulum, its trail, and whether it is running.
pub struct Simulation {
    link1: LinkParameters,
    link2: LinkParameters,
    gravity: Scalar,
    max_step: Scalar,
    state: DynamicalState,
    trail: TrailBuffer,
    run: RunState,
}

impl View for Simulation {
    type V = SimulationView;

    closed spec fn view(&self) -> SimulationView {
        SimulationView {
            link1: self.link1,
            link2: self.link2,
            gravity: self.gravity,
            max_step: self.max_step,
            state: self.state,
            trail: self.trail@,
            trail_cap: self.trail.cap_value(),
            run: self.run,
        }
    }
}

impl Simulation {
    #[verifier::type_invariant]
    closed spec fn inv(&self) -> bool {
        self@.wf()
    }

    /// Whether the given parameters start a simulation.
    pub open spec fn admissible(
        first: AngularState,
        second: AngularState,
        gravity: Scalar,
        max_step: Scalar,
    ) -> bool {
        &&& DynamicalState::joined(first, second).finite()
        &&& gravity.finite()
        &&& max_step.positive()
    }

    /// A running simulation of two links that start in the configurations
    /// `first` and `second`, with an empty trail of at most `trail_cap`
    /// markers. No step will be longer than `max_step` seconds.
    ///
    /// Fails with [`SimError::InvalidInput`] exactly when an initial angle
    /// or angular velocity or `gravity` is not finite, or `max_step` is not
    /// finite and strictly positive.
    pub fn new(
        link1: LinkParameters,
        link2: LinkParameters,
        first: AngularState,
        second: AngularState,
        gravity: Scalar,
        max_step: Scalar,
        trail_cap: usize,
    ) -> (r: Result<Simulation, SimError>)
        ensures
            Self::admissible(first, second, gravity, max_step) ==> r is Ok,
            r matches Ok(sim) ==> {
                &&& Self::admissible(first, second, gravity, max_step)
                &&& sim@.wf()
                &&& sim@ == (SimulationView {
                    link1,
                    link2,
                    gravity,
                    max_step,
                    state: DynamicalState::joined(first, second),
                    trail: Seq::empty(),
                    trail_cap: trail_cap as nat,
                    run: RunState::Running,
                })
            },
            r matches Err(e) ==> e == SimError::InvalidInput,
    {
        proof {
            use_type_invariant(&link1);
            use_type_invariant(&link2);
        }
        let state = DynamicalState::from_links(first, second);
        if state.is_finite() && gravity.is_finite() && max_step.is_positive() {
            Ok(
                Simulation {
                    link1,
                    link2,
                    gravity,
                    max_step,
                    state,
                    trail: TrailBuffer::new(trail_cap),
                    run: RunState::Running,
                },
            )
        } else {
            Err(SimError::InvalidInput)
        }
    }

    /// The current state of the pendulum, which is always finite.
    pub fn state(&self) -> (s: DynamicalState)
        ensures
            s == self@.state,
            s.finite(),
    {
        proof {
            use_type_invariant(self);
        }
        self.state
    }

    /// Whether the simulation runs or is paused.
    pub fn run_state(&self) -> (r: RunState)
        ensures
            r == self@.run,
    {
        self.run
    }

    /// Whether the simulation runs.
    pub fn is_running(&self) -> (r: bool)
        ensures
            r == (self@.run is Running),
    {
        match self.run {
            RunState::Running => true,
            RunState::Paused => false,
        }
    }

    /// The trail of the tip.
    pub fn trail(&self) -> (t: &TrailBuffer)
        ensures
            t@ == self@.trail,
            t.cap_value() == self@.trail_cap,
            t@.len() <= self@.trail_cap,
    {
        proof {
            use_type_invariant(self);
        }
        &self.trail
    }

    /// The first link.
    pub fn link1(&self) -> (l: LinkParameters)
        ensures
            l == self@.link1,
    {
        self.link1
    }

    /// The second link.
    pub fn link2(&self) -> (l: LinkParameters)
        ensures
            l == self@.link2,
    {
        self.link2
    }

    /// The acceleration of gravity.
    pub fn gravity(&self) -> (g: Scalar)
        ensures
            g == self@.gravity,
            g.finite(),
    {
        proof {
            use_type_invariant(self);
        }
        self.gravity
    }

    /// The longest step that the integrator is ever asked for.
    pub fn max_step(&self) -> (m: Scalar)
        ensures
            m == self@.max_step,
            m.positive(),
    {
        proof {
            use_type_invariant(self);
        }
        self.max_step
    }

    /// Pauses the simulation. The pendulum and its trail stay as they are.
    pub fn pause(&mut self)
        ensures
            final(self)@ == old(self)@.paused(),
    {
        proof {
            use_type_invariant(&*self);
        }
        self.run = RunState::Paused;
    }

    /// Resumes the simulation. The pendulum and its trail stay as they are.
    ///
    /// Returns whether the host has to restart the clock it measures frame
    /// times with: it has if the simulation was paused, so that the time
    /// spent paused is not part of the next step.
    pub fn resume(&mut self) -> (restart_clock: bool)
        ensures
            final(self)@ == old(self)@.resumed(),
            restart_clock == (old(self)@.run is Paused),
    {
        proof {
            use_type_invariant(&*self);
        }
        let was_paused = !self.is_running();
        self.run = RunState::Running;
        was_paused
    }

    /// Pauses a running simulation and resumes a paused one.
    ///
    /// Returns whether the host has to restart its clock, as
    /// [`Simulation::resume`] does.
    pub fn toggle(&mut self) -> (restart_clock: bool)
        ensures
            final(self)@ == old(self)@.toggled(),
            restart_clock == (old(self)@.run is Paused),
    {
        if self.is_running() {
            self.pause();
            false
        } else {
            self.resume()
        }
    }

    /// Says what this frame has to do, `dt` seconds after the last one.
    ///
    /// A paused simulation idles. A running one asks for one integration
    /// step from its current state, by `dt` or by the longest step if `dt`
    /// exceeds it; it fails with [`SimError::InvalidInput`] if `dt` is not
    /// finite and strictly positive.
    pub fn begin_step(&self, dt: Scalar) -> (r: Result<Tick, SimError>)
        ensures
            r == self@.planned(dt),
            r matches Ok(Tick::Integrate(request)) ==> {
                &&& request.dt.positive()
                &&& request.dt.magnitude() <= dt.magnitude()
                &&& request.dt.magnitude() <= self@.max_step.magnitude()
                &&& request.state.finite()
            },
    {
        proof {
            use_type_invariant(self);
        }
        if !self.is_running() {
            Ok(Tick::Idle)
        } else if !dt.is_positive() {
            Err(SimError::InvalidInput)
        } else {
            Ok(
                Tick::Integrate(
                    StepRequest {
                        state: self.state,
                        dt: dt.cap_at(self.max_step),
                        link1: self.link1,
                        link2: self.link2,
                        gravity: self.gravity,
                    },
                ),
            )
        }
    }

    /// Takes over what the integrator made of the step that was asked for.
    ///
    /// A paused simulation ignores the outcome. A running one that is handed
    /// a usable outcome moves to the reported state, records the tip in the
    /// trail and lets the trail decay once. For any other outcome it fails
    /// with [`SimError::DegenerateConfiguration`] and stays as it is.
    pub fn finish_step(&mut self, outcome: StepOutcome) -> (r: Result<Frame, SimError>)
        ensures
            final(self)@ == old(self)@.finished(outcome),
            r == old(self)@.shown(outcome),
    {
        proof {
            use_type_invariant(&*self);
        }
        if !self.is_running() {
            return Ok(Frame::Paused);
        }
        if !outcome.is_usable() {
            return Err(SimError::DegenerateConfiguration);
        }
        match outcome {
            StepOutcome::Advanced { state, pivots } => {
                let mut trail = TrailBuffer::new(0);
                std::mem::swap(&mut trail, &mut self.trail);
                trail.record(pivots.tip());
                trail.decay();
                self.trail = trail;
                self.state = state;
                Ok(Frame::Moved(pivots))
            },
            StepOutcome::Degenerate => Err(SimError::DegenerateConfiguration),
        }
    }

    /// Runs one frame, `dt` seconds after the last one, with `integrator`
    /// doing the integration.
    ///
    /// This is [`Simulation::begin_step`] followed, if a step is asked for,
    /// by one call of `integrator` on the request and by
    /// [`Simulation::finish_step`] on what it returned. The integrator is
    /// not called while the simulation is paused, nor for a time step that
    /// is refused.
    pub fn advance<F: FnOnce(StepRequest) -> StepOutcome>(&mut self, dt: Scalar, integrator: F) -> (r:
        Result<Frame, SimError>)
        requires
            old(self)@.planned(dt) matches Ok(Tick::Integrate(request)) ==> call_requires(
                integrator,
                (request,),
            ),
        ensures
            match old(self)@.planned(dt) {
                Err(e) => r == Err::<Frame, SimError>(e) && final(self)@ == old(self)@,
                Ok(Tick::Idle) => r == Ok::<Frame, SimError>(Frame::Paused) && final(self)@ == old(
                    self,
                )@,
                Ok(Tick::Integrate(request)) => exists|outcome: StepOutcome|
                    {
                        &&& call_ensures(integrator, (request,), outcome)
                        &&& final(self)@ == old(self)@.finished(outcome)
                        &&& r == old(self)@.shown(outcome)
                    },
            },
    {
        match self.begin_step(dt) {
            Err(e) => Err(e),
            Ok(Tick::Idle) => Ok(Frame::Paused),
            Ok(Tick::Integrate(request)) => {
                let outcome = integrator(request);
                self.finish_step(outcome)
            },
        }
    }
}

/// Pausing and resuming moves nothing: after a pause and a resume the
/// pendulum is in the state it was in and the trail is the one it was, and a
/// simulation that was running is again what it was.
pub proof fn lemma_pause_resume_keeps_pendulum(sim: SimulationView)
    ensures
        sim.paused().state == sim.state,
        sim.paused().trail == sim.trail,
        sim.paused().resumed().state == sim.state,
        sim.paused().resumed().trail == sim.trail,
        sim.run is Running ==> sim.paused().resumed() == sim,
        sim.toggled().toggled() == sim,
{
}

/// A paused simulation stands still: it asks for no step, whatever time has
/// passed, and stays as it is whatever outcome it is handed.
pub proof fn lemma_paused_simulation_stands_still(
    sim: SimulationView,
    dt: Scalar,
    outcome: StepOutcome,
)
    requires
        sim.run is Paused,
    ensures
        sim.planned(dt) == Ok::<Tick, SimError>(Tick::Idle),
        sim.finished(outcome) == sim,
        sim.shown(outcome) == Ok::<Frame, SimError>(Frame::Paused),
{
}

/// A step that failed is not taken: a running simulation that is handed a
/// degenerate outcome, or one with a number that is not finite, reports a
/// degenerate configuration and stays as it is.
pub proof fn lemma_unusable_outcome_is_refused(sim: SimulationView, outcome: StepOutcome)
    requires
        sim.run is Running,
        !outcome.usable(),
    ensures
        sim.finished(outcome) == sim,
        sim.shown(outcome) == Err::<Frame, SimError>(SimError::DegenerateConfiguration),
{
}

/// Every transition keeps a simulation well formed: the state stays finite
/// and the trail stays within its cap, whatever is signalled or reported.
pub proof fn lemma_transitions_keep_wf(sim: SimulationView, outcome: StepOutcome)
    requires
        sim.wf(),
    ensures
        sim.paused().wf(),
        sim.resumed().wf(),
        sim.toggled().wf(),
        sim.finished(outcome).wf(),
{
}

/// The step that a running simulation asks for is finite, strictly
/// positive, and no longer than the time that has passed nor than the
/// longest step.
pub proof fn lemma_request_is_bounded(sim: SimulationView, dt: Scalar)
    requires
        sim.wf(),
        dt.positive(),
    ensures
        sim.request(dt).dt.positive(),
        sim.request(dt).dt.magnitude() <= dt.magnitude(),
        sim.request(dt).dt.magnitude() <= sim.max_step.magnitude(),
        sim.request(dt).dt == dt || sim.request(dt).dt == sim.max_step,
{
    lemma_order_by_bits(dt, sim.max_step);
}

} // verus!
