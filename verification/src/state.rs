//! The run-state machine gating the integrator, and the application's
//! drawing configuration.

use crate::body::Body;
use crate::sim::integrated;
use vstd::prelude::*;

verus! {

/// Whether the simulation advances.  The integrator runs exactly once per
/// fixed tick while `Running` and not at all while `Paused`; the trajectory
/// predictor and the picker work in either state.
#[derive(Clone, Copy, PartialEq, Eq, Structural, Debug)]
pub enum SimulationState {
    Paused,
    Running,
}

impl Default for SimulationState {
    /// A fresh simulation starts paused.
    fn default() -> (r: Self)
        ensures
            r is Paused,
    {
        SimulationState::Paused
    }
}

impl SimulationState {
    /// Whether the integrator may run this tick.
    pub fn is_running(&self) -> (r: bool)
        ensures
            r == (*self is Running),
    {
        matches!(*self, SimulationState::Running)
    }

    /// The state after the pause control flips: paused becomes running and
    /// running becomes paused.
    pub fn toggled(&self) -> (r: SimulationState)
        ensures
            *self is Paused ==> r is Running,
            *self is Running ==> r is Paused,
    {
        match *self {
            SimulationState::Paused => SimulationState::Running,
            SimulationState::Running => SimulationState::Paused,
        }
    }
}

/// What the surrounding application currently draws and spawns.
#[derive(Clone, Copy, PartialEq, Eq, Structural, Debug)]
pub struct AppConfig {
    pub draw_velocities: bool,
    pub draw_trajectories: bool,
    pub trajectories_number_iterationss: usize,
    pub draw_unit_vectors: bool,
    pub add_new_planet: bool,
}

impl Default for AppConfig {
    /// Velocity arrows and trajectories on, 500 prediction ticks, unit
    /// vectors off, no spawn pending.
    fn default() -> (r: Self)
        ensures
            r == (AppConfig {
                draw_velocities: true,
                draw_trajectories: true,
                trajectories_number_iterationss: 500,
                draw_unit_vectors: false,
                add_new_planet: false,
            }),
    {
        AppConfig {
            draw_velocities: true,
            draw_trajectories: true,
            trajectories_number_iterationss: 500,
            draw_unit_vectors: false,
            add_new_planet: false,
        }
    }
}

/// One fixed-update pass: the integrator advances the bodies exactly when
/// the state is `Running`, and a paused pass changes nothing.
pub fn tick(state: SimulationState, bodies: &mut Vec<Body>, dt: i64)
    ensures
        state is Running ==> integrated(old(bodies)@, final(bodies)@, dt),
        !(state is Running) ==> final(bodies)@ == old(bodies)@,
{
    if state.is_running() {
        crate::sim::integrate(bodies, dt);
    }
}

} // verus!
