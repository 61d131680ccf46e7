use nbody_core::body::{Body, BodyKind, Color};
use nbody_core::fx::SCALE;
use nbody_core::sim::integrate;
use nbody_core::state::{tick, AppConfig, SimulationState};
use nbody_core::vec3::Vec3;

fn drifting_body() -> Body {
    Body::new(
        1,
        String::from("B"),
        BodyKind::Planet,
        1_000 * SCALE,
        SCALE,
        Vec3 { x: 0, y: 0, z: 0 },
        Vec3 { x: SCALE, y: 0, z: 0 },
        Color { r: 0, g: 0, b: 0 },
    )
}

#[test]
fn simulation_starts_paused() {
    let s = SimulationState::default();
    assert!(matches!(s, SimulationState::Paused));
    assert!(!s.is_running());
}

#[test]
fn toggle_flips_between_the_two_states() {
    let paused = SimulationState::Paused;
    let running = paused.toggled();
    assert!(matches!(running, SimulationState::Running));
    assert!(running.is_running());
    assert!(matches!(running.toggled(), SimulationState::Paused));
}

#[test]
fn paused_tick_changes_nothing() {
    let mut bodies = vec![drifting_body()];
    tick(SimulationState::Paused, &mut bodies, SCALE);
    assert_eq!(bodies[0].position, Vec3 { x: 0, y: 0, z: 0 });
    assert_eq!(bodies[0].velocity, Vec3 { x: SCALE, y: 0, z: 0 });
}

#[test]
fn running_tick_integrates_once() {
    let mut gated = vec![drifting_body()];
    tick(SimulationState::Running, &mut gated, SCALE);
    let mut plain = vec![drifting_body()];
    integrate(&mut plain, SCALE);
    assert_eq!(gated[0].position, plain[0].position);
    assert_eq!(gated[0].velocity, plain[0].velocity);
    assert_eq!(gated[0].position, Vec3 { x: SCALE, y: 0, z: 0 });
}

#[test]
fn default_config_matches_the_menu_defaults() {
    let c = AppConfig::default();
    assert!(c.draw_velocities);
    assert!(c.draw_trajectories);
    assert_eq!(c.trajectories_number_iterationss, 500);
    assert!(!c.draw_unit_vectors);
    assert!(!c.add_new_planet);
}
