use nbody_core::body::{Body, BodyKind, Color};
use nbody_core::fx::{fx_sqrt, SCALE};
use nbody_core::sim::{compute_velocity, integrate, update_positions, update_velocities, G};
use nbody_core::vec3::{v_len2, v_sub, Vec3};

const DT_60HZ: i64 = 16_667;

fn body(id: u64, mass: i64, radius: i64, position: Vec3, velocity: Vec3) -> Body {
    Body::new(
        id,
        String::from("B"),
        BodyKind::Planet,
        mass,
        radius,
        position,
        velocity,
        Color { r: 0, g: 0, b: 0 },
    )
}

#[test]
fn pair_contribution_exact_value() {
    let dv = compute_velocity(
        Vec3 { x: 0, y: 0, z: 0 },
        Vec3 { x: 100 * SCALE, y: 0, z: 0 },
        1_000 * SCALE,
        G,
        DT_60HZ,
    );
    assert_eq!(dv, Vec3 { x: 1_600, y: 0, z: 0 });
}

#[test]
fn contribution_weakens_with_distance() {
    let at = |d: i64| {
        compute_velocity(
            Vec3 { x: 0, y: 0, z: 0 },
            Vec3 { x: d * SCALE, y: 0, z: 0 },
            1_000 * SCALE,
            G,
            DT_60HZ,
        )
    };
    let near = at(100);
    let mid = at(200);
    let far = at(400);
    assert!(near.x > mid.x);
    assert!(mid.x >= far.x);
    assert_eq!(mid, Vec3 { x: 400, y: 0, z: 0 });
}

#[test]
fn contribution_vanishes_far_away() {
    let dv = compute_velocity(
        Vec3 { x: 0, y: 0, z: 0 },
        Vec3 { x: 1_000 * SCALE, y: 0, z: 0 },
        1_000 * SCALE,
        G,
        DT_60HZ,
    );
    assert_eq!(dv, Vec3 { x: 0, y: 0, z: 0 });
}

#[test]
fn coincident_pair_contributes_zero() {
    let p = Vec3 { x: 5 * SCALE, y: 0, z: 0 };
    let dv = compute_velocity(p, p, 1_000_000 * SCALE, G, DT_60HZ);
    assert_eq!(dv, Vec3 { x: 0, y: 0, z: 0 });
}

#[test]
fn equal_mass_deltas_are_opposite() {
    let mut bodies = vec![
        body(
            1,
            1_000_000 * SCALE,
            10 * SCALE,
            Vec3 { x: 0, y: 0, z: 0 },
            Vec3 { x: 0, y: 0, z: 0 },
        ),
        body(
            2,
            1_000_000 * SCALE,
            10 * SCALE,
            Vec3 { x: 100 * SCALE, y: 0, z: 0 },
            Vec3 { x: 0, y: 0, z: 100 * SCALE },
        ),
    ];
    let before: Vec<Vec3> = bodies.iter().map(|b| b.velocity).collect();
    update_velocities(&mut bodies, DT_60HZ);
    let d0 = v_sub(bodies[0].velocity, before[0]);
    let d1 = v_sub(bodies[1].velocity, before[1]);
    assert_eq!(d0, Vec3 { x: 1_666_700, y: 0, z: 0 });
    assert_eq!(d1, Vec3 { x: -1_666_700, y: 0, z: 0 });
    assert_eq!(d0.x, -d1.x);
    assert_eq!(d0.y, -d1.y);
    assert_eq!(d0.z, -d1.z);
}

#[test]
fn single_body_drifts_by_velocity_times_dt() {
    let v = Vec3 { x: 3 * SCALE, y: -2 * SCALE, z: 500_000 };
    let mut bodies =
        vec![body(1, 5 * SCALE, SCALE, Vec3 { x: SCALE, y: 0, z: -SCALE }, v)];
    integrate(&mut bodies, SCALE);
    assert_eq!(bodies[0].velocity, v);
    assert_eq!(
        bodies[0].position,
        Vec3 { x: 4 * SCALE, y: -2 * SCALE, z: -500_000 },
    );
}

#[test]
fn positions_advance_by_current_velocity() {
    let mut bodies = vec![body(
        1,
        SCALE,
        SCALE,
        Vec3 { x: 0, y: 0, z: 0 },
        Vec3 { x: 2 * SCALE, y: 0, z: 0 },
    )];
    update_positions(&mut bodies, 500_000);
    assert_eq!(bodies[0].position, Vec3 { x: SCALE, y: 0, z: 0 });
    assert_eq!(bodies[0].velocity, Vec3 { x: 2 * SCALE, y: 0, z: 0 });
}

#[test]
fn nonpositive_dt_is_a_no_op() {
    let start = Vec3 { x: 7 * SCALE, y: 0, z: 0 };
    let vel = Vec3 { x: 0, y: SCALE, z: 0 };
    let mut bodies = vec![
        body(1, 1_000 * SCALE, SCALE, start, vel),
        body(2, 1_000 * SCALE, SCALE, Vec3 { x: 0, y: 0, z: 0 }, vel),
    ];
    integrate(&mut bodies, 0);
    integrate(&mut bodies, -DT_60HZ);
    assert_eq!(bodies[0].position, start);
    assert_eq!(bodies[0].velocity, vel);
    assert_eq!(bodies[1].position, Vec3 { x: 0, y: 0, z: 0 });
}

#[test]
fn empty_set_is_a_no_op() {
    let mut bodies: Vec<Body> = Vec::new();
    integrate(&mut bodies, DT_60HZ);
    assert!(bodies.is_empty());
}

#[test]
fn coincident_bodies_keep_moving_deterministically() {
    let p = Vec3 { x: SCALE, y: SCALE, z: SCALE };
    let mut bodies = vec![
        body(1, 1_000 * SCALE, SCALE, p, Vec3 { x: SCALE, y: 0, z: 0 }),
        body(2, 2_000 * SCALE, SCALE, p, Vec3 { x: -SCALE, y: 0, z: 0 }),
    ];
    integrate(&mut bodies, SCALE);
    assert_eq!(bodies[0].velocity, Vec3 { x: SCALE, y: 0, z: 0 });
    assert_eq!(bodies[1].velocity, Vec3 { x: -SCALE, y: 0, z: 0 });
    assert_eq!(bodies[0].position, Vec3 { x: 2 * SCALE, y: SCALE, z: SCALE });
    assert_eq!(bodies[1].position, Vec3 { x: 0, y: SCALE, z: SCALE });
}

#[test]
fn two_body_orbit_stays_bounded() {
    let mut bodies = vec![
        body(
            1,
            1_000_000 * SCALE,
            10 * SCALE,
            Vec3 { x: 0, y: 0, z: 0 },
            Vec3 { x: 0, y: 0, z: 0 },
        ),
        body(
            2,
            1_000 * SCALE,
            3 * SCALE,
            Vec3 { x: 100 * SCALE, y: 0, z: 0 },
            Vec3 { x: 0, y: 0, z: 100 * SCALE },
        ),
    ];
    let mut min_dist: i64 = i64::MAX;
    let mut max_dist: i64 = 0;
    for _ in 0..600 {
        integrate(&mut bodies, DT_60HZ);
        let diff = v_sub(bodies[1].position, bodies[0].position);
        let dist = fx_sqrt(v_len2(diff));
        min_dist = min_dist.min(dist);
        max_dist = max_dist.max(dist);
    }
    // The launch speed is the circular-orbit speed, so the planet must
    // neither crash nor escape: the separation stays close to 100.
    assert!(min_dist >= 50 * SCALE, "planet fell in: {min_dist}");
    assert!(max_dist <= 200 * SCALE, "planet escaped: {max_dist}");
    // Regression fixture: the integer arithmetic is exact, so the state
    // after 600 ticks is pinned down to the last unit.
    assert_eq!(
        bodies[1].position,
        Vec3 { x: -81_280_302, y: 0, z: -57_538_815 },
    );
    assert_eq!(
        bodies[1].velocity,
        Vec3 { x: 56_879_724, y: 0, z: -81_647_848 },
    );
    assert_eq!(bodies[0].position, Vec3 { x: 168_684, y: 0, z: 1_041_362 });
    assert_eq!(bodies[0].velocity, Vec3 { x: -55_278, y: 0, z: 179_434 });
}
