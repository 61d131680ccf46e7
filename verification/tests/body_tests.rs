use nbody_core::body::{
    snapshot_bodies, Body, BodyKind, Color, STAR_EMISSIVE, STAR_LIGHT,
};
use nbody_core::spawn::{
    new_body_params, DEFAULT_SPAWN_MASS, DEFAULT_SPAWN_RADIUS,
};
use nbody_core::vec3::{v_add, v_dot, v_len2, v_scale, v_sub, Vec3};

fn planet(id: u64, x: i64, z: i64) -> Body {
    Body::new(
        id,
        String::from("P"),
        BodyKind::Planet,
        2_000_000,
        1_000_000,
        Vec3 { x, y: 0, z },
        Vec3 { x: 0, y: 0, z: 0 },
        Color { r: 500_000, g: 500_000, b: 500_000 },
    )
}

#[test]
fn vector_ops_exact() {
    let a = Vec3 { x: 1_000_000, y: -2_000_000, z: 3_000_000 };
    let b = Vec3 { x: 500_000, y: 500_000, z: -500_000 };
    assert_eq!(v_add(a, b), Vec3 { x: 1_500_000, y: -1_500_000, z: 2_500_000 });
    assert_eq!(v_sub(a, b), Vec3 { x: 500_000, y: -2_500_000, z: 3_500_000 });
    assert_eq!(v_scale(a, 2_000_000), Vec3 { x: 2_000_000, y: -4_000_000, z: 6_000_000 });
    assert_eq!(v_dot(a, b), -2_000_000);
    assert_eq!(v_len2(b), 750_000);
}

#[test]
fn new_sets_every_field() {
    let b = planet(7, 1_000_000, 2_000_000);
    assert_eq!(b.id, 7);
    assert_eq!(b.name, "P");
    assert!(matches!(b.kind, BodyKind::Planet));
    assert_eq!(b.mass, 2_000_000);
    assert_eq!(b.radius, 1_000_000);
    assert_eq!(b.position, Vec3 { x: 1_000_000, y: 0, z: 2_000_000 });
    assert_eq!(b.velocity, Vec3 { x: 0, y: 0, z: 0 });
}

#[test]
fn setters_replace_only_their_field() {
    let mut b = planet(1, 0, 0);
    b.set_mass(9_000_000);
    b.set_radius(4_000_000);
    b.set_position(Vec3 { x: 1, y: 2, z: 3 });
    b.set_velocity(Vec3 { x: 4, y: 5, z: 6 });
    b.set_color(Color { r: 1, g: 2, b: 3 });
    b.set_kind(BodyKind::Star(1_000_000));
    assert_eq!(b.id, 1);
    assert_eq!(b.name, "P");
    assert_eq!(b.mass, 9_000_000);
    assert_eq!(b.radius, 4_000_000);
    assert_eq!(b.position, Vec3 { x: 1, y: 2, z: 3 });
    assert_eq!(b.velocity, Vec3 { x: 4, y: 5, z: 6 });
    assert_eq!(b.color, Color { r: 1, g: 2, b: 3 });
    assert!(matches!(b.kind, BodyKind::Star(1_000_000)));
}

#[test]
fn light_follows_kind() {
    let mut b = planet(1, 0, 0);
    assert_eq!(b.light_factor(), 0);
    assert_eq!(b.emissive_factor(), 0);
    b.set_kind(BodyKind::Star(1_000_000));
    assert_eq!(b.light_factor(), STAR_LIGHT);
    assert_eq!(b.emissive_factor(), STAR_EMISSIVE);
    b.set_kind(BodyKind::Star(500_000));
    assert_eq!(b.light_factor(), STAR_LIGHT / 2);
}

#[test]
fn duplicated_copies_physics_and_offsets_position() {
    let mut src = planet(3, 10_000_000, -4_000_000);
    src.set_kind(BodyKind::Star(1_000_000));
    src.set_velocity(Vec3 { x: 7, y: 8, z: 9 });
    let color = Color { r: 1, g: 2, b: 3 };
    let d = src.duplicated(42, color);
    assert_eq!(d.id, 42);
    assert_eq!(d.name, "Planet");
    assert!(matches!(d.kind, BodyKind::Planet));
    assert_eq!(d.mass, src.mass);
    assert_eq!(d.radius, src.radius);
    assert_eq!(d.velocity, src.velocity);
    assert_eq!(d.color, color);
    assert_eq!(
        d.position,
        Vec3 { x: 11_000_000, y: 1_000_000, z: -3_000_000 },
    );
}

#[test]
fn snapshot_copies_physical_state() {
    let bodies = vec![planet(1, 5, 6), planet(2, -5, -6)];
    let snaps = snapshot_bodies(&bodies);
    assert_eq!(snaps.len(), 2);
    for (b, s) in bodies.iter().zip(snaps.iter()) {
        assert_eq!(s.mass, b.mass);
        assert_eq!(s.radius, b.radius);
        assert_eq!(s.position, b.position);
        assert_eq!(s.velocity, b.velocity);
        assert_eq!(s.color, b.color);
    }
}

#[test]
fn spawn_params_empty_scene_defaults() {
    let bodies: Vec<Body> = Vec::new();
    let p = new_body_params(&bodies);
    assert_eq!(p.mass, DEFAULT_SPAWN_MASS);
    assert_eq!(p.radius, DEFAULT_SPAWN_RADIUS);
    assert_eq!(p.position, Vec3 { x: 0, y: 0, z: 0 });
    assert_eq!(p.velocity, Vec3 { x: 0, y: 0, z: 0 });
}

#[test]
fn spawn_params_single_body_offsets_by_radius() {
    let bodies = vec![planet(1, 10_000_000, 0)];
    let p = new_body_params(&bodies);
    assert_eq!(p.mass, 2_000_000);
    assert_eq!(p.radius, 1_000_000);
    assert_eq!(p.position, Vec3 { x: 11_000_000, y: 1_000_000, z: 1_000_000 });
    assert_eq!(p.velocity, Vec3 { x: 0, y: 0, z: 0 });
}

#[test]
fn spawn_params_two_bodies_take_means() {
    let mut a = planet(1, 10_000_000, 0);
    a.set_mass(2_000_000);
    a.set_radius(1_000_000);
    let mut b = planet(2, 20_000_000, 2_000_000);
    b.set_mass(4_000_000);
    b.set_radius(3_000_000);
    b.set_velocity(Vec3 { x: 2_000_000, y: 0, z: 0 });
    let bodies = vec![a, b];
    let p = new_body_params(&bodies);
    assert_eq!(p.mass, 3_000_000);
    assert_eq!(p.radius, 2_000_000);
    assert_eq!(p.position, Vec3 { x: 15_000_000, y: 0, z: 1_000_000 });
    assert_eq!(p.velocity, Vec3 { x: 1_000_000, y: 0, z: 0 });
}
