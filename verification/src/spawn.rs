//! Choosing the parameters of a newly spawned body.
//!
//! A new planet is born as the average of the scene: mean radius, mass,
//! position and velocity over every live body.  An empty scene gets fixed
//! defaults, and with exactly one body the newcomer is offset by one mean
//! radius along every axis so the two do not coincide.

use crate::body::Body;
use crate::fx::{add_fx, clamp_fx, div_fx, fx_add, fx_div, FX_MAX, SCALE};
use crate::vec3::{v_add, vadd_fx, Vec3};
use vstd::prelude::*;

verus! {

/// Mass a planet spawned into an empty scene gets: 10.0 in fixed point.
pub const DEFAULT_SPAWN_MASS: i64 = 10_000_000;

/// Radius a planet spawned into an empty scene gets: 3.0 in fixed point.
pub const DEFAULT_SPAWN_RADIUS: i64 = 3_000_000;

/// The physical parameters picked for a body about to be spawned.
#[derive(Clone, Copy, PartialEq, Eq, Structural, Debug)]
pub struct NewBodyParams {
    pub mass: i64,
    pub radius: i64,
    pub position: Vec3,
    pub velocity: Vec3,
}

/// Saturating sum of the masses of the first `j` bodies.
pub open spec fn sum_mass(s: Seq<Body>, j: int) -> i64
    decreases j,
{
    if j <= 0 {
        0
    } else {
        add_fx(sum_mass(s, j - 1), s[j - 1].mass)
    }
}

/// Saturating sum of the radii of the first `j` bodies.
pub open spec fn sum_radius(s: Seq<Body>, j: int) -> i64
    decreases j,
{
    if j <= 0 {
        0
    } else {
        add_fx(sum_radius(s, j - 1), s[j - 1].radius)
    }
}

/// Saturating sum of the positions of the first `j` bodies.
pub open spec fn sum_position(s: Seq<Body>, j: int) -> Vec3
    decreases j,
{
    if j <= 0 {
        Vec3 { x: 0, y: 0, z: 0 }
    } else {
        vadd_fx(sum_position(s, j - 1), s[j - 1].position)
    }
}

/// Saturating sum of the velocities of the first `j` bodies.
pub open spec fn sum_velocity(s: Seq<Body>, j: int) -> Vec3
    decreases j,
{
    if j <= 0 {
        Vec3 { x: 0, y: 0, z: 0 }
    } else {
        vadd_fx(sum_velocity(s, j - 1), s[j - 1].velocity)
    }
}

/// The parameters a new body gets, as a function of the live set.
pub open spec fn spec_new_body_params(s: Seq<Body>) -> NewBodyParams {
    if s.len() == 0 {
        NewBodyParams {
            mass: DEFAULT_SPAWN_MASS,
            radius: DEFAULT_SPAWN_RADIUS,
            position: Vec3 { x: 0, y: 0, z: 0 },
            velocity: Vec3 { x: 0, y: 0, z: 0 },
        }
    } else {
        let cnt = clamp_fx(s.len() * SCALE);
        let radius = div_fx(sum_radius(s, s.len() as int), cnt);
        let sp = sum_position(s, s.len() as int);
        let sv = sum_velocity(s, s.len() as int);
        let mean_pos = Vec3 {
            x: div_fx(sp.x, cnt),
            y: div_fx(sp.y, cnt),
            z: div_fx(sp.z, cnt),
        };
        NewBodyParams {
            mass: div_fx(sum_mass(s, s.len() as int), cnt),
            radius,
            position: if s.len() == 1 {
                vadd_fx(mean_pos, Vec3 { x: radius, y: radius, z: radius })
            } else {
                mean_pos
            },
            velocity: Vec3 { x: div_fx(sv.x, cnt), y: div_fx(sv.y, cnt), z: div_fx(sv.z, cnt) },
        }
    }
}

/// A body count as a saturated fixed-point value.
fn count_to_fx(n: usize) -> (r: i64)
    ensures
        r == clamp_fx(n as int * SCALE as int),
{
    if n as u64 > 9_223_372_036_854u64 {
        FX_MAX
    } else {
        (n as i64) * SCALE
    }
}

/// Pick the parameters for a body about to be spawned: the mean of every
/// live body's radius, mass, position and velocity; fixed defaults when the
/// scene is empty; and, with exactly one live body, an offset of one mean
/// radius along every axis away from it.
pub fn new_body_params(bodies: &Vec<Body>) -> (p: NewBodyParams)
    ensures
        p == spec_new_body_params(bodies@),
{
    let n = bodies.len();
    if n == 0 {
        return NewBodyParams {
            mass: DEFAULT_SPAWN_MASS,
            radius: DEFAULT_SPAWN_RADIUS,
            position: Vec3::zero(),
            velocity: Vec3::zero(),
        };
    }
    let mut mass: i64 = 0;
    let mut radius: i64 = 0;
    let mut position = Vec3::zero();
    let mut velocity = Vec3::zero();
    let mut i: usize = 0;
    while i < n
        invariant
            i <= n,
            n == bodies@.len(),
            mass == sum_mass(bodies@, i as int),
            radius == sum_radius(bodies@, i as int),
            position == sum_position(bodies@, i as int),
            velocity == sum_velocity(bodies@, i as int),
        decreases n - i,
    {
        let b = &bodies[i];
        mass = fx_add(mass, b.mass);
        radius = fx_add(radius, b.radius);
        position = v_add(position, b.position);
        velocity = v_add(velocity, b.velocity);
        i = i + 1;
    }
    let cnt = count_to_fx(n);
    let mean_radius = fx_div(radius, cnt);
    let mut mean_pos = Vec3 {
        x: fx_div(position.x, cnt),
        y: fx_div(position.y, cnt),
        z: fx_div(position.z, cnt),
    };
    if n == 1 {
        mean_pos = v_add(mean_pos, Vec3 { x: mean_radius, y: mean_radius, z: mean_radius });
    }
    NewBodyParams {
        mass: fx_div(mass, cnt),
        radius: mean_radius,
        position: mean_pos,
        velocity: Vec3 {
            x: fx_div(velocity.x, cnt),
            y: fx_div(velocity.y, cnt),
            z: fx_div(velocity.z, cnt),
        },
    }
}

} // verus!
