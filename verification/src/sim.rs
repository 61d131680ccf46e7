//! The force computation and the semi-implicit Euler integrator.
//!
//! One tick works in two phases: first every body's velocity delta is
//! accumulated from the positions all bodies had before the tick (no body
//! ever sees a neighbour already updated), then every position advances by
//! its body's freshly updated velocity.

use crate::body::{snaps, Body, Snapshot};
use crate::fx::{add_fx, div_fx, fx_div, fx_mul, fx_sqrt, mul_fx, sqrt_fx, SCALE};
use crate::vec3::{
    lemma_vlen2_neg, lemma_vscale_neg, lemma_vsub_antisym, v_add, v_len2, v_scale, v_sub, vadd_fx,
    vec_in_range, vlen2_fx, vscale_fx, vsub_fx, Vec3,
};
use vstd::prelude::*;

verus! {

/// The gravitational constant of the simulation: 1.0 in fixed point.
pub const G: i64 = 1_000_000;

/// Numerator of the force factor: dt · g · m₂.
pub open spec fn force_num(m2: i64, g: i64, dt: i64) -> i64 {
    mul_fx(mul_fx(dt, g), m2)
}

/// Denominator of the force factor for a squared distance d²: ‖d‖ · d².
pub open spec fn den_of(d2: i64) -> i64 {
    mul_fx(sqrt_fx(d2), d2)
}

/// The scalar each component of the separation vector is multiplied by:
/// dt · g · m₂ / (‖d‖ · d²), so that delta = factor · (p₂ − p₁) equals
/// dt · g · m₂ · normalize(p₂ − p₁) / d².
pub open spec fn force_scale(d2: i64, m2: i64, g: i64, dt: i64) -> i64 {
    div_fx(force_num(m2, g, dt), den_of(d2))
}

/// Velocity delta that gravity from a body of mass m₂ at p₂ imparts over
/// one tick on a body at p₁.  The attracted body's own mass cancels out of
/// Newton's law, so it does not appear.  Coincident positions contribute
/// exactly zero instead of an undefined direction.
pub open spec fn pair_delta(p1: Vec3, p2: Vec3, m2: i64, g: i64, dt: i64) -> Vec3 {
    let diff = vsub_fx(p2, p1);
    let d2 = vlen2_fx(diff);
    if d2 == 0 {
        Vec3 { x: 0, y: 0, z: 0 }
    } else {
        vscale_fx(diff, force_scale(d2, m2, g, dt))
    }
}

/// Sum of the pair deltas on body `i` from all other bodies with index
/// below `j`, in index order.
pub open spec fn accum_delta(s: Seq<Snapshot>, i: int, g: i64, dt: i64, j: int) -> Vec3
    decreases j,
{
    if j <= 0 {
        Vec3 { x: 0, y: 0, z: 0 }
    } else {
        let prev = accum_delta(s, i, g, dt, j - 1);
        if j - 1 == i {
            prev
        } else {
            vadd_fx(prev, pair_delta(s[i].position, s[j - 1].position, s[j - 1].mass, g, dt))
        }
    }
}

/// Total velocity delta one tick imparts on body `i`: the sum over every
/// other body, all taken at their pre-tick positions.
pub open spec fn total_delta(s: Seq<Snapshot>, i: int, g: i64, dt: i64) -> Vec3 {
    accum_delta(s, i, g, dt, s.len() as int)
}

/// One integrator tick on snapshots: velocities first, then positions from
/// the already-updated velocities (the semi-implicit Euler scheme).
pub open spec fn step_snapshots(s: Seq<Snapshot>, g: i64, dt: i64) -> Seq<Snapshot> {
    Seq::new(
        s.len(),
        |i: int|
            {
                let v = vadd_fx(s[i].velocity, total_delta(s, i, g, dt));
                Snapshot {
                    velocity: v,
                    position: vadd_fx(s[i].position, vscale_fx(v, dt)),
                    ..s[i]
                }
            },
    )
}

/// Body `i` after the velocity phase of one tick.
pub open spec fn with_updated_velocity(pre: Seq<Body>, i: int, dt: i64) -> Body {
    Body { velocity: vadd_fx(pre[i].velocity, total_delta(snaps(pre), i, G, dt)), ..pre[i] }
}

/// A body after the position phase of one tick: moved by its current
/// velocity times dt, everything else untouched.
pub open spec fn with_advanced_position(b: Body, dt: i64) -> Body {
    Body { position: vadd_fx(b.position, vscale_fx(b.velocity, dt)), ..b }
}

/// Body `i` after one whole tick.
pub open spec fn step_body(pre: Seq<Body>, i: int, dt: i64) -> Body {
    with_advanced_position(with_updated_velocity(pre, i, dt), dt)
}

/// How the body set after one call of [`integrate`] relates to the set
/// before it: a nonpositive tick changes nothing, a positive tick steps
/// every body and touches nothing but velocity and position.
pub open spec fn integrated(pre: Seq<Body>, post: Seq<Body>, dt: i64) -> bool {
    if dt <= 0 {
        post == pre
    } else {
        post.len() == pre.len() && (forall|i: int|
            0 <= i < pre.len() ==> post[i] == step_body(pre, i, dt))
    }
}

/// Velocity contribution from one other body over one tick.
///
/// Mirrors the gravitational law dt · g · m₂ · normalize(p₂ − p₁) / d²;
/// the attracted body's own mass has already been cancelled algebraically,
/// so it is not a parameter.
pub fn compute_velocity(
    position_1: Vec3,
    position_2: Vec3,
    mass_2: i64,
    g: i64,
    delta_seconds: i64,
) -> (dv: Vec3)
    ensures
        dv == pair_delta(position_1, position_2, mass_2, g, delta_seconds),
{
    let diff = v_sub(position_2, position_1);
    let d2 = v_len2(diff);
    if d2 == 0 {
        Vec3::zero()
    } else {
        let d = fx_sqrt(d2);
        let num = fx_mul(fx_mul(delta_seconds, g), mass_2);
        let den = fx_mul(d, d2);
        v_scale(diff, fx_div(num, den))
    }
}

/// The velocity delta of every body for one tick, all computed from the
/// same pre-tick snapshot.
pub fn compute_deltas(s: &Vec<Snapshot>, g: i64, dt: i64) -> (deltas: Vec<Vec3>)
    ensures
        deltas@.len() == s@.len(),
        forall|i: int| 0 <= i < s@.len() ==> deltas@[i] == total_delta(s@, i, g, dt),
{
    let n = s.len();
    let mut deltas: Vec<Vec3> = Vec::new();
    let mut i: usize = 0;
    while i < n
        invariant
            i <= n,
            n == s@.len(),
            deltas@.len() == i as int,
            forall|k: int| 0 <= k < i as int ==> deltas@[k] == total_delta(s@, k, g, dt),
        decreases n - i,
    {
        let mut acc = Vec3::zero();
        let mut j: usize = 0;
        while j < n
            invariant
                j <= n,
                i < n,
                n == s@.len(),
                acc == accum_delta(s@, i as int, g, dt, j as int),
            decreases n - j,
        {
            if j != i {
                let dv = compute_velocity(s[i].position, s[j].position, s[j].mass, g, dt);
                acc = v_add(acc, dv);
            }
            j = j + 1;
        }
        deltas.push(acc);
        i = i + 1;
    }
    deltas
}

/// Velocity phase of one tick: every body's delta is accumulated from the
/// same pre-tick positions, then all deltas are applied at once.
pub fn update_velocities(bodies: &mut Vec<Body>, dt: i64)
    ensures
        final(bodies)@.len() == old(bodies)@.len(),
        forall|i: int|
            0 <= i < old(bodies)@.len() ==> final(bodies)@[i] == with_updated_velocity(
                old(bodies)@,
                i,
                dt,
            ),
{
    let ghost pre = bodies@;
    let snapshots = crate::body::snapshot_bodies(bodies);
    let deltas = compute_deltas(&snapshots, G, dt);
    let n = bodies.len();
    let mut i: usize = 0;
    while i < n
        invariant
            i <= n,
            n == pre.len(),
            bodies@.len() == n,
            deltas@.len() == n,
            forall|k: int| 0 <= k < n ==> deltas@[k] == total_delta(snaps(pre), k, G, dt),
            forall|k: int| i as int <= k < n ==> bodies@[k] == pre[k],
            forall|k: int| 0 <= k < i as int ==> bodies@[k] == with_updated_velocity(pre, k, dt),
        decreases n - i,
    {
        let ghost prev = bodies@;
        let mut b = bodies.remove(i);
        b.velocity = v_add(b.velocity, deltas[i]);
        let ghost bv = b;
        bodies.insert(i, b);
        proof {
            assert(bodies@ =~= prev.update(i as int, bv));
        }
        i = i + 1;
    }
}

/// Position phase of one tick: every body moves by its current velocity
/// times dt.  After the velocity phase this is the semi-implicit update.
pub fn update_positions(bodies: &mut Vec<Body>, dt: i64)
    ensures
        final(bodies)@.len() == old(bodies)@.len(),
        forall|i: int|
            0 <= i < old(bodies)@.len() ==> final(bodies)@[i] == with_advanced_position(
                old(bodies)@[i],
                dt,
            ),
{
    let ghost pre = bodies@;
    let n = bodies.len();
    let mut i: usize = 0;
    while i < n
        invariant
            i <= n,
            n == pre.len(),
            bodies@.len() == n,
            forall|k: int| i as int <= k < n ==> bodies@[k] == pre[k],
            forall|k: int| 0 <= k < i as int ==> bodies@[k] == with_advanced_position(pre[k], dt),
        decreases n - i,
    {
        let ghost prev = bodies@;
        let mut b = bodies.remove(i);
        b.position = v_add(b.position, v_scale(b.velocity, dt));
        let ghost bv = b;
        bodies.insert(i, b);
        proof {
            assert(bodies@ =~= prev.update(i as int, bv));
        }
        i = i + 1;
    }
}

/// Advance the whole body set by one tick of length dt.  A nonpositive dt
/// is a meaningless tick and changes nothing; it never panics.
pub fn integrate(bodies: &mut Vec<Body>, dt: i64)
    ensures
        integrated(old(bodies)@, final(bodies)@, dt),
{
    if dt > 0 {
        update_velocities(bodies, dt);
        update_positions(bodies, dt);
    }
}

/// The deltas a pair of bodies impart on each other point exactly opposite
/// ways when the masses agree, component by component.
proof fn lemma_pair_delta_antisym(p1: Vec3, p2: Vec3, m: i64, g: i64, dt: i64)
    ensures
        pair_delta(p2, p1, m, g, dt).x as int == -(pair_delta(p1, p2, m, g, dt).x as int),
        pair_delta(p2, p1, m, g, dt).y as int == -(pair_delta(p1, p2, m, g, dt).y as int),
        pair_delta(p2, p1, m, g, dt).z as int == -(pair_delta(p1, p2, m, g, dt).z as int),
{
    let d12 = vsub_fx(p2, p1);
    let d21 = vsub_fx(p1, p2);
    lemma_vsub_antisym(p1, p2);
    lemma_vlen2_neg(d12, d21);
    if vlen2_fx(d12) != 0 {
        lemma_vscale_neg(d12, d21, force_scale(vlen2_fx(d12), m, g, dt));
    }
}

/// For exactly two bodies of equal mass, one tick imparts velocity deltas
/// of equal magnitude and opposite direction, component by component.
pub proof fn lemma_equal_mass_symmetry(s: Seq<Snapshot>, g: i64, dt: i64)
    requires
        s.len() == 2,
        s[0].mass == s[1].mass,
    ensures
        total_delta(s, 0, g, dt).x as int == -(total_delta(s, 1, g, dt).x as int),
        total_delta(s, 0, g, dt).y as int == -(total_delta(s, 1, g, dt).y as int),
        total_delta(s, 0, g, dt).z as int == -(total_delta(s, 1, g, dt).z as int),
{
    reveal_with_fuel(accum_delta, 3);
    lemma_pair_delta_antisym(s[0].position, s[1].position, s[0].mass, g, dt);
    assert(total_delta(s, 0, g, dt) == vadd_fx(
        Vec3 { x: 0, y: 0, z: 0 },
        pair_delta(s[0].position, s[1].position, s[1].mass, g, dt),
    ));
    assert(total_delta(s, 1, g, dt) == vadd_fx(
        Vec3 { x: 0, y: 0, z: 0 },
        pair_delta(s[1].position, s[0].position, s[0].mass, g, dt),
    ));
}

/// Far apart, the computed gravity vanishes outright: once the scaled force
/// numerator drops below the denominator, the pair's whole velocity delta
/// is exactly zero.  This is the limit the force decays toward.
pub proof fn lemma_far_pair_is_zero(p1: Vec3, p2: Vec3, m2: i64, g: i64, dt: i64)
    requires
        0 <= force_num(m2, g, dt),
        (force_num(m2, g, dt) as int) * (SCALE as int) < den_of(
            vlen2_fx(vsub_fx(p2, p1)),
        ) as int,
    ensures
        pair_delta(p1, p2, m2, g, dt) == (Vec3 { x: 0, y: 0, z: 0 }),
{
    let d2 = vlen2_fx(vsub_fx(p2, p1));
    assert((force_num(m2, g, dt) as int) * (SCALE as int) >= 0) by (nonlinear_arith)
        requires
            0 <= force_num(m2, g, dt) as int,
            SCALE as int > 0,
    ;
    assert(d2 != 0);
    crate::fx::lemma_div_fx_small(force_num(m2, g, dt), den_of(d2));
}

/// The denominator of the force factor grows with the squared distance.
pub proof fn lemma_den_monotone(d2a: i64, d2b: i64)
    requires
        0 <= d2a <= d2b,
    ensures
        0 <= den_of(d2a) <= den_of(d2b),
{
    crate::fx::lemma_sqrt_fx_monotone(d2a, d2b);
    crate::fx::lemma_mul_fx_monotone_nonneg(sqrt_fx(d2a), sqrt_fx(d2b), d2a, d2b);
}

/// Monotone decay of the computed attraction: as long as the nearer
/// denominator is positive, a pair at larger squared distance gets a force
/// factor no larger.  Together with [`lemma_far_pair_is_zero`] this is the
/// monotone approach of the velocity delta to zero with growing separation.
pub proof fn lemma_force_scale_antitone(d2a: i64, d2b: i64, m2: i64, g: i64, dt: i64)
    requires
        0 <= d2a <= d2b,
        0 < den_of(d2a),
        0 <= force_num(m2, g, dt),
    ensures
        0 <= force_scale(d2b, m2, g, dt) <= force_scale(d2a, m2, g, dt),
{
    lemma_den_monotone(d2a, d2b);
    crate::fx::lemma_div_fx_antitone(force_num(m2, g, dt), den_of(d2a), den_of(d2b));
}

/// Moving two bodies further apart along one axis never shrinks their
/// computed squared distance.
pub proof fn lemma_axis_separation_monotone(s1: i64, s2: i64)
    requires
        0 <= s1 <= s2,
    ensures
        0 <= vlen2_fx(Vec3 { x: s1, y: 0, z: 0 }) <= vlen2_fx(Vec3 { x: s2, y: 0, z: 0 }),
{
    crate::fx::lemma_mul_fx_monotone_nonneg(s1, s2, s1, s2);
}

/// Decay along one axis, end to end: for a body at the origin and another
/// at distance s on the x axis, growing s never strengthens the computed
/// attraction, as long as the nearer configuration is outside the
/// coincidence region.  [`lemma_far_pair_is_zero`] completes the decay: far
/// enough out the whole velocity delta is exactly zero.
pub proof fn lemma_gravity_fades_on_axis(s1: i64, s2: i64, m2: i64, g: i64, dt: i64)
    requires
        0 <= s1 <= s2,
        0 <= force_num(m2, g, dt),
        0 < den_of(vlen2_fx(Vec3 { x: s1, y: 0, z: 0 })),
    ensures
        0 <= force_scale(vlen2_fx(Vec3 { x: s2, y: 0, z: 0 }), m2, g, dt) <= force_scale(
            vlen2_fx(Vec3 { x: s1, y: 0, z: 0 }),
            m2,
            g,
            dt,
        ),
{
    lemma_axis_separation_monotone(s1, s2);
    lemma_force_scale_antitone(
        vlen2_fx(Vec3 { x: s1, y: 0, z: 0 }),
        vlen2_fx(Vec3 { x: s2, y: 0, z: 0 }),
        m2,
        g,
        dt,
    );
}

/// With a single body there is no pair to attract it: one tick leaves its
/// velocity unchanged and moves its position by exactly velocity · dt.
pub proof fn lemma_single_body_drift(s: Seq<Snapshot>, g: i64, dt: i64)
    requires
        s.len() == 1,
        vec_in_range(s[0].velocity),
    ensures
        step_snapshots(s, g, dt)[0].velocity == s[0].velocity,
        step_snapshots(s, g, dt)[0].position == vadd_fx(
            s[0].position,
            vscale_fx(s[0].velocity, dt),
        ),
{
    reveal_with_fuel(accum_delta, 2);
    assert(total_delta(s, 0, g, dt) == (Vec3 { x: 0, y: 0, z: 0 }));
    assert(add_fx(s[0].velocity.x, 0) == s[0].velocity.x);
    assert(add_fx(s[0].velocity.y, 0) == s[0].velocity.y);
    assert(add_fx(s[0].velocity.z, 0) == s[0].velocity.z);
}

/// The same single-body law at the level of [`integrate`]'s contract.
pub proof fn lemma_single_body_integrate(pre: Seq<Body>, post: Seq<Body>, dt: i64)
    requires
        integrated(pre, post, dt),
        pre.len() == 1,
        dt > 0,
        vec_in_range(pre[0].velocity),
    ensures
        post[0].velocity == pre[0].velocity,
        post[0].position == vadd_fx(pre[0].position, vscale_fx(pre[0].velocity, dt)),
{
    reveal_with_fuel(accum_delta, 2);
    assert(snaps(pre).len() == 1);
    assert(snaps(pre)[0].velocity == pre[0].velocity);
    assert(total_delta(snaps(pre), 0, G, dt) == (Vec3 { x: 0, y: 0, z: 0 }));
    assert(add_fx(pre[0].velocity.x, 0) == pre[0].velocity.x);
    assert(add_fx(pre[0].velocity.y, 0) == pre[0].velocity.y);
    assert(add_fx(pre[0].velocity.z, 0) == pre[0].velocity.z);
}

/// The integrator performs, body for body, exactly the snapshot step the
/// trajectory predictor simulates: both share one mathematical tick.
pub proof fn lemma_integrate_matches_predictor(pre: Seq<Body>, post: Seq<Body>, dt: i64)
    requires
        integrated(pre, post, dt),
        dt > 0,
    ensures
        snaps(post) == step_snapshots(snaps(pre), G, dt),
{
    assert(snaps(post) =~= step_snapshots(snaps(pre), G, dt));
}

} // verus!
