//! Forward trajectory prediction on a snapshot of the body set.
//!
//! The predictor copies the physical state of every body once, then runs
//! the same tick as the integrator a bounded number of times on the copy,
//! recording each body's position after every tick.  The bodies themselves
//! are behind a shared borrow and stay untouched.

use crate::body::{snaps, Body, Color, Snapshot};
use crate::sim::{compute_deltas, step_snapshots, total_delta, G};
use crate::vec3::{v_add, v_scale, Vec3};
use vstd::prelude::*;

verus! {

/// Tick length the surrounding application uses for prediction: 0.01 in
/// fixed point, much shorter than the real simulation tick.
pub const PREDICT_DT: i64 = 10_000;

/// The predicted path of one body: consecutive positions, starting at the
/// body's current one, under the body's display color.
#[derive(Debug)]
pub struct Polyline {
    pub color: Color,
    pub points: Vec<Vec3>,
}

/// The snapshot set after `k` predictor ticks.
pub open spec fn iterate(s: Seq<Snapshot>, g: i64, dt: i64, k: int) -> Seq<Snapshot>
    decreases k,
{
    if k <= 0 {
        s
    } else {
        step_snapshots(iterate(s, g, dt, k - 1), g, dt)
    }
}

/// Iterating ticks never adds or removes a body.
pub proof fn lemma_iterate_len(s: Seq<Snapshot>, g: i64, dt: i64, k: int)
    ensures
        iterate(s, g, dt, k).len() == s.len(),
    decreases k,
{
    if k > 0 {
        lemma_iterate_len(s, g, dt, k - 1);
    }
}

/// How many positions each predicted polyline holds: the starting one plus
/// one per tick; a nonpositive dt is a meaningless tick, so only the
/// starting position is recorded.
pub open spec fn point_count(steps: u32, dt: i64) -> int {
    if dt <= 0 {
        1
    } else {
        steps as int + 1
    }
}

/// One predictor tick: all deltas come from the incoming snapshot, then
/// every snapshot advances by its updated velocity.
fn advance_snapshots(sim: Vec<Snapshot>, g: i64, dt: i64) -> (out: Vec<Snapshot>)
    ensures
        out@ == step_snapshots(sim@, g, dt),
{
    let ghost pre = sim@;
    let deltas = compute_deltas(&sim, g, dt);
    let mut out = sim;
    let n = out.len();
    let mut i: usize = 0;
    while i < n
        invariant
            i <= n,
            n == pre.len(),
            out@.len() == n,
            deltas@.len() == n,
            forall|k: int| 0 <= k < n ==> deltas@[k] == total_delta(pre, k, g, dt),
            forall|k: int| i as int <= k < n ==> out@[k] == pre[k],
            forall|k: int| 0 <= k < i as int ==> out@[k] == step_snapshots(pre, g, dt)[k],
        decreases n - i,
    {
        let s0 = out[i];
        let v = v_add(s0.velocity, deltas[i]);
        let p = v_add(s0.position, v_scale(v, dt));
        out.set(i, Snapshot { velocity: v, position: p, ..s0 });
        i = i + 1;
    }
    proof {
        assert(out@ =~= step_snapshots(pre, g, dt));
    }
    out
}

/// Predict every body's future path for `steps` ticks of length `dt`,
/// without touching the bodies: the result's polyline `i` starts at body
/// `i`'s current position and continues with its position after each tick
/// of the same all-pairs law the integrator uses.
pub fn predict_trajectories(bodies: &Vec<Body>, steps: u32, dt: i64) -> (trails: Vec<Polyline>)
    ensures
        trails@.len() == bodies@.len(),
        forall|i: int| 0 <= i < bodies@.len() ==> #[trigger] trails@[i].color == bodies@[i].color,
        forall|i: int|
            0 <= i < bodies@.len() ==> #[trigger] trails@[i].points@.len() == point_count(
                steps,
                dt,
            ),
        forall|i: int, k: int|
            0 <= i < bodies@.len() && 0 <= k < point_count(steps, dt)
                ==> #[trigger] trails@[i].points@[k] == iterate(snaps(bodies@), G, dt, k)[i].position,
{
    let n = bodies.len();
    let mut sim = crate::body::snapshot_bodies(bodies);
    let mut trails: Vec<Polyline> = Vec::new();
    let mut i: usize = 0;
    while i < n
        invariant
            i <= n,
            n == bodies@.len(),
            sim@ == snaps(bodies@),
            trails@.len() == i as int,
            forall|t: int| 0 <= t < i as int ==> #[trigger] trails@[t].color == bodies@[t].color,
            forall|t: int| 0 <= t < i as int ==> #[trigger] trails@[t].points@.len() == 1,
            forall|t: int|
                0 <= t < i as int ==> #[trigger] trails@[t].points@[0] == snaps(
                    bodies@,
                )[t].position,
        decreases n - i,
    {
        let mut points: Vec<Vec3> = Vec::new();
        points.push(sim[i].position);
        let color = bodies[i].color;
        trails.push(Polyline { color, points });
        i = i + 1;
    }
    if dt <= 0 {
        return trails;
    }
    let mut done: u32 = 0;
    while done < steps
        invariant
            dt > 0,
            done <= steps,
            n == bodies@.len(),
            trails@.len() == n,
            sim@.len() == n,
            sim@ == iterate(snaps(bodies@), G, dt, done as int),
            forall|t: int| 0 <= t < n ==> #[trigger] trails@[t].color == bodies@[t].color,
            forall|t: int| 0 <= t < n ==> #[trigger] trails@[t].points@.len() == done as int + 1,
            forall|t: int, k: int|
                0 <= t < n && 0 <= k <= done as int ==> #[trigger] trails@[t].points@[k] == iterate(
                    snaps(bodies@),
                    G,
                    dt,
                    k,
                )[t].position,
        decreases steps - done,
    {
        sim = advance_snapshots(sim, G, dt);
        proof {
            lemma_iterate_len(snaps(bodies@), G, dt, done as int + 1);
        }
        let mut t: usize = 0;
        while t < n
            invariant
                dt > 0,
                done < steps,
                t <= n,
                n == bodies@.len(),
                trails@.len() == n,
                sim@.len() == n,
                sim@ == iterate(snaps(bodies@), G, dt, done as int + 1),
                forall|u: int| 0 <= u < n ==> #[trigger] trails@[u].color == bodies@[u].color,
                forall|u: int|
                    0 <= u < t as int ==> #[trigger] trails@[u].points@.len() == done as int + 2,
                forall|u: int|
                    t as int <= u < n ==> #[trigger] trails@[u].points@.len() == done as int + 1,
                forall|u: int, k: int|
                    0 <= u < n && 0 <= k <= done as int ==> #[trigger] trails@[u].points@[k]
                        == iterate(snaps(bodies@), G, dt, k)[u].position,
                forall|u: int|
                    0 <= u < t as int ==> #[trigger] trails@[u].points@[done as int + 1] == iterate(
                        snaps(bodies@),
                        G,
                        dt,
                        done as int + 1,
                    )[u].position,
            decreases n - t,
        {
            let ghost prev = trails@;
            let mut line = trails.remove(t);
            line.points.push(sim[t].position);
            let ghost lv = line;
            trails.insert(t, line);
            proof {
                assert(trails@ =~= prev.update(t as int, lv));
            }
            t = t + 1;
        }
        done = done + 1;
    }
    trails
}

} // verus!
