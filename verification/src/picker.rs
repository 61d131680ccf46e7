//! Ray picking of bodies and the selection marker.
//!
//! A click turns into a camera ray outside the core; the core answers which
//! body, if any, that ray selects.  The test is a deliberately simple
//! cylindrical one: the perpendicular distance from the sphere's center to
//! the ray's carrier line must fall below the radius.  It does not clip to
//! the forward half of the ray nor to the true entry interval of the sphere.

use crate::body::Body;
use crate::fx::{div_fx, fx_div, fx_sqrt, fx_sub, sqrt_fx, sub_fx};
use crate::vec3::{v_dot, v_len2, v_scale, v_sub, vdot_fx, vlen2_fx, vscale_fx, vsub_fx, Vec3};
use vstd::prelude::*;

verus! {

/// Perpendicular distance from `center` to the line through `origin` along
/// `dir`, rounded down in fixed point.  Computed via the foot of the
/// perpendicular: with l = origin − center, the foot offset is
/// dir · (dir⋅l / ‖dir‖²), and the distance is √(‖l‖² − ‖offset‖²).
pub open spec fn perp_distance(origin: Vec3, dir: Vec3, center: Vec3) -> i64 {
    let l = vsub_fx(origin, center);
    let foot = vscale_fx(dir, div_fx(vdot_fx(dir, l), vlen2_fx(dir)));
    sqrt_fx(sub_fx(vlen2_fx(l), vlen2_fx(foot)))
}

/// Whether the ray selects the body: its bounding sphere's center lies
/// closer to the ray's line than its radius.
pub open spec fn ray_hits(b: Body, origin: Vec3, dir: Vec3) -> bool {
    perp_distance(origin, dir, b.position) < b.radius
}

/// Whether any body of the set qualifies.
pub open spec fn any_hit(s: Seq<Body>, origin: Vec3, dir: Vec3) -> bool {
    exists|i: int| 0 <= i < s.len() && #[trigger] ray_hits(s[i], origin, dir)
}

/// Whether body `i` is the first of the set, in iteration order, that the
/// ray selects.
pub open spec fn is_first_hit(s: Seq<Body>, origin: Vec3, dir: Vec3, i: int) -> bool {
    &&& 0 <= i < s.len()
    &&& ray_hits(s[i], origin, dir)
    &&& forall|j: int| 0 <= j < i ==> !#[trigger] ray_hits(s[j], origin, dir)
}

/// The picking test for one body.
pub fn hits_body(b: &Body, origin: Vec3, dir: Vec3) -> (r: bool)
    ensures
        r == ray_hits(*b, origin, dir),
{
    let l = v_sub(origin, b.position);
    let foot = v_scale(dir, fx_div(v_dot(dir, l), v_len2(dir)));
    let d = fx_sqrt(fx_sub(v_len2(l), v_len2(foot)));
    d < b.radius
}

/// Find the body the ray selects: the first body in iteration order whose
/// bounding sphere the ray's line passes through, or `None` when no body
/// qualifies.
pub fn pick(bodies: &Vec<Body>, ray_origin: Vec3, ray_dir: Vec3) -> (r: Option<u64>)
    ensures
        r is Some <==> any_hit(bodies@, ray_origin, ray_dir),
        match r {
            Some(id) => exists|i: int|
                #[trigger] is_first_hit(bodies@, ray_origin, ray_dir, i) && id == bodies@[i].id,
            None => true,
        },
{
    let n = bodies.len();
    let mut i: usize = 0;
    while i < n
        invariant
            i <= n,
            n == bodies@.len(),
            forall|j: int| 0 <= j < i as int ==> !#[trigger] ray_hits(bodies@[j], ray_origin, ray_dir),
        decreases n - i,
    {
        if hits_body(&bodies[i], ray_origin, ray_dir) {
            proof {
                assert(is_first_hit(bodies@, ray_origin, ray_dir, i as int));
            }
            return Some(bodies[i].id);
        }
        i = i + 1;
    }
    None
}

/// Move the selection marker to whatever the ray hits.  A hit deselects the
/// previous body and selects the new one; a click into empty space keeps
/// the current selection (the kept-on-miss policy; clearing on miss is the
/// documented alternative, done by [`clear_selection`]).
pub fn check_selection(
    selected: &mut Option<u64>,
    bodies: &Vec<Body>,
    ray_origin: Vec3,
    ray_dir: Vec3,
)
    ensures
        any_hit(bodies@, ray_origin, ray_dir) ==> exists|i: int|
            #[trigger] is_first_hit(bodies@, ray_origin, ray_dir, i) && *final(selected) == Some(
                bodies@[i].id,
            ),
        !any_hit(bodies@, ray_origin, ray_dir) ==> *final(selected) == *old(selected),
{
    match pick(bodies, ray_origin, ray_dir) {
        Some(id) => {
            *selected = Some(id);
        },
        None => {},
    }
}

/// Drop the selection marker entirely.
pub fn clear_selection(selected: &mut Option<u64>)
    ensures
        *final(selected) is None,
{
    *selected = None;
}

} // verus!
