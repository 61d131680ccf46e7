//! World-space vectors over the fixed-point scalars of [`crate::fx`].

use crate::fx::{add_fx, fx_add, fx_mul, fx_sub, mul_fx, sub_fx, FX_MAX};
use vstd::prelude::*;

verus! {

/// A 3D vector of fixed-point coordinates.
#[derive(Clone, Copy, PartialEq, Eq, Structural, Debug)]
pub struct Vec3 {
    pub x: i64,
    pub y: i64,
    pub z: i64,
}

/// Componentwise saturating addition.
pub open spec fn vadd_fx(a: Vec3, b: Vec3) -> Vec3 {
    Vec3 { x: add_fx(a.x, b.x), y: add_fx(a.y, b.y), z: add_fx(a.z, b.z) }
}

/// Componentwise saturating subtraction.
pub open spec fn vsub_fx(a: Vec3, b: Vec3) -> Vec3 {
    Vec3 { x: sub_fx(a.x, b.x), y: sub_fx(a.y, b.y), z: sub_fx(a.z, b.z) }
}

/// Saturating multiplication of every component by a scalar.
pub open spec fn vscale_fx(v: Vec3, s: i64) -> Vec3 {
    Vec3 { x: mul_fx(v.x, s), y: mul_fx(v.y, s), z: mul_fx(v.z, s) }
}

/// Saturating dot product.
pub open spec fn vdot_fx(a: Vec3, b: Vec3) -> i64 {
    add_fx(add_fx(mul_fx(a.x, b.x), mul_fx(a.y, b.y)), mul_fx(a.z, b.z))
}

/// Saturating squared length.
pub open spec fn vlen2_fx(v: Vec3) -> i64 {
    vdot_fx(v, v)
}

/// Whether every component stays clear of the one `i64` value outside the
/// symmetric fixed-point range.
pub open spec fn vec_in_range(v: Vec3) -> bool {
    -(FX_MAX as int) <= v.x && -(FX_MAX as int) <= v.y && -(FX_MAX as int) <= v.z
}

impl Vec3 {
    /// The zero vector.
    pub fn zero() -> (r: Vec3)
        ensures
            r == (Vec3 { x: 0i64, y: 0i64, z: 0i64 }),
    {
        Vec3 { x: 0, y: 0, z: 0 }
    }

}

/// Componentwise saturating addition.
pub fn v_add(a: Vec3, b: Vec3) -> (r: Vec3)
    ensures
        r == vadd_fx(a, b),
{
    Vec3 { x: fx_add(a.x, b.x), y: fx_add(a.y, b.y), z: fx_add(a.z, b.z) }
}

/// Componentwise saturating subtraction.
pub fn v_sub(a: Vec3, b: Vec3) -> (r: Vec3)
    ensures
        r == vsub_fx(a, b),
{
    Vec3 { x: fx_sub(a.x, b.x), y: fx_sub(a.y, b.y), z: fx_sub(a.z, b.z) }
}

/// Saturating multiplication of every component by a scalar.
pub fn v_scale(v: Vec3, s: i64) -> (r: Vec3)
    ensures
        r == vscale_fx(v, s),
{
    Vec3 { x: fx_mul(v.x, s), y: fx_mul(v.y, s), z: fx_mul(v.z, s) }
}

/// Saturating dot product.
pub fn v_dot(a: Vec3, b: Vec3) -> (r: i64)
    ensures
        r == vdot_fx(a, b),
{
    fx_add(fx_add(fx_mul(a.x, b.x), fx_mul(a.y, b.y)), fx_mul(a.z, b.z))
}

/// Saturating squared length.
pub fn v_len2(v: Vec3) -> (r: i64)
    ensures
        r == vlen2_fx(v),
{
    v_dot(v, v)
}

/// Swapping the operands of a vector subtraction negates every component.
pub proof fn lemma_vsub_antisym(a: Vec3, b: Vec3)
    ensures
        vsub_fx(b, a).x as int == -(vsub_fx(a, b).x as int),
        vsub_fx(b, a).y as int == -(vsub_fx(a, b).y as int),
        vsub_fx(b, a).z as int == -(vsub_fx(a, b).z as int),
{
    crate::fx::lemma_sub_fx_antisym(a.x, b.x);
    crate::fx::lemma_sub_fx_antisym(a.y, b.y);
    crate::fx::lemma_sub_fx_antisym(a.z, b.z);
}

/// Two componentwise-opposite vectors have the same squared length.
pub proof fn lemma_vlen2_neg(a: Vec3, b: Vec3)
    requires
        b.x as int == -(a.x as int),
        b.y as int == -(a.y as int),
        b.z as int == -(a.z as int),
    ensures
        vlen2_fx(b) == vlen2_fx(a),
{
    crate::fx::lemma_mul_fx_neg_both(a.x, b.x);
    crate::fx::lemma_mul_fx_neg_both(a.y, b.y);
    crate::fx::lemma_mul_fx_neg_both(a.z, b.z);
}

/// Scaling two componentwise-opposite vectors gives componentwise-opposite
/// results.
pub proof fn lemma_vscale_neg(a: Vec3, b: Vec3, s: i64)
    requires
        b.x as int == -(a.x as int),
        b.y as int == -(a.y as int),
        b.z as int == -(a.z as int),
    ensures
        vscale_fx(b, s).x as int == -(vscale_fx(a, s).x as int),
        vscale_fx(b, s).y as int == -(vscale_fx(a, s).y as int),
        vscale_fx(b, s).z as int == -(vscale_fx(a, s).z as int),
{
    crate::fx::lemma_mul_fx_neg_left(a.x, b.x, s);
    crate::fx::lemma_mul_fx_neg_left(a.y, b.y, s);
    crate::fx::lemma_mul_fx_neg_left(a.z, b.z, s);
}

} // verus!
