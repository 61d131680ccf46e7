//! The simulated bodies and the snapshots the trajectory predictor works on.

use crate::fx::mul_fx;
use crate::vec3::{vadd_fx, Vec3};
use vstd::prelude::*;
use vstd::string::StringExecFns;

verus! {

/// Emission strength a star's material gets, in fixed point (18.0).
pub const STAR_EMISSIVE: i64 = 18_000_000;

/// Light intensity a star of luminosity 1.0 casts, in fixed point (1.0e9).
pub const STAR_LIGHT: i64 = 1_000_000_000_000_000;

/// What a body is.  Only the renderer cares: a star glows and casts light
/// scaled by its luminosity factor, a planet does neither.  Physics ignores
/// the kind entirely.
#[derive(Clone, Copy, PartialEq, Eq, Structural, Debug)]
pub enum BodyKind {
    Planet,
    Star(i64),
}

/// A normalized 3-component color, each channel in fixed point.
#[derive(Clone, Copy, PartialEq, Eq, Structural, Debug)]
pub struct Color {
    pub r: i64,
    pub g: i64,
    pub b: i64,
}

/// One simulated celestial object.
///
/// The core never creates or destroys bodies on its own and never validates
/// the fields beyond the stated invariant: rejecting or clamping bad editor
/// input is the owning editor's job.
#[derive(Debug)]
pub struct Body {
    /// Stable identity, unique per live body.
    pub id: u64,
    /// Display label; not required to be unique.
    pub name: String,
    /// Planet or star; affects light, never physics.
    pub kind: BodyKind,
    /// Positive mass, unit-free.
    pub mass: i64,
    /// Positive radius; visual scale and picking sphere alike.
    pub radius: i64,
    /// World-space position.
    pub position: Vec3,
    /// World-space velocity.
    pub velocity: Vec3,
    /// Display color.
    pub color: Color,
}

/// The data invariant a live body is expected to satisfy.
pub open spec fn well_formed(b: Body) -> bool {
    b.mass > 0 && b.radius > 0
}

impl Body {
    /// Build a body from its fields.
    pub fn new(
        id: u64,
        name: String,
        kind: BodyKind,
        mass: i64,
        radius: i64,
        position: Vec3,
        velocity: Vec3,
        color: Color,
    ) -> (b: Body)
        ensures
            b == (Body { id, name, kind, mass, radius, position, velocity, color }),
    {
        Body { id, name, kind, mass, radius, position, velocity, color }
    }

    /// How strongly the renderer should light the scene from this body:
    /// zero for a planet, the luminosity factor times [`STAR_LIGHT`] for a
    /// star.  A derived property; nothing in the simulation reads it.
    pub fn light_factor(&self) -> (r: i64)
        ensures
            r == spec_light_factor(*self),
    {
        match self.kind {
            BodyKind::Planet => 0,
            BodyKind::Star(luminosity) => crate::fx::fx_mul(luminosity, STAR_LIGHT),
        }
    }

    /// How emissive the renderer should draw this body: zero for a planet,
    /// [`STAR_EMISSIVE`] for a star.  A derived property like
    /// [`Body::light_factor`].
    pub fn emissive_factor(&self) -> (r: i64)
        ensures
            r == spec_emissive_factor(*self),
    {
        match self.kind {
            BodyKind::Planet => 0,
            BodyKind::Star(_) => STAR_EMISSIVE,
        }
    }

    /// Replace the mass; no validation happens here.
    pub fn set_mass(&mut self, mass: i64)
        ensures
            *final(self) == (Body { mass, ..*old(self) }),
    {
        self.mass = mass;
    }

    /// Replace the radius; no validation happens here.
    pub fn set_radius(&mut self, radius: i64)
        ensures
            *final(self) == (Body { radius, ..*old(self) }),
    {
        self.radius = radius;
    }

    /// Replace the position.
    pub fn set_position(&mut self, position: Vec3)
        ensures
            *final(self) == (Body { position, ..*old(self) }),
    {
        self.position = position;
    }

    /// Replace the velocity.
    pub fn set_velocity(&mut self, velocity: Vec3)
        ensures
            *final(self) == (Body { velocity, ..*old(self) }),
    {
        self.velocity = velocity;
    }

    /// Replace the color.
    pub fn set_color(&mut self, color: Color)
        ensures
            *final(self) == (Body { color, ..*old(self) }),
    {
        self.color = color;
    }

    /// Replace the kind; light and emission follow it as derived properties.
    pub fn set_kind(&mut self, kind: BodyKind)
        ensures
            *final(self) == (Body { kind, ..*old(self) }),
    {
        self.kind = kind;
    }

    /// A copy of this body offset by one radius along every axis, under a
    /// fresh id and color.  The duplicate is always a planet named
    /// "Planet", whatever this body is.
    pub fn duplicated(&self, id: u64, color: Color) -> (b: Body)
        ensures
            b.id == id,
            b.name@ == "Planet"@,
            b.kind == BodyKind::Planet,
            b.mass == self.mass,
            b.radius == self.radius,
            b.position == vadd_fx(
                self.position,
                Vec3 { x: self.radius, y: self.radius, z: self.radius },
            ),
            b.velocity == self.velocity,
            b.color == color,
    {
        let offset = Vec3 { x: self.radius, y: self.radius, z: self.radius };
        Body {
            id,
            name: String::from_str("Planet"),
            kind: BodyKind::Planet,
            mass: self.mass,
            radius: self.radius,
            position: crate::vec3::v_add(self.position, offset),
            velocity: self.velocity,
            color,
        }
    }
}

/// The renderer-facing light intensity of a body (see [`Body::light_factor`]).
pub open spec fn spec_light_factor(b: Body) -> i64 {
    match b.kind {
        BodyKind::Planet => 0,
        BodyKind::Star(luminosity) => mul_fx(luminosity, STAR_LIGHT),
    }
}

/// The renderer-facing emission strength of a body.
pub open spec fn spec_emissive_factor(b: Body) -> i64 {
    match b.kind {
        BodyKind::Planet => 0,
        BodyKind::Star(_) => STAR_EMISSIVE,
    }
}

/// The slice of a body's state the predictor simulates forward: everything
/// physics and trajectory drawing need, nothing that identifies the body.
#[derive(Clone, Copy, PartialEq, Eq, Structural, Debug)]
pub struct Snapshot {
    pub mass: i64,
    pub radius: i64,
    pub position: Vec3,
    pub velocity: Vec3,
    pub color: Color,
}

/// The snapshot of one body.
pub open spec fn snap(b: Body) -> Snapshot {
    Snapshot {
        mass: b.mass,
        radius: b.radius,
        position: b.position,
        velocity: b.velocity,
        color: b.color,
    }
}

/// The snapshots of a whole body sequence, in order.
pub open spec fn snaps(s: Seq<Body>) -> Seq<Snapshot> {
    Seq::new(s.len(), |i: int| snap(s[i]))
}

/// Copy the physical state of every body, in order.  The borrow is shared:
/// the bodies themselves stay untouched.
pub fn snapshot_bodies(bodies: &Vec<Body>) -> (s: Vec<Snapshot>)
    ensures
        s@ == snaps(bodies@),
{
    let n = bodies.len();
    let mut s: Vec<Snapshot> = Vec::new();
    let mut i: usize = 0;
    while i < n
        invariant
            i <= n,
            n == bodies@.len(),
            s@.len() == i as int,
            forall|k: int| 0 <= k < i as int ==> s@[k] == snap(bodies@[k]),
        decreases n - i,
    {
        let b = &bodies[i];
        s.push(
            Snapshot {
                mass: b.mass,
                radius: b.radius,
                position: b.position,
                velocity: b.velocity,
                color: b.color,
            },
        );
        i = i + 1;
    }
    proof {
        assert(s@ =~= snaps(bodies@));
    }
    s
}

} // verus!
