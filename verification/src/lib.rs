//! Core of an interactive N-body gravity simulator.
//!
//! A variable set of point-mass bodies attracts itself under Newtonian
//! gravity.  This crate holds the parts with algorithmic content, verified:
//! semi-implicit Euler integration under an all-pairs force law, forward
//! trajectory prediction on a snapshot of the body set, ray picking of a
//! body's bounding sphere, and the small run-state machine that gates the
//! integrator.  Rendering, windowing and persistence live outside.
//!
//! Every scalar is a signed 64-bit fixed-point number with six fractional
//! decimal digits (see [`fx`]); the arithmetic saturates at a symmetric
//! range bound and never panics.

pub mod body;
pub mod fx;
pub mod picker;
pub mod predict;
pub mod sim;
pub mod spawn;
pub mod state;
pub mod vec3;
