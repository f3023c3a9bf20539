//! Plain data carried by the camera table: principal identities, 3D
//! vectors, and the camera record itself.

use vstd::prelude::*;

verus! {

/// An opaque principal identifier: 256 bits, carried as two 128-bit words.
/// The host's session layer decides what the bits mean; this library only
/// compares identities for equality.
#[derive(Clone, Copy, PartialEq, Eq, Structural, Debug)]
pub struct Identity {
    pub hi: u128,
    pub lo: u128,
}

/// A 3D vector. Each component carries the raw bit pattern of a 32-bit
/// IEEE-754 value; callers convert with `f32::to_bits` / `f32::from_bits`.
/// The table never interprets the components, so the all-zero pattern
/// (which encodes 0.0 in each component) serves as the zero vector.
#[derive(Clone, Copy, PartialEq, Eq, Structural, Debug)]
pub struct DbVector3 {
    pub x: u32,
    pub y: u32,
    pub z: u32,
}

impl DbVector3 {
    /// The zero vector: every component's bit pattern is zero.
    pub open spec fn spec_zero() -> DbVector3 {
        DbVector3 { x: 0, y: 0, z: 0 }
    }

    /// Builds the zero vector.
    pub fn zero() -> (v: DbVector3)
        ensures
            v == DbVector3::spec_zero(),
    {
        DbVector3 { x: 0, y: 0, z: 0 }
    }
}

impl Default for DbVector3 {
    fn default() -> (v: DbVector3)
        ensures
            v == DbVector3::spec_zero(),
    {
        DbVector3::zero()
    }
}

/// The camera state for one identity: whether creative-camera mode is
/// active, and the camera's pose (position and rotation vectors).
#[derive(Clone, Copy, PartialEq, Eq, Structural, Debug)]
pub struct CreativeCamera {
    pub identity: Identity,
    pub enabled: bool,
    pub position: DbVector3,
    pub rotation: DbVector3,
}

} // verus!
