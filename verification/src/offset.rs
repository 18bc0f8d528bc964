//! Offsets in screen pixels and the state that the two per-frame steps share.
//!
//! An offset is a `bevy_math::Vec2`. Its coordinates are floating-point
//! numbers, which verified code cannot compute with, so the vector is carried
//! as an opaque value and every operation on it is a call into `bevy_math`
//! whose result has a name in the contracts.

use bevy_math::Vec2;
use vstd::prelude::*;

verus! {

#[verifier::external_type_specification]
#[verifier::external_body]
pub struct ExVec2(Vec2);

/// What `bevy_math` gives for `a + b` on two vectors: the vector of the
/// coordinate-wise floating-point sums.
pub uninterp spec fn offset_sum(a: Vec2, b: Vec2) -> Vec2;

/// What `bevy_math` gives for `a != b` on two vectors: `true` when the two
/// differ on at least one axis under floating-point comparison. A vector with
/// a NaN coordinate differs from every vector, itself included.
pub uninterp spec fn offsets_differ(a: Vec2, b: Vec2) -> bool;

/// Calls `Vec2`'s `Add`. Trusted: the result is the one that the contracts
/// call [`offset_sum`], a function of the two arguments alone.
#[verifier::external_body]
pub(crate) fn add_offsets(a: &Vec2, b: &Vec2) -> (sum: Vec2)
    ensures
        sum == offset_sum(*a, *b),
{
    *a + *b
}

/// Calls `Vec2`'s `PartialEq::ne`. Trusted: the answer is the one that the
/// contracts call [`offsets_differ`], a function of the two arguments alone.
#[verifier::external_body]
pub(crate) fn differ(a: &Vec2, b: &Vec2) -> (different: bool)
    ensures
        different == offsets_differ(*a, *b),
{
    *a != *b
}

/// The offset of the canvas on screen, as last measured.
#[derive(Debug, Clone, Copy, PartialEq)]
pub struct TouchOffset(pub Vec2);

/// An offset that the application sets to make up for a measurement that is
/// known to be off. It is subtracted from touch positions together with the
/// measured offset.
#[derive(Debug, Clone, Copy, PartialEq)]
pub struct AdditionalTouchOffset(pub Vec2);

/// Reported in each frame in which the measured offset changed; carries the
/// new offset.
#[derive(Debug, Clone, Copy, PartialEq)]
pub struct TouchOffsetChangeEvent(pub Vec2);

/// The id of the canvas element whose position is measured. It has to match
/// the `id` attribute of the canvas in the page.
#[derive(Debug, Clone, PartialEq, Eq)]
pub struct PrimaryCanvasId(pub String);

impl Default for PrimaryCanvasId {
    /// The id `main-canvas`.
    fn default() -> (id: Self)
        ensures
            id.0@ == "main-canvas"@,
    {
        PrimaryCanvasId("main-canvas".to_owned())
    }
}

} // verus!
