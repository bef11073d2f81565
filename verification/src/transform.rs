//! The transformation a draw pass applies when rendering into a target.
//!
//! A 3 x 3 homogeneous 2D matrix, row-major, with integer entries. The
//! backend only ever hands out the identity: rendering directly into a
//! drawable's own coordinate space needs no flip or scale correction.

use vstd::prelude::*;

verus! {

/// A row-major 3 x 3 homogeneous 2D transformation matrix.
#[derive(Clone, Copy, Debug, PartialEq, Eq, Structural)]
pub struct Transformation {
    pub m00: i32,
    pub m01: i32,
    pub m02: i32,
    pub m10: i32,
    pub m11: i32,
    pub m12: i32,
    pub m20: i32,
    pub m21: i32,
    pub m22: i32,
}

impl Transformation {
    /// The identity matrix.
    pub open spec fn spec_identity() -> Transformation {
        Transformation { m00: 1, m01: 0, m02: 0, m10: 0, m11: 1, m12: 0, m20: 0, m21: 0, m22: 1 }
    }

    /// Whether this is the identity matrix.
    pub open spec fn is_identity(&self) -> bool {
        *self == Transformation::spec_identity()
    }

    pub fn identity() -> (t: Transformation)
        ensures
            t == Transformation::spec_identity(),
    {
        Transformation { m00: 1, m01: 0, m02: 0, m10: 0, m11: 1, m12: 0, m20: 0, m21: 0, m22: 1 }
    }
}

} // verus!
