//! The coordinate axes as unit vectors.

use vstd::prelude::*;

use crate::fixed::{Fx, FX_SCALE};
use crate::vecmat::{spec_v3, Vec3};

verus! {

/// The unit vector along the x axis.
pub fn x_axis() -> (r: Vec3)
    ensures
        r == spec_v3(FX_SCALE as int, 0, 0),
{
    Vec3 { x: Fx::one(), y: Fx::zero(), z: Fx::zero() }
}

/// The unit vector along the y axis, the turtle's base heading.
pub fn y_axis() -> (r: Vec3)
    ensures
        r == spec_v3(0, FX_SCALE as int, 0),
{
    Vec3 { x: Fx::zero(), y: Fx::one(), z: Fx::zero() }
}

/// The unit vector along the z axis.
pub fn z_axis() -> (r: Vec3)
    ensures
        r == spec_v3(0, 0, FX_SCALE as int),
{
    Vec3 { x: Fx::zero(), y: Fx::zero(), z: Fx::one() }
}

} // verus!
