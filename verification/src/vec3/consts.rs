//! Named three component vectors.

use crate::number::Numeric;
use crate::vec3::TVec3;
use vstd::prelude::*;

verus! {

/// The zero vector.
pub fn null<T: Numeric>() -> (v: TVec3<T>)
    ensures
        v.x == T::zero_spec(),
        v.y == T::zero_spec(),
        v.z == T::zero_spec(),
{
    TVec3 { x: T::zero(), y: T::zero(), z: T::zero() }
}

/// The unit vector along the first axis.
pub fn unit_x<T: Numeric>() -> (v: TVec3<T>)
    ensures
        v.x == T::one_spec(),
        v.y == T::zero_spec(),
        v.z == T::zero_spec(),
{
    TVec3 { x: T::one(), y: T::zero(), z: T::zero() }
}

/// The unit vector along the second axis.
pub fn unit_y<T: Numeric>() -> (v: TVec3<T>)
    ensures
        v.x == T::zero_spec(),
        v.y == T::one_spec(),
        v.z == T::zero_spec(),
{
    TVec3 { x: T::zero(), y: T::one(), z: T::zero() }
}

/// The unit vector along the third axis.
pub fn unit_z<T: Numeric>() -> (v: TVec3<T>)
    ensures
        v.x == T::zero_spec(),
        v.y == T::zero_spec(),
        v.z == T::one_spec(),
{
    TVec3 { x: T::zero(), y: T::zero(), z: T::one() }
}

} // verus!
