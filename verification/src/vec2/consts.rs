//! Named two component vectors.

use crate::number::Numeric;
use crate::vec2::TVec2;
use vstd::prelude::*;

verus! {

/// The zero vector.
pub fn null<T: Numeric>() -> (v: TVec2<T>)
    ensures
        v.x == T::zero_spec(),
        v.y == T::zero_spec(),
{
    TVec2::same(T::zero())
}

/// The unit vector along the first axis.
pub fn unit_x<T: Numeric>() -> (v: TVec2<T>)
    ensures
        v.x == T::one_spec(),
        v.y == T::zero_spec(),
{
    TVec2 { x: T::one(), y: T::zero() }
}

/// The unit vector along the second axis.
pub fn unit_y<T: Numeric>() -> (v: TVec2<T>)
    ensures
        v.x == T::zero_spec(),
        v.y == T::one_spec(),
{
    TVec2 { x: T::zero(), y: T::one() }
}

} // verus!
