//! Named four component vectors.

use crate::number::Numeric;
use crate::vec4::TVec4;
use vstd::prelude::*;

verus! {

/// The zero vector.
pub fn null<T: Numeric>() -> (v: TVec4<T>)
    ensures
        v.x == T::zero_spec(),
        v.y == T::zero_spec(),
        v.z == T::zero_spec(),
        v.w == T::zero_spec(),
{
    TVec4::new(T::zero(), T::zero(), T::zero(), T::zero())
}

} // verus!
