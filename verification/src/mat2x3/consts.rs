//! Named two by three matrices.

use crate::mat2x3::Mat2X3;
use crate::number::Numeric;
use vstd::prelude::*;

verus! {

/// The matrix of zeros.
pub fn null<T: Numeric>() -> (m: Mat2X3<T>)
    ensures
        m == (Mat2X3 {
            a00: T::zero_spec(),
            a01: T::zero_spec(),
            a02: T::zero_spec(),
            a10: T::zero_spec(),
            a11: T::zero_spec(),
            a12: T::zero_spec(),
        }),
{
    Mat2X3 {
        a00: T::zero(),
        a01: T::zero(),
        a02: T::zero(),
        a10: T::zero(),
        a11: T::zero(),
        a12: T::zero(),
    }
}

/// The transform that leaves every point where it is.
pub fn identity<T: Numeric>() -> (m: Mat2X3<T>)
    ensures
        m == (Mat2X3 {
            a00: T::one_spec(),
            a01: T::zero_spec(),
            a02: T::zero_spec(),
            a10: T::zero_spec(),
            a11: T::one_spec(),
            a12: T::zero_spec(),
        }),
{
    Mat2X3 {
        a00: T::one(),
        a01: T::zero(),
        a02: T::zero(),
        a10: T::zero(),
        a11: T::one(),
        a12: T::zero(),
    }
}

} // verus!
