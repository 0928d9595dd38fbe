//! Affine transforms of the plane.

use crate::mat2x3::Mat2X3;
use crate::number::Numeric;
use vstd::prelude::*;

verus! {

/// The translation by `(x, y)`.
pub fn translate<T: Numeric>(x: T, y: T) -> (m: Mat2X3<T>)
    ensures
        m == (Mat2X3 { a00: T::one_spec(), a01: T::zero_spec(), a02: x, a10: T::zero_spec(), a11: T::one_spec(), a12: y }),
{
    Mat2X3::new(T::one(), T::zero(), x, T::zero(), T::one(), y)
}

/// The scaling by `s` along both axes.
pub fn uniform_scale<T: Numeric>(s: T) -> (m: Mat2X3<T>)
    ensures
        m == (Mat2X3 { a00: s, a01: T::zero_spec(), a02: T::zero_spec(), a10: T::zero_spec(), a11: s, a12: T::zero_spec() }),
{
    Mat2X3::new(s, T::zero(), T::zero(), T::zero(), s, T::zero())
}

/// The scaling by `sx` along the first axis and `sy` along the second.
pub fn scale<T: Numeric>(sx: T, sy: T) -> (m: Mat2X3<T>)
    ensures
        m == (Mat2X3 { a00: sx, a01: T::zero_spec(), a02: T::zero_spec(), a10: T::zero_spec(), a11: sy, a12: T::zero_spec() }),
{
    Mat2X3::new(sx, T::zero(), T::zero(), T::zero(), sy, T::zero())
}

/// The shear by `s` along the first axis.
pub fn shear_x<T: Numeric>(s: T) -> (m: Mat2X3<T>)
    ensures
        m == (Mat2X3 { a00: T::one_spec(), a01: s, a02: T::zero_spec(), a10: T::zero_spec(), a11: T::one_spec(), a12: T::zero_spec() }),
{
    Mat2X3::new(T::one(), s, T::zero(), T::zero(), T::one(), T::zero())
}

/// The shear by `s` along the second axis.
pub fn shear_y<T: Numeric>(s: T) -> (m: Mat2X3<T>)
    ensures
        m == (Mat2X3 { a00: T::one_spec(), a01: T::zero_spec(), a02: T::zero_spec(), a10: s, a11: T::one_spec(), a12: T::zero_spec() }),
{
    Mat2X3::new(T::one(), T::zero(), T::zero(), s, T::one(), T::zero())
}

/// The shear by `sx` along the first axis and `sy` along the second.
pub fn shear_xy<T: Numeric>(sx: T, sy: T) -> (m: Mat2X3<T>)
    ensures
        m == (Mat2X3 { a00: T::one_spec(), a01: sx, a02: T::zero_spec(), a10: sy, a11: T::one_spec(), a12: T::zero_spec() }),
{
    Mat2X3::new(T::one(), sx, T::zero(), sy, T::one(), T::zero())
}

} // verus!
