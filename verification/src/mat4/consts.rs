//! Named four by four matrices.

use crate::mat4::Mat4;
use crate::number::Numeric;
use crate::vec4::TVec4;
use vstd::prelude::*;

verus! {

/// The matrix of zeros.
pub fn null<T: Numeric>() -> (m: Mat4<T>)
    ensures
        forall|i: int| 0 <= i < 16 ==> #[trigger] m@[i] == T::zero_spec(),
{
    let row = TVec4::same(T::zero());
    Mat4 { r0: row, r1: row, r2: row, r3: row }
}

/// The matrix with ones on its diagonal and zeros elsewhere.
pub fn identity<T: Numeric>() -> (m: Mat4<T>)
    ensures
        forall|r: int, c: int|
            0 <= r < 4 && 0 <= c < 4 ==> #[trigger] m@[4 * r + c] == if r == c {
                T::one_spec()
            } else {
                T::zero_spec()
            },
{
    let m = Mat4 {
        r0: TVec4::new(T::one(), T::zero(), T::zero(), T::zero()),
        r1: TVec4::new(T::zero(), T::one(), T::zero(), T::zero()),
        r2: TVec4::new(T::zero(), T::zero(), T::one(), T::zero()),
        r3: TVec4::new(T::zero(), T::zero(), T::zero(), T::one()),
    };
    assert forall|r: int, c: int| 0 <= r < 4 && 0 <= c < 4 implies #[trigger] m@[4 * r + c] == if r
        == c {
        T::one_spec()
    } else {
        T::zero_spec()
    } by {
        assert(0 <= 4 * r + c < 16);
    }
    m
}

} // verus!
