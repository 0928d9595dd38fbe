//! Small numeric helpers.

use crate::fixed::Fixed;
use crate::fixed::SCALE;
use vstd::layout::size_of;
use vstd::prelude::*;

verus! {

/// `x` held between zero and one.
pub fn saturate(x: Fixed) -> (r: Fixed)
    ensures
        r.raw == if x.raw < 0 {
            0
        } else if x.raw > SCALE {
            SCALE
        } else {
            x.raw
        },
{
    if x.raw < 0 {
        Fixed::from_raw(0)
    } else if x.raw > SCALE {
        Fixed::from_raw(SCALE)
    } else {
        x
    }
}

/// The larger of `minval` and `x`, or `maxval` if that is smaller still.
pub fn clamp(minval: Fixed, x: Fixed, maxval: Fixed) -> (r: Fixed)
    ensures
        r.raw == if (if minval.raw > x.raw {
            minval.raw
        } else {
            x.raw
        }) < maxval.raw {
            if minval.raw > x.raw {
                minval.raw
            } else {
                x.raw
            }
        } else {
            maxval.raw
        },
{
    let low = if minval.raw > x.raw {
        minval
    } else {
        x
    };
    if low.raw < maxval.raw {
        low
    } else {
        maxval
    }
}

/// Whether `r` is a power of two.
pub open spec fn is_power_of_two(r: u32) -> bool {
    r != 0 && r & ((r - 1) as u32) == 0
}

proof fn lemma_smear(x: u32)
    by (bit_vector)
    requires
        0 < x <= 0x8000_0000,
    ensures
        ({
            let a = (x - 1) as u32;
            let b = a | (a >> 1);
            let c = b | (b >> 2);
            let d = c | (c >> 4);
            let e = d | (d >> 8);
            let f = e | (e >> 16);
            let r = (f + 1) as u32;
            &&& f < 0xffff_ffff
            &&& is_power_of_two(r)
            &&& x <= r
            &&& r / 2 < x
        }),
{
}

/// The smallest power of two that is not less than `x`; zero for zero.
pub fn roundup_next_power_of_two(x: u32) -> (r: u32)
    requires
        x <= 0x8000_0000,
    ensures
        x == 0 ==> r == 0,
        x != 0 ==> is_power_of_two(r) && x <= r && r / 2 < x,
{
    if x == 0 {
        x
    } else {
        proof {
            lemma_smear(x);
        }
        let a: u32 = x - 1;
        let b: u32 = a | (a >> 1);
        let c: u32 = b | (b >> 2);
        let d: u32 = c | (c >> 4);
        let e: u32 = d | (d >> 8);
        let f: u32 = e | (e >> 16);
        f + 1
    }
}

/// The next multiple of `target` above `x`; a multiple of `target` is
/// rounded up to the one after it.
pub fn roundup_multiple_of(x: u32, target: u32) -> (r: u32)
    requires
        target > 0,
        (x / target + 1) * target <= u32::MAX,
    ensures
        r == (x / target + 1) * target,
        r % target == 0,
        x < r <= x + target,
{
    let q: u32 = x / target;
    assert(q + 1 <= u32::MAX) by (nonlinear_arith)
        requires
            target > 0,
            (q + 1) * target <= u32::MAX,
    ;
    assert(((q + 1) * target) % (target as int) == 0 && x < (q + 1) * target <= x + target)
        by (nonlinear_arith)
        requires
            target > 0,
            q == x / target,
    ;
    (q + 1) * target
}

/// Number of bytes that the items of `s` take.
pub fn size_of_slice<T>(s: &[T]) -> (r: usize)
    requires
        size_of::<T>() * s@.len() <= usize::MAX,
    ensures
        r == size_of::<T>() * s@.len(),
{
    core::mem::size_of::<T>() * s.len()
}

} // verus!
