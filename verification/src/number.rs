//! What the vector and matrix types ask of a component type beyond the
//! arithmetic operators: its zero, its one, and (where it has one) its
//! square root.

use crate::fixed::Fixed;
use crate::fixed::SCALE;
use vstd::prelude::*;
use vstd::std_specs::ops::AddSpec;
use vstd::std_specs::ops::MulSpec;

verus! {

/// A component type with a zero and a one.
pub trait Numeric: Copy {
    /// The additive identity.
    spec fn zero_spec() -> Self;

    /// The multiplicative identity.
    spec fn one_spec() -> Self;

    /// The additive identity.
    fn zero() -> (r: Self)
        ensures
            r == Self::zero_spec(),
    ;

    /// The multiplicative identity.
    fn one() -> (r: Self)
        ensures
            r == Self::one_spec(),
    ;

    /// Whether `self` is the additive identity.
    fn is_zero(&self) -> (r: bool)
        ensures
            r == (*self == Self::zero_spec()),
    ;

    /// Whether `self` is the multiplicative identity.
    fn is_one(&self) -> (r: bool)
        ensures
            r == (*self == Self::one_spec()),
    ;
}

/// A component type with a square root.
pub trait Root: Copy {
    /// Whether `self` has a square root.
    spec fn sqrt_req(self) -> bool;

    /// The square root of `self`.
    spec fn root_spec(self) -> Self;

    /// The square root of `self`.
    fn root(self) -> (r: Self)
        requires
            self.sqrt_req(),
        ensures
            r == self.root_spec(),
    ;
}

/// Whether `a * b + c * d` can be computed: neither product nor the sum
/// leaves the type.
pub open spec fn mul_add_req<T: Copy + core::ops::Add<Output = T> + core::ops::Mul<Output = T>>(
    a: T,
    b: T,
    c: T,
    d: T,
) -> bool {
    &&& a.mul_req(b)
    &&& c.mul_req(d)
    &&& a.mul_spec(b).add_req(c.mul_spec(d))
}

/// The sum of two products, `a * b + c * d`.
pub open spec fn mul_add_spec<T: Copy + core::ops::Add<Output = T> + core::ops::Mul<Output = T>>(
    a: T,
    b: T,
    c: T,
    d: T,
) -> T {
    a.mul_spec(b).add_spec(c.mul_spec(d))
}

/// The sum of two products, `a * b + c * d`.
pub fn mul_add<T: Copy + core::ops::Add<Output = T> + core::ops::Mul<Output = T>>(
    a: T,
    b: T,
    c: T,
    d: T,
) -> (r: T)
    requires
        T::obeys_add_spec(),
        T::obeys_mul_spec(),
        mul_add_req(a, b, c, d),
    ensures
        r == mul_add_spec(a, b, c, d),
{
    a * b + c * d
}

/// Whether `a * b + c * d + e` can be computed: no product and no sum in
/// it leaves the type.
pub open spec fn mul_add_plus_req<
    T: Copy + core::ops::Add<Output = T> + core::ops::Mul<Output = T>,
>(a: T, b: T, c: T, d: T, e: T) -> bool {
    &&& mul_add_req(a, b, c, d)
    &&& mul_add_spec(a, b, c, d).add_req(e)
}

/// The sum of two products and one more term, `a * b + c * d + e`.
pub open spec fn mul_add_plus_spec<
    T: Copy + core::ops::Add<Output = T> + core::ops::Mul<Output = T>,
>(a: T, b: T, c: T, d: T, e: T) -> T {
    mul_add_spec(a, b, c, d).add_spec(e)
}

/// The sum of two products and one more term, `a * b + c * d + e`.
pub fn mul_add_plus<T: Copy + core::ops::Add<Output = T> + core::ops::Mul<Output = T>>(
    a: T,
    b: T,
    c: T,
    d: T,
    e: T,
) -> (r: T)
    requires
        T::obeys_add_spec(),
        T::obeys_mul_spec(),
        mul_add_plus_req(a, b, c, d, e),
    ensures
        r == mul_add_plus_spec(a, b, c, d, e),
{
    a * b + c * d + e
}

impl Numeric for Fixed {
    open spec fn zero_spec() -> Fixed {
        Fixed { raw: 0 }
    }

    open spec fn one_spec() -> Fixed {
        Fixed { raw: SCALE }
    }

    fn zero() -> (r: Fixed) {
        Fixed { raw: 0 }
    }

    fn one() -> (r: Fixed) {
        Fixed { raw: SCALE }
    }

    fn is_zero(&self) -> (r: bool) {
        self.raw == 0
    }

    fn is_one(&self) -> (r: bool) {
        self.raw == SCALE
    }
}

impl Root for Fixed {
    open spec fn sqrt_req(self) -> bool {
        self.raw >= 0
    }

    open spec fn root_spec(self) -> Fixed {
        self.sqrt_spec()
    }

    fn root(self) -> (r: Fixed) {
        self.sqrt()
    }
}

impl Numeric for i8 {
    open spec fn zero_spec() -> i8 {
        0
    }

    open spec fn one_spec() -> i8 {
        1
    }

    fn zero() -> (r: i8) {
        0
    }

    fn one() -> (r: i8) {
        1
    }

    fn is_zero(&self) -> (r: bool) {
        *self == 0
    }

    fn is_one(&self) -> (r: bool) {
        *self == 1
    }
}

impl Numeric for u8 {
    open spec fn zero_spec() -> u8 {
        0
    }

    open spec fn one_spec() -> u8 {
        1
    }

    fn zero() -> (r: u8) {
        0
    }

    fn one() -> (r: u8) {
        1
    }

    fn is_zero(&self) -> (r: bool) {
        *self == 0
    }

    fn is_one(&self) -> (r: bool) {
        *self == 1
    }
}

impl Numeric for i16 {
    open spec fn zero_spec() -> i16 {
        0
    }

    open spec fn one_spec() -> i16 {
        1
    }

    fn zero() -> (r: i16) {
        0
    }

    fn one() -> (r: i16) {
        1
    }

    fn is_zero(&self) -> (r: bool) {
        *self == 0
    }

    fn is_one(&self) -> (r: bool) {
        *self == 1
    }
}

impl Numeric for u16 {
    open spec fn zero_spec() -> u16 {
        0
    }

    open spec fn one_spec() -> u16 {
        1
    }

    fn zero() -> (r: u16) {
        0
    }

    fn one() -> (r: u16) {
        1
    }

    fn is_zero(&self) -> (r: bool) {
        *self == 0
    }

    fn is_one(&self) -> (r: bool) {
        *self == 1
    }
}

impl Numeric for i32 {
    open spec fn zero_spec() -> i32 {
        0
    }

    open spec fn one_spec() -> i32 {
        1
    }

    fn zero() -> (r: i32) {
        0
    }

    fn one() -> (r: i32) {
        1
    }

    fn is_zero(&self) -> (r: bool) {
        *self == 0
    }

    fn is_one(&self) -> (r: bool) {
        *self == 1
    }
}

impl Numeric for u32 {
    open spec fn zero_spec() -> u32 {
        0
    }

    open spec fn one_spec() -> u32 {
        1
    }

    fn zero() -> (r: u32) {
        0
    }

    fn one() -> (r: u32) {
        1
    }

    fn is_zero(&self) -> (r: bool) {
        *self == 0
    }

    fn is_one(&self) -> (r: bool) {
        *self == 1
    }
}

impl Numeric for i64 {
    open spec fn zero_spec() -> i64 {
        0
    }

    open spec fn one_spec() -> i64 {
        1
    }

    fn zero() -> (r: i64) {
        0
    }

    fn one() -> (r: i64) {
        1
    }

    fn is_zero(&self) -> (r: bool) {
        *self == 0
    }

    fn is_one(&self) -> (r: bool) {
        *self == 1
    }
}

impl Numeric for u64 {
    open spec fn zero_spec() -> u64 {
        0
    }

    open spec fn one_spec() -> u64 {
        1
    }

    fn zero() -> (r: u64) {
        0
    }

    fn one() -> (r: u64) {
        1
    }

    fn is_zero(&self) -> (r: bool) {
        *self == 0
    }

    fn is_one(&self) -> (r: bool) {
        *self == 1
    }
}

} // verus!
