//! Two by three matrix: an affine transform of the plane, stored in row
//! major ordering.

use crate::number::mul_add;
use crate::number::mul_add_plus;
use crate::number::mul_add_plus_req;
use crate::number::mul_add_plus_spec;
use crate::number::mul_add_req;
use crate::number::mul_add_spec;
use crate::number::Numeric;
use crate::sequence::collect_prefix;
use crate::sequence::get_or;
use crate::sequence::item_or;
use crate::vec2::TVec2;
use crate::vec3::TVec3;
use vstd::prelude::*;
use vstd::std_specs::iter::IteratorSpec;
use vstd::std_specs::ops::AddSpec;
use vstd::std_specs::ops::DivSpec;
use vstd::std_specs::ops::MulSpec;
use vstd::std_specs::ops::SubSpec;

pub mod consts;
pub mod transforms;

verus! {

/// Two by three matrix; the third column is the translation.
#[derive(Copy, Clone, Debug, PartialEq, Eq)]
pub struct Mat2X3<T: Copy> {
    pub a00: T,
    pub a01: T,
    pub a02: T,
    pub a10: T,
    pub a11: T,
    pub a12: T,
}

pub type Mat2X3I32 = Mat2X3<i32>;

pub type Mat2X3U32 = Mat2X3<u32>;

pub type Mat2X3I64 = Mat2X3<i64>;

impl<T: Copy> Mat2X3<T> {
    /// The matrix of the given elements, row by row.
    pub fn new(a00: T, a01: T, a02: T, a10: T, a11: T, a12: T) -> (m: Self)
        ensures
            m == (Mat2X3 { a00, a01, a02, a10, a11, a12 }),
    {
        Mat2X3 { a00, a01, a02, a10, a11, a12 }
    }

    /// The elements, row by row.
    pub open spec fn view(self) -> Seq<T> {
        seq![self.a00, self.a01, self.a02, self.a10, self.a11, self.a12]
    }

    /// The elements, row by row, as an array.
    pub fn to_array(&self) -> (a: [T; 6])
        ensures
            a@ == self@,
    {
        let a = [self.a00, self.a01, self.a02, self.a10, self.a11, self.a12];
        assert(a@ =~= self@);
        a
    }

    /// The row at `idx`.
    pub fn row(&self, idx: usize) -> (r: TVec3<T>)
        requires
            idx < 2,
        ensures
            r@ == self@.subrange(3 * idx, 3 * idx + 3),
    {
        let r = if idx == 0 {
            TVec3 { x: self.a00, y: self.a01, z: self.a02 }
        } else {
            TVec3 { x: self.a10, y: self.a11, z: self.a12 }
        };
        assert(r@ =~= self@.subrange(3 * idx, 3 * idx + 3));
        r
    }

    /// The matrix whose elements are the first items of `s`, row by row; an
    /// element for which `s` has no item is `zero`.
    pub open spec fn from_seq(s: Seq<T>, zero: T) -> Self {
        Mat2X3 { a00: item_or(s, 0, zero), a01: item_or(s, 1, zero), a02: item_or(s, 2, zero), a10: item_or(s, 3, zero), a11: item_or(s, 4, zero), a12: item_or(s, 5, zero) }
    }
}

impl<T: Numeric> Mat2X3<T> {
    /// The matrix whose elements are the first items of `s`, row by row; an
    /// element for which `s` has no item is zero.
    pub fn from_slice(s: &[T]) -> (m: Self)
        ensures
            m == Self::from_seq(s@, T::zero_spec()),
    {
        let zero = T::zero();
        Mat2X3 { a00: get_or(s, 0, zero), a01: get_or(s, 1, zero), a02: get_or(s, 2, zero), a10: get_or(s, 3, zero), a11: get_or(s, 4, zero), a12: get_or(s, 5, zero) }
    }

    /// The matrix whose elements are the first items that `iter` gives, row
    /// by row; an element for which it has no item is zero.
    pub fn from_iter<I: Iterator<Item = T>>(iter: I) -> (m: Self)
        ensures
            iter.obeys_prophetic_iter_laws() ==> m == Self::from_seq(
                iter.remaining(),
                T::zero_spec(),
            ),
    {
        let items = collect_prefix(iter, 6);
        Self::from_slice(items.as_slice())
    }
}

impl<T: Numeric> From<[T; 6]> for Mat2X3<T> {
    fn from(a: [T; 6]) -> (m: Self) {
        Self::from_slice(a.as_slice())
    }
}

impl<T: Numeric> vstd::std_specs::convert::FromSpecImpl<[T; 6]> for Mat2X3<T> {
    open spec fn obeys_from_spec() -> bool {
        true
    }

    open spec fn from_spec(a: [T; 6]) -> Self {
        Self::from_seq(a@, T::zero_spec())
    }
}

/// Element-wise addition.
impl<T: Copy + core::ops::Add<Output = T>> core::ops::Add for Mat2X3<T> {
    type Output = Self;

    fn add(self, rhs: Self) -> (r: Self) {
        Mat2X3 { a00: self.a00 + rhs.a00, a01: self.a01 + rhs.a01, a02: self.a02 + rhs.a02, a10: self.a10 + rhs.a10, a11: self.a11 + rhs.a11, a12: self.a12 + rhs.a12 }
    }
}

impl<T: Copy + core::ops::Add<Output = T>> vstd::std_specs::ops::AddSpecImpl for Mat2X3<T> {
    open spec fn obeys_add_spec() -> bool {
        T::obeys_add_spec()
    }

    open spec fn add_req(self, rhs: Self) -> bool {
        self.a00.add_req(rhs.a00) && self.a01.add_req(rhs.a01) && self.a02.add_req(rhs.a02) && self.a10.add_req(rhs.a10) && self.a11.add_req(rhs.a11) && self.a12.add_req(rhs.a12)
    }

    open spec fn add_spec(self, rhs: Self) -> Self {
        Mat2X3 { a00: self.a00.add_spec(rhs.a00), a01: self.a01.add_spec(rhs.a01), a02: self.a02.add_spec(rhs.a02), a10: self.a10.add_spec(rhs.a10), a11: self.a11.add_spec(rhs.a11), a12: self.a12.add_spec(rhs.a12) }
    }
}

/// Element-wise subtraction.
impl<T: Copy + core::ops::Sub<Output = T>> core::ops::Sub for Mat2X3<T> {
    type Output = Self;

    fn sub(self, rhs: Self) -> (r: Self) {
        Mat2X3 { a00: self.a00 - rhs.a00, a01: self.a01 - rhs.a01, a02: self.a02 - rhs.a02, a10: self.a10 - rhs.a10, a11: self.a11 - rhs.a11, a12: self.a12 - rhs.a12 }
    }
}

impl<T: Copy + core::ops::Sub<Output = T>> vstd::std_specs::ops::SubSpecImpl for Mat2X3<T> {
    open spec fn obeys_sub_spec() -> bool {
        T::obeys_sub_spec()
    }

    open spec fn sub_req(self, rhs: Self) -> bool {
        self.a00.sub_req(rhs.a00) && self.a01.sub_req(rhs.a01) && self.a02.sub_req(rhs.a02) && self.a10.sub_req(rhs.a10) && self.a11.sub_req(rhs.a11) && self.a12.sub_req(rhs.a12)
    }

    open spec fn sub_spec(self, rhs: Self) -> Self {
        Mat2X3 { a00: self.a00.sub_spec(rhs.a00), a01: self.a01.sub_spec(rhs.a01), a02: self.a02.sub_spec(rhs.a02), a10: self.a10.sub_spec(rhs.a10), a11: self.a11.sub_spec(rhs.a11), a12: self.a12.sub_spec(rhs.a12) }
    }
}

/// Multiplication with scalar.
impl<T: Copy + core::ops::Mul<Output = T>> core::ops::Mul<T> for Mat2X3<T> {
    type Output = Self;

    fn mul(self, scalar: T) -> (r: Self) {
        Mat2X3 { a00: self.a00 * scalar, a01: self.a01 * scalar, a02: self.a02 * scalar, a10: self.a10 * scalar, a11: self.a11 * scalar, a12: self.a12 * scalar }
    }
}

impl<T: Copy + core::ops::Mul<Output = T>> vstd::std_specs::ops::MulSpecImpl<T> for Mat2X3<T> {
    open spec fn obeys_mul_spec() -> bool {
        T::obeys_mul_spec()
    }

    open spec fn mul_req(self, scalar: T) -> bool {
        self.a00.mul_req(scalar) && self.a01.mul_req(scalar) && self.a02.mul_req(scalar) && self.a10.mul_req(scalar) && self.a11.mul_req(scalar) && self.a12.mul_req(scalar)
    }

    open spec fn mul_spec(self, scalar: T) -> Self {
        Mat2X3 { a00: self.a00.mul_spec(scalar), a01: self.a01.mul_spec(scalar), a02: self.a02.mul_spec(scalar), a10: self.a10.mul_spec(scalar), a11: self.a11.mul_spec(scalar), a12: self.a12.mul_spec(scalar) }
    }
}

/// Division by scalar.
impl<T: Copy + core::ops::Div<Output = T>> core::ops::Div<T> for Mat2X3<T> {
    type Output = Self;

    fn div(self, scalar: T) -> (r: Self) {
        Mat2X3 { a00: self.a00 / scalar, a01: self.a01 / scalar, a02: self.a02 / scalar, a10: self.a10 / scalar, a11: self.a11 / scalar, a12: self.a12 / scalar }
    }
}

impl<T: Copy + core::ops::Div<Output = T>> vstd::std_specs::ops::DivSpecImpl<T> for Mat2X3<T> {
    open spec fn obeys_div_spec() -> bool {
        T::obeys_div_spec()
    }

    open spec fn div_req(self, scalar: T) -> bool {
        self.a00.div_req(scalar) && self.a01.div_req(scalar) && self.a02.div_req(scalar) && self.a10.div_req(scalar) && self.a11.div_req(scalar) && self.a12.div_req(scalar)
    }

    open spec fn div_spec(self, scalar: T) -> Self {
        Mat2X3 { a00: self.a00.div_spec(scalar), a01: self.a01.div_spec(scalar), a02: self.a02.div_spec(scalar), a10: self.a10.div_spec(scalar), a11: self.a11.div_spec(scalar), a12: self.a12.div_spec(scalar) }
    }
}

/// Composition of affine transforms: the product applies `rhs` first.
impl<T: Copy + core::ops::Add<Output = T> + core::ops::Mul<Output = T>> core::ops::Mul for Mat2X3<T> {
    type Output = Self;

    fn mul(self, rhs: Self) -> (r: Self) {
        Mat2X3 {
            a00: mul_add(self.a00, rhs.a00, self.a01, rhs.a10),
            a01: mul_add(self.a00, rhs.a01, self.a01, rhs.a11),
            a02: mul_add_plus(self.a00, rhs.a02, self.a01, rhs.a12, self.a02),
            a10: mul_add(self.a10, rhs.a00, self.a11, rhs.a10),
            a11: mul_add(self.a10, rhs.a01, self.a11, rhs.a11),
            a12: mul_add_plus(self.a10, rhs.a02, self.a11, rhs.a12, self.a12),
        }
    }
}

impl<T: Copy + core::ops::Add<Output = T> + core::ops::Mul<Output = T>> vstd::std_specs::ops::MulSpecImpl for Mat2X3<T> {
    open spec fn obeys_mul_spec() -> bool {
        T::obeys_add_spec() && T::obeys_mul_spec()
    }

    open spec fn mul_req(self, rhs: Self) -> bool {
        &&& T::obeys_add_spec()
        &&& T::obeys_mul_spec()
        &&& mul_add_req(self.a00, rhs.a00, self.a01, rhs.a10)
        &&& mul_add_req(self.a00, rhs.a01, self.a01, rhs.a11)
        &&& mul_add_plus_req(self.a00, rhs.a02, self.a01, rhs.a12, self.a02)
        &&& mul_add_req(self.a10, rhs.a00, self.a11, rhs.a10)
        &&& mul_add_req(self.a10, rhs.a01, self.a11, rhs.a11)
        &&& mul_add_plus_req(self.a10, rhs.a02, self.a11, rhs.a12, self.a12)
    }

    open spec fn mul_spec(self, rhs: Self) -> Self {
        Mat2X3 {
            a00: mul_add_spec(self.a00, rhs.a00, self.a01, rhs.a10),
            a01: mul_add_spec(self.a00, rhs.a01, self.a01, rhs.a11),
            a02: mul_add_plus_spec(self.a00, rhs.a02, self.a01, rhs.a12, self.a02),
            a10: mul_add_spec(self.a10, rhs.a00, self.a11, rhs.a10),
            a11: mul_add_spec(self.a10, rhs.a01, self.a11, rhs.a11),
            a12: mul_add_plus_spec(self.a10, rhs.a02, self.a11, rhs.a12, self.a12),
        }
    }
}

/// Whether the transform can be applied to the point: no product and no sum
/// in it leaves the component type.
pub open spec fn mul_point_req<T: Copy + core::ops::Add<Output = T> + core::ops::Mul<Output = T>>(m: Mat2X3<T>, p: TVec2<T>) -> bool {
    &&& mul_add_plus_req(m.a00, p.x, m.a01, p.y, m.a02)
    &&& mul_add_plus_req(m.a10, p.x, m.a11, p.y, m.a12)
}

/// The point `p` after the transform: turned and scaled, then moved.
pub open spec fn mul_point_spec<T: Copy + core::ops::Add<Output = T> + core::ops::Mul<Output = T>>(m: Mat2X3<T>, p: TVec2<T>) -> TVec2<T> {
    TVec2 {
        x: mul_add_plus_spec(m.a00, p.x, m.a01, p.y, m.a02),
        y: mul_add_plus_spec(m.a10, p.x, m.a11, p.y, m.a12),
    }
}

/// Apply affine transformation to a point.
pub fn mul_point<T: Copy + core::ops::Add<Output = T> + core::ops::Mul<Output = T>>(m: &Mat2X3<T>, p: TVec2<T>) -> (r: TVec2<T>)
    requires
        T::obeys_add_spec(),
        T::obeys_mul_spec(),
        mul_point_req(*m, p),
    ensures
        r == mul_point_spec(*m, p),
{
    TVec2 {
        x: mul_add_plus(m.a00, p.x, m.a01, p.y, m.a02),
        y: mul_add_plus(m.a10, p.x, m.a11, p.y, m.a12),
    }
}

/// Whether the transform can be applied to the vector: no product and no sum
/// in it leaves the component type.
pub open spec fn mul_vec_req<T: Copy + core::ops::Add<Output = T> + core::ops::Mul<Output = T>>(m: Mat2X3<T>, p: TVec2<T>) -> bool {
    &&& mul_add_req(m.a00, p.x, m.a01, p.y)
    &&& mul_add_req(m.a10, p.x, m.a11, p.y)
}

/// The vector `p` after the transform: turned and scaled, not moved.
pub open spec fn mul_vec_spec<T: Copy + core::ops::Add<Output = T> + core::ops::Mul<Output = T>>(m: Mat2X3<T>, p: TVec2<T>) -> TVec2<T> {
    TVec2 { x: mul_add_spec(m.a00, p.x, m.a01, p.y), y: mul_add_spec(m.a10, p.x, m.a11, p.y) }
}

/// Apply transformation to a vector: the translation is left out.
pub fn mul_vec<T: Copy + core::ops::Add<Output = T> + core::ops::Mul<Output = T>>(m: &Mat2X3<T>, p: TVec2<T>) -> (r: TVec2<T>)
    requires
        T::obeys_add_spec(),
        T::obeys_mul_spec(),
        mul_vec_req(*m, p),
    ensures
        r == mul_vec_spec(*m, p),
{
    TVec2 { x: mul_add(m.a00, p.x, m.a01, p.y), y: mul_add(m.a10, p.x, m.a11, p.y) }
}

} // verus!
