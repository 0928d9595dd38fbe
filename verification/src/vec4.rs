//! Four component vector.

use crate::fixed::Fixed;
use crate::number::Numeric;
use crate::number::Root;
use crate::sequence::collect_prefix;
use crate::sequence::get_or;
use crate::sequence::item_or;
use crate::vec3::TVec3;
use vstd::prelude::*;
use vstd::std_specs::iter::IteratorSpec;
use vstd::std_specs::ops::AddSpec;
use vstd::std_specs::ops::MulSpec;
use vstd::std_specs::ops::NegSpec;
use vstd::std_specs::ops::SubSpec;

pub mod consts;

verus! {

/// Four component vector.
#[derive(Copy, Clone, Debug, Eq, PartialEq)]
pub struct TVec4<T> {
    pub x: T,
    pub y: T,
    pub z: T,
    pub w: T,
}

pub type Vec4I8 = TVec4<i8>;

pub type Vec4U8 = TVec4<u8>;

pub type Vec4I16 = TVec4<i16>;

pub type Vec4U16 = TVec4<u16>;

pub type Vec4I32 = TVec4<i32>;

pub type Vec4U32 = TVec4<u32>;

pub type Vec4Fixed = TVec4<Fixed>;

impl<T: Copy> TVec4<T> {
    /// The vector of the given components.
    pub fn new(x: T, y: T, z: T, w: T) -> (v: Self)
        ensures
            v.x == x,
            v.y == y,
            v.z == z,
            v.w == w,
    {
        TVec4 { x, y, z, w }
    }

    /// The vector `v` with `w` as its fourth component.
    pub fn from_vec3(v: &TVec3<T>, w: T) -> (r: Self)
        ensures
            r.x == v.x,
            r.y == v.y,
            r.z == v.z,
            r.w == w,
    {
        Self::new(v.x, v.y, v.z, w)
    }

    /// The vector with every component equal to `t`.
    pub fn same(t: T) -> (v: Self)
        ensures
            v.x == t,
            v.y == t,
            v.z == t,
            v.w == t,
    {
        Self::new(t, t, t, t)
    }

    /// The components in order.
    pub open spec fn view(self) -> Seq<T> {
        seq![self.x, self.y, self.z, self.w]
    }

    /// The components in order, as an array.
    pub fn to_array(&self) -> (a: [T; 4])
        ensures
            a@ == self@,
    {
        let a = [self.x, self.y, self.z, self.w];
        assert(a@ =~= self@);
        a
    }

    /// The vector whose components are the first items of `s`, in order; a
    /// component for which `s` has no item is `zero`.
    pub open spec fn from_seq(s: Seq<T>, zero: T) -> Self {
        TVec4 { x: item_or(s, 0, zero), y: item_or(s, 1, zero), z: item_or(s, 2, zero), w: item_or(s, 3, zero) }
    }

    /// The components in order, as a tuple.
    pub fn into_tuple(self) -> (t: (T, T, T, T))
        ensures
            t == (self.x, self.y, self.z, self.w),
    {
        (self.x, self.y, self.z, self.w)
    }
}

impl<T: Numeric> TVec4<T> {
    /// The vector whose components are the first items of `s`, in order; a
    /// component for which `s` has no item is zero.
    pub fn from_slice(s: &[T]) -> (v: Self)
        ensures
            v == Self::from_seq(s@, T::zero_spec()),
    {
        let zero = T::zero();
        TVec4 { x: get_or(s, 0, zero), y: get_or(s, 1, zero), z: get_or(s, 2, zero), w: get_or(s, 3, zero) }
    }

    /// The vector whose components are the first items that `iter` gives,
    /// in order; a component for which it has no item is zero.
    pub fn from_iter<I: Iterator<Item = T>>(iter: I) -> (v: Self)
        ensures
            iter.obeys_prophetic_iter_laws() ==> v == Self::from_seq(
                iter.remaining(),
                T::zero_spec(),
            ),
    {
        let items = collect_prefix(iter, 4);
        Self::from_slice(items.as_slice())
    }
}

impl<T: Numeric> From<[T; 4]> for TVec4<T> {
    fn from(a: [T; 4]) -> (v: Self) {
        Self::from_slice(a.as_slice())
    }
}

impl<T: Numeric> vstd::std_specs::convert::FromSpecImpl<[T; 4]> for TVec4<T> {
    open spec fn obeys_from_spec() -> bool {
        true
    }

    open spec fn from_spec(a: [T; 4]) -> Self {
        Self::from_seq(a@, T::zero_spec())
    }
}

impl<T: Copy + core::ops::Add<Output = T> + core::ops::Mul<Output = T>> TVec4<T> {
    /// Whether the sum of the squares can be computed: no product and no
    /// sum in it leaves the component type.
    pub open spec fn square_len_req(self) -> bool {
        &&& self.x.mul_req(self.x)
        &&& self.y.mul_req(self.y)
        &&& self.z.mul_req(self.z)
        &&& self.w.mul_req(self.w)
        &&& self.x.mul_spec(self.x).add_req(self.y.mul_spec(self.y))
        &&& self.x.mul_spec(self.x).add_spec(self.y.mul_spec(self.y)).add_req(self.z.mul_spec(self.z))
        &&& self.x.mul_spec(self.x).add_spec(self.y.mul_spec(self.y)).add_spec(self.z.mul_spec(self.z)).add_req(self.w.mul_spec(self.w))
    }

    /// The sum of the squares of the components, added up in order.
    pub open spec fn square_len_spec(self) -> T {
        self.x.mul_spec(self.x).add_spec(self.y.mul_spec(self.y)).add_spec(self.z.mul_spec(self.z)).add_spec(self.w.mul_spec(self.w))
    }

    /// The sum of the squares of the components.
    pub fn square_len(&self) -> (r: T)
        requires
            T::obeys_add_spec(),
            T::obeys_mul_spec(),
            self.square_len_req(),
        ensures
            r == self.square_len_spec(),
    {
        self.x * self.x + self.y * self.y + self.z * self.z + self.w * self.w
    }
}

impl<T: Root + core::ops::Add<Output = T> + core::ops::Mul<Output = T>> TVec4<T> {
    /// The square root of the sum of the squares of the components.
    pub open spec fn len_spec(self) -> T {
        self.square_len_spec().root_spec()
    }

    /// The length of the vector.
    pub fn len(&self) -> (r: T)
        requires
            T::obeys_add_spec(),
            T::obeys_mul_spec(),
            self.square_len_req(),
            self.square_len_spec().sqrt_req(),
        ensures
            r == self.len_spec(),
    {
        self.square_len().root()
    }
}

impl<T: Numeric> Default for TVec4<T> {
    fn default() -> (v: Self)
        ensures
            v.x == T::zero_spec(),
            v.y == T::zero_spec(),
            v.z == T::zero_spec(),
            v.w == T::zero_spec(),
    {
        Self::same(T::zero())
    }
}

impl<T: Copy> core::ops::Index<usize> for TVec4<T> {
    type Output = T;

    fn index(&self, idx: usize) -> (r: &T)
        ensures
            *r == self@[idx as int],
    {
        if idx == 0 {
            &self.x
        } else if idx == 1 {
            &self.y
        } else if idx == 2 {
            &self.z
        } else {
            &self.w
        }
    }
}

impl<T: Copy> vstd::std_specs::core::IndexSpecImpl<usize> for TVec4<T> {
    open spec fn index_req(&self, idx: &usize) -> bool {
        *idx < 4
    }
}

/// Negation operator.
impl<T: Copy + core::ops::Neg<Output = T>> core::ops::Neg for TVec4<T> {
    type Output = Self;

    fn neg(self) -> (r: Self) {
        TVec4 { x: self.x.neg(), y: self.y.neg(), z: self.z.neg(), w: self.w.neg() }
    }
}

impl<T: Copy + core::ops::Neg<Output = T>> vstd::std_specs::ops::NegSpecImpl for TVec4<T> {
    open spec fn obeys_neg_spec() -> bool {
        T::obeys_neg_spec()
    }

    open spec fn neg_req(self) -> bool {
        self.x.neg_req() && self.y.neg_req() && self.z.neg_req() && self.w.neg_req()
    }

    open spec fn neg_spec(self) -> Self {
        TVec4 { x: self.x.neg_spec(), y: self.y.neg_spec(), z: self.z.neg_spec(), w: self.w.neg_spec() }
    }
}

/// Addition operator.
impl<T: Copy + core::ops::Add<Output = T>> core::ops::Add for TVec4<T> {
    type Output = Self;

    fn add(self, rhs: Self) -> (r: Self) {
        TVec4 { x: self.x + rhs.x, y: self.y + rhs.y, z: self.z + rhs.z, w: self.w + rhs.w }
    }
}

impl<T: Copy + core::ops::Add<Output = T>> vstd::std_specs::ops::AddSpecImpl for TVec4<T> {
    open spec fn obeys_add_spec() -> bool {
        T::obeys_add_spec()
    }

    open spec fn add_req(self, rhs: Self) -> bool {
        self.x.add_req(rhs.x) && self.y.add_req(rhs.y) && self.z.add_req(rhs.z) && self.w.add_req(rhs.w)
    }

    open spec fn add_spec(self, rhs: Self) -> Self {
        TVec4 { x: self.x.add_spec(rhs.x), y: self.y.add_spec(rhs.y), z: self.z.add_spec(rhs.z), w: self.w.add_spec(rhs.w) }
    }
}

/// Subtraction operator.
impl<T: Copy + core::ops::Sub<Output = T>> core::ops::Sub for TVec4<T> {
    type Output = Self;

    fn sub(self, rhs: Self) -> (r: Self) {
        TVec4 { x: self.x - rhs.x, y: self.y - rhs.y, z: self.z - rhs.z, w: self.w - rhs.w }
    }
}

impl<T: Copy + core::ops::Sub<Output = T>> vstd::std_specs::ops::SubSpecImpl for TVec4<T> {
    open spec fn obeys_sub_spec() -> bool {
        T::obeys_sub_spec()
    }

    open spec fn sub_req(self, rhs: Self) -> bool {
        self.x.sub_req(rhs.x) && self.y.sub_req(rhs.y) && self.z.sub_req(rhs.z) && self.w.sub_req(rhs.w)
    }

    open spec fn sub_spec(self, rhs: Self) -> Self {
        TVec4 { x: self.x.sub_spec(rhs.x), y: self.y.sub_spec(rhs.y), z: self.z.sub_spec(rhs.z), w: self.w.sub_spec(rhs.w) }
    }
}

/// Multiplication with scalar.
impl<T: Copy + core::ops::Mul<Output = T>> core::ops::Mul<T> for TVec4<T> {
    type Output = Self;

    fn mul(self, scalar: T) -> (r: Self) {
        TVec4 { x: self.x * scalar, y: self.y * scalar, z: self.z * scalar, w: self.w * scalar }
    }
}

impl<T: Copy + core::ops::Mul<Output = T>> vstd::std_specs::ops::MulSpecImpl<T> for TVec4<T> {
    open spec fn obeys_mul_spec() -> bool {
        T::obeys_mul_spec()
    }

    open spec fn mul_req(self, scalar: T) -> bool {
        self.x.mul_req(scalar) && self.y.mul_req(scalar) && self.z.mul_req(scalar) && self.w.mul_req(scalar)
    }

    open spec fn mul_spec(self, scalar: T) -> Self {
        TVec4 { x: self.x.mul_spec(scalar), y: self.y.mul_spec(scalar), z: self.z.mul_spec(scalar), w: self.w.mul_spec(scalar) }
    }
}

/// Component-wise multiplication.
impl<T: Copy + core::ops::Mul<Output = T>> core::ops::Mul for TVec4<T> {
    type Output = Self;

    fn mul(self, rhs: Self) -> (r: Self) {
        TVec4 { x: self.x * rhs.x, y: self.y * rhs.y, z: self.z * rhs.z, w: self.w * rhs.w }
    }
}

impl<T: Copy + core::ops::Mul<Output = T>> vstd::std_specs::ops::MulSpecImpl for TVec4<T> {
    open spec fn obeys_mul_spec() -> bool {
        T::obeys_mul_spec()
    }

    open spec fn mul_req(self, rhs: Self) -> bool {
        self.x.mul_req(rhs.x) && self.y.mul_req(rhs.y) && self.z.mul_req(rhs.z) && self.w.mul_req(rhs.w)
    }

    open spec fn mul_spec(self, rhs: Self) -> Self {
        TVec4 { x: self.x.mul_spec(rhs.x), y: self.y.mul_spec(rhs.y), z: self.z.mul_spec(rhs.z), w: self.w.mul_spec(rhs.w) }
    }
}

} // verus!
