//! Three component vector.

use crate::number::Numeric;
use crate::number::Root;
use crate::sequence::collect_prefix;
use crate::sequence::get_or;
use crate::sequence::item_or;
use vstd::prelude::*;
use vstd::std_specs::iter::IteratorSpec;
use vstd::std_specs::ops::AddSpec;
use vstd::std_specs::ops::MulSpec;

pub mod consts;

verus! {

/// Three component vector.
#[derive(Copy, Clone, Debug, Eq, PartialEq)]
pub struct TVec3<T> {
    pub x: T,
    pub y: T,
    pub z: T,
}

impl<T: Copy> TVec3<T> {
    /// The vector of the given components.
    pub fn new(x: T, y: T, z: T) -> (v: Self)
        ensures
            v.x == x,
            v.y == y,
            v.z == z,
    {
        TVec3 { x, y, z }
    }

    /// The vector with every component equal to `t`.
    pub fn same(t: T) -> (v: Self)
        ensures
            v.x == t,
            v.y == t,
            v.z == t,
    {
        Self::new(t, t, t)
    }

    /// The components in order.
    pub open spec fn view(self) -> Seq<T> {
        seq![self.x, self.y, self.z]
    }

    /// The components in order, as an array.
    pub fn to_array(&self) -> (a: [T; 3])
        ensures
            a@ == self@,
    {
        let a = [self.x, self.y, self.z];
        assert(a@ =~= self@);
        a
    }

    /// The vector whose components are the first items of `s`, in order; a
    /// component for which `s` has no item is `zero`.
    pub open spec fn from_seq(s: Seq<T>, zero: T) -> Self {
        TVec3 { x: item_or(s, 0, zero), y: item_or(s, 1, zero), z: item_or(s, 2, zero) }
    }
}

impl<T: Numeric> TVec3<T> {
    /// The vector whose components are the first items of `s`, in order; a
    /// component for which `s` has no item is zero.
    pub fn from_slice(s: &[T]) -> (v: Self)
        ensures
            v == Self::from_seq(s@, T::zero_spec()),
    {
        let zero = T::zero();
        TVec3 { x: get_or(s, 0, zero), y: get_or(s, 1, zero), z: get_or(s, 2, zero) }
    }

    /// The vector whose components are the first items that `iter` gives,
    /// in order; a component for which it has no item is zero.
    pub fn from_iter<I: Iterator<Item = T>>(iter: I) -> (v: Self)
        ensures
            iter.obeys_prophetic_iter_laws() ==> v == Self::from_seq(
                iter.remaining(),
                T::zero_spec(),
            ),
    {
        let items = collect_prefix(iter, 3);
        Self::from_slice(items.as_slice())
    }
}

impl<T: Numeric> From<[T; 3]> for TVec3<T> {
    fn from(a: [T; 3]) -> (v: Self) {
        Self::from_slice(a.as_slice())
    }
}

impl<T: Numeric> vstd::std_specs::convert::FromSpecImpl<[T; 3]> for TVec3<T> {
    open spec fn obeys_from_spec() -> bool {
        true
    }

    open spec fn from_spec(a: [T; 3]) -> Self {
        Self::from_seq(a@, T::zero_spec())
    }
}

impl<T: Copy + core::ops::Add<Output = T> + core::ops::Mul<Output = T>> TVec3<T> {
    /// Whether the sum of the squares can be computed: no product and no
    /// sum in it leaves the component type.
    pub open spec fn length_squared_req(self) -> bool {
        &&& self.x.mul_req(self.x)
        &&& self.y.mul_req(self.y)
        &&& self.z.mul_req(self.z)
        &&& self.x.mul_spec(self.x).add_req(self.y.mul_spec(self.y))
        &&& self.x.mul_spec(self.x).add_spec(self.y.mul_spec(self.y)).add_req(self.z.mul_spec(self.z))
    }

    /// The sum of the squares of the components, added up in order.
    pub open spec fn length_squared_spec(self) -> T {
        self.x.mul_spec(self.x).add_spec(self.y.mul_spec(self.y)).add_spec(self.z.mul_spec(self.z))
    }

    /// The sum of the squares of the components.
    pub fn length_squared(&self) -> (r: T)
        requires
            T::obeys_add_spec(),
            T::obeys_mul_spec(),
            self.length_squared_req(),
        ensures
            r == self.length_squared_spec(),
    {
        self.x * self.x + self.y * self.y + self.z * self.z
    }
}

impl<T: Root + core::ops::Add<Output = T> + core::ops::Mul<Output = T>> TVec3<T> {
    /// The square root of the sum of the squares of the components.
    pub open spec fn length_spec(self) -> T {
        self.length_squared_spec().root_spec()
    }

    /// The length of the vector.
    pub fn length(&self) -> (r: T)
        requires
            T::obeys_add_spec(),
            T::obeys_mul_spec(),
            self.length_squared_req(),
            self.length_squared_spec().sqrt_req(),
        ensures
            r == self.length_spec(),
    {
        self.length_squared().root()
    }
}

impl<T: Copy> core::ops::Index<usize> for TVec3<T> {
    type Output = T;

    fn index(&self, idx: usize) -> (r: &T)
        ensures
            *r == self@[idx as int],
    {
        if idx == 0 {
            &self.x
        } else if idx == 1 {
            &self.y
        } else {
            &self.z
        }
    }
}

impl<T: Copy> vstd::std_specs::core::IndexSpecImpl<usize> for TVec3<T> {
    open spec fn index_req(&self, idx: &usize) -> bool {
        *idx < 3
    }
}

} // verus!
