//! Two component vector.

use crate::fixed::Fixed;
use crate::number::Numeric;
use crate::number::Root;
use crate::sequence::collect_prefix;
use crate::sequence::get_or;
use crate::sequence::item_or;
use vstd::prelude::*;
use vstd::std_specs::iter::IteratorSpec;
use vstd::std_specs::ops::AddSpec;
use vstd::std_specs::ops::DivSpec;
use vstd::std_specs::ops::MulSpec;
use vstd::std_specs::ops::NegSpec;
use vstd::std_specs::ops::SubSpec;

pub mod consts;

verus! {

/// Two component vector.
#[derive(Copy, Clone, Debug, Eq, PartialEq)]
pub struct TVec2<T> {
    pub x: T,
    pub y: T,
}

pub type Vec2I8 = TVec2<i8>;

pub type Vec2U8 = TVec2<u8>;

pub type Vec2I16 = TVec2<i16>;

pub type Vec2U16 = TVec2<u16>;

pub type Vec2I32 = TVec2<i32>;

pub type Vec2U32 = TVec2<u32>;

pub type Vec2Fixed = TVec2<Fixed>;

impl<T: Copy> TVec2<T> {
    /// The vector of the given components.
    pub fn new(x: T, y: T) -> (v: Self)
        ensures
            v.x == x,
            v.y == y,
    {
        TVec2 { x, y }
    }

    /// The vector with every component equal to `t`.
    pub fn same(t: T) -> (v: Self)
        ensures
            v.x == t,
            v.y == t,
    {
        Self::new(t, t)
    }

    /// The components in order.
    pub open spec fn view(self) -> Seq<T> {
        seq![self.x, self.y]
    }

    /// The components in order, as an array.
    pub fn to_array(&self) -> (a: [T; 2])
        ensures
            a@ == self@,
    {
        let a = [self.x, self.y];
        assert(a@ =~= self@);
        a
    }

    /// The vector whose components are the first items of `s`, in order; a
    /// component for which `s` has no item is `zero`.
    pub open spec fn from_seq(s: Seq<T>, zero: T) -> Self {
        TVec2 { x: item_or(s, 0, zero), y: item_or(s, 1, zero) }
    }
}

impl<T: Numeric> TVec2<T> {
    /// The vector whose components are the first items of `s`, in order; a
    /// component for which `s` has no item is zero.
    pub fn from_slice(s: &[T]) -> (v: Self)
        ensures
            v == Self::from_seq(s@, T::zero_spec()),
    {
        let zero = T::zero();
        TVec2 { x: get_or(s, 0, zero), y: get_or(s, 1, zero) }
    }

    /// The vector whose components are the first items that `iter` gives,
    /// in order; a component for which it has no item is zero.
    pub fn from_iter<I: Iterator<Item = T>>(iter: I) -> (v: Self)
        ensures
            iter.obeys_prophetic_iter_laws() ==> v == Self::from_seq(
                iter.remaining(),
                T::zero_spec(),
            ),
    {
        let items = collect_prefix(iter, 2);
        Self::from_slice(items.as_slice())
    }
}

impl<T: Numeric> From<[T; 2]> for TVec2<T> {
    fn from(a: [T; 2]) -> (v: Self) {
        Self::from_slice(a.as_slice())
    }
}

impl<T: Numeric> vstd::std_specs::convert::FromSpecImpl<[T; 2]> for TVec2<T> {
    open spec fn obeys_from_spec() -> bool {
        true
    }

    open spec fn from_spec(a: [T; 2]) -> Self {
        Self::from_seq(a@, T::zero_spec())
    }
}

impl<T: Copy + core::ops::Add<Output = T> + core::ops::Mul<Output = T>> TVec2<T> {
    /// Whether the sum of the squares can be computed: no product and no
    /// sum in it leaves the component type.
    pub open spec fn square_len_req(self) -> bool {
        &&& self.x.mul_req(self.x)
        &&& self.y.mul_req(self.y)
        &&& self.x.mul_spec(self.x).add_req(self.y.mul_spec(self.y))
    }

    /// The sum of the squares of the components, added up in order.
    pub open spec fn square_len_spec(self) -> T {
        self.x.mul_spec(self.x).add_spec(self.y.mul_spec(self.y))
    }

    /// The sum of the squares of the components.
    pub fn square_len(&self) -> (r: T)
        requires
            T::obeys_add_spec(),
            T::obeys_mul_spec(),
            self.square_len_req(),
        ensures
            r == self.square_len_spec(),
    {
        self.x * self.x + self.y * self.y
    }
}

impl<T: Root + core::ops::Add<Output = T> + core::ops::Mul<Output = T>> TVec2<T> {
    /// The square root of the sum of the squares of the components.
    pub open spec fn len_spec(self) -> T {
        self.square_len_spec().root_spec()
    }

    /// The length of the vector.
    pub fn len(&self) -> (r: T)
        requires
            T::obeys_add_spec(),
            T::obeys_mul_spec(),
            self.square_len_req(),
            self.square_len_spec().sqrt_req(),
        ensures
            r == self.len_spec(),
    {
        self.square_len().root()
    }
}

impl<T: Numeric> Default for TVec2<T> {
    fn default() -> (v: Self)
        ensures
            v.x == T::zero_spec(),
            v.y == T::zero_spec(),
    {
        Self::same(T::zero())
    }
}

impl<T: Copy> core::ops::Index<usize> for TVec2<T> {
    type Output = T;

    fn index(&self, idx: usize) -> (r: &T)
        ensures
            *r == self@[idx as int],
    {
        if idx == 0 {
            &self.x
        } else {
            &self.y
        }
    }
}

impl<T: Copy> vstd::std_specs::core::IndexSpecImpl<usize> for TVec2<T> {
    open spec fn index_req(&self, idx: &usize) -> bool {
        *idx < 2
    }
}

/// Negation operator.
impl<T: Copy + core::ops::Neg<Output = T>> core::ops::Neg for TVec2<T> {
    type Output = Self;

    fn neg(self) -> (r: Self) {
        TVec2 { x: self.x.neg(), y: self.y.neg() }
    }
}

impl<T: Copy + core::ops::Neg<Output = T>> vstd::std_specs::ops::NegSpecImpl for TVec2<T> {
    open spec fn obeys_neg_spec() -> bool {
        T::obeys_neg_spec()
    }

    open spec fn neg_req(self) -> bool {
        self.x.neg_req() && self.y.neg_req()
    }

    open spec fn neg_spec(self) -> Self {
        TVec2 { x: self.x.neg_spec(), y: self.y.neg_spec() }
    }
}

/// Addition operator.
impl<T: Copy + core::ops::Add<Output = T>> core::ops::Add for TVec2<T> {
    type Output = Self;

    fn add(self, rhs: Self) -> (r: Self) {
        TVec2 { x: self.x + rhs.x, y: self.y + rhs.y }
    }
}

impl<T: Copy + core::ops::Add<Output = T>> vstd::std_specs::ops::AddSpecImpl for TVec2<T> {
    open spec fn obeys_add_spec() -> bool {
        T::obeys_add_spec()
    }

    open spec fn add_req(self, rhs: Self) -> bool {
        self.x.add_req(rhs.x) && self.y.add_req(rhs.y)
    }

    open spec fn add_spec(self, rhs: Self) -> Self {
        TVec2 { x: self.x.add_spec(rhs.x), y: self.y.add_spec(rhs.y) }
    }
}

/// Subtraction operator.
impl<T: Copy + core::ops::Sub<Output = T>> core::ops::Sub for TVec2<T> {
    type Output = Self;

    fn sub(self, rhs: Self) -> (r: Self) {
        TVec2 { x: self.x - rhs.x, y: self.y - rhs.y }
    }
}

impl<T: Copy + core::ops::Sub<Output = T>> vstd::std_specs::ops::SubSpecImpl for TVec2<T> {
    open spec fn obeys_sub_spec() -> bool {
        T::obeys_sub_spec()
    }

    open spec fn sub_req(self, rhs: Self) -> bool {
        self.x.sub_req(rhs.x) && self.y.sub_req(rhs.y)
    }

    open spec fn sub_spec(self, rhs: Self) -> Self {
        TVec2 { x: self.x.sub_spec(rhs.x), y: self.y.sub_spec(rhs.y) }
    }
}

/// Multiplication with scalar.
impl<T: Copy + core::ops::Mul<Output = T>> core::ops::Mul<T> for TVec2<T> {
    type Output = Self;

    fn mul(self, scalar: T) -> (r: Self) {
        TVec2 { x: self.x * scalar, y: self.y * scalar }
    }
}

impl<T: Copy + core::ops::Mul<Output = T>> vstd::std_specs::ops::MulSpecImpl<T> for TVec2<T> {
    open spec fn obeys_mul_spec() -> bool {
        T::obeys_mul_spec()
    }

    open spec fn mul_req(self, scalar: T) -> bool {
        self.x.mul_req(scalar) && self.y.mul_req(scalar)
    }

    open spec fn mul_spec(self, scalar: T) -> Self {
        TVec2 { x: self.x.mul_spec(scalar), y: self.y.mul_spec(scalar) }
    }
}

/// Component-wise multiplication.
impl<T: Copy + core::ops::Mul<Output = T>> core::ops::Mul for TVec2<T> {
    type Output = Self;

    fn mul(self, rhs: Self) -> (r: Self) {
        TVec2 { x: self.x * rhs.x, y: self.y * rhs.y }
    }
}

impl<T: Copy + core::ops::Mul<Output = T>> vstd::std_specs::ops::MulSpecImpl for TVec2<T> {
    open spec fn obeys_mul_spec() -> bool {
        T::obeys_mul_spec()
    }

    open spec fn mul_req(self, rhs: Self) -> bool {
        self.x.mul_req(rhs.x) && self.y.mul_req(rhs.y)
    }

    open spec fn mul_spec(self, rhs: Self) -> Self {
        TVec2 { x: self.x.mul_spec(rhs.x), y: self.y.mul_spec(rhs.y) }
    }
}

/// Division by scalar.
impl<T: Copy + core::ops::Div<Output = T>> core::ops::Div<T> for TVec2<T> {
    type Output = Self;

    fn div(self, scalar: T) -> (r: Self) {
        TVec2 { x: self.x / scalar, y: self.y / scalar }
    }
}

impl<T: Copy + core::ops::Div<Output = T>> vstd::std_specs::ops::DivSpecImpl<T> for TVec2<T> {
    open spec fn obeys_div_spec() -> bool {
        T::obeys_div_spec()
    }

    open spec fn div_req(self, scalar: T) -> bool {
        self.x.div_req(scalar) && self.y.div_req(scalar)
    }

    open spec fn div_spec(self, scalar: T) -> Self {
        TVec2 { x: self.x.div_spec(scalar), y: self.y.div_spec(scalar) }
    }
}

/// Component-wise division by another vector.
impl<T: Copy + core::ops::Div<Output = T>> core::ops::Div for TVec2<T> {
    type Output = Self;

    fn div(self, rhs: Self) -> (r: Self) {
        TVec2 { x: self.x / rhs.x, y: self.y / rhs.y }
    }
}

impl<T: Copy + core::ops::Div<Output = T>> vstd::std_specs::ops::DivSpecImpl for TVec2<T> {
    open spec fn obeys_div_spec() -> bool {
        T::obeys_div_spec()
    }

    open spec fn div_req(self, rhs: Self) -> bool {
        self.x.div_req(rhs.x) && self.y.div_req(rhs.y)
    }

    open spec fn div_spec(self, rhs: Self) -> Self {
        TVec2 { x: self.x.div_spec(rhs.x), y: self.y.div_spec(rhs.y) }
    }
}

/// Whether the dot product can be computed: no product and no sum in it
/// leaves the component type.
pub open spec fn dot_req<T: Copy + core::ops::Add<Output = T> + core::ops::Mul<Output = T>>(
    a: TVec2<T>,
    b: TVec2<T>,
) -> bool {
    &&& a.x.mul_req(b.x)
    &&& a.y.mul_req(b.y)
    &&& a.x.mul_spec(b.x).add_req(a.y.mul_spec(b.y))
}

/// The dot product: the sum of the products of the components.
pub open spec fn dot_spec<T: Copy + core::ops::Add<Output = T> + core::ops::Mul<Output = T>>(
    a: TVec2<T>,
    b: TVec2<T>,
) -> T {
    a.x.mul_spec(b.x).add_spec(a.y.mul_spec(b.y))
}

/// The dot product of two vectors.
pub fn dot<T: Copy + core::ops::Add<Output = T> + core::ops::Mul<Output = T>>(
    a: TVec2<T>,
    b: TVec2<T>,
) -> (r: T)
    requires
        T::obeys_add_spec(),
        T::obeys_mul_spec(),
        dot_req(a, b),
    ensures
        r == dot_spec(a, b),
{
    a.x * b.x + a.y * b.y
}

/// Whether the dot product of the two vectors is zero.
pub fn are_orthogonal<T: Numeric + core::ops::Add<Output = T> + core::ops::Mul<Output = T>>(
    a: TVec2<T>,
    b: TVec2<T>,
) -> (r: bool)
    requires
        T::obeys_add_spec(),
        T::obeys_mul_spec(),
        dot_req(a, b),
    ensures
        r == (dot_spec(a, b) == T::zero_spec()),
{
    dot(a, b).is_zero()
}

/// Whether the squared length of the vector is one.
pub fn is_unit_length<T: Numeric + core::ops::Add<Output = T> + core::ops::Mul<Output = T>>(
    a: TVec2<T>,
) -> (r: bool)
    requires
        T::obeys_add_spec(),
        T::obeys_mul_spec(),
        a.square_len_req(),
    ensures
        r == (a.square_len_spec() == T::one_spec()),
{
    a.square_len().is_one()
}

/// The vector that is perpendicular to `a` by a counterclockwise quarter
/// turn.
pub fn perp_vec<T: Copy + core::ops::Neg<Output = T>>(a: TVec2<T>) -> (r: TVec2<T>)
    requires
        T::obeys_neg_spec(),
        a.y.neg_req(),
    ensures
        r.x == a.y.neg_spec(),
        r.y == a.x,
{
    TVec2::new(a.y.neg(), a.x)
}

/// Whether the perp product can be computed: no operation in it leaves the
/// component type.
pub open spec fn perp_req<
    T: Copy + core::ops::Add<Output = T> + core::ops::Mul<Output = T> + core::ops::Neg<Output = T>,
>(a: TVec2<T>, b: TVec2<T>) -> bool {
    &&& a.x.neg_req()
    &&& a.x.neg_spec().mul_req(b.y)
    &&& a.y.mul_req(b.x)
    &&& a.x.neg_spec().mul_spec(b.y).add_req(a.y.mul_spec(b.x))
}

/// The perp product: `-a.x * b.y + a.y * b.x`.
pub open spec fn perp_spec<
    T: Copy + core::ops::Add<Output = T> + core::ops::Mul<Output = T> + core::ops::Neg<Output = T>,
>(a: TVec2<T>, b: TVec2<T>) -> T {
    a.x.neg_spec().mul_spec(b.y).add_spec(a.y.mul_spec(b.x))
}

/// The perp product of two vectors: the dot product of `a` with the
/// perpendicular of `b`.
pub fn perp<
    T: Copy + core::ops::Add<Output = T> + core::ops::Mul<Output = T> + core::ops::Neg<Output = T>,
>(a: TVec2<T>, b: TVec2<T>) -> (r: T)
    requires
        T::obeys_add_spec(),
        T::obeys_mul_spec(),
        T::obeys_neg_spec(),
        perp_req(a, b),
    ensures
        r == perp_spec(a, b),
{
    a.x.neg() * b.y + a.y * b.x
}

/// Whether the vector can be normalized: its squared length can be
/// computed and, where that is not zero, so can the reciprocal of its root
/// and the product with it.
pub open spec fn normalize_req<
    T: Numeric + Root + core::ops::Add<Output = T> + core::ops::Mul<Output = T> + core::ops::Div<
        Output = T,
    >,
>(a: TVec2<T>) -> bool {
    let square_len = a.square_len_spec();
    &&& a.square_len_req()
    &&& square_len != T::zero_spec() ==> {
        &&& square_len.sqrt_req()
        &&& T::one_spec().div_req(square_len.root_spec())
        &&& a.mul_req(T::one_spec().div_spec(square_len.root_spec()))
    }
}

/// The vector `a` times the reciprocal of its length; `a` itself where its
/// squared length is zero.
pub open spec fn normalize_spec<
    T: Numeric + Root + core::ops::Add<Output = T> + core::ops::Mul<Output = T> + core::ops::Div<
        Output = T,
    >,
>(a: TVec2<T>) -> TVec2<T> {
    let square_len = a.square_len_spec();
    if square_len == T::zero_spec() {
        a
    } else {
        a.mul_spec(T::one_spec().div_spec(square_len.root_spec()))
    }
}

/// Normalizes the input vector.
pub fn normalize<
    T: Numeric + Root + core::ops::Add<Output = T> + core::ops::Mul<Output = T> + core::ops::Div<
        Output = T,
    >,
>(a: TVec2<T>) -> (r: TVec2<T>)
    requires
        T::obeys_add_spec(),
        T::obeys_mul_spec(),
        T::obeys_div_spec(),
        normalize_req(a),
    ensures
        r == normalize_spec(a),
{
    let square_len = a.square_len();
    if square_len.is_zero() {
        a
    } else {
        a * (T::one() / square_len.root())
    }
}

} // verus!
