//! Four by four matrix, stored in row major ordering.

use crate::mat2x3::Mat2X3;
use crate::number::Numeric;
use crate::sequence::collect_prefix;
use crate::sequence::get_or;
use crate::sequence::item_or;
use crate::vec4::TVec4;
use vstd::prelude::*;
use vstd::std_specs::iter::IteratorSpec;
use vstd::std_specs::ops::AddSpec;
use vstd::std_specs::ops::MulSpec;

pub mod consts;

verus! {

/// Four by four matrix, held as its four rows.
#[derive(Copy, Clone, Debug, PartialEq, Eq)]
pub struct Mat4<T: Copy> {
    pub r0: TVec4<T>,
    pub r1: TVec4<T>,
    pub r2: TVec4<T>,
    pub r3: TVec4<T>,
}

pub type Mat4I32 = Mat4<i32>;

pub type Mat4I64 = Mat4<i64>;

impl<T: Copy> Mat4<T> {
    /// The elements, row by row.
    pub open spec fn view(self) -> Seq<T> {
        self.r0@ + self.r1@ + self.r2@ + self.r3@
    }

    /// The row at `idx`.
    pub open spec fn row(self, idx: int) -> TVec4<T> {
        if idx == 0 {
            self.r0
        } else if idx == 1 {
            self.r1
        } else if idx == 2 {
            self.r2
        } else {
            self.r3
        }
    }

    /// The column at `idx`, top to bottom.
    pub open spec fn column(self, idx: int) -> TVec4<T> {
        TVec4 { x: self.r0@[idx], y: self.r1@[idx], z: self.r2@[idx], w: self.r3@[idx] }
    }

    /// The column at `idx`, top to bottom.
    pub fn get_column(&self, idx: usize) -> (c: TVec4<T>)
        requires
            idx < 4,
        ensures
            c == self.column(idx as int),
    {
        TVec4 { x: self.r0[idx], y: self.r1[idx], z: self.r2[idx], w: self.r3[idx] }
    }

    /// The elements, row by row, as an array.
    pub fn to_array(&self) -> (a: [T; 16])
        ensures
            a@ == self@,
    {
        let a = [
            self.r0.x,
            self.r0.y,
            self.r0.z,
            self.r0.w,
            self.r1.x,
            self.r1.y,
            self.r1.z,
            self.r1.w,
            self.r2.x,
            self.r2.y,
            self.r2.z,
            self.r2.w,
            self.r3.x,
            self.r3.y,
            self.r3.z,
            self.r3.w,
        ];
        assert(a@ =~= self@);
        a
    }

    /// The matrix whose rows are the columns of this one.
    pub open spec fn transposed(self) -> Self {
        Mat4 { r0: self.column(0), r1: self.column(1), r2: self.column(2), r3: self.column(3) }
    }

    /// The matrix whose rows are the columns of this one.
    pub fn transpose(&self) -> (m: Self)
        ensures
            m == self.transposed(),
            forall|r: int, c: int|
                0 <= r < 4 && 0 <= c < 4 ==> #[trigger] m@[4 * r + c] == self@[4 * c + r],
    {
        let m = Mat4 {
            r0: self.get_column(0),
            r1: self.get_column(1),
            r2: self.get_column(2),
            r3: self.get_column(3),
        };
        assert forall|r: int, c: int| 0 <= r < 4 && 0 <= c < 4 implies #[trigger] m@[4 * r + c]
            == self@[4 * c + r] by {
            assert(0 <= 4 * r + c < 16 && 0 <= 4 * c + r < 16);
        }
        m
    }

    /// Transposing twice gives the matrix back.
    pub proof fn lemma_transpose_twice(self)
        ensures
            self.transposed().transposed() == self,
    {
    }

    /// Replaces the row at `idx`.
    pub fn set_row(&mut self, idx: usize, row: TVec4<T>)
        requires
            idx < 4,
        ensures
            final(self).row(idx as int) == row,
            forall|i: int| 0 <= i < 4 && i != idx ==> final(self).row(i) == old(self).row(i),
    {
        if idx == 0 {
            self.r0 = row;
        } else if idx == 1 {
            self.r1 = row;
        } else if idx == 2 {
            self.r2 = row;
        } else {
            self.r3 = row;
        }
    }

    /// The matrix whose elements are the first items of `s`, row by row; an
    /// element for which `s` has no item is `zero`.
    pub open spec fn from_seq(s: Seq<T>, zero: T) -> Self {
        Mat4 {
            r0: TVec4 {
                x: item_or(s, 0, zero),
                y: item_or(s, 1, zero),
                z: item_or(s, 2, zero),
                w: item_or(s, 3, zero),
            },
            r1: TVec4 {
                x: item_or(s, 4, zero),
                y: item_or(s, 5, zero),
                z: item_or(s, 6, zero),
                w: item_or(s, 7, zero),
            },
            r2: TVec4 {
                x: item_or(s, 8, zero),
                y: item_or(s, 9, zero),
                z: item_or(s, 10, zero),
                w: item_or(s, 11, zero),
            },
            r3: TVec4 {
                x: item_or(s, 12, zero),
                y: item_or(s, 13, zero),
                z: item_or(s, 14, zero),
                w: item_or(s, 15, zero),
            },
        }
    }
}

impl<T: Numeric> Mat4<T> {
    /// The matrix whose elements are the first items of `s`, row by row; an
    /// element for which `s` has no item is zero.
    pub fn from_slice(s: &[T]) -> (m: Self)
        ensures
            m == Self::from_seq(s@, T::zero_spec()),
    {
        let zero = T::zero();
        Mat4 {
            r0: TVec4 {
                x: get_or(s, 0, zero),
                y: get_or(s, 1, zero),
                z: get_or(s, 2, zero),
                w: get_or(s, 3, zero),
            },
            r1: TVec4 {
                x: get_or(s, 4, zero),
                y: get_or(s, 5, zero),
                z: get_or(s, 6, zero),
                w: get_or(s, 7, zero),
            },
            r2: TVec4 {
                x: get_or(s, 8, zero),
                y: get_or(s, 9, zero),
                z: get_or(s, 10, zero),
                w: get_or(s, 11, zero),
            },
            r3: TVec4 {
                x: get_or(s, 12, zero),
                y: get_or(s, 13, zero),
                z: get_or(s, 14, zero),
                w: get_or(s, 15, zero),
            },
        }
    }

    /// The matrix whose elements are the first items that `iter` gives, row
    /// by row; an element for which it has no item is zero.
    pub fn from_iter<I: Iterator<Item = T>>(iter: I) -> (m: Self)
        ensures
            iter.obeys_prophetic_iter_laws() ==> m == Self::from_seq(
                iter.remaining(),
                T::zero_spec(),
            ),
    {
        let items = collect_prefix(iter, 16);
        Self::from_slice(items.as_slice())
    }
}

impl<T: Numeric> From<[T; 16]> for Mat4<T> {
    fn from(a: [T; 16]) -> (m: Self) {
        Self::from_slice(a.as_slice())
    }
}

impl<T: Numeric> vstd::std_specs::convert::FromSpecImpl<[T; 16]> for Mat4<T> {
    open spec fn obeys_from_spec() -> bool {
        true
    }

    open spec fn from_spec(a: [T; 16]) -> Self {
        Self::from_seq(a@, T::zero_spec())
    }
}

/// The affine transform of the plane as a transform of space: the third
/// axis is left alone and the translation moves to the fourth column.
impl<T: Numeric> From<Mat2X3<T>> for Mat4<T> {
    fn from(m: Mat2X3<T>) -> (r: Self) {
        Mat4 {
            r0: TVec4 { x: m.a00, y: m.a01, z: T::zero(), w: m.a02 },
            r1: TVec4 { x: m.a10, y: m.a11, z: T::zero(), w: m.a12 },
            r2: TVec4 { x: T::zero(), y: T::zero(), z: T::one(), w: T::zero() },
            r3: TVec4 { x: T::zero(), y: T::zero(), z: T::zero(), w: T::one() },
        }
    }
}

impl<T: Numeric> vstd::std_specs::convert::FromSpecImpl<Mat2X3<T>> for Mat4<T> {
    open spec fn obeys_from_spec() -> bool {
        true
    }

    open spec fn from_spec(m: Mat2X3<T>) -> Self {
        Mat4 {
            r0: TVec4 { x: m.a00, y: m.a01, z: T::zero_spec(), w: m.a02 },
            r1: TVec4 { x: m.a10, y: m.a11, z: T::zero_spec(), w: m.a12 },
            r2: TVec4 { x: T::zero_spec(), y: T::zero_spec(), z: T::one_spec(), w: T::zero_spec() },
            r3: TVec4 { x: T::zero_spec(), y: T::zero_spec(), z: T::zero_spec(), w: T::one_spec() },
        }
    }
}

impl<T: Copy> core::ops::Index<usize> for Mat4<T> {
    type Output = TVec4<T>;

    fn index(&self, idx: usize) -> (r: &TVec4<T>)
        ensures
            *r == self.row(idx as int),
    {
        if idx == 0 {
            &self.r0
        } else if idx == 1 {
            &self.r1
        } else if idx == 2 {
            &self.r2
        } else {
            &self.r3
        }
    }
}

impl<T: Copy> vstd::std_specs::core::IndexSpecImpl<usize> for Mat4<T> {
    open spec fn index_req(&self, idx: &usize) -> bool {
        *idx < 4
    }
}

/// Whether one element of a product can be computed: none of the four
/// products and four sums leaves the component type.
pub open spec fn cell_req<T: Numeric + core::ops::Add<Output = T> + core::ops::Mul<Output = T>>(a: TVec4<T>, b: TVec4<T>) -> bool {
    let s0 = T::zero_spec();
    let s1 = s0.add_spec(a.x.mul_spec(b.x));
    let s2 = s1.add_spec(a.y.mul_spec(b.y));
    let s3 = s2.add_spec(a.z.mul_spec(b.z));
    &&& a.x.mul_req(b.x)
    &&& a.y.mul_req(b.y)
    &&& a.z.mul_req(b.z)
    &&& a.w.mul_req(b.w)
    &&& s0.add_req(a.x.mul_spec(b.x))
    &&& s1.add_req(a.y.mul_spec(b.y))
    &&& s2.add_req(a.z.mul_spec(b.z))
    &&& s3.add_req(a.w.mul_spec(b.w))
}

/// One element of a product: the products of the components of a row and a
/// column, added to zero one after the other.
pub open spec fn cell_spec<T: Numeric + core::ops::Add<Output = T> + core::ops::Mul<Output = T>>(a: TVec4<T>, b: TVec4<T>) -> T {
    T::zero_spec().add_spec(a.x.mul_spec(b.x)).add_spec(a.y.mul_spec(b.y)).add_spec(
        a.z.mul_spec(b.z),
    ).add_spec(a.w.mul_spec(b.w))
}

/// One element of a product, from its row and its column.
pub fn cell<T: Numeric + core::ops::Add<Output = T> + core::ops::Mul<Output = T>>(a: TVec4<T>, b: TVec4<T>) -> (r: T)
    requires
        T::obeys_add_spec(),
        T::obeys_mul_spec(),
        cell_req(a, b),
    ensures
        r == cell_spec(a, b),
{
    let mut r = T::zero();
    r = r + a.x * b.x;
    r = r + a.y * b.y;
    r = r + a.z * b.z;
    r = r + a.w * b.w;
    r
}

/// Matrix product.
impl<T: Numeric + core::ops::Add<Output = T> + core::ops::Mul<Output = T>> core::ops::Mul for Mat4<T> {
    type Output = Self;

    fn mul(self, rhs: Self) -> (r: Self) {
        let c0 = rhs.get_column(0);
        let c1 = rhs.get_column(1);
        let c2 = rhs.get_column(2);
        let c3 = rhs.get_column(3);
        Mat4 {
            r0: TVec4 {
                x: cell(self.r0, c0),
                y: cell(self.r0, c1),
                z: cell(self.r0, c2),
                w: cell(self.r0, c3),
            },
            r1: TVec4 {
                x: cell(self.r1, c0),
                y: cell(self.r1, c1),
                z: cell(self.r1, c2),
                w: cell(self.r1, c3),
            },
            r2: TVec4 {
                x: cell(self.r2, c0),
                y: cell(self.r2, c1),
                z: cell(self.r2, c2),
                w: cell(self.r2, c3),
            },
            r3: TVec4 {
                x: cell(self.r3, c0),
                y: cell(self.r3, c1),
                z: cell(self.r3, c2),
                w: cell(self.r3, c3),
            },
        }
    }
}

impl<T: Numeric + core::ops::Add<Output = T> + core::ops::Mul<Output = T>> vstd::std_specs::ops::MulSpecImpl for Mat4<T> {
    open spec fn obeys_mul_spec() -> bool {
        T::obeys_add_spec() && T::obeys_mul_spec()
    }

    open spec fn mul_req(self, rhs: Self) -> bool {
        &&& T::obeys_add_spec()
        &&& T::obeys_mul_spec()
        &&& cell_req(self.r0, rhs.column(0))
        &&& cell_req(self.r0, rhs.column(1))
        &&& cell_req(self.r0, rhs.column(2))
        &&& cell_req(self.r0, rhs.column(3))
        &&& cell_req(self.r1, rhs.column(0))
        &&& cell_req(self.r1, rhs.column(1))
        &&& cell_req(self.r1, rhs.column(2))
        &&& cell_req(self.r1, rhs.column(3))
        &&& cell_req(self.r2, rhs.column(0))
        &&& cell_req(self.r2, rhs.column(1))
        &&& cell_req(self.r2, rhs.column(2))
        &&& cell_req(self.r2, rhs.column(3))
        &&& cell_req(self.r3, rhs.column(0))
        &&& cell_req(self.r3, rhs.column(1))
        &&& cell_req(self.r3, rhs.column(2))
        &&& cell_req(self.r3, rhs.column(3))
    }

    open spec fn mul_spec(self, rhs: Self) -> Self {
        Mat4 {
            r0: TVec4 {
                x: cell_spec(self.r0, rhs.column(0)),
                y: cell_spec(self.r0, rhs.column(1)),
                z: cell_spec(self.r0, rhs.column(2)),
                w: cell_spec(self.r0, rhs.column(3)),
            },
            r1: TVec4 {
                x: cell_spec(self.r1, rhs.column(0)),
                y: cell_spec(self.r1, rhs.column(1)),
                z: cell_spec(self.r1, rhs.column(2)),
                w: cell_spec(self.r1, rhs.column(3)),
            },
            r2: TVec4 {
                x: cell_spec(self.r2, rhs.column(0)),
                y: cell_spec(self.r2, rhs.column(1)),
                z: cell_spec(self.r2, rhs.column(2)),
                w: cell_spec(self.r2, rhs.column(3)),
            },
            r3: TVec4 {
                x: cell_spec(self.r3, rhs.column(0)),
                y: cell_spec(self.r3, rhs.column(1)),
                z: cell_spec(self.r3, rhs.column(2)),
                w: cell_spec(self.r3, rhs.column(3)),
            },
        }
    }
}

} // verus!
