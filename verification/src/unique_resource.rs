//! Sole ownership of a handle that some deleter knows how to destroy.

use vstd::prelude::*;
use vstd::std_specs::cmp::PartialEqSpec;

verus! {

/// Knows which handle stands for no resource, and how to destroy one that
/// stands for a resource. Nothing is asked of an implementation: what the
/// owner of a handle does is stated over what these functions return.
pub trait ResourceDeleter<T: Copy + PartialEq> {
    /// The handle that stands for no resource.
    fn null() -> T;

    /// Whether `r` stands for no resource. Unless an implementation says
    /// otherwise, it does where it equals what `null` gives.
    fn is_null(r: T) -> (b: bool)
        default_ensures
            exists|n: T| #[trigger]
                call_ensures(Self::null, (), n) && (T::obeys_eq_spec() ==> b == r.eq_spec(&n)),
    {
        r == Self::null()
    }

    /// Destroys the resource that `r` stands for.
    fn destroy(&mut self, r: T);
}

/// A handle together with the deleter that will destroy its resource.
pub struct UniqueResource<T: Copy + PartialEq, D: ResourceDeleter<T> + Default> {
    res: T,
    deleter: D,
}

impl<T: Copy + PartialEq, D: ResourceDeleter<T> + Default> UniqueResource<T, D> {
    /// The handle that is held.
    pub closed spec fn handle(&self) -> T {
        self.res
    }

    /// The deleter that is held.
    pub closed spec fn deleter(&self) -> D {
        self.deleter
    }

    /// Takes ownership of `r` with a default deleter, unless the deleter
    /// says that `r` stands for no resource.
    pub fn new(r: T) -> (u: Option<Self>)
        ensures
            call_ensures(D::is_null, (r,), u is None),
            u matches Some(v) ==> v.handle() == r && call_ensures(D::default, (), v.deleter()),
    {
        if D::is_null(r) {
            None
        } else {
            Some(Self { res: r, deleter: D::default() })
        }
    }

    /// Takes ownership of `r` with the deleter `d`, unless the deleter says
    /// that `r` stands for no resource.
    pub fn new_with_deleter(r: T, d: D) -> (u: Option<Self>)
        ensures
            call_ensures(D::is_null, (r,), u is None),
            u matches Some(v) ==> v.handle() == r && v.deleter() == d,
    {
        if D::is_null(r) {
            None
        } else {
            Some(Self { res: r, deleter: d })
        }
    }

    /// Whether the handle that is held stands for a resource, as the
    /// deleter says.
    pub fn is_valid(&self) -> (b: bool)
        ensures
            call_ensures(D::is_null, (self.handle(),), !b),
    {
        !D::is_null(self.res)
    }

    /// The handle that is held, if it stands for a resource.
    pub fn get(&self) -> (r: Option<T>)
        ensures
            call_ensures(D::is_null, (self.handle(),), r is None),
            r matches Some(h) ==> h == self.handle(),
    {
        if D::is_null(self.res) {
            None
        } else {
            Some(self.res)
        }
    }

    /// Has the deleter destroy the resource, if one is held, and holds what
    /// the deleter gives as the handle for none afterwards.
    pub fn reset(&mut self)
        ensures
            call_ensures(D::null, (), final(self).handle()),
    {
        if !D::is_null(self.res) {
            self.deleter.destroy(self.res);
        }
        self.res = D::null();
    }
}

impl<T: Copy + PartialEq, D: ResourceDeleter<T> + Default> Default for UniqueResource<T, D> {
    /// Holds what the deleter gives as the handle for no resource.
    fn default() -> (u: Self)
        ensures
            call_ensures(D::null, (), u.handle()),
            call_ensures(D::default, (), u.deleter()),
    {
        Self { res: D::null(), deleter: D::default() }
    }
}

} // verus!
