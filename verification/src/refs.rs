//! The two borrowing pairs: shared and exclusive.

use core::marker::PhantomData;
use vstd::prelude::*;
use crate::erase::IntoTraitObjectRuntime;
use crate::ptr::{FFIDynNonNull, FFIDynPtr, NonNullAddr, VtableRef};
use crate::vtable::FFITrait;

verus! {

/// A shared borrow of an erased value.
///
/// Its data address is not null and its table is alive for as long as the borrow.
pub struct FFIDynRef<'a, T: FFITrait + ?Sized>(FFIDynNonNull<'a, T>, PhantomData<&'a T>);

impl<'a, T: FFITrait + ?Sized> Copy for FFIDynRef<'a, T> {}

impl<'a, T: FFITrait + ?Sized> Clone for FFIDynRef<'a, T> {
    fn clone(&self) -> (r: Self)
        ensures
            r == *self,
    {
        *self
    }
}

/// An exclusive borrow of an erased value.
///
/// Its data address is not null and its table is alive for as long as the borrow.
pub struct FFIDynMut<'a, T: FFITrait + ?Sized>(FFIDynNonNull<'a, T>, PhantomData<&'a mut T>);

impl<'a, T: FFITrait + ?Sized> FFIDynRef<'a, T> {
    /// The data address is not null and the table is alive.
    #[verifier::type_invariant]
    pub closed spec fn wf(self) -> bool {
        self.0.data.wf() && self.0.vtable is Live
    }

    /// The pair this borrow carries.
    pub closed spec fn pair(self) -> FFIDynNonNull<'a, T> {
        self.0
    }

    /// The table this borrow points to.
    pub open spec fn table(self) -> T::Vtable {
        self.pair().vtable.table()
    }

    /// The borrow that carries the pair `x`.
    pub closed spec fn spec_from_nonnull(x: FFIDynNonNull<'a, T>) -> Self {
        FFIDynRef(x, PhantomData)
    }

    /// The borrow that carries the parts of `x`.
    pub open spec fn spec_from_ptr(x: FFIDynPtr<'a, T>) -> Self {
        Self::spec_from_nonnull(FFIDynNonNull::new_unchecked(x))
    }

    /// The nullable pair with the parts of this borrow.
    pub open spec fn spec_to_ptr(self) -> FFIDynPtr<'a, T> {
        self.pair().to_ptr()
    }

    /// Erases a borrowed value: the data address is that of `x`, the table the one
    /// that `x` gives for itself.
    pub fn from_std(x: &'a T) -> (r: Self) where T: IntoTraitObjectRuntime<T>
        ensures
            r.wf(),
            r.table() == x.vt(),
    {
        x.dyn_ref()
    }

    /// Reads a nullable pair as a shared borrow, on the caller's word that its data
    /// address is not null and its table is alive.
    #[verifier::when_used_as_spec(spec_from_ptr)]
    pub fn from_ptr(x: FFIDynPtr<'a, T>) -> (r: Self)
        requires
            !x.is_null(),
            x.vtable is Live,
        ensures
            r == Self::spec_from_ptr(x),
            r.pair() == FFIDynNonNull::new_unchecked(x),
            r.pair().data@ == x.data,
            r.pair().vtable == x.vtable,
            r.wf(),
    {
        Self::from_nonnull(FFIDynNonNull::new_unchecked(x))
    }

    /// Reads a non-null pair as a shared borrow, on the caller's word that its table
    /// is alive.
    #[verifier::when_used_as_spec(spec_from_nonnull)]
    pub fn from_nonnull(x: FFIDynNonNull<'a, T>) -> (r: Self)
        requires
            x.vtable is Live,
        ensures
            r == Self::spec_from_nonnull(x),
            r.pair() == x,
            r.wf(),
    {
        proof {
            use_type_invariant(&x.data);
        }
        FFIDynRef(x, PhantomData)
    }

    /// Builds a shared borrow from its two halves, on the caller's word that the
    /// table is alive.
    pub fn from_raw_parts(data: NonNullAddr, vtable: VtableRef<'a, T::Vtable>) -> (r: Self)
        requires
            vtable is Live,
        ensures
            r == Self::spec_from_nonnull((FFIDynNonNull::<T> { data, vtable })),
            r.pair() == (FFIDynNonNull::<T> { data, vtable }),
            r.wf(),
    {
        Self::from_nonnull(FFIDynNonNull::from_raw_parts(data, vtable))
    }

    /// The table this borrow points to.
    pub fn vtable(&self) -> (vt: &'a T::Vtable)
        ensures
            *vt == self.table(),
    {
        proof {
            use_type_invariant(self);
        }
        match self.0.vtable {
            VtableRef::Live(v) => v,
            VtableRef::Dangling => vstd::pervasive::unreached(),
        }
    }

    /// Lowers the borrow to a nullable pair; both halves are kept.
    #[verifier::when_used_as_spec(spec_to_ptr)]
    pub fn to_ptr(self) -> (p: FFIDynPtr<'a, T>)
        ensures
            p == self.spec_to_ptr(),
            !p.is_null(),
            p.vtable is Live,
    {
        proof {
            use_type_invariant(&self);
        }
        self.0.to_ptr()
    }

    /// A borrow is determined by the pair it carries.
    pub proof fn lemma_pair(self)
        ensures
            Self::from_nonnull(self.pair()) == self,
            self.wf() <==> self.pair().data.wf() && self.pair().vtable is Live,
    {
    }

    /// The borrow made from a pair carries that pair.
    pub proof fn lemma_from_nonnull(x: FFIDynNonNull<'a, T>)
        ensures
            Self::from_nonnull(x).pair() == x,
    {
    }
}

impl<'a, T: FFITrait + ?Sized> FFIDynMut<'a, T> {
    /// The data address is not null and the table is alive.
    #[verifier::type_invariant]
    pub closed spec fn wf(self) -> bool {
        self.0.data.wf() && self.0.vtable is Live
    }

    /// The pair this borrow carries.
    pub closed spec fn pair(self) -> FFIDynNonNull<'a, T> {
        self.0
    }

    /// The table this borrow points to.
    pub open spec fn table(self) -> T::Vtable {
        self.pair().vtable.table()
    }

    /// The borrow that carries the pair `x`.
    pub closed spec fn spec_from_nonnull(x: FFIDynNonNull<'a, T>) -> Self {
        FFIDynMut(x, PhantomData)
    }

    /// The borrow that carries the parts of `x`.
    pub open spec fn spec_from_ptr(x: FFIDynPtr<'a, T>) -> Self {
        Self::spec_from_nonnull(FFIDynNonNull::new_unchecked(x))
    }

    /// The nullable pair with the parts of this borrow.
    pub open spec fn spec_to_ptr(self) -> FFIDynPtr<'a, T> {
        self.pair().to_ptr()
    }

    /// Erases an exclusively borrowed value: the data address is that of `x`, the
    /// table the one that `x` gives for itself.
    pub fn from_std(x: &'a mut T) -> (r: Self) where T: IntoTraitObjectRuntime<T>
        ensures
            r.wf(),
            r.table() == old(x).vt(),
    {
        x.dyn_mut()
    }

    /// Reads a nullable pair as an exclusive borrow, on the caller's word that its
    /// data address is not null and its table is alive.
    #[verifier::when_used_as_spec(spec_from_ptr)]
    pub fn from_ptr(x: FFIDynPtr<'a, T>) -> (r: Self)
        requires
            !x.is_null(),
            x.vtable is Live,
        ensures
            r == Self::spec_from_ptr(x),
            r.pair() == FFIDynNonNull::new_unchecked(x),
            r.pair().data@ == x.data,
            r.pair().vtable == x.vtable,
            r.wf(),
    {
        Self::from_nonnull(FFIDynNonNull::new_unchecked(x))
    }

    /// Reads a non-null pair as an exclusive borrow, on the caller's word that its
    /// table is alive.
    #[verifier::when_used_as_spec(spec_from_nonnull)]
    pub fn from_nonnull(x: FFIDynNonNull<'a, T>) -> (r: Self)
        requires
            x.vtable is Live,
        ensures
            r == Self::spec_from_nonnull(x),
            r.pair() == x,
            r.wf(),
    {
        proof {
            use_type_invariant(&x.data);
        }
        FFIDynMut(x, PhantomData)
    }

    /// Builds an exclusive borrow from its two halves, on the caller's word that the
    /// table is alive.
    pub fn from_raw_parts(data: NonNullAddr, vtable: VtableRef<'a, T::Vtable>) -> (r: Self)
        requires
            vtable is Live,
        ensures
            r == Self::spec_from_nonnull((FFIDynNonNull::<T> { data, vtable })),
            r.pair() == (FFIDynNonNull::<T> { data, vtable }),
            r.wf(),
    {
        Self::from_nonnull(FFIDynNonNull::from_raw_parts(data, vtable))
    }

    /// The table this borrow points to.
    pub fn vtable(&self) -> (vt: &'a T::Vtable)
        ensures
            *vt == self.table(),
    {
        proof {
            use_type_invariant(self);
        }
        match self.0.vtable {
            VtableRef::Live(v) => v,
            VtableRef::Dangling => vstd::pervasive::unreached(),
        }
    }

    /// Lowers the borrow to a nullable pair; both halves are kept.
    #[verifier::when_used_as_spec(spec_to_ptr)]
    pub fn to_ptr(self) -> (p: FFIDynPtr<'a, T>)
        ensures
            p == self.spec_to_ptr(),
            !p.is_null(),
            p.vtable is Live,
    {
        proof {
            use_type_invariant(&self);
        }
        self.0.to_ptr()
    }

    /// A borrow is determined by the pair it carries.
    pub proof fn lemma_pair(self)
        ensures
            Self::from_nonnull(self.pair()) == self,
            self.wf() <==> self.pair().data.wf() && self.pair().vtable is Live,
    {
    }

    /// The borrow made from a pair carries that pair.
    pub proof fn lemma_from_nonnull(x: FFIDynNonNull<'a, T>)
        ensures
            Self::from_nonnull(x).pair() == x,
    {
    }
}

impl<'a, T: FFITrait + IntoTraitObjectRuntime<T> + ?Sized> From<&'a T> for FFIDynRef<'a, T> {
    /// Erases a borrowed value, as `from_std` does.
    fn from(x: &'a T) -> (r: Self)
        ensures
            r.wf(),
            r.table() == x.vt(),
    {
        FFIDynRef::from_std(x)
    }
}

impl<'a, T: FFITrait + IntoTraitObjectRuntime<T> + ?Sized> vstd::std_specs::convert::FromSpecImpl<&'a T> for FFIDynRef<'a, T> {
    /// The conversion follows no spec function, because the data address is where
    /// the value happens to live; what holds of it is stated on `from` itself.
    open spec fn obeys_from_spec() -> bool {
        false
    }

    /// Never consulted: where the value lives is not a function of the value.
    open spec fn from_spec(x: &'a T) -> Self {
        arbitrary()
    }
}

} // verus!
