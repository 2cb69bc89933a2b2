//! The two ways a value comes by its capability table, and the erasure built on them.

use vstd::prelude::*;
use crate::boxed::FFIDynBox;
use crate::ptr::{FFIDynNonNull, NonNullAddr, VtableRef};
use crate::refs::{FFIDynMut, FFIDynRef};
use crate::vtable::{FFITrait, GenericVtableLayout};

verus! {

/// `core::ptr::NonNull::addr`, on the pointer made from a reference: the address at
/// which the borrowed value lives. A reference is never null, so the address is
/// never zero. Nothing else is claimed: the same value may live elsewhere tomorrow.
#[verifier::external_body]
fn address_of<S: ?Sized>(x: &S) -> (a: usize)
    ensures
        a != 0,
{
    core::ptr::NonNull::from(x).addr().get()
}

/// A value that can say at run time which table describes it for the interface `T`.
///
/// A value that is already erased answers with the table it carries.
pub trait IntoTraitObjectRuntime<T: FFITrait + ?Sized> {
    /// The table that describes this value.
    spec fn vt(&self) -> T::Vtable;

    /// Hands out the table that describes this value.
    fn get_vt<'a>(&'a self) -> (vt: &'a T::Vtable)
        ensures
            *vt == self.vt(),
    ;

    /// Erases a shared borrow of this value: the data address is where the value
    /// lives, the table is the value's own.
    fn dyn_ref<'a>(&'a self) -> (r: FFIDynRef<'a, T>)
        ensures
            r.wf(),
            r.table() == self.vt(),
    {
        let data = NonNullAddr::new_unchecked(address_of(self));
        FFIDynRef::from_nonnull(FFIDynNonNull { data, vtable: VtableRef::Live(self.get_vt()) })
    }

    /// Erases an exclusive borrow of this value: the data address is where the value
    /// lives, the table is the value's own.
    fn dyn_mut<'a>(&'a mut self) -> (r: FFIDynMut<'a, T>)
        ensures
            r.wf(),
            r.table() == old(self).vt(),
    {
        let this: &'a Self = self;
        let data = NonNullAddr::new_unchecked(address_of(this));
        FFIDynMut::from_nonnull(FFIDynNonNull { data, vtable: VtableRef::Live(this.get_vt()) })
    }
}

/// A type with one table for the interface `T` that lasts as long as the program.
///
/// The table is fixed before the program runs, it is the one the value gives at run
/// time too, and its head reports the type's own size and alignment.
pub trait IntoTraitObject<T: FFITrait + ?Sized>: IntoTraitObjectRuntime<T> + Sized where
    T::Vtable: 'static,
{
    /// The table of this type.
    const VTABLE: &'static T::Vtable;

    /// Hands out the table of this type.
    fn static_vt(&self) -> (vt: &'static T::Vtable)
        ensures
            *vt == *Self::VTABLE,
    {
        Self::VTABLE
    }

    /// The table a value gives at run time is the table of its type, and the head
    /// of that table reports the size and alignment of the type.
    proof fn lemma_static_table(&self)
        ensures
            self.vt() == *Self::VTABLE,
            Self::VTABLE.head().size == vstd::layout::size_of::<Self>(),
            Self::VTABLE.head().align == vstd::layout::align_of::<Self>(),
    ;
}

/// A shared borrow is erased already: it answers with the table it carries.
impl<'b, T: FFITrait + ?Sized> IntoTraitObjectRuntime<T> for FFIDynRef<'b, T> {
    open spec fn vt(&self) -> T::Vtable {
        self.table()
    }

    fn get_vt<'a>(&'a self) -> (vt: &'a T::Vtable) {
        self.vtable()
    }
}

/// An exclusive borrow is erased already: it answers with the table it carries.
impl<'b, T: FFITrait + ?Sized> IntoTraitObjectRuntime<T> for FFIDynMut<'b, T> {
    open spec fn vt(&self) -> T::Vtable {
        self.table()
    }

    fn get_vt<'a>(&'a self) -> (vt: &'a T::Vtable) {
        self.vtable()
    }
}

/// A box is erased already: it answers with the table it carries.
impl<'b, T: FFITrait + ?Sized> IntoTraitObjectRuntime<T> for FFIDynBox<'b, T> {
    open spec fn vt(&self) -> T::Vtable {
        self.table()
    }

    fn get_vt<'a>(&'a self) -> (vt: &'a T::Vtable) {
        self.vtable()
    }
}

} // verus!
