//! The owning pair.

use core::marker::PhantomData;
use vstd::prelude::*;
use crate::dispatch::{dealloc_nonnull, drop_in_place_nonnull, hook_call, Call, Hook};
use crate::erase::IntoTraitObjectRuntime;
use crate::ptr::{FFIDynNonNull, FFIDynPtr, VtableRef};
use crate::refs::FFIDynMut;
use crate::vtable::{FFITrait, GenericVtable, GenericVtableLayout};

verus! {

/// `Box::leak`: gives up the box and hands back the exclusive borrow of its
/// contents, which are never freed by the box. The borrowed value is the boxed one.
#[verifier::external_body]
fn leak_box<'a, S: ?Sized + 'a>(b: Box<S>) -> (r: &'a mut S)
    ensures
        &*r == &*b,
{
    Box::leak(b)
}

/// The calls that end the life of the value at `data` under `head`, in the order in
/// which they are made: the destructor where there is one, then the deallocator
/// where there is one.
pub open spec fn teardown_calls(head: GenericVtable, data: usize) -> Seq<Call> {
    let destroy = match hook_call(head, Hook::DropInPlace, data) {
        Some(c) => seq![c],
        None => seq![],
    };
    let release = match hook_call(head, Hook::Dealloc, data) {
        Some(c) => seq![c],
        None => seq![],
    };
    destroy + release
}

/// An owned erased value.
///
/// Its data address is not null and its table is alive. The box is the only owner:
/// it cannot be copied, and each way out of it (`teardown`, `leak`, `into_raw`,
/// `into_nonnull`) consumes it. A box that merely goes out of scope makes no call;
/// whoever ends its life asks `teardown` for the calls and makes them.
pub struct FFIDynBox<'a, T: FFITrait + ?Sized>(FFIDynNonNull<'a, T>, PhantomData<T>);

impl<'a, T: FFITrait + ?Sized> FFIDynBox<'a, T> {
    /// The data address is not null and the table is alive.
    #[verifier::type_invariant]
    pub closed spec fn wf(self) -> bool {
        self.0.data.wf() && self.0.vtable is Live
    }

    /// The pair this box carries.
    pub closed spec fn pair(self) -> FFIDynNonNull<'a, T> {
        self.0
    }

    /// The table this box points to.
    pub open spec fn table(self) -> T::Vtable {
        self.pair().vtable.table()
    }

    /// The box that carries the pair `x`.
    pub closed spec fn spec_from_nonnull(x: FFIDynNonNull<'a, T>) -> Self {
        FFIDynBox(x, PhantomData)
    }

    /// Takes over a boxed value: the data address is that of the value, the table
    /// the one that the value gives for itself. The storage now belongs to the pair.
    pub fn from_std(x: Box<T>) -> (b: Self) where T: IntoTraitObjectRuntime<T> + 'a
        ensures
            b.wf(),
            b.table() == x.vt(),
    {
        Self::from_raw_std(leak_box(x))
    }

    /// Takes over a value that nothing else owns any more.
    pub fn from_raw_std(x: &'a mut T) -> (b: Self) where T: IntoTraitObjectRuntime<T>
        ensures
            b.wf(),
            b.table() == old(x).vt(),
    {
        Self::from_raw(FFIDynMut::from_std(x).to_ptr())
    }

    /// Takes over the value behind a nullable pair, on the caller's word that the
    /// data address is not null, the table is alive and nothing else owns the value.
    pub fn from_raw(x: FFIDynPtr<'a, T>) -> (b: Self)
        requires
            !x.is_null(),
            x.vtable is Live,
        ensures
            b == Self::spec_from_nonnull(FFIDynNonNull::new_unchecked(x)),
            b.pair() == FFIDynNonNull::new_unchecked(x),
            b.pair().data@ == x.data,
            b.pair().vtable == x.vtable,
            b.wf(),
    {
        Self::from_nonnull(FFIDynNonNull::new_unchecked(x))
    }

    /// Takes over the value behind a non-null pair, on the caller's word that the
    /// table is alive and nothing else owns the value.
    #[verifier::when_used_as_spec(spec_from_nonnull)]
    pub fn from_nonnull(x: FFIDynNonNull<'a, T>) -> (b: Self)
        requires
            x.vtable is Live,
        ensures
            b == Self::spec_from_nonnull(x),
            b.pair() == x,
            b.wf(),
    {
        proof {
            use_type_invariant(&x.data);
        }
        FFIDynBox(x, PhantomData)
    }

    /// The table this box points to.
    pub fn vtable(&self) -> (vt: &'a T::Vtable)
        ensures
            *vt == self.table(),
    {
        proof {
            use_type_invariant(self);
        }
        match self.0.vtable {
            VtableRef::Live(v) => v,
            VtableRef::Dangling => vstd::pervasive::unreached(),
        }
    }

    /// Ends the life of the box and says which calls that takes, in order: the
    /// destructor on the data address where the table installs one, then the
    /// deallocator on the data address where the table installs one.
    pub fn teardown(b: Self) -> (calls: Vec<Call>)
        ensures
            calls@ == teardown_calls(b.table().head(), b.pair().data@),
    {
        proof {
            use_type_invariant(&b);
        }
        let pair = b.0;
        let mut calls: Vec<Call> = Vec::new();
        if let Some(c) = drop_in_place_nonnull(pair) {
            calls.push(c);
        }
        if let Some(c) = dealloc_nonnull(pair) {
            calls.push(c);
        }
        calls
    }

    /// Gives the value up as an exclusive borrow with the very pair of the box.
    /// No call is made, then or later: ending the value's life is the caller's
    /// business from here on.
    pub fn leak(b: Self) -> (r: FFIDynMut<'a, T>)
        ensures
            r.pair() == b.pair(),
            r == FFIDynMut::from_ptr(Self::spec_into_raw(b)),
    {
        proof {
            b.pair().lemma_to_ptr_new_unchecked();
        }
        Self::into_raw(b).to_ref_mut()
    }

    /// The nullable pair with the parts of this box.
    pub open spec fn spec_into_raw(b: Self) -> FFIDynPtr<'a, T> {
        b.pair().to_ptr()
    }

    /// Gives the value up as a nullable pair with both halves of the box. No call
    /// is made.
    #[verifier::when_used_as_spec(spec_into_raw)]
    pub fn into_raw(b: Self) -> (p: FFIDynPtr<'a, T>)
        ensures
            p == Self::spec_into_raw(b),
            !p.is_null(),
            p.vtable is Live,
    {
        proof {
            use_type_invariant(&b);
        }
        b.0.to_ptr()
    }

    /// Gives the value up as the non-null pair of the box. No call is made.
    pub fn into_nonnull(b: Self) -> (p: FFIDynNonNull<'a, T>)
        ensures
            p == b.pair(),
            p.vtable is Live,
    {
        proof {
            use_type_invariant(&b);
        }
        b.0
    }

    /// A box is determined by the pair it carries.
    pub proof fn lemma_pair(self)
        ensures
            Self::from_nonnull(self.pair()) == self,
            self.wf() <==> self.pair().data.wf() && self.pair().vtable is Live,
    {
    }

    /// The box made from a pair carries that pair.
    pub proof fn lemma_from_nonnull(x: FFIDynNonNull<'a, T>)
        ensures
            Self::from_nonnull(x).pair() == x,
    {
    }
}

impl<'a, T: FFITrait + IntoTraitObjectRuntime<T> + ?Sized + 'a> From<Box<T>> for FFIDynBox<'a, T> {
    /// Takes over a boxed value, as `from_std` does.
    fn from(x: Box<T>) -> (b: Self)
        ensures
            b.wf(),
            b.table() == x.vt(),
    {
        FFIDynBox::from_std(x)
    }
}

impl<'a, T: FFITrait + IntoTraitObjectRuntime<T> + ?Sized + 'a> vstd::std_specs::convert::FromSpecImpl<Box<T>> for FFIDynBox<'a, T> {
    /// The conversion follows no spec function, because the data address is where
    /// the value happens to live; what holds of it is stated on `from` itself.
    open spec fn obeys_from_spec() -> bool {
        false
    }

    /// Never consulted: where the value lives is not a function of the value.
    open spec fn from_spec(x: Box<T>) -> Self {
        arbitrary()
    }
}

} // verus!
