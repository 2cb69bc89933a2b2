//! What holds of the pairs whatever value they stand for, and of the processing of
//! interfaces whatever interface is processed.

use vstd::prelude::*;
use crate::boxed::{teardown_calls, FFIDynBox};
use crate::dispatch::{hook_call, Hook};
use crate::erase::{IntoTraitObject, IntoTraitObjectRuntime};
use crate::generate::{
    eligible, item_rejection, lemma_eligible, lemma_rejection_is_first, spec_default_abi,
    spec_ffi_trait,
};
use crate::ptr::{FFIDynNonNull, FFIDynPtr, VtableRef};
use crate::refs::{FFIDynMut, FFIDynRef};
use crate::syntax::{MacroArg, TraitDef};
use crate::vtable::{FFITrait, GenericVtable, GenericVtableLayout};

verus! {

/// A shared borrow that erases `v`, lowered to a nullable pair and read as a shared
/// borrow again, is the borrow one started with: it has the same data address, and
/// its table is the one that `v` gave for itself.
pub proof fn law_borrow_round_trip<'a, T: FFITrait + ?Sized, V: IntoTraitObjectRuntime<T>>(
    v: &V,
    r: FFIDynRef<'a, T>,
)
    requires
        r.wf(),
        r.table() == v.vt(),
    ensures
        !r.to_ptr().is_null(),
        r.to_ptr().vtable is Live,
        r.to_ptr().data == r.pair().data@,
        FFIDynRef::from_ptr(r.to_ptr()) == r,
        FFIDynRef::from_ptr(r.to_ptr()).pair().data@ == r.pair().data@,
        FFIDynRef::from_ptr(r.to_ptr()).table() == v.vt(),
{
    r.lemma_pair();
    r.pair().lemma_to_ptr_new_unchecked();
}

/// Changing the kind of a pair changes neither of its halves: whichever wrapper a
/// non-null pair `n` is put in, the wrapper carries `n`, and the nullable pair read
/// back from the wrapper is the nullable pair of `n`. Likewise a nullable pair `x`
/// that is read as any wrapper and lowered again is `x`.
pub proof fn law_conversions_keep_both_halves<'a, T: FFITrait + ?Sized>(
    n: FFIDynNonNull<'a, T>,
    x: FFIDynPtr<'a, T>,
)
    ensures
        FFIDynNonNull::new_unchecked(x).to_ptr() == x,
        FFIDynRef::from_ptr(x).to_ptr() == x,
        FFIDynMut::from_ptr(x).to_ptr() == x,
        !x.is_null() ==> FFIDynNonNull::new(x) == Some(FFIDynNonNull::new_unchecked(x)),
        n.to_ptr().data == n.data@,
        n.to_ptr().vtable == n.vtable,
        FFIDynNonNull::new_unchecked(n.to_ptr()) == n,
        FFIDynRef::from_nonnull(n).pair() == n,
        FFIDynRef::from_nonnull(n).to_ptr() == n.to_ptr(),
        FFIDynRef::from_ptr(n.to_ptr()) == FFIDynRef::from_nonnull(n),
        FFIDynMut::from_nonnull(n).pair() == n,
        FFIDynMut::from_nonnull(n).to_ptr() == n.to_ptr(),
        FFIDynMut::from_ptr(n.to_ptr()) == FFIDynMut::from_nonnull(n),
        FFIDynBox::from_nonnull(n).pair() == n,
        FFIDynBox::into_raw(FFIDynBox::from_nonnull(n)) == n.to_ptr(),
{
    n.lemma_to_ptr_new_unchecked();
    FFIDynRef::lemma_from_nonnull(n);
    FFIDynMut::lemma_from_nonnull(n);
    FFIDynBox::lemma_from_nonnull(n);
    FFIDynNonNull::lemma_new_unchecked_to_ptr(x);
    FFIDynRef::lemma_from_nonnull(FFIDynNonNull::new_unchecked(x));
    FFIDynMut::lemma_from_nonnull(FFIDynNonNull::new_unchecked(x));
}

/// The size and the alignment that the table of a borrow reports are those of the
/// erased value's type, whenever the value is of a type with a table of its own.
/// They are read off the pair alone, so asking again gives the same answer.
pub proof fn law_queries_report_native_layout<
    'a,
    T: FFITrait + ?Sized,
    V: IntoTraitObject<T>,
>(v: &V, r: FFIDynRef<'a, T>) where T::Vtable: 'static
    requires
        r.table() == v.vt(),
    ensures
        r.table().head().size == vstd::layout::size_of::<V>(),
        r.table().head().align == vstd::layout::align_of::<V>(),
{
    v.lemma_static_table();
}

/// The calls that end the life of an owned value: at most one through each hook,
/// every one on the value's own data address with the function its hook installs,
/// and the destructor before the deallocator.
pub proof fn law_single_destruction(head: GenericVtable, data: usize)
    ensures
        teardown_calls(head, data).len() <= 2,
        forall|i: int, j: int|
            0 <= i < j < teardown_calls(head, data).len() ==> teardown_calls(head, data)[i].hook
                == Hook::DropInPlace && teardown_calls(head, data)[j].hook == Hook::Dealloc,
        forall|i: int|
            0 <= i < teardown_calls(head, data).len() ==> Some(
                #[trigger] teardown_calls(head, data)[i],
            ) == hook_call(head, teardown_calls(head, data)[i].hook, data),
        forall|hook: Hook|
            hook_call(head, hook, data) is Some <==> exists|i: int|
                0 <= i < teardown_calls(head, data).len() && (#[trigger] teardown_calls(
                    head,
                    data,
                )[i]).hook == hook,
{
    let calls = teardown_calls(head, data);
    assert forall|hook: Hook| hook_call(head, hook, data) is Some implies exists|i: int|
        0 <= i < calls.len() && (#[trigger] calls[i]).hook == hook by {
        match hook {
            Hook::DropInPlace => {
                assert(calls[0].hook == hook);
            },
            Hook::Dealloc => {
                assert(calls[calls.len() - 1].hook == hook);
            },
        }
    }
}

/// Giving a box up as an exclusive borrow keeps its pair: the borrow has the data
/// address and the table of the box.
pub proof fn law_leak_keeps_pair<'a, T: FFITrait + ?Sized>(b: FFIDynBox<'a, T>)
    requires
        b.wf(),
    ensures
        FFIDynMut::from_ptr(FFIDynBox::into_raw(b)).pair() == b.pair(),
        FFIDynMut::from_ptr(FFIDynBox::into_raw(b)).to_ptr() == FFIDynBox::into_raw(b),
{
    b.lemma_pair();
    b.pair().lemma_to_ptr_new_unchecked();
    FFIDynMut::lemma_from_nonnull(b.pair());
}

/// Null comes out of the null constructor, and out of no other unless null is put
/// in: the pair of every non-null pair, borrow and box is not null, and a pair made
/// from parts is null only where the data address handed in is.
pub proof fn law_only_null_is_null<'a, T: FFITrait + ?Sized>(
    n: FFIDynNonNull<'a, T>,
    r: FFIDynRef<'a, T>,
    m: FFIDynMut<'a, T>,
    b: FFIDynBox<'a, T>,
    data: usize,
    vtable: VtableRef<'a, T::Vtable>,
)
    requires
        n.data.wf(),
        r.wf(),
        m.wf(),
        b.wf(),
        data != 0,
    ensures
        FFIDynPtr::<T>::null().is_null(),
        FFIDynPtr::<T>::null().data == 0,
        FFIDynNonNull::new(FFIDynPtr::<T>::null()) is None,
        !FFIDynPtr::<T>::from_raw_parts(data, vtable).is_null(),
        !n.to_ptr().is_null(),
        !r.to_ptr().is_null(),
        !m.to_ptr().is_null(),
        !FFIDynBox::into_raw(b).is_null(),
{
    n.lemma_to_ptr_new_unchecked();
    r.lemma_pair();
    r.pair().lemma_to_ptr_new_unchecked();
    m.lemma_pair();
    m.pair().lemma_to_ptr_new_unchecked();
    b.lemma_pair();
    b.pair().lemma_to_ptr_new_unchecked();
}

/// An interface is laid out only if its options are in order and every one of its
/// items is an eligible method; the layout then has one entry for each item, in
/// declaration order, and the table has four fields more than the interface has
/// methods.
pub proof fn law_only_eligible_interfaces_are_laid_out(attr: Seq<MacroArg>, item: TraitDef)
    ensures
        spec_ffi_trait(attr, item) is Ok <==> spec_default_abi(attr) is Ok && forall|i: int|
            0 <= i < item.items@.len() ==> (#[trigger] item.items@[i]) is Method && eligible(
                item.items@[i]->Method_0,
            ),
        spec_ffi_trait(attr, item) matches Ok(plan) ==> {
            &&& plan.methods.len() == item.items@.len()
            &&& plan.fields().len() == 4 + item.items@.len()
            &&& forall|i: int|
                0 <= i < item.items@.len() ==> (#[trigger] plan.methods[i]).name
                    == item.items@[i]->Method_0.name@ && plan.fields()[4 + i]
                    == item.items@[i]->Method_0.name@
        },
{
    let items = item.items@;
    lemma_rejection_is_first(items, items.len());
    assert forall|i: int| 0 <= i < items.len() implies (item_rejection(#[trigger] items[i])
        is None <==> items[i] is Method && eligible(items[i]->Method_0)) by {
        if items[i] is Method {
            lemma_eligible(items[i]->Method_0);
        }
    }
}

} // verus!
