//! What can be asked of any pair through the canonical head of its table: the size
//! and alignment of the erased value, and the calls that destroy it and release
//! its storage.
//!
//! The functions on raw pairs take the caller's word that the table is alive. The
//! functions on borrows need no such word: a borrow's table always is.

use vstd::prelude::*;
use crate::ptr::{FFIDynNonNull, FFIDynPtr};
use crate::refs::{FFIDynMut, FFIDynRef};
use crate::vtable::{generic, FFITrait, GenericVtable, GenericVtableLayout};

verus! {

/// Which of the two hooks of the canonical head a call goes through.
#[derive(Debug, Clone, Copy, PartialEq, Eq, Structural)]
pub enum Hook {
    /// Destroys the value in place and leaves its storage alone.
    DropInPlace,
    /// Releases the storage of the value.
    Dealloc,
}

/// One call to make: the function at `function`, with `data` as its only argument.
#[derive(Debug, Clone, Copy, PartialEq, Eq, Structural)]
pub struct Call {
    /// The hook that the code address was read from.
    pub hook: Hook,
    /// Code address of the function to call.
    pub function: usize,
    /// Data address to hand to it.
    pub data: usize,
}

/// The call that a hook of `head` asks for on the value at `data`: none where the
/// hook is absent, else the call of the installed function with `data`.
pub open spec fn hook_call(head: GenericVtable, hook: Hook, data: usize) -> Option<Call> {
    let installed = match hook {
        Hook::DropInPlace => head.drop_in_place,
        Hook::Dealloc => head.dealloc,
    };
    match installed {
        Some(function) => Some(Call { hook, function, data }),
        None => None,
    }
}

/// Reads one hook of a head and prepares its call on `data`.
fn call_through(head: &GenericVtable, hook: Hook, data: usize) -> (c: Option<Call>)
    ensures
        c == hook_call(*head, hook, data),
{
    let installed = match hook {
        Hook::DropInPlace => head.drop_in_place,
        Hook::Dealloc => head.dealloc,
    };
    match installed {
        Some(function) => Some(Call { hook, function, data }),
        None => None,
    }
}

/// The size of the value a nullable pair points to, as its table reports it.
pub fn size_of_val_ptr<'a, T: FFITrait + ?Sized>(x: FFIDynPtr<'a, T>) -> (n: usize)
    requires
        x.vtable is Live,
    ensures
        n == x.vtable.table().head().size,
{
    match x.vtable.get() {
        Some(table) => generic(table).size,
        None => vstd::pervasive::unreached(),
    }
}

/// The size of the value a non-null pair points to, as its table reports it.
pub fn size_of_val_nonnull<'a, T: FFITrait + ?Sized>(x: FFIDynNonNull<'a, T>) -> (n: usize)
    requires
        x.vtable is Live,
    ensures
        n == x.vtable.table().head().size,
{
    size_of_val_ptr(x.to_ptr())
}

/// The size of the value a shared borrow points to, as its table reports it.
pub fn size_of_val_ref<'a, T: FFITrait + ?Sized>(x: FFIDynRef<'a, T>) -> (n: usize)
    ensures
        n == x.table().head().size,
{
    size_of_val_ptr(x.to_ptr())
}

/// The size of the value an exclusive borrow points to, as its table reports it.
pub fn size_of_val_mut<'a, T: FFITrait + ?Sized>(x: FFIDynMut<'a, T>) -> (n: usize)
    ensures
        n == x.table().head().size,
{
    size_of_val_ptr(x.to_ptr())
}

/// The alignment of the value a nullable pair points to, as its table reports it.
pub fn align_of_val_ptr<'a, T: FFITrait + ?Sized>(x: FFIDynPtr<'a, T>) -> (n: usize)
    requires
        x.vtable is Live,
    ensures
        n == x.vtable.table().head().align,
{
    match x.vtable.get() {
        Some(table) => generic(table).align,
        None => vstd::pervasive::unreached(),
    }
}

/// The alignment of the value a non-null pair points to, as its table reports it.
pub fn align_of_val_nonnull<'a, T: FFITrait + ?Sized>(x: FFIDynNonNull<'a, T>) -> (n: usize)
    requires
        x.vtable is Live,
    ensures
        n == x.vtable.table().head().align,
{
    align_of_val_ptr(x.to_ptr())
}

/// The alignment of the value a shared borrow points to, as its table reports it.
pub fn align_of_val_ref<'a, T: FFITrait + ?Sized>(x: FFIDynRef<'a, T>) -> (n: usize)
    ensures
        n == x.table().head().align,
{
    align_of_val_ptr(x.to_ptr())
}

/// The alignment of the value an exclusive borrow points to, as its table reports it.
pub fn align_of_val_mut<'a, T: FFITrait + ?Sized>(x: FFIDynMut<'a, T>) -> (n: usize)
    ensures
        n == x.table().head().align,
{
    align_of_val_ptr(x.to_ptr())
}

/// The call that destroys in place the value a nullable pair points to.
///
/// There is none where the table installs no such hook. Otherwise it is the call of
/// the installed function with the pair's data address.
pub fn drop_in_place_ptr<'a, T: FFITrait + ?Sized>(x: FFIDynPtr<'a, T>) -> (c: Option<Call>)
    requires
        x.vtable is Live,
    ensures
        c == hook_call(x.vtable.table().head(), Hook::DropInPlace, x.data),
{
    match x.vtable.get() {
        Some(table) => call_through(generic(table), Hook::DropInPlace, x.data),
        None => vstd::pervasive::unreached(),
    }
}

/// The call that destroys in place the value a non-null pair points to.
pub fn drop_in_place_nonnull<'a, T: FFITrait + ?Sized>(x: FFIDynNonNull<'a, T>) -> (c: Option<Call>)
    requires
        x.vtable is Live,
    ensures
        c == hook_call(x.vtable.table().head(), Hook::DropInPlace, x.data@),
{
    drop_in_place_ptr(x.to_ptr())
}

/// The call that destroys in place the value a shared borrow points to.
pub fn drop_in_place_ref<'a, T: FFITrait + ?Sized>(x: FFIDynRef<'a, T>) -> (c: Option<Call>)
    ensures
        c == hook_call(x.table().head(), Hook::DropInPlace, x.pair().data@),
{
    drop_in_place_ptr(x.to_ptr())
}

/// The call that destroys in place the value an exclusive borrow points to.
pub fn drop_in_place_mut<'a, T: FFITrait + ?Sized>(x: FFIDynMut<'a, T>) -> (c: Option<Call>)
    ensures
        c == hook_call(x.table().head(), Hook::DropInPlace, x.pair().data@),
{
    drop_in_place_ptr(x.to_ptr())
}

/// The call that releases the storage of the value a nullable pair points to.
///
/// There is none where the table installs no such hook. Otherwise it is the call of
/// the installed function with the pair's data address.
pub fn dealloc_ptr<'a, T: FFITrait + ?Sized>(x: FFIDynPtr<'a, T>) -> (c: Option<Call>)
    requires
        x.vtable is Live,
    ensures
        c == hook_call(x.vtable.table().head(), Hook::Dealloc, x.data),
{
    match x.vtable.get() {
        Some(table) => call_through(generic(table), Hook::Dealloc, x.data),
        None => vstd::pervasive::unreached(),
    }
}

/// The call that releases the storage of the value a non-null pair points to.
pub fn dealloc_nonnull<'a, T: FFITrait + ?Sized>(x: FFIDynNonNull<'a, T>) -> (c: Option<Call>)
    requires
        x.vtable is Live,
    ensures
        c == hook_call(x.vtable.table().head(), Hook::Dealloc, x.data@),
{
    dealloc_ptr(x.to_ptr())
}

/// The call that releases the storage of the value a shared borrow points to.
pub fn dealloc_ref<'a, T: FFITrait + ?Sized>(x: FFIDynRef<'a, T>) -> (c: Option<Call>)
    ensures
        c == hook_call(x.table().head(), Hook::Dealloc, x.pair().data@),
{
    dealloc_ptr(x.to_ptr())
}

/// The call that releases the storage of the value an exclusive borrow points to.
pub fn dealloc_mut<'a, T: FFITrait + ?Sized>(x: FFIDynMut<'a, T>) -> (c: Option<Call>)
    ensures
        c == hook_call(x.table().head(), Hook::Dealloc, x.pair().data@),
{
    dealloc_ptr(x.to_ptr())
}

} // verus!
