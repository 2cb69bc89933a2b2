//! The canonical head of every capability table, and the marker that lets a
//! concrete table be read as that head.

use vstd::prelude::*;

verus! {

/// The four-field prefix that every capability table starts with.
///
/// The two hooks are code addresses. An absent hook means that there is nothing to
/// call: a value without a destructor installs none.
#[derive(Debug, Clone, Copy, PartialEq, Eq, Structural)]
pub struct GenericVtable {
    /// Size in bytes of the value the table describes.
    pub size: usize,
    /// Alignment in bytes of the value the table describes.
    pub align: usize,
    /// The in-place destructor, if the value needs one.
    pub drop_in_place: Option<usize>,
    /// The deallocator, if the table supplies one.
    pub dealloc: Option<usize>,
}

/// Opt-in marker of a capability table: the table begins with the canonical head.
///
/// The prefix is never inferred from the shape of a type. A table type states it by
/// implementing this trait, and `as_generic` hands out exactly the head it names.
pub trait GenericVtableLayout {
    /// The canonical head this table begins with.
    spec fn head(&self) -> GenericVtable;

    /// Views the table as its canonical head.
    fn as_generic(&self) -> (h: &GenericVtable)
        ensures
            *h == self.head(),
    ;
}

impl GenericVtableLayout for GenericVtable {
    open spec fn head(&self) -> GenericVtable {
        *self
    }

    fn as_generic(&self) -> (h: &GenericVtable) {
        self
    }
}

/// `core::mem::needs_drop`: whether dropping a value of type `V` may do anything.
/// The answer may err on the side of `true`, so nothing is claimed of it.
pub assume_specification<V: ?Sized>[ core::mem::needs_drop::<V> ]() -> (b: bool)
;

impl GenericVtable {
    /// The head that describes a type of the given size and alignment.
    pub open spec fn spec_describe(
        size: usize,
        align: usize,
        needs_drop: bool,
        destructor: usize,
    ) -> GenericVtable {
        GenericVtable {
            size,
            align,
            drop_in_place: if needs_drop {
                Some(destructor)
            } else {
                None
            },
            dealloc: None,
        }
    }

    /// The head that describes a type of the given size and alignment.
    ///
    /// The destructor is installed only where dropping a value does something: a
    /// type that needs no drop gets no hook at all, not one that does nothing. No
    /// deallocator is installed; the storage is released by whoever allocated it.
    #[verifier::when_used_as_spec(spec_describe)]
    pub fn describe(size: usize, align: usize, needs_drop: bool, destructor: usize) -> (h: Self)
        ensures
            h == Self::spec_describe(size, align, needs_drop, destructor),
    {
        GenericVtable {
            size,
            align,
            drop_in_place: if needs_drop {
                Some(destructor)
            } else {
                None
            },
            dealloc: None,
        }
    }

    /// The head that describes the type `V`: its size, its alignment, and
    /// `destructor` as the hook if values of `V` need dropping at all.
    pub fn of<V>(destructor: usize) -> (h: Self)
        ensures
            h.size == vstd::layout::size_of::<V>(),
            h.align == vstd::layout::align_of::<V>(),
            h.drop_in_place is None || h.drop_in_place == Some(destructor),
            h.dealloc is None,
    {
        Self::describe(
            core::mem::size_of::<V>(),
            core::mem::align_of::<V>(),
            core::mem::needs_drop::<V>(),
            destructor,
        )
    }

    /// Copies the canonical head out of a table, dropping the interface's own fields.
    pub fn from<T: GenericVtableLayout>(x: T) -> (h: GenericVtable)
        ensures
            h == x.head(),
    {
        *x.as_generic()
    }
}

/// Views any capability table as its canonical head.
pub fn generic<T: GenericVtableLayout>(v: &T) -> (h: &GenericVtable)
    ensures
        *h == v.head(),
{
    v.as_generic()
}

/// An interface whose implementors can be erased into a pair.
///
/// It is implemented for a type that stands for the interface as a whole, and names
/// the table type that the interface's pairs point to.
pub trait FFITrait {
    /// The capability table of this interface.
    type Vtable: GenericVtableLayout + Copy + Clone;
}

} // verus!
