//! The two raw pairs: one whose data address may be null, and one whose may not.

use vstd::prelude::*;
use crate::refs::{FFIDynMut, FFIDynRef};
use crate::vtable::FFITrait;

verus! {

/// A data address that is not null.
#[derive(Debug)]
pub struct NonNullAddr {
    addr: usize,
}

impl Copy for NonNullAddr {}

impl Clone for NonNullAddr {
    fn clone(&self) -> (r: Self)
        ensures
            r == *self,
    {
        *self
    }
}

impl View for NonNullAddr {
    type V = usize;

    closed spec fn view(&self) -> usize {
        self.addr
    }
}

impl NonNullAddr {
    /// Every address held at run time is different from zero.
    #[verifier::type_invariant]
    pub closed spec fn wf(self) -> bool {
        self.addr != 0
    }

    /// The value standing for `addr`, whether or not `addr` is null.
    pub closed spec fn spec_new_unchecked(addr: usize) -> Self {
        NonNullAddr { addr }
    }

    /// Accepts every address but null.
    pub fn new(addr: usize) -> (r: Option<Self>)
        ensures
            r == if addr != 0 {
                Some(Self::spec_new_unchecked(addr))
            } else {
                None
            },
            r matches Some(a) ==> a@ == addr,
    {
        if addr != 0 {
            Some(NonNullAddr { addr })
        } else {
            None
        }
    }

    /// Takes the caller's word that `addr` is not null.
    #[verifier::when_used_as_spec(spec_new_unchecked)]
    pub fn new_unchecked(addr: usize) -> (r: Self)
        requires
            addr != 0,
        ensures
            r == Self::spec_new_unchecked(addr),
            r@ == addr,
    {
        NonNullAddr { addr }
    }

    /// The address itself.
    pub fn get(self) -> (a: usize)
        ensures
            a == self@,
            a != 0,
    {
        proof {
            use_type_invariant(&self);
        }
        self.addr
    }

    /// An address is well formed exactly when it is not null, and it is determined by
    /// the number it holds.
    pub proof fn lemma_view(self)
        ensures
            self.wf() <==> self@ != 0,
            Self::spec_new_unchecked(self@) == self,
    {
    }

    /// Making an address from a number keeps the number.
    pub proof fn lemma_new_unchecked(addr: usize)
        ensures
            Self::spec_new_unchecked(addr)@ == addr,
    {
    }
}

/// The table half of a pair: a table that is alive, or no table at all.
///
/// The null pair dangles, and so does any raw pair that is made with a dangling
/// half. No table can be read through a dangling half.
#[derive(Debug)]
pub enum VtableRef<'a, V> {
    /// Points at no table.
    Dangling,
    /// Points at a table that outlives `'a`.
    Live(&'a V),
}

impl<'a, V> Copy for VtableRef<'a, V> {}

impl<'a, V> Clone for VtableRef<'a, V> {
    fn clone(&self) -> (r: Self)
        ensures
            r == *self,
    {
        *self
    }
}

impl<'a, V> VtableRef<'a, V> {
    /// The table pointed at; of a dangling half it says nothing.
    pub open spec fn table(self) -> V {
        match self {
            VtableRef::Live(v) => *v,
            VtableRef::Dangling => arbitrary(),
        }
    }

    /// The table pointed at, where there is one.
    pub fn get(self) -> (r: Option<&'a V>)
        ensures
            r == match self {
                VtableRef::Live(v) => Some(v),
                VtableRef::Dangling => None,
            },
    {
        match self {
            VtableRef::Live(v) => Some(v),
            VtableRef::Dangling => None,
        }
    }
}

/// The raw pair whose data address may be null.
///
/// It carries no ownership and borrows nothing but its table.
#[derive(Debug)]
pub struct FFIDynPtr<'a, T: FFITrait + ?Sized> {
    /// Address of the erased value; zero is null.
    pub data: usize,
    /// The table describing the value at `data`.
    pub vtable: VtableRef<'a, T::Vtable>,
}

impl<'a, T: FFITrait + ?Sized> Copy for FFIDynPtr<'a, T> {}

impl<'a, T: FFITrait + ?Sized> Clone for FFIDynPtr<'a, T> {
    fn clone(&self) -> (r: Self)
        ensures
            r == *self,
    {
        *self
    }
}

/// The raw pair whose data address is not null.
#[derive(Debug)]
pub struct FFIDynNonNull<'a, T: FFITrait + ?Sized> {
    /// Address of the erased value.
    pub data: NonNullAddr,
    /// The table describing the value at `data`.
    pub vtable: VtableRef<'a, T::Vtable>,
}

impl<'a, T: FFITrait + ?Sized> Copy for FFIDynNonNull<'a, T> {}

impl<'a, T: FFITrait + ?Sized> Clone for FFIDynNonNull<'a, T> {
    fn clone(&self) -> (r: Self)
        ensures
            r == *self,
    {
        *self
    }
}

impl<'a, T: FFITrait + ?Sized> FFIDynPtr<'a, T> {
    /// The pair of `data` and `vtable`.
    pub open spec fn spec_from_raw_parts(data: usize, vtable: VtableRef<'a, T::Vtable>) -> Self {
        FFIDynPtr { data, vtable }
    }

    /// Pairs a data address with a table, as given.
    #[verifier::when_used_as_spec(spec_from_raw_parts)]
    pub fn from_raw_parts(data: usize, vtable: VtableRef<'a, T::Vtable>) -> (p: Self)
        ensures
            p == Self::spec_from_raw_parts(data, vtable),
    {
        FFIDynPtr { data, vtable }
    }

    /// The null pair.
    pub open spec fn spec_null() -> Self {
        FFIDynPtr { data: 0, vtable: VtableRef::Dangling }
    }

    /// The null pair: null data and a dangling table.
    #[verifier::when_used_as_spec(spec_null)]
    pub fn null() -> (p: Self)
        ensures
            p == Self::spec_null(),
            p.is_null(),
    {
        FFIDynPtr { data: 0, vtable: VtableRef::Dangling }
    }

    /// Whether the data address is null.
    pub open spec fn spec_is_null(self) -> bool {
        self.data == 0
    }

    /// Whether the data address is null.
    #[verifier::when_used_as_spec(spec_is_null)]
    pub fn is_null(self) -> (b: bool)
        ensures
            b == (self.data == 0),
    {
        self.data == 0
    }

    /// Reads the pair as a shared borrow, on the caller's word that the data address
    /// is not null and the table is alive. Both halves are kept.
    pub fn to_ref(self) -> (r: FFIDynRef<'a, T>)
        requires
            !self.is_null(),
            self.vtable is Live,
        ensures
            r == FFIDynRef::from_ptr(self),
            r.pair() == FFIDynNonNull::new_unchecked(self),
            r.pair().data@ == self.data,
            r.pair().vtable == self.vtable,
    {
        FFIDynRef::from_ptr(self)
    }

    /// Reads the pair as an exclusive borrow, on the caller's word that the data
    /// address is not null and the table is alive. Both halves are kept.
    pub fn to_ref_mut(self) -> (r: FFIDynMut<'a, T>)
        requires
            !self.is_null(),
            self.vtable is Live,
        ensures
            r == FFIDynMut::from_ptr(self),
            r.pair() == FFIDynNonNull::new_unchecked(self),
            r.pair().data@ == self.data,
            r.pair().vtable == self.vtable,
    {
        FFIDynMut::from_ptr(self)
    }
}

impl<'a, T: FFITrait + ?Sized> FFIDynNonNull<'a, T> {
    /// The pair of `data` and `vtable`.
    pub open spec fn spec_from_raw_parts(data: NonNullAddr, vtable: VtableRef<'a, T::Vtable>)
        -> Self {
        FFIDynNonNull { data, vtable }
    }

    /// Pairs a non-null data address with a table, as given.
    #[verifier::when_used_as_spec(spec_from_raw_parts)]
    pub fn from_raw_parts(data: NonNullAddr, vtable: VtableRef<'a, T::Vtable>) -> (p: Self)
        ensures
            p == Self::spec_from_raw_parts(data, vtable),
    {
        FFIDynNonNull { data, vtable }
    }

    /// The non-null pair with the parts of `x`, where the data address of `x` is not
    /// null.
    pub open spec fn spec_new(x: FFIDynPtr<'a, T>) -> Option<Self> {
        if x.is_null() {
            None
        } else {
            Some(Self::spec_new_unchecked(x))
        }
    }

    /// The non-null pair with the parts of `x`, whatever its data address.
    pub open spec fn spec_new_unchecked(x: FFIDynPtr<'a, T>) -> Self {
        FFIDynNonNull { data: NonNullAddr::spec_new_unchecked(x.data), vtable: x.vtable }
    }

    /// Accepts every pair but those with null data, and keeps both halves.
    #[verifier::when_used_as_spec(spec_new)]
    pub fn new(x: FFIDynPtr<'a, T>) -> (r: Option<Self>)
        ensures
            r == Self::spec_new(x),
            r matches Some(n) ==> n.data@ == x.data && n.vtable == x.vtable,
    {
        match NonNullAddr::new(x.data) {
            Some(data) => Some(FFIDynNonNull { data, vtable: x.vtable }),
            None => None,
        }
    }

    /// Takes the caller's word that the data address of `x` is not null.
    #[verifier::when_used_as_spec(spec_new_unchecked)]
    pub fn new_unchecked(x: FFIDynPtr<'a, T>) -> (p: Self)
        requires
            !x.is_null(),
        ensures
            p == Self::spec_new_unchecked(x),
            p.data@ == x.data,
            p.vtable == x.vtable,
    {
        FFIDynNonNull { data: NonNullAddr::new_unchecked(x.data), vtable: x.vtable }
    }

    /// The same pair with its data address read as a plain number.
    pub open spec fn spec_to_ptr(self) -> FFIDynPtr<'a, T> {
        FFIDynPtr { data: self.data@, vtable: self.vtable }
    }

    /// Forgets that the data address is not null; both halves are kept.
    #[verifier::when_used_as_spec(spec_to_ptr)]
    pub fn to_ptr(self) -> (p: FFIDynPtr<'a, T>)
        ensures
            p == self.spec_to_ptr(),
            !p.is_null(),
    {
        FFIDynPtr { data: self.data.get(), vtable: self.vtable }
    }

    /// Reads the pair as a shared borrow, on the caller's word that the table is
    /// alive. Both halves are kept.
    pub fn to_ref(self) -> (r: FFIDynRef<'a, T>)
        requires
            self.vtable is Live,
        ensures
            r == FFIDynRef::from_nonnull(self),
            r.pair() == self,
    {
        FFIDynRef::from_nonnull(self)
    }

    /// Reads the pair as an exclusive borrow, on the caller's word that the table is
    /// alive. Both halves are kept.
    pub fn to_ref_mut(self) -> (r: FFIDynMut<'a, T>)
        requires
            self.vtable is Live,
        ensures
            r == FFIDynMut::from_nonnull(self),
            r.pair() == self,
    {
        FFIDynMut::from_nonnull(self)
    }

    /// Going down to the nullable pair and back gives the same pair.
    pub proof fn lemma_to_ptr_new_unchecked(self)
        ensures
            Self::new_unchecked(self.to_ptr()) == self,
            !self.to_ptr().is_null() <==> self.data.wf(),
    {
        self.data.lemma_view();
    }

    /// Going up from a nullable pair and back down gives the same pair.
    pub proof fn lemma_new_unchecked_to_ptr(x: FFIDynPtr<'a, T>)
        ensures
            Self::new_unchecked(x).to_ptr() == x,
    {
        NonNullAddr::lemma_new_unchecked(x.data);
    }
}

} // verus!
