//! Binary-stable trait objects: a data address paired with a capability table.
//!
//! A value that implements an interface is erased into a pair of its address and a
//! table describing it. Five wrappers share that pair and differ only in what they
//! promise about nullability and ownership. The functions here decide which calls a
//! pair gives rise to; performing a call through a code address is left to the caller.

pub mod boxed;
pub mod dispatch;
pub mod erase;
pub mod generate;
pub mod laws;
pub mod names;
pub mod plan;
pub mod ptr;
pub mod refs;
pub mod syntax;
pub mod vtable;

pub use boxed::FFIDynBox;
pub use dispatch::{
    align_of_val_mut, align_of_val_nonnull, align_of_val_ptr, align_of_val_ref, dealloc_mut,
    dealloc_nonnull, dealloc_ptr, dealloc_ref, drop_in_place_mut, drop_in_place_nonnull,
    drop_in_place_ptr, drop_in_place_ref, size_of_val_mut, size_of_val_nonnull, size_of_val_ptr,
    size_of_val_ref, Call, Hook,
};
pub use erase::{IntoTraitObject, IntoTraitObjectRuntime};
pub use generate::{check_method, default_abi, ffi_trait, plan_method, InterfaceError};
pub use plan::{InterfacePlan, MethodPlan};
pub use ptr::{FFIDynNonNull, FFIDynPtr, NonNullAddr, VtableRef};
pub use refs::{FFIDynMut, FFIDynRef};
pub use syntax::{
    abi_from_lit, Abi, ArgType, GenericParam, Literal, MacroArg, Method, Receiver, TraitDef,
    TraitItem,
};
pub use vtable::{generic, FFITrait, GenericVtable, GenericVtableLayout};
