//! What processing an interface yields: a table layout and the shape of each
//! forwarding function, ready to be written out.

use vstd::prelude::*;
use crate::names::spec_head_fields;
use crate::syntax::Abi;

verus! {

/// The contents of each text of a sequence.
pub open spec fn texts(v: Seq<String>) -> Seq<Seq<char>> {
    v.map_values(|s: String| s@)
}

/// What is generated for one method of an interface.
#[derive(Debug, PartialEq, Eq)]
pub struct MethodPlan {
    /// The method's name, which is also the name of its field in the table.
    pub name: String,
    /// The name of the function that forwards an erased call to the method.
    pub raw_name: String,
    /// The calling convention of the field and of the forwarding function; without
    /// one they use the language's own.
    pub abi: Option<Abi>,
    /// Whether the interface declares the method `unsafe`.
    pub unsafety: bool,
    /// The method's lifetime parameters, carried over to field and function.
    pub lifetimes: Vec<String>,
    /// Whether the method needs an exclusive borrow of the value.
    pub exclusive: bool,
    /// The names of the arguments that follow the data address, in order.
    pub args: Vec<String>,
    /// Whether the interface gives the method a default body.
    pub default: bool,
}

/// A `MethodPlan` with its texts read as sequences of characters.
pub struct MethodPlanView {
    pub name: Seq<char>,
    pub raw_name: Seq<char>,
    pub abi: Option<Option<Seq<char>>>,
    pub unsafety: bool,
    pub lifetimes: Seq<Seq<char>>,
    pub exclusive: bool,
    pub args: Seq<Seq<char>>,
    pub default: bool,
}

impl View for MethodPlan {
    type V = MethodPlanView;

    open spec fn view(&self) -> MethodPlanView {
        MethodPlanView {
            name: self.name@,
            raw_name: self.raw_name@,
            abi: match self.abi {
                Some(abi) => Some(abi@),
                None => None,
            },
            unsafety: self.unsafety,
            lifetimes: texts(self.lifetimes@),
            exclusive: self.exclusive,
            args: texts(self.args@),
            default: self.default,
        }
    }
}

impl MethodPlan {
    /// Whether the method can be called through a shared borrow of an erased value:
    /// it can unless it needs an exclusive one.
    pub fn through_shared_borrow(&self) -> (b: bool)
        ensures
            b == !self.exclusive,
    {
        !self.exclusive
    }
}

/// What is generated for an interface.
#[derive(Debug, PartialEq, Eq)]
pub struct InterfacePlan {
    /// The interface's name.
    pub name: String,
    /// The name of its table type.
    pub vtable_name: String,
    /// The name of the table that serves values that are erased already.
    pub dyn_vtable_name: String,
    /// One entry for each method, in declaration order.
    pub methods: Vec<MethodPlan>,
}

/// An `InterfacePlan` with its texts read as sequences of characters.
pub struct InterfacePlanView {
    pub name: Seq<char>,
    pub vtable_name: Seq<char>,
    pub dyn_vtable_name: Seq<char>,
    pub methods: Seq<MethodPlanView>,
}

impl View for InterfacePlan {
    type V = InterfacePlanView;

    open spec fn view(&self) -> InterfacePlanView {
        InterfacePlanView {
            name: self.name@,
            vtable_name: self.vtable_name@,
            dyn_vtable_name: self.dyn_vtable_name@,
            methods: self.methods@.map_values(|m: MethodPlan| m@),
        }
    }
}

impl InterfacePlanView {
    /// The fields of the table, in order: the canonical head, then one field for each
    /// method in declaration order.
    pub open spec fn fields(self) -> Seq<Seq<char>> {
        spec_head_fields() + self.methods.map_values(|m: MethodPlanView| m.name)
    }
}

impl InterfacePlan {
    /// The names of the table's fields, in order: the four fields of the canonical
    /// head, then one field for each method in declaration order.
    pub fn fields(&self) -> (names: Vec<String>)
        ensures
            texts(names@) == self@.fields(),
    {
        let mut names: Vec<String> = Vec::new();
        names.push(String::from_str("__ffi_trait__size"));
        names.push(String::from_str("__ffi_trait__align"));
        names.push(String::from_str("__ffi_trait__drop_in_place"));
        names.push(String::from_str("__ffi_trait__dealloc"));
        assert(texts(names@) =~= spec_head_fields());
        let mut i: usize = 0;
        while i < self.methods.len()
            invariant
                i <= self.methods.len(),
                texts(names@) == spec_head_fields() + self@.methods.take(i as int).map_values(
                    |m: MethodPlanView| m.name,
                ),
            decreases self.methods.len() - i,
        {
            let ghost before = names@;
            names.push(self.methods[i].name.clone());
            proof {
                let done = self@.methods.take(i as int).map_values(|m: MethodPlanView| m.name);
                let next = self@.methods.take(i + 1).map_values(|m: MethodPlanView| m.name);
                assert(self@.methods[i as int] == self.methods@[i as int]@);
                assert(next =~= done.push(self.methods@[i as int].name@));
                assert(texts(names@) =~= texts(before).push(self.methods@[i as int].name@));
                assert(texts(names@) =~= spec_head_fields() + next);
            }
            i = i + 1;
        }
        assert(self@.methods.take(i as int) =~= self@.methods);
        names
    }
}

} // verus!
