//! An interface definition, as far as its processing reads it.
//!
//! Whoever parses the source fills these types in; nothing here looks at text other
//! than names.

use vstd::prelude::*;

verus! {

/// A calling-convention tag: the mark of a foreign convention, with the name of the
/// convention where one is written out.
#[derive(Debug, PartialEq, Eq)]
pub struct Abi {
    /// The convention's name; without one the platform's default is meant.
    pub name: Option<String>,
}

impl View for Abi {
    type V = Option<Seq<char>>;

    open spec fn view(&self) -> Option<Seq<char>> {
        match self.name {
            Some(name) => Some(name@),
            None => None,
        }
    }
}

impl Clone for Abi {
    fn clone(&self) -> (r: Self)
        ensures
            r@ == self@,
    {
        match &self.name {
            Some(name) => Abi { name: Some(name.clone()) },
            None => Abi { name: None },
        }
    }
}

/// The tag that names the convention `x`.
pub fn abi_from_lit(x: String) -> (abi: Abi)
    ensures
        abi@ == Some(x@),
{
    Abi { name: Some(x) }
}

/// What stands on the right of `=` in an option.
#[derive(Debug, Clone, PartialEq, Eq)]
pub enum Literal {
    /// A string literal, with its contents.
    Str(String),
    /// A literal of any other kind.
    Other,
}

/// One option given to the processing of an interface.
#[derive(Debug, Clone, PartialEq, Eq)]
pub enum MacroArg {
    /// `name = value`; `name` is absent where a longer path stands in its place.
    NameValue { name: Option<String>, value: Literal },
    /// A bare word; `name` is absent where a longer path stands in its place.
    Path { name: Option<String> },
    /// Anything else: a literal on its own, or a word with a list behind it.
    Other,
}

/// A generic parameter of a method.
#[derive(Debug, Clone, PartialEq, Eq)]
pub enum GenericParam {
    /// A lifetime, with its name.
    Lifetime(String),
    /// A type parameter.
    Type,
    /// A constant parameter.
    Const,
}

/// The `self` parameter of a method.
#[derive(Debug, Clone, Copy, PartialEq, Eq, Structural)]
pub struct Receiver {
    /// Whether `self` is taken by reference.
    pub reference: bool,
    /// Whether `self` is taken as mutable.
    pub mutability: bool,
}

/// The type of a parameter other than `self`.
#[derive(Debug, Clone, PartialEq, Eq)]
pub struct ArgType {
    /// The segments of the type where it is a plain path, absent for any other type.
    pub path: Option<Vec<String>>,
}

/// A method of an interface.
#[derive(Debug, Clone, PartialEq, Eq)]
pub struct Method {
    /// The method's name.
    pub name: String,
    /// Whether it is declared `const`.
    pub constness: bool,
    /// Whether it is declared `async`.
    pub asyncness: bool,
    /// Whether it is declared `unsafe`.
    pub unsafety: bool,
    /// The calling convention written on the method itself.
    pub abi: Option<Abi>,
    /// Its generic parameters, in order.
    pub generics: Vec<GenericParam>,
    /// Whether it has a `where` clause.
    pub where_clause: bool,
    /// Its `self` parameter, which can only stand first.
    pub receiver: Option<Receiver>,
    /// The types of its other parameters, in order.
    pub inputs: Vec<ArgType>,
    /// Whether it comes with a default body.
    pub default: bool,
}

/// An item in the body of an interface.
#[derive(Debug, Clone, PartialEq, Eq)]
pub enum TraitItem {
    /// A method.
    Method(Method),
    /// A constant, an associated type, or anything else that is no method.
    Other,
}

/// An interface definition.
#[derive(Debug, Clone, PartialEq, Eq)]
pub struct TraitDef {
    /// The interface's name.
    pub name: String,
    /// Its items, in declaration order.
    pub items: Vec<TraitItem>,
}

impl ArgType {
    /// Whether the type is the bare word `Self`.
    pub open spec fn spec_is_self(&self) -> bool {
        match self.path {
            Some(segments) => segments@.len() == 1 && segments@[0]@ == "Self"@,
            None => false,
        }
    }

    /// Whether the type is the bare word `Self`.
    #[verifier::when_used_as_spec(spec_is_self)]
    pub fn is_self(&self) -> (b: bool)
        ensures
            b == self.spec_is_self(),
    {
        match &self.path {
            Some(segments) => segments.len() == 1 && segments[0] == String::from_str("Self"),
            None => false,
        }
    }
}

impl MacroArg {
    /// Whether the option sets the default calling convention.
    pub open spec fn sets_default_abi(self) -> bool {
        self matches MacroArg::NameValue { name: Some(name), .. } && name@ == "default_abi"@
    }

    /// Whether the option switches the default calling convention off.
    pub open spec fn clears_default_abi(self) -> bool {
        self matches MacroArg::Path { name: Some(name) } && name@ == "no_default_abi"@
    }
}

} // verus!
