//! Processing an interface definition: reading the options, holding every item to
//! the shapes that can be dispatched through a table, and laying out what is to be
//! generated.
//!
//! Nothing is deferred: an interface is either laid out whole or turned down with
//! the first objection met, options before items, items in declaration order.

use vstd::prelude::*;
use crate::names::{
    arg_name, dyn_vtable_name, raw_name, spec_arg_name, spec_dyn_vtable_name, spec_raw_name,
    spec_vtable_name, vtable_name,
};
use crate::plan::{InterfacePlan, InterfacePlanView, MethodPlan, MethodPlanView};
use crate::syntax::{abi_from_lit, Abi, GenericParam, Literal, MacroArg, Method, TraitDef, TraitItem};

verus! {

/// Why an interface is turned down.
#[derive(Debug, Clone, PartialEq, Eq)]
pub enum InterfaceError {
    /// The default calling convention is set or switched off more than once.
    ConflictingDefaultAbi,
    /// The default calling convention is set to something that is no string.
    DefaultAbiNotString,
    /// An option is not one of the two that are known.
    InvalidOption,
    /// An item of the interface is no method.
    NotAMethod,
    /// A method is declared `const`.
    ConstMethod,
    /// A method is declared `async`.
    AsyncMethod,
    /// A method has a `where` clause.
    WhereClause,
    /// A method takes an argument of type `Self`.
    SelfArgument,
    /// A method has no `self` parameter.
    MissingReceiver { method: String },
    /// A method has a generic parameter that is no lifetime.
    NonLifetimeGeneric,
    /// A method takes `self` by value.
    ByValueReceiver,
}

/// An `InterfaceError` with its text read as a sequence of characters.
pub enum InterfaceErrorView {
    ConflictingDefaultAbi,
    DefaultAbiNotString,
    InvalidOption,
    NotAMethod,
    ConstMethod,
    AsyncMethod,
    WhereClause,
    SelfArgument,
    MissingReceiver { method: Seq<char> },
    NonLifetimeGeneric,
    ByValueReceiver,
}

impl View for InterfaceError {
    type V = InterfaceErrorView;

    open spec fn view(&self) -> InterfaceErrorView {
        match self {
            InterfaceError::ConflictingDefaultAbi => InterfaceErrorView::ConflictingDefaultAbi,
            InterfaceError::DefaultAbiNotString => InterfaceErrorView::DefaultAbiNotString,
            InterfaceError::InvalidOption => InterfaceErrorView::InvalidOption,
            InterfaceError::NotAMethod => InterfaceErrorView::NotAMethod,
            InterfaceError::ConstMethod => InterfaceErrorView::ConstMethod,
            InterfaceError::AsyncMethod => InterfaceErrorView::AsyncMethod,
            InterfaceError::WhereClause => InterfaceErrorView::WhereClause,
            InterfaceError::SelfArgument => InterfaceErrorView::SelfArgument,
            InterfaceError::MissingReceiver { method } => InterfaceErrorView::MissingReceiver {
                method: method@,
            },
            InterfaceError::NonLifetimeGeneric => InterfaceErrorView::NonLifetimeGeneric,
            InterfaceError::ByValueReceiver => InterfaceErrorView::ByValueReceiver,
        }
    }
}

impl InterfaceErrorView {
    /// The objection in words.
    pub open spec fn message(self) -> Seq<char> {
        match self {
            InterfaceErrorView::ConflictingDefaultAbi => "conflicting options for default abi"@,
            InterfaceErrorView::DefaultAbiNotString => "default abi must be a string literal"@,
            InterfaceErrorView::InvalidOption => "invalid options to `ffi_trait`"@,
            InterfaceErrorView::NotAMethod => "Only methods are supported in `ffi_trait`s"@,
            InterfaceErrorView::ConstMethod => "`const` fns aren't supported in `ffi_trait`s"@,
            InterfaceErrorView::AsyncMethod => "`async` fns aren't supported in `ffi_trait`s"@,
            InterfaceErrorView::WhereClause => "`where` clauses aren't supported in `ffi_trait`s"@,
            InterfaceErrorView::SelfArgument =>
                "`Self` arguments aren't supported in `ffi_trait`s. consider using erased pointers."@,
            InterfaceErrorView::MissingReceiver { method } =>
                "`ffi_trait` methods must be object safe (all functions must take a self param, but `"@
                    + method + "` doesn't)"@,
            InterfaceErrorView::NonLifetimeGeneric =>
                "generics other than lifetimes aren't supported in `ffi_trait`s"@,
            InterfaceErrorView::ByValueReceiver => "`ffi_trait` methods cannot take `self` by value."@,
        }
    }
}

impl InterfaceError {
    /// The objection in words.
    pub fn message(&self) -> (text: String)
        ensures
            text@ == self@.message(),
    {
        match self {
            InterfaceError::ConflictingDefaultAbi => String::from_str(
                "conflicting options for default abi",
            ),
            InterfaceError::DefaultAbiNotString => String::from_str(
                "default abi must be a string literal",
            ),
            InterfaceError::InvalidOption => String::from_str("invalid options to `ffi_trait`"),
            InterfaceError::NotAMethod => String::from_str(
                "Only methods are supported in `ffi_trait`s",
            ),
            InterfaceError::ConstMethod => String::from_str(
                "`const` fns aren't supported in `ffi_trait`s",
            ),
            InterfaceError::AsyncMethod => String::from_str(
                "`async` fns aren't supported in `ffi_trait`s",
            ),
            InterfaceError::WhereClause => String::from_str(
                "`where` clauses aren't supported in `ffi_trait`s",
            ),
            InterfaceError::SelfArgument => String::from_str(
                "`Self` arguments aren't supported in `ffi_trait`s. consider using erased pointers.",
            ),
            InterfaceError::MissingReceiver { method } => {
                let mut text = String::from_str(
                    "`ffi_trait` methods must be object safe (all functions must take a self param, but `",
                );
                text.append(method.as_str());
                text.append("` doesn't)");
                text
            },
            InterfaceError::NonLifetimeGeneric => String::from_str(
                "generics other than lifetimes aren't supported in `ffi_trait`s",
            ),
            InterfaceError::ByValueReceiver => String::from_str(
                "`ffi_trait` methods cannot take `self` by value.",
            ),
        }
    }
}

/// The default calling convention of an interface: a tag, or none.
pub type DefaultAbi = Option<Option<Seq<char>>>;

/// What a single option makes of the default calling convention.
pub open spec fn option_value(arg: MacroArg) -> Result<DefaultAbi, InterfaceErrorView> {
    if arg.sets_default_abi() {
        match arg->value {
            Literal::Str(name) => Ok(Some(Some(name@))),
            Literal::Other => Err(InterfaceErrorView::DefaultAbiNotString),
        }
    } else if arg.clears_default_abi() {
        Ok(None)
    } else {
        Err(InterfaceErrorView::InvalidOption)
    }
}

/// The default calling convention that a list of options asks for.
///
/// Without options it is the platform's C convention. One option may set another
/// or switch the default off. A second option is always one too many: it conflicts
/// with the first where it is a known one, and is invalid otherwise.
pub open spec fn spec_default_abi(attr: Seq<MacroArg>) -> Result<DefaultAbi, InterfaceErrorView> {
    if attr.len() == 0 {
        Ok(Some(Some("C"@)))
    } else {
        match option_value(attr[0]) {
            Err(e) => Err(e),
            Ok(abi) => if attr.len() == 1 {
                Ok(abi)
            } else if attr[1].sets_default_abi() || attr[1].clears_default_abi() {
                Err(InterfaceErrorView::ConflictingDefaultAbi)
            } else {
                Err(InterfaceErrorView::InvalidOption)
            },
        }
    }
}

/// The objection to a method, if there is one. Where several apply, the first in
/// this order is raised: `const`, `async`, a `where` clause, an argument of type
/// `Self`, no `self` parameter, a generic parameter that is no lifetime, `self`
/// taken by value.
pub open spec fn method_rejection(m: Method) -> Option<InterfaceErrorView> {
    if m.constness {
        Some(InterfaceErrorView::ConstMethod)
    } else if m.asyncness {
        Some(InterfaceErrorView::AsyncMethod)
    } else if m.where_clause {
        Some(InterfaceErrorView::WhereClause)
    } else if exists|i: int| 0 <= i < m.inputs@.len() && (#[trigger] m.inputs@[i]).is_self() {
        Some(InterfaceErrorView::SelfArgument)
    } else if m.receiver is None {
        Some(InterfaceErrorView::MissingReceiver { method: m.name@ })
    } else if exists|i: int| 0 <= i < m.generics@.len() && !(#[trigger] m.generics@[i] is Lifetime) {
        Some(InterfaceErrorView::NonLifetimeGeneric)
    } else if !m.receiver->0.reference {
        Some(InterfaceErrorView::ByValueReceiver)
    } else {
        None
    }
}

/// Whether a method can be dispatched through a table: it takes `self` by reference,
/// shared or exclusive, is neither `const` nor `async`, has no `where` clause, no
/// generic parameter but lifetimes, and no argument of type `Self`.
pub open spec fn eligible(m: Method) -> bool {
    &&& !m.constness
    &&& !m.asyncness
    &&& !m.where_clause
    &&& forall|i: int| 0 <= i < m.inputs@.len() ==> !(#[trigger] m.inputs@[i]).is_self()
    &&& m.receiver matches Some(receiver) && receiver.reference
    &&& forall|i: int| 0 <= i < m.generics@.len() ==> (#[trigger] m.generics@[i]) is Lifetime
}

/// The objection to an item, if there is one: anything but a method is turned down.
pub open spec fn item_rejection(item: TraitItem) -> Option<InterfaceErrorView> {
    match item {
        TraitItem::Method(m) => method_rejection(m),
        TraitItem::Other => Some(InterfaceErrorView::NotAMethod),
    }
}

/// The objection to the first of the first `n` items that is turned down.
pub open spec fn rejection_among(items: Seq<TraitItem>, n: nat) -> Option<InterfaceErrorView>
    decreases n,
{
    if n == 0 {
        None
    } else {
        match rejection_among(items, (n - 1) as nat) {
            Some(e) => Some(e),
            None => item_rejection(items[n - 1]),
        }
    }
}

/// What is generated for an accepted method `m` of `interface`.
///
/// The method's own calling convention wins over the default. The arguments are
/// numbered by their place in the parameter list, in which `self` holds place 0.
pub open spec fn method_plan(interface: Seq<char>, default_abi: DefaultAbi, m: Method)
    -> MethodPlanView {
    MethodPlanView {
        name: m.name@,
        raw_name: spec_raw_name(interface, m.name@),
        abi: match m.abi {
            Some(abi) => Some(abi@),
            None => default_abi,
        },
        unsafety: m.unsafety,
        lifetimes: Seq::new(m.generics@.len(), |i: int| m.generics@[i]->Lifetime_0@),
        exclusive: m.receiver->0.mutability,
        args: Seq::new(m.inputs@.len(), |i: int| spec_arg_name((i + 1) as nat)),
        default: m.default,
    }
}

/// What processing the interface `item` under the options `attr` yields.
pub open spec fn spec_ffi_trait(attr: Seq<MacroArg>, item: TraitDef) -> Result<
    InterfacePlanView,
    InterfaceErrorView,
> {
    match spec_default_abi(attr) {
        Err(e) => Err(e),
        Ok(default_abi) => match rejection_among(item.items@, item.items@.len()) {
            Some(e) => Err(e),
            None => Ok(
                InterfacePlanView {
                    name: item.name@,
                    vtable_name: spec_vtable_name(item.name@),
                    dyn_vtable_name: spec_dyn_vtable_name(item.name@),
                    methods: Seq::new(
                        item.items@.len(),
                        |i: int| method_plan(item.name@, default_abi, item.items@[i]->Method_0),
                    ),
                },
            ),
        },
    }
}

/// The view of a default calling convention.
pub open spec fn default_abi_view(abi: Option<Abi>) -> DefaultAbi {
    match abi {
        Some(abi) => Some(abi@),
        None => None,
    }
}

/// Whether `name` is the single word `word`.
fn is_word(name: &Option<String>, word: &str) -> (b: bool)
    ensures
        b == (name matches Some(n) && n@ == word@),
{
    match name {
        Some(n) => *n == String::from_str(word),
        None => false,
    }
}

/// Reads the options of an interface and settles its default calling convention.
pub fn default_abi(attr: &Vec<MacroArg>) -> (r: Result<Option<Abi>, InterfaceError>)
    ensures
        match r {
            Ok(abi) => spec_default_abi(attr@) == Ok::<DefaultAbi, InterfaceErrorView>(
                default_abi_view(abi),
            ),
            Err(e) => spec_default_abi(attr@) == Err::<DefaultAbi, InterfaceErrorView>(e@),
        },
{
    let mut chosen: Option<Option<Abi>> = None;
    let mut i: usize = 0;
    while i < attr.len()
        invariant
            i <= attr.len(),
            i <= 1,
            i == 0 ==> chosen is None,
            i == 1 ==> chosen is Some && option_value(attr@[0]) == Ok::<
                DefaultAbi,
                InterfaceErrorView,
            >(default_abi_view(chosen->0)),
        decreases attr.len() - i,
    {
        match &attr[i] {
            MacroArg::NameValue { name, value } => {
                if !is_word(name, "default_abi") {
                    return Err(InterfaceError::InvalidOption);
                }
                if chosen.is_some() {
                    return Err(InterfaceError::ConflictingDefaultAbi);
                }
                match value {
                    Literal::Str(x) => {
                        chosen = Some(Some(abi_from_lit(x.clone())));
                    },
                    Literal::Other => {
                        return Err(InterfaceError::DefaultAbiNotString);
                    },
                }
            },
            MacroArg::Path { name } => {
                if !is_word(name, "no_default_abi") {
                    return Err(InterfaceError::InvalidOption);
                }
                if chosen.is_some() {
                    return Err(InterfaceError::ConflictingDefaultAbi);
                }
                chosen = Some(None);
            },
            MacroArg::Other => {
                return Err(InterfaceError::InvalidOption);
            },
        }
        i = i + 1;
    }
    match chosen {
        Some(abi) => Ok(abi),
        None => Ok(Some(abi_from_lit(String::from_str("C")))),
    }
}

/// The view of an objection that may be absent.
pub open spec fn rejection_view(r: Option<InterfaceError>) -> Option<InterfaceErrorView> {
    match r {
        Some(e) => Some(e@),
        None => None,
    }
}

/// The view of the outcome of processing an interface.
pub open spec fn outcome_view(r: Result<InterfacePlan, InterfaceError>) -> Result<
    InterfacePlanView,
    InterfaceErrorView,
> {
    match r {
        Ok(plan) => Ok(plan@),
        Err(e) => Err(e@),
    }
}

/// Once an item among the first `n` is turned down, looking at more items changes
/// nothing.
pub proof fn lemma_rejection_stays(items: Seq<TraitItem>, n: nat, m: nat)
    requires
        n <= m,
        rejection_among(items, n) is Some,
    ensures
        rejection_among(items, m) == rejection_among(items, n),
    decreases m,
{
    if n < m {
        lemma_rejection_stays(items, n, (m - 1) as nat);
    }
}

/// No item among the first `n` is turned down exactly when none of them is objected
/// to; and where one is, the objection raised is that to the first such item.
pub proof fn lemma_rejection_is_first(items: Seq<TraitItem>, n: nat)
    ensures
        rejection_among(items, n) is None <==> forall|i: int|
            0 <= i < n ==> (#[trigger] item_rejection(items[i])) is None,
        rejection_among(items, n) is Some ==> exists|i: int|
            0 <= i < n && rejection_among(items, n) == #[trigger] item_rejection(items[i]) && (
            forall|j: int| 0 <= j < i ==> (#[trigger] item_rejection(items[j])) is None),
    decreases n,
{
    if n > 0 {
        lemma_rejection_is_first(items, (n - 1) as nat);
        if rejection_among(items, (n - 1) as nat) is None && rejection_among(items, n) is Some {
            assert(rejection_among(items, n) == item_rejection(items[n - 1]));
        }
    }
}

/// A method meets no objection exactly when it is eligible.
pub proof fn lemma_eligible(m: Method)
    ensures
        method_rejection(m) is None <==> eligible(m),
{
}

/// Holds a method to the shapes that can be dispatched through a table, and gives
/// the first objection where it does not fit.
#[verifier::loop_isolation(false)]
pub fn check_method(m: &Method) -> (r: Option<InterfaceError>)
    ensures
        rejection_view(r) == method_rejection(*m),
{
    if m.constness {
        return Some(InterfaceError::ConstMethod);
    }
    if m.asyncness {
        return Some(InterfaceError::AsyncMethod);
    }
    if m.where_clause {
        return Some(InterfaceError::WhereClause);
    }
    let mut i: usize = 0;
    while i < m.inputs.len()
        invariant
            i <= m.inputs.len(),
            forall|j: int| 0 <= j < i ==> !(#[trigger] m.inputs@[j]).is_self(),
        decreases m.inputs.len() - i,
    {
        if m.inputs[i].is_self() {
            return Some(InterfaceError::SelfArgument);
        }
        i = i + 1;
    }
    let receiver = match m.receiver {
        Some(receiver) => receiver,
        None => {
            return Some(InterfaceError::MissingReceiver { method: m.name.clone() });
        },
    };
    let mut k: usize = 0;
    while k < m.generics.len()
        invariant
            k <= m.generics.len(),
            forall|j: int| 0 <= j < k ==> (#[trigger] m.generics@[j]) is Lifetime,
        decreases m.generics.len() - k,
    {
        match &m.generics[k] {
            GenericParam::Lifetime(_) => {},
            _ => {
                return Some(InterfaceError::NonLifetimeGeneric);
            },
        }
        k = k + 1;
    }
    if !receiver.reference {
        return Some(InterfaceError::ByValueReceiver);
    }
    None
}

/// Lays out what is generated for a method that `check_method` accepts.
pub fn plan_method(interface: &String, default_abi: &Option<Abi>, m: &Method) -> (plan: MethodPlan)
    requires
        method_rejection(*m) is None,
    ensures
        plan@ == method_plan(interface@, default_abi_view(*default_abi), *m),
{
    let abi = match &m.abi {
        Some(abi) => Some(abi.clone()),
        None => match default_abi {
            Some(abi) => Some(abi.clone()),
            None => None,
        },
    };
    let mut lifetimes: Vec<String> = Vec::new();
    let mut k: usize = 0;
    while k < m.generics.len()
        invariant
            k <= m.generics.len(),
            forall|j: int| 0 <= j < m.generics@.len() ==> (#[trigger] m.generics@[j]) is Lifetime,
            lifetimes@.len() == k,
            forall|j: int| 0 <= j < k ==> (#[trigger] lifetimes@[j])@ == m.generics@[j]->Lifetime_0@,
        decreases m.generics.len() - k,
    {
        match &m.generics[k] {
            GenericParam::Lifetime(name) => {
                lifetimes.push(name.clone());
            },
            _ => {},
        }
        k = k + 1;
    }
    let mut args: Vec<String> = Vec::new();
    let mut i: usize = 0;
    while i < m.inputs.len()
        invariant
            i <= m.inputs.len(),
            args@.len() == i,
            forall|j: int| 0 <= j < i ==> (#[trigger] args@[j])@ == spec_arg_name((j + 1) as nat),
        decreases m.inputs.len() - i,
    {
        args.push(arg_name(i + 1));
        i = i + 1;
    }
    let exclusive = match m.receiver {
        Some(receiver) => receiver.mutability,
        None => false,
    };
    let plan = MethodPlan {
        name: m.name.clone(),
        raw_name: raw_name(interface.as_str(), m.name.as_str()),
        abi,
        unsafety: m.unsafety,
        lifetimes,
        exclusive,
        args,
        default: m.default,
    };
    proof {
        let want = method_plan(interface@, default_abi_view(*default_abi), *m);
        assert(plan@.lifetimes =~= want.lifetimes);
        assert(plan@.args =~= want.args);
    }
    plan
}

/// Processes an interface definition.
///
/// The options are read first, then the items in declaration order. The outcome is
/// the first objection met, or the layout of everything that is generated: one
/// table field and one forwarding function for each method, under the calling
/// convention that the method or, failing that, the options name.
#[verifier::loop_isolation(false)]
pub fn ffi_trait(attr: &Vec<MacroArg>, item: &TraitDef) -> (r: Result<InterfacePlan, InterfaceError>)
    ensures
        outcome_view(r) == spec_ffi_trait(attr@, *item),
{
    let abi = match default_abi(attr) {
        Ok(abi) => abi,
        Err(e) => {
            return Err(e);
        },
    };
    let mut methods: Vec<MethodPlan> = Vec::new();
    let mut i: usize = 0;
    while i < item.items.len()
        invariant
            i <= item.items.len(),
            rejection_among(item.items@, i as nat) is None,
            methods@.len() == i,
            forall|j: int|
                0 <= j < i ==> (#[trigger] methods@[j])@ == method_plan(
                    item.name@,
                    default_abi_view(abi),
                    item.items@[j]->Method_0,
                ),
        decreases item.items.len() - i,
    {
        match &item.items[i] {
            TraitItem::Method(m) => {
                match check_method(m) {
                    Some(e) => {
                        proof {
                            lemma_rejection_stays(
                                item.items@,
                                (i + 1) as nat,
                                item.items@.len(),
                            );
                        }
                        return Err(e);
                    },
                    None => {
                        methods.push(plan_method(&item.name, &abi, m));
                    },
                }
            },
            TraitItem::Other => {
                proof {
                    lemma_rejection_stays(item.items@, (i + 1) as nat, item.items@.len());
                }
                return Err(InterfaceError::NotAMethod);
            },
        }
        i = i + 1;
    }
    let plan = InterfacePlan {
        name: item.name.clone(),
        vtable_name: vtable_name(item.name.as_str()),
        dyn_vtable_name: dyn_vtable_name(item.name.as_str()),
        methods,
    };
    proof {
        let want = spec_ffi_trait(attr@, *item);
        assert(want is Ok);
        assert(plan@.methods =~= want->Ok_0.methods);
    }
    Ok(plan)
}

} // verus!
