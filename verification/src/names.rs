//! How the items that stand for an interface are named.
//!
//! Every name is made of fixed parts and of the names the interface's author chose,
//! so two interfaces never share a generated name unless they share their own.

use vstd::prelude::*;

verus! {

/// The character that writes the digit `d`.
pub open spec fn digit(d: nat) -> char {
    if d == 0 {
        '0'
    } else if d == 1 {
        '1'
    } else if d == 2 {
        '2'
    } else if d == 3 {
        '3'
    } else if d == 4 {
        '4'
    } else if d == 5 {
        '5'
    } else if d == 6 {
        '6'
    } else if d == 7 {
        '7'
    } else if d == 8 {
        '8'
    } else {
        '9'
    }
}

/// The number `n` written in base ten, without leading zeros.
pub open spec fn decimal(n: nat) -> Seq<char>
    decreases n,
{
    if n < 10 {
        seq![digit(n)]
    } else {
        decimal(n / 10).push(digit(n % 10))
    }
}

/// The name of the argument at place `position` of a method's parameter list.
pub open spec fn spec_arg_name(position: nat) -> Seq<char> {
    "arg"@ + decimal(position)
}

/// The name of the forwarding function of `method` in `interface`.
pub open spec fn spec_raw_name(interface: Seq<char>, method: Seq<char>) -> Seq<char> {
    "__ffi_trait__"@ + interface + "__raw_"@ + method
}

/// The name of the table type of `interface`.
pub open spec fn spec_vtable_name(interface: Seq<char>) -> Seq<char> {
    "__ffi_trait__"@ + interface + "__vtable"@
}

/// The name of the table that serves values of `interface` that are erased already.
pub open spec fn spec_dyn_vtable_name(interface: Seq<char>) -> Seq<char> {
    "__ffi_trait__"@ + interface + "__dyn_vtable"@
}

/// The names of the four fields of the canonical head, in their order in a table.
pub open spec fn spec_head_fields() -> Seq<Seq<char>> {
    seq![
        "__ffi_trait__size"@,
        "__ffi_trait__align"@,
        "__ffi_trait__drop_in_place"@,
        "__ffi_trait__dealloc"@,
    ]
}

/// The one-character text of a digit.
fn digit_str(d: usize) -> (s: &'static str)
    requires
        d < 10,
    ensures
        s@ == seq![digit(d as nat)],
{
    proof {
        reveal_strlit("0");
        reveal_strlit("1");
        reveal_strlit("2");
        reveal_strlit("3");
        reveal_strlit("4");
        reveal_strlit("5");
        reveal_strlit("6");
        reveal_strlit("7");
        reveal_strlit("8");
        reveal_strlit("9");
    }
    let s = if d == 0 {
        "0"
    } else if d == 1 {
        "1"
    } else if d == 2 {
        "2"
    } else if d == 3 {
        "3"
    } else if d == 4 {
        "4"
    } else if d == 5 {
        "5"
    } else if d == 6 {
        "6"
    } else if d == 7 {
        "7"
    } else if d == 8 {
        "8"
    } else {
        "9"
    };
    assert(s@ =~= seq![digit(d as nat)]);
    s
}

/// Writes `n` in base ten behind what `s` holds.
fn append_decimal(s: &mut String, n: usize)
    ensures
        final(s)@ == old(s)@ + decimal(n as nat),
    decreases n,
{
    if n >= 10 {
        append_decimal(s, n / 10);
    }
    s.append(digit_str(n % 10));
    assert(s@ =~= old(s)@ + decimal(n as nat));
}

/// The name of the argument at place `position` of a method's parameter list:
/// `arg` and the place in base ten.
pub fn arg_name(position: usize) -> (r: String)
    ensures
        r@ == spec_arg_name(position as nat),
{
    let mut r = String::from_str("arg");
    append_decimal(&mut r, position);
    r
}

/// The name of the forwarding function of `method` in `interface`.
pub fn raw_name(interface: &str, method: &str) -> (r: String)
    ensures
        r@ == spec_raw_name(interface@, method@),
{
    let mut r = String::from_str("__ffi_trait__");
    r.append(interface);
    r.append("__raw_");
    r.append(method);
    r
}

/// The name of the table type of `interface`.
pub fn vtable_name(interface: &str) -> (r: String)
    ensures
        r@ == spec_vtable_name(interface@),
{
    let mut r = String::from_str("__ffi_trait__");
    r.append(interface);
    r.append("__vtable");
    r
}

/// The name of the table that serves values of `interface` that are erased already.
pub fn dyn_vtable_name(interface: &str) -> (r: String)
    ensures
        r@ == spec_dyn_vtable_name(interface@),
{
    let mut r = String::from_str("__ffi_trait__");
    r.append(interface);
    r.append("__dyn_vtable");
    r
}

} // verus!
