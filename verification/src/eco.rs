//! Reference-counted strings and vectors of the `ecow` crate
use vstd::prelude::*;

use ecow::{EcoString, EcoVec};

use crate::assembly::{BindingInfo, DefInfo, Span};

verus! {

#[verifier::external_type_specification]
#[verifier::external_body]
pub struct ExEcoString(EcoString);

/// The characters of an `EcoString`
pub uninterp spec fn eco_chars(s: EcoString) -> Seq<char>;

/// Make an `EcoString` holding the characters of a string slice (`EcoString::from(&str)`,
/// which copies the slice's bytes)
#[verifier::external_body]
pub(crate) fn eco_from_str(s: &str) -> (r: EcoString)
    ensures
        eco_chars(r) == s@,
{
    EcoString::from(s)
}

/// View an `EcoString` as a string slice (`EcoString::as_str`, which borrows its bytes)
#[verifier::external_body]
pub(crate) fn eco_as_str(s: &EcoString) -> (r: &str)
    ensures
        r@ == eco_chars(*s),
{
    s.as_str()
}

/// Make an empty `EcoString` (`EcoString::new`)
#[verifier::external_body]
pub(crate) fn eco_new() -> (r: EcoString)
    ensures
        eco_chars(r) == Seq::<char>::empty(),
{
    EcoString::new()
}

/// Copying an `EcoString` (its `Clone`, which shares its bytes or copies them) keeps its
/// characters
pub assume_specification[<EcoString as Clone>::clone](s: &EcoString) -> (r: EcoString)
    ensures
        eco_chars(r) == eco_chars(*s),
;

#[verifier::external_type_specification]
#[verifier::external_body]
#[verifier::reject_recursive_types(T)]
pub struct ExEcoVec<T>(EcoVec<T>);

// An `EcoVec` shares its storage between copies and copies the items (with their `Clone`) only
// when a shared vector is changed; the items of every type kept in one here are copied so that
// each copy equals its original. Growing one panics only where its storage would pass
// `isize::MAX` bytes, which no vector held in memory reaches.

/// The bindings that an `EcoVec` of bindings holds, in order
pub uninterp spec fn binding_items(v: EcoVec<BindingInfo>) -> Seq<BindingInfo>;

/// Make an empty vector of bindings (`EcoVec::new`)
#[verifier::external_body]
pub(crate) fn bindings_new() -> (r: EcoVec<BindingInfo>)
    ensures
        binding_items(r) == Seq::<BindingInfo>::empty(),
{
    EcoVec::new()
}

/// The number of bindings in a vector (`EcoVec::len`)
#[verifier::external_body]
pub(crate) fn bindings_len(v: &EcoVec<BindingInfo>) -> (r: usize)
    ensures
        r == binding_items(*v).len(),
{
    v.len()
}

/// The binding at an index of a vector (indexing the slice that an `EcoVec` derefs to)
#[verifier::external_body]
pub(crate) fn binding_at(v: &EcoVec<BindingInfo>, i: usize) -> (r: &BindingInfo)
    requires
        i < binding_items(*v).len(),
    ensures
        *r == binding_items(*v)[i as int],
{
    &v[i]
}

/// Add a binding at the end of a vector (`EcoVec::push`)
#[verifier::external_body]
pub(crate) fn bindings_push(v: &mut EcoVec<BindingInfo>, x: BindingInfo)
    ensures
        binding_items(*final(v)) == binding_items(*old(v)).push(x),
{
    v.push(x)
}

/// Put a binding in place of the one at an index of a vector (`EcoVec::make_mut`, then
/// assigning to the slice it gives)
#[verifier::external_body]
pub(crate) fn bindings_set(v: &mut EcoVec<BindingInfo>, i: usize, x: BindingInfo)
    requires
        i < binding_items(*old(v)).len(),
    ensures
        binding_items(*final(v)) == binding_items(*old(v)).update(i as int, x),
{
    v.make_mut()[i] = x;
}

/// The data definitions that an `EcoVec` of them holds, in order
pub uninterp spec fn def_items(v: EcoVec<DefInfo>) -> Seq<DefInfo>;

/// Make an empty vector of data definitions (`EcoVec::new`)
#[verifier::external_body]
pub(crate) fn defs_new() -> (r: EcoVec<DefInfo>)
    ensures
        def_items(r) == Seq::<DefInfo>::empty(),
{
    EcoVec::new()
}

/// The number of data definitions in a vector (`EcoVec::len`)
#[verifier::external_body]
pub(crate) fn defs_len(v: &EcoVec<DefInfo>) -> (r: usize)
    ensures
        r == def_items(*v).len(),
{
    v.len()
}

/// The data definition at an index of a vector (indexing the slice that an `EcoVec` derefs to)
#[verifier::external_body]
pub(crate) fn def_at(v: &EcoVec<DefInfo>, i: usize) -> (r: &DefInfo)
    requires
        i < def_items(*v).len(),
    ensures
        *r == def_items(*v)[i as int],
{
    &v[i]
}

/// Add a data definition at the end of a vector (`EcoVec::push`)
#[verifier::external_body]
pub(crate) fn defs_push(v: &mut EcoVec<DefInfo>, x: DefInfo)
    ensures
        def_items(*final(v)) == def_items(*old(v)).push(x),
{
    v.push(x)
}

/// The spans that an `EcoVec` of spans holds, in order
pub uninterp spec fn span_items(v: EcoVec<Span>) -> Seq<Span>;

/// Make an empty vector of spans (`EcoVec::new`)
#[verifier::external_body]
pub(crate) fn spans_new() -> (r: EcoVec<Span>)
    ensures
        span_items(r) == Seq::<Span>::empty(),
{
    EcoVec::new()
}

/// The span at an index of a vector (indexing the slice that an `EcoVec` derefs to)
#[verifier::external_body]
pub(crate) fn span_at(v: &EcoVec<Span>, i: usize) -> (r: Span)
    requires
        i < span_items(*v).len(),
    ensures
        r == span_items(*v)[i as int],
{
    v[i]
}

/// Add a span at the end of a vector (`EcoVec::push`)
#[verifier::external_body]
pub(crate) fn spans_push(v: &mut EcoVec<Span>, x: Span)
    ensures
        span_items(*final(v)) == span_items(*old(v)).push(x),
{
    v.push(x)
}

/// The characters of each string that an `EcoVec` of strings holds, in order
pub uninterp spec fn string_items(v: EcoVec<EcoString>) -> Seq<Seq<char>>;

/// Make an empty vector of strings (`EcoVec::new`)
#[verifier::external_body]
pub(crate) fn strings_new() -> (r: EcoVec<EcoString>)
    ensures
        string_items(r) == Seq::<Seq<char>>::empty(),
{
    EcoVec::new()
}

/// The number of strings in a vector (`EcoVec::len`)
#[verifier::external_body]
pub(crate) fn strings_len(v: &EcoVec<EcoString>) -> (r: usize)
    ensures
        r == string_items(*v).len(),
{
    v.len()
}

/// The string at an index of a vector (indexing the slice that an `EcoVec` derefs to)
#[verifier::external_body]
pub(crate) fn string_at(v: &EcoVec<EcoString>, i: usize) -> (r: &EcoString)
    requires
        i < string_items(*v).len(),
    ensures
        eco_chars(*r) == string_items(*v)[i as int],
{
    &v[i]
}

/// Add a string at the end of a vector (`EcoVec::push`)
#[verifier::external_body]
pub(crate) fn strings_push(v: &mut EcoVec<EcoString>, x: EcoString)
    ensures
        string_items(*final(v)) == string_items(*old(v)).push(eco_chars(x)),
{
    v.push(x)
}

/// Put a string in place of the one at an index of a vector (`EcoVec::make_mut`, then
/// assigning to the slice it gives)
#[verifier::external_body]
pub(crate) fn strings_set(v: &mut EcoVec<EcoString>, i: usize, x: EcoString)
    requires
        i < string_items(*old(v)).len(),
    ensures
        string_items(*final(v)) == string_items(*old(v)).update(i as int, eco_chars(x)),
{
    v.make_mut()[i] = x;
}

} // verus!
