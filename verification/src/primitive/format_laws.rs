//! Laws about the names that the formatter reads
use vstd::prelude::*;
use vstd::utf8::{encode_utf8, is_ascii_chars, is_ascii_chars_encode_utf8};

use super::format_name::{
    byte_len, glyph_name_starts_with, glyphless_named, has_alias, has_uppercase, prefix_matches,
    spec_from_format_name, sys_named,
};
use crate::sys::SysOp;
use super::laws::{
    alias_owner, lemma_aliases_decode, lemma_all_contains, lemma_name_decodes, lemma_names_distinct,
    primitive_named,
};
use super::lookup::{first_match, has_name, lemma_first_match_exists, lemma_first_match_sound};
use super::Primitive;

verus! {

broadcast use vstd::seq_lib::group_filter_ensures;

/// A text takes at least as many bytes as it has characters
pub proof fn lemma_byte_len_at_least_len(s: Seq<char>)
    ensures
        byte_len(s) >= s.len(),
    decreases s.len(),
{
    if s.len() > 0 {
        lemma_byte_len_at_least_len(s.drop_first());
    }
}

/// No alias is the name of a primitive
proof fn lemma_no_alias_is_a_name(p: Primitive)
    ensures
        first_match(Primitive::spec_alias_table(), has_alias(p.spec_name())) is None,
{
    let table = Primitive::spec_alias_table();
    let pred = has_alias(p.spec_name());
    lemma_first_match_sound(table, pred);
    if let Some(q) = first_match(table, pred) {
        let aliases = q.spec_aliases().unwrap();
        let k = choose|k: int| 0 <= k < aliases.len() && aliases[k] == p.spec_name();
        lemma_aliases_decode(q, k);
        lemma_name_decodes(p);
    }
}

/// The full name of a non-deprecated primitive reads back as that primitive, when the name
/// holds no uppercase character
pub proof fn lemma_from_format_name_round_trip(p: Primitive)
    requires
        !p.spec_is_deprecated(),
        !has_uppercase(p.spec_name()),
    ensures
        spec_from_format_name(p.spec_name()) == Some(p),
{
    let name = p.spec_name();
    lemma_name_decodes(p);
    lemma_byte_len_at_least_len(name);
    lemma_no_alias_is_a_name(p);
    let all = Primitive::spec_all();
    let nd = Primitive::spec_non_deprecated();
    lemma_all_contains(p);
    let i = choose|i: int| 0 <= i < all.len() && all[i] == p;
    all.lemma_filter_contains(|q: Primitive| !q.spec_is_deprecated(), i);
    let j = choose|j: int| 0 <= j < nd.len() && nd[j] == p;
    let pred = has_name(name);
    lemma_first_match_exists(nd, pred, j);
    lemma_first_match_sound(nd, pred);
    let q = first_match(nd, pred).unwrap();
    if q != p {
        lemma_names_distinct(p, q);
    }
}

/// An alias reads as the primitive it belongs to, when it holds no uppercase character
pub proof fn lemma_from_format_name_alias(q: Primitive, k: int)
    requires
        q.spec_aliases() is Some,
        0 <= k < q.spec_aliases().unwrap().len(),
        !has_uppercase(q.spec_aliases().unwrap()[k]),
    ensures
        spec_from_format_name(q.spec_aliases().unwrap()[k]) == Some(q),
{
    let a = q.spec_aliases().unwrap()[k];
    lemma_aliases_decode(q, k);
    is_ascii_chars_encode_utf8(a);
    let table = Primitive::spec_alias_table();
    let pred = has_alias(a);
    let i = choose|i: int| 0 <= i < table.len() && table[i] == q;
    assert(q.spec_aliases().unwrap().contains(a));
    lemma_first_match_exists(table, pred, i);
    lemma_first_match_sound(table, pred);
    let r = first_match(table, pred).unwrap();
    let aliases = r.spec_aliases().unwrap();
    let j = choose|j: int| 0 <= j < aliases.len() && aliases[j] == a;
    lemma_aliases_decode(r, j);
}


/// A prefix that two glyph primitives' names both start with, that names no primitive exactly,
/// that is no alias and no system function's name, is ambiguous and reads as no primitive
pub proof fn lemma_ambiguous_prefix(name: Seq<char>, p: Primitive, q: Primitive)
    requires
        p != q,
        Primitive::spec_non_deprecated().contains(p),
        Primitive::spec_non_deprecated().contains(q),
        p.spec_glyph() is Some,
        q.spec_glyph() is Some,
        name.is_prefix_of(p.spec_name()),
        name.is_prefix_of(q.spec_name()),
        forall|r: Primitive| #[trigger] r.spec_name() != name,
        forall|r: Primitive| #![trigger r.spec_aliases()] r.spec_aliases() matches Some(a) ==> !a.contains(name),
        forall|s: SysOp| #[trigger] s.spec_name() != name,
    ensures
        spec_from_format_name(name) is None,
{
    lemma_first_match_sound(Primitive::spec_alias_table(), has_alias(name));
    lemma_first_match_sound(Primitive::spec_non_deprecated(), has_name(name));
    lemma_first_match_sound(Primitive::spec_all(), glyphless_named(name));
    lemma_first_match_sound(SysOp::spec_all(), sys_named(name));
    let nd = Primitive::spec_non_deprecated();
    let m = prefix_matches(name);
    let i = choose|i: int| 0 <= i < nd.len() && nd[i] == p;
    let j = choose|j: int| 0 <= j < nd.len() && nd[j] == q;
    nd.lemma_filter_contains(glyph_name_starts_with(name), i);
    nd.lemma_filter_contains(glyph_name_starts_with(name), j);
    assert(m.contains(p) && m.contains(q));
    if m.len() < 2 {
        let a = choose|a: int| 0 <= a < m.len() && m[a] == p;
        let b = choose|b: int| 0 <= b < m.len() && m[b] == q;
        assert(a == 0 && b == 0);
    }
    if m.len() > 0 {
        assert(m[0].spec_name() != name);
    }
}

} // verus!
