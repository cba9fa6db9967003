//! Parsing primitives from the names that the formatter accepts
use vstd::prelude::*;
use vstd::utf8::encode_utf8;

use super::lookup::{first_match, has_name, lemma_first_match_here, lemma_first_match_skip};
use super::Primitive;
use crate::sys::SysOp;
use crate::text::str_eq;

verus! {

/// Whether a character is uppercase (`char::is_uppercase`), as the Unicode tables say
pub uninterp spec fn char_is_uppercase(c: char) -> bool;

/// Whether a character has the Unicode `Uppercase` property (`char::is_uppercase`).
/// Of ASCII characters exactly `A` to `Z` have it; of other characters nothing is stated.
#[verifier::external_body]
pub(crate) fn is_uppercase(c: char) -> (r: bool)
    ensures
        r == char_is_uppercase(c),
        (c as u32) < 128 ==> (r <==> ('A' <= c && c <= 'Z')),
{
    c.is_uppercase()
}

/// The number of bytes of the UTF-8 encoding of a text
pub open spec fn byte_len(s: Seq<char>) -> int {
    encode_utf8(s).len() as int
}

/// Whether a text holds an uppercase character
pub open spec fn has_uppercase(s: Seq<char>) -> bool {
    exists|i: int| 0 <= i < s.len() && char_is_uppercase(#[trigger] s[i])
}

/// Whether a primitive's alias list holds the given text
pub open spec fn has_alias(name: Seq<char>) -> spec_fn(Primitive) -> bool {
    |p: Primitive|
        match p.spec_aliases() {
            Some(aliases) => aliases.contains(name),
            None => false,
        }
}

/// Whether a primitive has no glyph and the given name
pub open spec fn glyphless_named(name: Seq<char>) -> spec_fn(Primitive) -> bool {
    |p: Primitive| p.spec_glyph() is None && p.spec_name() == name
}

/// Whether a system function has the given name
pub open spec fn sys_named(name: Seq<char>) -> spec_fn(SysOp) -> bool {
    |s: SysOp| s.spec_name() == name
}

/// Whether a primitive has a glyph and a name that starts with the given text
pub open spec fn glyph_name_starts_with(prefix: Seq<char>) -> spec_fn(Primitive) -> bool {
    |p: Primitive| p.spec_glyph() is Some && prefix.is_prefix_of(p.spec_name())
}

/// The primitives whose glyph-bearing names a prefix could abbreviate
pub open spec fn prefix_matches(name: Seq<char>) -> Seq<Primitive> {
    Primitive::spec_non_deprecated().filter(glyph_name_starts_with(name))
}

/// The primitive that the formatter reads from a name
pub open spec fn spec_from_format_name(name: Seq<char>) -> Option<Primitive> {
    if has_uppercase(name) || byte_len(name) < 2 {
        None
    } else if first_match(Primitive::spec_alias_table(), has_alias(name)) is Some {
        first_match(Primitive::spec_alias_table(), has_alias(name))
    } else if first_match(Primitive::spec_non_deprecated(), has_name(name)) is Some {
        first_match(Primitive::spec_non_deprecated(), has_name(name))
    } else if first_match(Primitive::spec_all(), glyphless_named(name)) is Some {
        first_match(Primitive::spec_all(), glyphless_named(name))
    } else if first_match(SysOp::spec_all(), sys_named(name)) is Some {
        Some(Primitive::Sys(first_match(SysOp::spec_all(), sys_named(name)).unwrap()))
    } else if byte_len(name) < 3 {
        None
    } else {
        let m = prefix_matches(name);
        if m.len() == 0 {
            None
        } else if m[0].spec_name() == name || m.len() == 1 {
            Some(m[0])
        } else {
            None
        }
    }
}

/// Whether `a` starts with `b`
pub fn str_starts_with(a: &str, b: &str) -> (r: bool)
    ensures
        r == b@.is_prefix_of(a@),
{
    let n = b.unicode_len();
    if n > a.unicode_len() {
        return false;
    }
    let mut i: usize = 0;
    while i < n
        invariant
            n == b@.len(),
            n <= a@.len(),
            i <= n,
            forall|k: int| 0 <= k < i ==> a@[k] == b@[k],
        decreases n - i,
    {
        if a.get_char(i) != b.get_char(i) {
            return false;
        }
        i += 1;
    }
    true
}

/// Whether a text holds an uppercase character
fn any_uppercase(s: &str) -> (r: bool)
    ensures
        r == has_uppercase(s@),
{
    let n = s.unicode_len();
    let mut i: usize = 0;
    while i < n
        invariant
            n == s@.len(),
            i <= n,
            forall|k: int| 0 <= k < i ==> !char_is_uppercase(#[trigger] s@[k]),
        decreases n - i,
    {
        if is_uppercase(s.get_char(i)) {
            return true;
        }
        i += 1;
    }
    false
}

/// Find the primitive whose alias list holds the name
fn alias_lookup(name: &str) -> (r: Option<Primitive>)
    ensures
        r == first_match(Primitive::spec_alias_table(), has_alias(name@)),
{
    let ghost pred = has_alias(name@);
    let table = Primitive::alias_table();
    let mut i: usize = 0;
    assert(table@.skip(0) =~= table@);
    while i < table.len()
        invariant
            table@ == Primitive::spec_alias_table(),
            i <= table@.len(),
            pred == has_alias(name@),
            first_match(table@, pred) == first_match(table@.skip(i as int), pred),
        decreases table@.len() - i,
    {
        let p = table[i];
        assert(p.spec_aliases() is Some);
        let aliases = p.aliases();
        let mut j: usize = 0;
        let mut found = false;
        while j < aliases.len()
            invariant
                p.spec_aliases() is Some,
                aliases@.len() == p.spec_aliases().unwrap().len(),
                forall|k: int| 0 <= k < aliases@.len() ==> #[trigger] aliases@[k]@ == p.spec_aliases().unwrap()[k],
                j <= aliases@.len(),
                found ==> p.spec_aliases().unwrap().contains(name@),
                !found ==> forall|k: int| 0 <= k < j ==> p.spec_aliases().unwrap()[k] != name@,
            decreases aliases@.len() - j,
        {
            if str_eq(aliases[j], name) {
                assert(p.spec_aliases().unwrap()[j as int] == name@);
                found = true;
            }
            j += 1;
        }
        if found {
            proof {
                lemma_first_match_here(table@, pred, i as int);
            }
            return Some(p);
        }
        proof {
            assert(!p.spec_aliases().unwrap().contains(name@));
            lemma_first_match_skip(table@, pred, i as int);
        }
        i += 1;
    }
    None
}

/// Find the first primitive of a list that has the given name
fn find_named(list: &Vec<Primitive>, name: &str) -> (r: Option<Primitive>)
    ensures
        r == first_match(list@, has_name(name@)),
{
    let ghost pred = has_name(name@);
    let mut i: usize = 0;
    assert(list@.skip(0) =~= list@);
    while i < list.len()
        invariant
            i <= list@.len(),
            pred == has_name(name@),
            first_match(list@, pred) == first_match(list@.skip(i as int), pred),
        decreases list@.len() - i,
    {
        if str_eq(list[i].name(), name) {
            proof {
                lemma_first_match_here(list@, pred, i as int);
            }
            return Some(list[i]);
        }
        proof {
            lemma_first_match_skip(list@, pred, i as int);
        }
        i += 1;
    }
    None
}

/// Find the first primitive without a glyph that has the given name
fn find_glyphless_named(name: &str) -> (r: Option<Primitive>)
    ensures
        r == first_match(Primitive::spec_all(), glyphless_named(name@)),
{
    let ghost pred = glyphless_named(name@);
    let list = Primitive::all();
    let mut i: usize = 0;
    assert(list@.skip(0) =~= list@);
    while i < list.len()
        invariant
            list@ == Primitive::spec_all(),
            i <= list@.len(),
            pred == glyphless_named(name@),
            first_match(list@, pred) == first_match(list@.skip(i as int), pred),
        decreases list@.len() - i,
    {
        if list[i].glyph().is_none() && str_eq(list[i].name(), name) {
            proof {
                lemma_first_match_here(list@, pred, i as int);
            }
            return Some(list[i]);
        }
        proof {
            lemma_first_match_skip(list@, pred, i as int);
        }
        i += 1;
    }
    None
}

/// Find the system function with the given name
fn find_sys_named(name: &str) -> (r: Option<SysOp>)
    ensures
        r == first_match(SysOp::spec_all(), sys_named(name@)),
{
    let ghost pred = sys_named(name@);
    let list = SysOp::all();
    let mut i: usize = 0;
    assert(list@.skip(0) =~= list@);
    while i < list.len()
        invariant
            list@ == SysOp::spec_all(),
            i <= list@.len(),
            pred == sys_named(name@),
            first_match(list@, pred) == first_match(list@.skip(i as int), pred),
        decreases list@.len() - i,
    {
        if str_eq(list[i].name(), name) {
            proof {
                lemma_first_match_here(list@, pred, i as int);
            }
            return Some(list[i]);
        }
        proof {
            lemma_first_match_skip(list@, pred, i as int);
        }
        i += 1;
    }
    None
}

/// The non-deprecated primitives with glyphs whose names start with the prefix
fn collect_prefix_matches(name: &str) -> (v: Vec<Primitive>)
    ensures
        v@ == prefix_matches(name@),
{
    let list = Primitive::non_deprecated();
    let ghost pred = glyph_name_starts_with(name@);
    let mut v: Vec<Primitive> = Vec::new();
    let mut i: usize = 0;
    while i < list.len()
        invariant
            list@ == Primitive::spec_non_deprecated(),
            pred == glyph_name_starts_with(name@),
            i <= list@.len(),
            v@ == list@.take(i as int).filter(pred),
        decreases list@.len() - i,
    {
        proof {
            assert(list@.take(i + 1).drop_last() =~= list@.take(i as int));
            reveal_with_fuel(Seq::<_>::filter, 1);
        }
        if list[i].glyph().is_some() && str_starts_with(list[i].name(), name) {
            v.push(list[i]);
        }
        i += 1;
    }
    proof {
        assert(list@.take(list@.len() as int) =~= list@);
    }
    v
}

impl Primitive {
    /// Try to parse a primitive from a name prefix
    pub fn from_format_name(name: &str) -> (r: Option<Primitive>)
        ensures
            r == spec_from_format_name(name@),
    {
        if any_uppercase(name) {
            return None;
        }
        let blen = name.as_bytes().len();
        if blen < 2 {
            return None;
        }
        if let Some(prim) = alias_lookup(name) {
            return Some(prim);
        }
        let non_deprecated = Primitive::non_deprecated();
        if let Some(prim) = find_named(&non_deprecated, name) {
            return Some(prim);
        }
        if let Some(prim) = find_glyphless_named(name) {
            return Some(prim);
        }
        if let Some(op) = find_sys_named(name) {
            return Some(Primitive::Sys(op));
        }
        if blen < 3 {
            return None;
        }
        let matching = collect_prefix_matches(name);
        if matching.len() == 0 {
            return None;
        }
        let res = matching[0];
        let exact_match = str_eq(res.name(), name);
        if exact_match || matching.len() == 1 {
            Some(res)
        } else {
            None
        }
    }
}

} // verus!
