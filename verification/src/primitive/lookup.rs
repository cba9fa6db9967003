//! Looking primitives up by their names, glyphs and tokens
use vstd::prelude::*;

use super::{AsciiToken, PrimClass, PrimNames, Primitive};
use crate::text::{char_string, str_eq};
use crate::Signature;

verus! {

/// The first element of `s` that satisfies `pred`
pub open spec fn first_match<T>(s: Seq<T>, pred: spec_fn(T) -> bool) -> Option<T>
    decreases s.len(),
{
    if s.len() == 0 {
        None
    } else if pred(s[0]) {
        Some(s[0])
    } else {
        first_match(s.drop_first(), pred)
    }
}

/// Skipping an element that does not match keeps the first match
pub proof fn lemma_first_match_skip<T>(s: Seq<T>, pred: spec_fn(T) -> bool, i: int)
    requires
        0 <= i < s.len(),
        !pred(s[i]),
    ensures
        first_match(s.skip(i), pred) == first_match(s.skip(i + 1), pred),
{
    assert(s.skip(i).drop_first() =~= s.skip(i + 1));
}

/// A match at position `i` is the first match of the suffix that starts there
pub proof fn lemma_first_match_here<T>(s: Seq<T>, pred: spec_fn(T) -> bool, i: int)
    requires
        0 <= i < s.len(),
        pred(s[i]),
    ensures
        first_match(s.skip(i), pred) == Some(s[i]),
{
}

/// The first match is an element that satisfies the predicate
pub proof fn lemma_first_match_sound<T>(s: Seq<T>, pred: spec_fn(T) -> bool)
    ensures
        first_match(s, pred) matches Some(x) ==> pred(x) && s.contains(x),
        first_match(s, pred) is None ==> forall|i: int| 0 <= i < s.len() ==> !pred(#[trigger] s[i]),
    decreases s.len(),
{
    if s.len() > 0 && !pred(s[0]) {
        lemma_first_match_sound(s.drop_first(), pred);
        if let Some(x) = first_match(s, pred) {
            let j = choose|j: int| 0 <= j < s.drop_first().len() && s.drop_first()[j] == x;
            assert(s[j + 1] == x);
        } else {
            assert forall|i: int| 0 <= i < s.len() implies !pred(#[trigger] s[i]) by {
                if i > 0 {
                    assert(s[i] == s.drop_first()[i - 1]);
                }
            }
        }
    } else if s.len() > 0 {
        assert(s[0] == s[0]);
    }
}

/// If some element satisfies the predicate, there is a first match
pub proof fn lemma_first_match_exists<T>(s: Seq<T>, pred: spec_fn(T) -> bool, i: int)
    requires
        0 <= i < s.len(),
        pred(s[i]),
    ensures
        first_match(s, pred) is Some,
    decreases s.len(),
{
    if !pred(s[0]) {
        assert(s.drop_first()[i - 1] == s[i]);
        lemma_first_match_exists(s.drop_first(), pred, i - 1);
    }
}

/// Whether a primitive has the given name
pub open spec fn has_name(name: Seq<char>) -> spec_fn(Primitive) -> bool {
    |p: Primitive| p.spec_name() == name
}

/// Whether a primitive has the given ASCII token
pub open spec fn has_ascii(a: AsciiToken) -> spec_fn(Primitive) -> bool {
    |p: Primitive| p.spec_ascii() == Some(a)
}

/// Whether a primitive has the given glyph
pub open spec fn has_glyph(c: char) -> spec_fn(Primitive) -> bool {
    |p: Primitive| p.spec_glyph() == Some(c)
}

impl Primitive {
    /// The constants among the primitives
    pub open spec fn spec_is_constant(self) -> bool {
        self is Eta || self is Pi || self is Tau || self is Infinity
    }

    /// The experimental primitives
    pub open spec fn spec_is_experimental(self) -> bool {
        ||| self is Reach
        ||| self is Slf
        ||| self is Above
        ||| self is Around
        ||| self is Or
        ||| self is Base
        ||| self is Astar
        ||| self is Stringify
        ||| self is Quote
        ||| self is Sig
    }

    /// The signature of the primitive, when both its argument and output counts are fixed
    pub open spec fn spec_sig(self) -> Option<Signature> {
        match (self.spec_args(), self.spec_outputs()) {
            (Some(args), Some(outputs)) => Some(Signature { args, outputs }),
            _ => None,
        }
    }

    /// How the primitive displays: its glyph, else its ASCII token, else its name
    pub open spec fn spec_text(self) -> Seq<char> {
        match self.spec_glyph() {
            Some(c) => seq![c],
            None => match self.spec_ascii() {
                Some(a) => a.spec_text(),
                None => self.spec_name(),
            },
        }
    }

    /// How the primitive is pretty-printed: its glyph and its name, or its text without a glyph
    pub open spec fn spec_format_text(self) -> Seq<char> {
        if self.spec_glyph() is None {
            self.spec_text()
        } else {
            self.spec_text() + " "@ + self.spec_name()
        }
    }

    /// The primitives that have a glyph, in declaration order
    pub open spec fn spec_non_deprecated() -> Seq<Primitive> {
        Self::spec_all().filter(|p: Primitive| !p.spec_is_deprecated())
    }

    /// Get the primitive's names
    pub fn names(&self) -> (r: PrimNames)
        ensures
            r.text@ == self.spec_name(),
            r.ascii == self.spec_ascii(),
            r.glyph == self.spec_glyph(),
    {
        PrimNames { text: self.name(), ascii: self.ascii(), glyph: self.glyph() }
    }

    /// Get the primitive's signature, if it is always well-defined
    pub fn sig(&self) -> (r: Option<Signature>)
        ensures
            r == self.spec_sig(),
    {
        match (self.args(), self.outputs()) {
            (Some(args), Some(outputs)) => Some(Signature { args, outputs }),
            _ => None,
        }
    }

    /// Check if this primitive is a modifier
    pub fn is_modifier(&self) -> (r: bool)
        ensures
            r == self.spec_modifier_args() is Some,
    {
        self.modifier_args().is_some()
    }

    /// Check if this primitive is a constant
    pub fn is_constant(&self) -> (r: bool)
        ensures
            r == self.spec_is_constant(),
    {
        match self {
            Primitive::Eta | Primitive::Pi | Primitive::Tau | Primitive::Infinity => true,
            _ => false,
        }
    }

    /// Check if this primitive is experimental
    pub fn is_experimental(&self) -> (r: bool)
        ensures
            r == self.spec_is_experimental(),
    {
        match self {
            Primitive::Reach | Primitive::Slf | Primitive::Above | Primitive::Around => true,
            Primitive::Or | Primitive::Base => true,
            Primitive::Astar => true,
            Primitive::Stringify | Primitive::Quote | Primitive::Sig => true,
            _ => false,
        }
    }

    /// Display the primitive: its glyph, else its ASCII token, else its name
    pub fn to_string(&self) -> (s: String)
        ensures
            s@ == self.spec_text(),
    {
        if let Some(c) = self.glyph() {
            char_string(c)
        } else if let Some(a) = self.ascii() {
            String::from_str(a.text())
        } else {
            String::from_str(self.name())
        }
    }

    /// Get a pretty-printable wrapper for this primitive
    pub fn format(&self) -> (r: FormatPrimitive)
        ensures
            r.0 == *self,
    {
        FormatPrimitive(*self)
    }

    /// Find a primitive by its text name
    pub fn from_name(name: &str) -> (r: Option<Primitive>)
        ensures
            r == first_match(Self::spec_all(), has_name(name@)),
    {
        let ghost pred = has_name(name@);
        let all = Self::all();
        let mut i: usize = 0;
        assert(all@.skip(0) =~= all@);
        while i < all.len()
            invariant
                all@ == Self::spec_all(),
                i <= all@.len(),
                pred == has_name(name@),
                first_match(all@, pred) == first_match(all@.skip(i as int), pred),
            decreases all@.len() - i,
        {
            if str_eq(all[i].name(), name) {
                proof {
                    lemma_first_match_here(all@, pred, i as int);
                }
                return Some(all[i]);
            }
            proof {
                lemma_first_match_skip(all@, pred, i as int);
            }
            i += 1;
        }
        None
    }

    /// Find a primitive by its ASCII token
    pub fn from_ascii(s: AsciiToken) -> (r: Option<Primitive>)
        ensures
            r == first_match(Self::spec_all(), has_ascii(s)),
    {
        let ghost pred = has_ascii(s);
        let all = Self::all();
        let mut i: usize = 0;
        assert(all@.skip(0) =~= all@);
        while i < all.len()
            invariant
                all@ == Self::spec_all(),
                i <= all@.len(),
                pred == has_ascii(s),
                first_match(all@, pred) == first_match(all@.skip(i as int), pred),
            decreases all@.len() - i,
        {
            if all[i].ascii() == Some(s) {
                proof {
                    lemma_first_match_here(all@, pred, i as int);
                }
                return Some(all[i]);
            }
            proof {
                lemma_first_match_skip(all@, pred, i as int);
            }
            i += 1;
        }
        None
    }

    /// Find a primitive by its glyph
    pub fn from_glyph(c: char) -> (r: Option<Primitive>)
        ensures
            r == first_match(Self::spec_all(), has_glyph(c)),
    {
        let ghost pred = has_glyph(c);
        let all = Self::all();
        let mut i: usize = 0;
        assert(all@.skip(0) =~= all@);
        while i < all.len()
            invariant
                all@ == Self::spec_all(),
                i <= all@.len(),
                pred == has_glyph(c),
                first_match(all@, pred) == first_match(all@.skip(i as int), pred),
            decreases all@.len() - i,
        {
            if all[i].glyph() == Some(c) {
                proof {
                    lemma_first_match_here(all@, pred, i as int);
                }
                return Some(all[i]);
            }
            proof {
                lemma_first_match_skip(all@, pred, i as int);
            }
            i += 1;
        }
        None
    }
}


impl Primitive {
    /// The short aliases of the primitive, for the primitives that have an entry in the alias table
    pub open spec fn spec_aliases(self) -> Option<Seq<Seq<char>>> {
        match self {
            Primitive::Identity => Some(seq!["id"@]),
            Primitive::Gap => Some(seq!["ga"@]),
            Primitive::Pop => Some(seq!["po"@]),
            Primitive::Fix => Some(seq!["fx"@]),
            Primitive::Box => Some(seq!["bx"@]),
            Primitive::IndexOf => Some(seq!["idx"@]),
            Primitive::Switch => Some(seq!["sw"@]),
            Primitive::Stencil => Some(seq!["st"@, "win"@]),
            Primitive::Floor => Some(seq!["flr"@, "flor"@]),
            Primitive::Range => Some(seq!["ran"@]),
            Primitive::Partition => Some(seq!["par"@]),
            Primitive::Dup => Some(seq!["dup"@]),
            Primitive::Deshape => Some(seq!["flat"@]),
            Primitive::Ne => Some(seq!["ne"@, "neq"@]),
            Primitive::Eq => Some(seq!["eq"@]),
            Primitive::Lt => Some(seq!["lt"@]),
            Primitive::Le => Some(seq!["le"@, "leq"@]),
            Primitive::Gt => Some(seq!["gt"@]),
            Primitive::Ge => Some(seq!["ge"@, "geq"@]),
            Primitive::Utf8 => Some(seq!["utf"@, "utf__8"@]),
            Primitive::First => Some(seq!["fst"@]),
            Primitive::Last => Some(seq!["lst"@]),
            Primitive::Slf => Some(seq!["slf"@]),
            Primitive::Select => Some(seq!["sel"@]),
            _ => None,
        }
    }

    /// The primitives of the alias table, in table order
    pub open spec fn spec_alias_table() -> Seq<Primitive> {
        seq![Primitive::Identity, Primitive::Gap, Primitive::Pop, Primitive::Fix, Primitive::Box, Primitive::IndexOf, Primitive::Switch, Primitive::Stencil, Primitive::Floor, Primitive::Range, Primitive::Partition, Primitive::Dup, Primitive::Deshape, Primitive::Ne, Primitive::Eq, Primitive::Lt, Primitive::Le, Primitive::Gt, Primitive::Ge, Primitive::Utf8, Primitive::First, Primitive::Last, Primitive::Slf, Primitive::Select]
    }

    /// The short aliases of the primitive: those of the alias table, and none where it has no
    /// entry there
    pub open spec fn spec_short_aliases(self) -> Seq<Seq<char>> {
        match self.spec_aliases() {
            Some(a) => a,
            None => seq![],
        }
    }

    /// Get the short aliases for this primitive
    pub fn aliases(&self) -> (r: &'static [&'static str])
        ensures
            r@.len() == self.spec_short_aliases().len(),
            forall|i: int| 0 <= i < r@.len() ==> #[trigger] r@[i]@ == self.spec_short_aliases()[i],
    {
        match self {
            Primitive::Identity => &["id"],
            Primitive::Gap => &["ga"],
            Primitive::Pop => &["po"],
            Primitive::Fix => &["fx"],
            Primitive::Box => &["bx"],
            Primitive::IndexOf => &["idx"],
            Primitive::Switch => &["sw"],
            Primitive::Stencil => &["st", "win"],
            Primitive::Floor => &["flr", "flor"],
            Primitive::Range => &["ran"],
            Primitive::Partition => &["par"],
            Primitive::Dup => &["dup"],
            Primitive::Deshape => &["flat"],
            Primitive::Ne => &["ne", "neq"],
            Primitive::Eq => &["eq"],
            Primitive::Lt => &["lt"],
            Primitive::Le => &["le", "leq"],
            Primitive::Gt => &["gt"],
            Primitive::Ge => &["ge", "geq"],
            Primitive::Utf8 => &["utf", "utf__8"],
            Primitive::First => &["fst"],
            Primitive::Last => &["lst"],
            Primitive::Slf => &["slf"],
            Primitive::Select => &["sel"],
            _ => &[],
        }
    }

    /// The primitives of the alias table, in table order
    pub fn alias_table() -> (v: Vec<Primitive>)
        ensures
            v@ == Self::spec_alias_table(),
    {
        let v = vec![Primitive::Identity, Primitive::Gap, Primitive::Pop, Primitive::Fix, Primitive::Box, Primitive::IndexOf, Primitive::Switch, Primitive::Stencil, Primitive::Floor, Primitive::Range, Primitive::Partition, Primitive::Dup, Primitive::Deshape, Primitive::Ne, Primitive::Eq, Primitive::Lt, Primitive::Le, Primitive::Gt, Primitive::Ge, Primitive::Utf8, Primitive::First, Primitive::Last, Primitive::Slf, Primitive::Select];
        assert(v@ =~= Self::spec_alias_table());
        v
    }
}


impl Primitive {
    /// The suggestion shown for a deprecated primitive
    pub open spec fn spec_deprecation(self) -> Option<Seq<char>> {
        match self {
            Primitive::Sig => Some("use (⋅⊢)^! instead"@),
            Primitive::Stringify => Some("use (◇repr⊢)^! instead"@),
            Primitive::Rerank => Some(
                "use subscripted "@ + Primitive::Deshape.spec_format_text() + " or "@
                    + Primitive::Un.spec_text() + Primitive::By.spec_text() + "("@
                    + Primitive::Len.spec_text() + Primitive::Shape.spec_text() + ") instead"@,
            ),
            Primitive::Trace => Some(
                "use subscripted "@ + Primitive::Stack.spec_format_text() + " instead"@,
            ),
            Primitive::Windows => Some(
                "use "@ + Primitive::Stencil.spec_format_text() + " "@
                    + Primitive::Identity.spec_format_text() + " instead"@,
            ),
            Primitive::Astar => Some("use "@ + Primitive::Path.spec_format_text() + " instead"@),
            Primitive::Over => Some(
                "use "@ + Primitive::With.spec_text() + " or "@ + Primitive::Below.spec_text()
                    + " instead"@,
            ),
            Primitive::Around => Some(
                "use "@ + Primitive::On.spec_text() + Primitive::Flip.spec_text() + ", "@
                    + Primitive::Off.spec_text() + Primitive::Identity.spec_text()
                    + ", or sided subscripts instead"@,
            ),
            _ => None,
        }
    }

    /// Whether the primitive is deprecated
    pub open spec fn spec_is_deprecated(self) -> bool {
        self.spec_deprecation() is Some
    }

    /// The suggestion shown for a deprecated primitive
    pub fn deprecation_suggestion(&self) -> (r: Option<String>)
        ensures
            r matches Some(s) ==> self.spec_deprecation() == Some(s@),
            r is None ==> self.spec_deprecation() is None,
    {
        match self {
            Primitive::Sig => Some(String::from_str("use (⋅⊢)^! instead")),
            Primitive::Stringify => Some(String::from_str("use (◇repr⊢)^! instead")),
            Primitive::Rerank => Some(
                String::from_str("use subscripted ").concat(
                    Primitive::Deshape.format().to_string().as_str(),
                ).concat(" or ").concat(Primitive::Un.to_string().as_str()).concat(
                    Primitive::By.to_string().as_str(),
                ).concat("(").concat(Primitive::Len.to_string().as_str()).concat(
                    Primitive::Shape.to_string().as_str(),
                ).concat(") instead"),
            ),
            Primitive::Trace => Some(
                String::from_str("use subscripted ").concat(
                    Primitive::Stack.format().to_string().as_str(),
                ).concat(" instead"),
            ),
            Primitive::Windows => Some(
                String::from_str("use ").concat(
                    Primitive::Stencil.format().to_string().as_str(),
                ).concat(" ").concat(Primitive::Identity.format().to_string().as_str()).concat(
                    " instead",
                ),
            ),
            Primitive::Astar => Some(
                String::from_str("use ").concat(Primitive::Path.format().to_string().as_str()).concat(
                    " instead",
                ),
            ),
            Primitive::Over => Some(
                String::from_str("use ").concat(Primitive::With.to_string().as_str()).concat(
                    " or ",
                ).concat(Primitive::Below.to_string().as_str()).concat(" instead"),
            ),
            Primitive::Around => Some(
                String::from_str("use ").concat(Primitive::On.to_string().as_str()).concat(
                    Primitive::Flip.to_string().as_str(),
                ).concat(", ").concat(Primitive::Off.to_string().as_str()).concat(
                    Primitive::Identity.to_string().as_str(),
                ).concat(", or sided subscripts instead"),
            ),
            _ => None,
        }
    }

    /// Check if this primitive is deprecated
    pub fn is_deprecated(&self) -> (r: bool)
        ensures
            r == self.spec_is_deprecated(),
    {
        self.deprecation_suggestion().is_some()
    }

    /// Get every non-deprecated primitive, in declaration order
    pub fn non_deprecated() -> (v: Vec<Primitive>)
        ensures
            v@ == Self::spec_non_deprecated(),
    {
        let all = Self::all();
        let mut v: Vec<Primitive> = Vec::new();
        let mut i: usize = 0;
        while i < all.len()
            invariant
                all@ == Self::spec_all(),
                i <= all@.len(),
                v@ == all@.take(i as int).filter(|p: Primitive| !p.spec_is_deprecated()),
            decreases all@.len() - i,
        {
            proof {
                assert(all@.take(i + 1).drop_last() =~= all@.take(i as int));
                reveal_with_fuel(Seq::<_>::filter, 1);
            }
            if !all[i].is_deprecated() {
                v.push(all[i]);
            }
            i += 1;
        }
        proof {
            assert(all@.take(all@.len() as int) =~= all@);
        }
        v
    }
}

impl PrimClass {
    /// The primitives of this class, in declaration order
    pub open spec fn spec_primitives(self) -> Seq<Primitive> {
        Primitive::spec_all().filter(|p: Primitive| p.spec_class() == self)
    }

    /// Get all primitives in this class
    pub fn primitives(self) -> (v: Vec<Primitive>)
        ensures
            v@ == self.spec_primitives(),
    {
        let all = Primitive::all();
        let mut v: Vec<Primitive> = Vec::new();
        let mut i: usize = 0;
        while i < all.len()
            invariant
                all@ == Primitive::spec_all(),
                i <= all@.len(),
                v@ == all@.take(i as int).filter(|p: Primitive| p.spec_class() == self),
            decreases all@.len() - i,
        {
            proof {
                assert(all@.take(i + 1).drop_last() =~= all@.take(i as int));
                reveal_with_fuel(Seq::<_>::filter, 1);
            }
            if all[i].class() == self {
                v.push(all[i]);
            }
            i += 1;
        }
        proof {
            assert(all@.take(all@.len() as int) =~= all@);
        }
        v
    }
}

/// A wrapper that nicely prints a `Primitive`
#[derive(Clone, Copy, PartialEq, Eq, Structural)]
pub struct FormatPrimitive(pub Primitive);

impl FormatPrimitive {
    /// Display the primitive with its glyph and its name
    pub fn to_string(&self) -> (s: String)
        ensures
            s@ == self.0.spec_format_text(),
    {
        let text = self.0.to_string();
        if self.0.glyph().is_none() {
            text
        } else {
            text.concat(" ").concat(self.0.name())
        }
    }
}

} // verus!
