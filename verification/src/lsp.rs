//! What editors are told about code: documentation of bindings, declared signatures, the
//! inverses that `obverse` sets and where modules come from
use vstd::prelude::*;

use crate::assembly::{
    Assembly, BindingInfo, BindingKind, BindingMeta, CodeSpan, DocComment, LocalName, Module,
};
use crate::eco::{binding_at, binding_items};
use crate::doc_sig::{comment_sig, comment_text, opt_sig_view, plural};
use crate::text::str_eq;
use crate::value::Value;
use crate::Signature;

verus! {

/// Which inverses were set by `obverse`
#[derive(Debug, Clone, Copy, PartialEq, Eq, Structural)]
pub struct SetInverses {
    /// Whether the `un` inverse was set
    pub un: bool,
    /// Whether the `anti` inverse was set
    pub anti: bool,
    /// Whether the `under` inverse was set
    pub under: bool,
}

impl Default for SetInverses {
    fn default() -> (s: Self)
        ensures
            !s.un && !s.anti && !s.under,
    {
        SetInverses { un: false, anti: false, under: false }
    }
}

/// What is written between the names of set inverses: nothing before the first, `and` between
/// two, and commas between three, the last with `and`
pub open spec fn inverse_separator(i: int, count: nat) -> Seq<char> {
    if i == 0 {
        ""@
    } else if count == 2 {
        " and "@
    } else if count == 3 && i == 1 {
        ", "@
    } else if count == 3 && i == 2 {
        ", and "@
    } else {
        ""@
    }
}

/// The text for one inverse: its separator and name where it is set, nothing otherwise
pub open spec fn inverse_piece(is_set: bool, i: int, count: nat, name: Seq<char>) -> Seq<char> {
    if is_set {
        inverse_separator(i, count) + name
    } else {
        ""@
    }
}

impl SetInverses {
    /// The number of inverses that were set
    pub open spec fn count(self) -> nat {
        (if self.un {
            1nat
        } else {
            0nat
        }) + (if self.anti {
            1nat
        } else {
            0nat
        }) + (if self.under {
            1nat
        } else {
            0nat
        })
    }

    /// The text that names the set inverses, given the names of `un`, `anti` and `under`:
    /// nothing when none is set, else `Sets `, the names and `inverse here` or `inverses here`
    pub open spec fn spec_text_with(self, un: Seq<char>, anti: Seq<char>, under: Seq<char>) -> Seq<
        char,
    > {
        let count = self.count();
        if count == 0 {
            ""@
        } else {
            "Sets "@ + inverse_piece(self.un, 0, count, un) + inverse_piece(
                self.anti,
                1,
                count,
                anti,
            ) + inverse_piece(self.under, 2, count, under) + " inverse"@ + plural(count)
                + " here"@
        }
    }

    /// Whether no inverses were set
    pub fn is_empty(&self) -> (r: bool)
        ensures
            r == !(self.un || self.anti || self.under),
    {
        !(self.un || self.anti || self.under)
    }

    /// Describe the set inverses by their glyphs and names
    pub fn to_string(&self) -> (s: String)
        ensures
            s@ == self.spec_text_with("° un"@, "⌝ anti"@, "⍜ under"@),
    {
        format_set_inverses(*self, "° un", "⌝ anti", "⍜ under")
    }
}

/// The text for one inverse
fn inverse_piece_exec(is_set: bool, i: usize, count: usize, name: &str) -> (s: String)
    ensures
        s@ == inverse_piece(is_set, i as int, count as nat, name@),
{
    proof {
        reveal_strlit("");
    }
    if !is_set {
        return String::new();
    }
    let sep = if i == 0 {
        ""
    } else if count == 2 {
        " and "
    } else if count == 3 && i == 1 {
        ", "
    } else if count == 3 && i == 2 {
        ", and "
    } else {
        ""
    };
    String::from_str(sep).concat(name)
}

/// Describe the set inverses, given the names of `un`, `anti` and `under`
fn format_set_inverses(set: SetInverses, un: &str, anti: &str, under: &str) -> (s: String)
    ensures
        s@ == set.spec_text_with(un@, anti@, under@),
{
    let count: usize = (if set.un {
        1
    } else {
        0
    }) + (if set.anti {
        1
    } else {
        0
    }) + (if set.under {
        1
    } else {
        0
    });
    proof {
        reveal_strlit("");
    }
    if count == 0 {
        return String::new();
    }
    let s = String::from_str("Sets ");
    let s = s.concat(inverse_piece_exec(set.un, 0, count, un).as_str());
    let s = s.concat(inverse_piece_exec(set.anti, 1, count, anti).as_str());
    let s = s.concat(inverse_piece_exec(set.under, 2, count, under).as_str());
    let s = s.concat(" inverse").concat(
        if count == 1 {
            ""
        } else {
            "s"
        },
    );
    s.concat(" here")
}

/// Data for the signature of a function
#[derive(Debug, Clone, Copy)]
pub struct SigDecl {
    /// The signature itself
    pub sig: Signature,
    /// Whether the signature is explicitely declared
    pub explicit: bool,
    /// Whether the function is inline
    pub inline: bool,
    /// Inverses
    pub set_inverses: SetInverses,
}

/// The source of an imported module
pub enum ImportSrc {
    /// A Git URL
    Git(String),
    /// A file path
    File(String),
}

/// Code metadata for use in IDE tools, each map held as a list of entries
pub struct CodeMeta {
    /// References to global bindings, by the index of the binding
    pub global_references: Vec<(CodeSpan, usize)>,
    /// References to shadowable constants, by their names
    pub constant_references: Vec<(CodeSpan, String)>,
    /// Spans of functions and their signatures and whether they are explicit
    pub function_sigs: Vec<(CodeSpan, SigDecl)>,
    /// Macro invocations and their expansions
    pub macro_expansions: Vec<(CodeSpan, Option<String>, String)>,
    /// Inline macro functions and their numbers of arguments
    pub inline_macros: Vec<(CodeSpan, usize)>,
    /// Incomplete ref paths and their modules' indices
    pub incomplete_refs: Vec<(CodeSpan, usize)>,
    /// Top-level binding names and their indices
    pub top_level_names: Vec<(String, LocalName)>,
    /// The spans of top-level lines and their values
    pub top_level_values: Vec<(CodeSpan, Vec<Value>)>,
    /// Strand spans and the spans of their items
    pub strands: Vec<(CodeSpan, Vec<CodeSpan>)>,
    /// Array spans and the spans of their items
    pub array_inner_spans: Vec<(CodeSpan, Vec<CodeSpan>)>,
    /// Array spans and the shapes of the arrays
    pub array_shapes: Vec<(CodeSpan, Vec<usize>)>,
    /// Module spans and their sources
    pub import_srcs: Vec<(CodeSpan, ImportSrc)>,
    /// Obverse spans and the inverses they set
    pub obverses: Vec<(CodeSpan, SetInverses)>,
}

impl Default for CodeMeta {
    fn default() -> (m: Self)
        ensures
            m.global_references@.len() == 0,
            m.constant_references@.len() == 0,
            m.function_sigs@.len() == 0,
            m.macro_expansions@.len() == 0,
            m.inline_macros@.len() == 0,
            m.incomplete_refs@.len() == 0,
            m.top_level_names@.len() == 0,
            m.top_level_values@.len() == 0,
            m.strands@.len() == 0,
            m.array_inner_spans@.len() == 0,
            m.array_shapes@.len() == 0,
            m.import_srcs@.len() == 0,
            m.obverses@.len() == 0,
    {
        CodeMeta {
            global_references: Vec::new(),
            constant_references: Vec::new(),
            function_sigs: Vec::new(),
            macro_expansions: Vec::new(),
            inline_macros: Vec::new(),
            incomplete_refs: Vec::new(),
            top_level_names: Vec::new(),
            top_level_values: Vec::new(),
            strands: Vec::new(),
            array_inner_spans: Vec::new(),
            array_shapes: Vec::new(),
            import_srcs: Vec::new(),
            obverses: Vec::new(),
        }
    }
}

/// The kind of a binding
pub enum BindingDocsKind {
    /// A constant
    Constant(Option<Value>),
    /// A function
    Function {
        /// The signature of the function
        sig: Signature,
        /// Whether the function is invertible
        invertible: bool,
        /// Whether the function is underable
        underable: bool,
        /// Whether the function is pure
        pure: bool,
    },
    /// A modifier
    Modifier(usize),
    /// A module
    Module {
        /// The signature of the module's `New` function
        sig: Option<Signature>,
    },
    /// An error
    Error,
}

/// Documentation information for a binding
pub struct BindingDocs {
    /// The span of the binding name where it was defined
    pub src_span: CodeSpan,
    /// Whether the binding is public
    pub is_public: bool,
    /// The specific binding kind
    pub kind: BindingDocsKind,
    /// An escape code used to type a glyph
    pub escape: Option<String>,
    /// Metadata about the binding
    pub meta: BindingMeta,
}

/// What the docs of a binding need to know that the binding itself does not hold
pub struct BindingFacts {
    /// The binding's name as it is written in the code
    pub name: String,
    /// For a function: whether it can be inverted with `un`
    pub invertible: bool,
    /// For a function: whether it can be inverted with `under`
    pub underable: bool,
    /// For a function: whether it is pure
    pub pure: bool,
    /// For a code macro: the number of arguments that its name says it takes
    pub macro_args: usize,
    /// The escape code that types the binding's glyph, where its name is a custom glyph
    pub escape: Option<String>,
}

/// The comment that some names are documented with in jest
pub open spec fn easter_egg(name: Seq<char>) -> Option<Seq<char>> {
    if name == "🦈"@ || name == "🏳️‍⚧️"@ {
        Some("Trans rights"@)
    } else if name == "🤠"@ {
        Some("This town ain't big enough for the ∩ of us"@)
    } else if name == "👽"@ {
        Some("Ayy, lmao"@)
    } else if name == "🐈"@ || name == "😺"@ || name == "😸"@ || name == "😹"@ || name == "😻"@
        || name == "😼"@ || name == "😽"@ || name == "🙀"@ || name == "🐱‍👤"@ {
        Some("Meow"@)
    } else if name == "🐕"@ || name == "🐶"@ || name == "🦮"@ || name == "🐕‍🦺"@ {
        Some("Woof"@)
    } else if name == "🐖"@ || name == "🐷"@ || name == "🐽"@ {
        Some("Oink"@)
    } else if name == "🐄"@ || name == "🐮"@ {
        Some("Moo"@)
    } else if name == "🐸"@ {
        Some("Ribbit"@)
    } else if name == "ඞ"@ {
        Some("SUS"@)
    } else {
        None
    }
}

/// Whether a name is one of some names
fn is_one_of(name: &str, a: &str, b: &str) -> (r: bool)
    ensures
        r == (name@ == a@ || name@ == b@),
{
    str_eq(name, a) || str_eq(name, b)
}

/// The comment that a name is documented with in jest, if any
fn easter_egg_exec(name: &str) -> (r: Option<&'static str>)
    ensures
        match r {
            Some(c) => easter_egg(name@) == Some(c@),
            None => easter_egg(name@) is None,
        },
{
    if is_one_of(name, "🦈", "🏳️‍⚧️") {
        Some("Trans rights")
    } else if str_eq(name, "🤠") {
        Some("This town ain't big enough for the ∩ of us")
    } else if str_eq(name, "👽") {
        Some("Ayy, lmao")
    } else if is_one_of(name, "🐈", "😺") || is_one_of(name, "😸", "😹") || is_one_of(name, "😻", "😼")
        || is_one_of(name, "😽", "🙀") || str_eq(name, "🐱‍👤") {
        Some("Meow")
    } else if is_one_of(name, "🐕", "🐶") || is_one_of(name, "🦮", "🐕‍🦺") {
        Some("Woof")
    } else if is_one_of(name, "🐖", "🐷") || str_eq(name, "🐽") {
        Some("Oink")
    } else if is_one_of(name, "🐄", "🐮") {
        Some("Moo")
    } else if str_eq(name, "🐸") {
        Some("Ribbit")
    } else if str_eq(name, "ඞ") {
        Some("SUS")
    } else {
        None
    }
}

/// The comment that a binding of a kind is documented with when it has none: `constant` for a
/// constant without a value, `module` for modules, `macro` for macros
pub open spec fn default_comment(kind: BindingKind) -> Option<Seq<char>> {
    match kind {
        BindingKind::Const(None) => Some("constant"@),
        BindingKind::Import(_) | BindingKind::Module(_) | BindingKind::Scope(_) => Some("module"@),
        BindingKind::IndexMacro(_) | BindingKind::CodeMacro(_) => Some("macro"@),
        _ => None,
    }
}

/// The comment that a binding of a kind is documented with when it has none
fn default_comment_exec(kind: &BindingKind) -> (r: Option<&'static str>)
    ensures
        match r {
            Some(c) => default_comment(*kind) == Some(c@),
            None => default_comment(*kind) is None,
        },
{
    match kind {
        BindingKind::Const(None) => Some("constant"),
        BindingKind::Import(_) | BindingKind::Module(_) | BindingKind::Scope(_) => Some("module"),
        BindingKind::IndexMacro(_) | BindingKind::CodeMacro(_) => Some("macro"),
        _ => None,
    }
}

/// A comment by its text and the view of its signature
pub open spec fn comment_view(c: DocComment) -> (
    Seq<char>,
    Option<
        (
            bool,
            Option<Seq<(Seq<char>, Option<Seq<char>>)>>,
            Option<Seq<(Seq<char>, Option<Seq<char>>)>>,
        ),
    >,
) {
    (crate::eco::eco_chars(c.text), opt_sig_view(c.sig))
}

/// Where the first name of a module's list that equals a text is bound
pub open spec fn module_lookup(names: Seq<(String, LocalName)>, key: Seq<char>) -> Option<LocalName>
    decreases names.len(),
{
    if names.len() == 0 {
        None
    } else if names[0].0@ == key {
        Some(names[0].1)
    } else {
        module_lookup(names.drop_first(), key)
    }
}

/// Where a module's `Call` function is bound, or else its `New` function
pub open spec fn module_sig_local(m: Module) -> Option<LocalName> {
    match module_lookup(m.names@, "Call"@) {
        Some(l) => Some(l),
        None => module_lookup(m.names@, "New"@),
    }
}

/// The signature that documents a module: that of its `Call` function, or else of its `New`
/// function
pub open spec fn module_sig(assembly: Assembly, m: Module) -> Option<Signature> {
    match module_sig_local(m) {
        Some(l) => binding_items(assembly.bindings)[l.index as int].kind.spec_sig(),
        None => None,
    }
}

/// Find where the first name of a module's list that equals a text is bound
fn module_lookup_exec(names: &Vec<(String, LocalName)>, key: &str) -> (r: Option<LocalName>)
    ensures
        r == module_lookup(names@, key@),
{
    let mut i: usize = 0;
    assert(names@.skip(0) =~= names@);
    while i < names.len()
        invariant
            i <= names@.len(),
            module_lookup(names@, key@) == module_lookup(names@.skip(i as int), key@),
        decreases names@.len() - i,
    {
        assert(names@.skip(i as int)[0] == names@[i as int]);
        assert(names@.skip(i as int).drop_first() =~= names@.skip(i + 1));
        if str_eq(names[i].0.as_str(), key) {
            return Some(names[i].1);
        }
        i += 1;
    }
    None
}

/// The documentation kind of a binding kind
pub open spec fn docs_kind_matches(
    assembly: Assembly,
    kind: BindingKind,
    facts: BindingFacts,
    docs: BindingDocsKind,
) -> bool {
    match kind {
        BindingKind::Const(val) => docs == BindingDocsKind::Constant(val),
        BindingKind::Func(f) => docs == BindingDocsKind::Function {
            sig: f.sig,
            invertible: facts.invertible,
            underable: facts.underable,
            pure: facts.pure,
        },
        BindingKind::IndexMacro(args) => docs == BindingDocsKind::Modifier(args),
        BindingKind::CodeMacro(_) => docs == BindingDocsKind::Modifier(facts.macro_args),
        BindingKind::Import(_) | BindingKind::Scope(_) => docs == BindingDocsKind::Module {
            sig: None,
        },
        BindingKind::Module(m) => docs == BindingDocsKind::Module { sig: module_sig(assembly, m) },
        BindingKind::Error => docs == BindingDocsKind::Error,
    }
}

/// Make the documentation of a binding: its own comment; where it has none, a jesting comment
/// for some names, or else one that names its kind; and its kind with what is known of it
pub fn make_binding_docs(assembly: &Assembly, binfo: BindingInfo, facts: BindingFacts) -> (d:
    BindingDocs)
    requires
        binfo.kind matches BindingKind::Module(m) ==> (module_sig_local(m) matches Some(l)
            ==> l.index < binding_items(assembly.bindings).len()),
    ensures
        d.src_span == binfo.span,
        d.is_public == binfo.public,
        d.escape == facts.escape,
        d.meta.counts == binfo.meta.counts,
        d.meta.deprecation == binfo.meta.deprecation,
        d.meta.external == binfo.meta.external,
        binfo.meta.comment is Some ==> d.meta.comment == binfo.meta.comment,
        binfo.meta.comment is None ==> match easter_egg(facts.name@) {
            Some(e) => d.meta.comment matches Some(c) && comment_view(c) == (
                comment_text(e),
                comment_sig(e),
            ),
            None => match default_comment(binfo.kind) {
                Some(e) => d.meta.comment matches Some(c) && comment_view(c) == (
                    comment_text(e),
                    comment_sig(e),
                ),
                None => d.meta.comment is None,
            },
        },
        docs_kind_matches(*assembly, binfo.kind, facts, d.kind),
{
    let ghost kind0 = binfo.kind;
    let BindingInfo { kind, public, span, meta } = binfo;
    let BindingMeta { comment, counts, deprecation, external } = meta;
    let comment = match comment {
        Some(c) => Some(c),
        None => match easter_egg_exec(facts.name.as_str()) {
            Some(e) => Some(DocComment::from_text(e)),
            None => match default_comment_exec(&kind) {
                Some(e) => Some(DocComment::from_text(e)),
                None => None,
            },
        },
    };
    let docs_kind = match kind {
        BindingKind::Const(val) => BindingDocsKind::Constant(val),
        BindingKind::Func(f) => BindingDocsKind::Function {
            sig: f.sig,
            invertible: facts.invertible,
            underable: facts.underable,
            pure: facts.pure,
        },
        BindingKind::IndexMacro(args) => BindingDocsKind::Modifier(args),
        BindingKind::CodeMacro(_) => BindingDocsKind::Modifier(facts.macro_args),
        BindingKind::Import(_) | BindingKind::Scope(_) => BindingDocsKind::Module { sig: None },
        BindingKind::Module(m) => {
            let local = match module_lookup_exec(&m.names, "Call") {
                Some(l) => Some(l),
                None => module_lookup_exec(&m.names, "New"),
            };
            let sig = match local {
                Some(l) => binding_at(&assembly.bindings, l.index).kind.sig(),
                None => None,
            };
            BindingDocsKind::Module { sig }
        },
        BindingKind::Error => BindingDocsKind::Error,
    };
    BindingDocs {
        src_span: span,
        is_public: public,
        kind: docs_kind,
        escape: facts.escape,
        meta: BindingMeta { comment, counts, deprecation, external },
    }
}

/// The text of set inverses is empty exactly when no inverse was set
pub proof fn lemma_set_inverses_text_empty(set: SetInverses, un: Seq<char>, anti: Seq<char>, under: Seq<char>)
    ensures
        (set.spec_text_with(un, anti, under).len() == 0) == !(set.un || set.anti || set.under),
{
    reveal_strlit("");
    reveal_strlit("Sets ");
}


/// A binding without a comment is documented by its kind: a constant without a value as
/// "constant", an import, module or scope as "module", and an index or code macro as
/// "macro"; functions, valued constants and errors get no comment
pub proof fn lemma_default_comments(kind: BindingKind)
    ensures
        kind matches BindingKind::Const(None) ==> default_comment(kind) == Some("constant"@),
        (kind is Import || kind is Module || kind is Scope) ==> default_comment(kind) == Some(
            "module"@,
        ),
        (kind is IndexMacro || kind is CodeMacro) ==> default_comment(kind) == Some("macro"@),
        (kind is Func || kind is Error || kind matches BindingKind::Const(Some(_)))
            ==> default_comment(kind) is None,
        "macro"@ != "module"@ && "macro"@ != "constant"@ && "module"@ != "constant"@,
{
    reveal_strlit("macro");
    reveal_strlit("module");
    reveal_strlit("constant");
    assert("macro"@[1] != "module"@[1]);
    assert("macro"@.len() != "constant"@.len());
    assert("module"@.len() != "constant"@.len());
}

} // verus!
