//! The kinds of the spans of Uiua code, as editors show them: each word and item of parsed code
//! is told apart by what it is and by what the compiler found out about it
use vstd::prelude::*;

use crate::assembly::{Assembly, BindingInfo, CodeSpan};
use crate::ast::{
    DataField, Func, FunctionPack, ImportLine, Item, MacroUse, Modifier, Ref, RefComponent, Sp,
    Word,
};
use crate::eco::{binding_at, binding_items, bindings_len};
use crate::lsp::{CodeMeta, ImportSrc, SetInverses, SigDecl};
use crate::primitive::lookup::{first_match, lemma_first_match_here, lemma_first_match_skip};
use crate::primitive::Primitive;
use crate::primitive::format_name::str_starts_with;
use crate::scan::string_of;
use crate::text::str_eq;
use crate::Signature;

verus! {

/// What an identifier is documented by: a global binding, by its index, or a shadowable
/// constant, by its name
pub enum IdentDocs {
    /// A global binding
    Binding(usize),
    /// A shadowable constant
    Constant(String),
}

/// Kinds of span in Uiua code, meant to be used in the language server or other IDE tools
pub enum SpanKind {
    Primitive(Primitive, Option<i32>),
    String,
    Number,
    Comment,
    OutputComment,
    Strand,
    Ident {
        /// What documents the identifier
        docs: Option<IdentDocs>,
        /// Whether the identifier is the original binding name
        original: bool,
    },
    Label,
    Signature,
    Whitespace,
    Placeholder(usize),
    Delimiter,
    FuncDelim(Signature, SetInverses),
    MacroDelim(usize),
    ImportSrc(ImportSrc),
    Subscript(Option<Primitive>, Option<i32>),
    Obverse(SetInverses),
}

/// A copy of an import source
fn copy_import_src(s: &ImportSrc) -> (r: ImportSrc)
    ensures
        r == *s,
{
    match s {
        ImportSrc::Git(u) => ImportSrc::Git(u.clone()),
        ImportSrc::File(p) => ImportSrc::File(p.clone()),
    }
}

/// A copy of a span kind
fn copy_kind(k: &SpanKind) -> (r: SpanKind)
    ensures
        r == *k,
{
    match k {
        SpanKind::Primitive(p, n) => SpanKind::Primitive(*p, *n),
        SpanKind::String => SpanKind::String,
        SpanKind::Number => SpanKind::Number,
        SpanKind::Comment => SpanKind::Comment,
        SpanKind::OutputComment => SpanKind::OutputComment,
        SpanKind::Strand => SpanKind::Strand,
        SpanKind::Ident { docs, original } => SpanKind::Ident {
            docs: match docs {
                Some(IdentDocs::Binding(i)) => Some(IdentDocs::Binding(*i)),
                Some(IdentDocs::Constant(name)) => Some(IdentDocs::Constant(name.clone())),
                None => None,
            },
            original: *original,
        },
        SpanKind::Label => SpanKind::Label,
        SpanKind::Signature => SpanKind::Signature,
        SpanKind::Whitespace => SpanKind::Whitespace,
        SpanKind::Placeholder(n) => SpanKind::Placeholder(*n),
        SpanKind::Delimiter => SpanKind::Delimiter,
        SpanKind::FuncDelim(s, i) => SpanKind::FuncDelim(*s, *i),
        SpanKind::MacroDelim(n) => SpanKind::MacroDelim(*n),
        SpanKind::ImportSrc(s) => SpanKind::ImportSrc(copy_import_src(s)),
        SpanKind::Subscript(p, n) => SpanKind::Subscript(*p, *n),
        SpanKind::Obverse(i) => SpanKind::Obverse(*i),
    }
}

/// The text of a span of code, or nothing where the span does not lie in the code
pub open spec fn span_text(code: Seq<char>, s: CodeSpan) -> Seq<char> {
    if s.start <= s.end && s.end <= code.len() {
        code.subrange(s.start as int, s.end as int)
    } else {
        seq![]
    }
}

/// The span of the first character of a span
pub open spec fn just_start(s: CodeSpan) -> CodeSpan {
    CodeSpan {
        start: s.start,
        end: if s.start < usize::MAX {
            (s.start + 1) as usize
        } else {
            s.start
        },
    }
}

/// The span of the last character of a span
pub open spec fn just_end(s: CodeSpan) -> CodeSpan {
    CodeSpan {
        start: if s.end > 0 {
            (s.end - 1) as usize
        } else {
            0
        },
        end: s.end,
    }
}

/// Get the span of the first character of a span
fn just_start_exec(s: CodeSpan) -> (r: CodeSpan)
    ensures
        r == just_start(s),
{
    CodeSpan {
        start: s.start,
        end: if s.start < usize::MAX {
            s.start + 1
        } else {
            s.start
        },
    }
}

/// Get the span of the last character of a span
fn just_end_exec(s: CodeSpan) -> (r: CodeSpan)
    ensures
        r == just_end(s),
{
    CodeSpan {
        start: if s.end > 0 {
            s.end - 1
        } else {
            0
        },
        end: s.end,
    }
}

/// The first index from `k` on of an element that satisfies a predicate
pub open spec fn first_index_from<T>(s: Seq<T>, pred: spec_fn(T) -> bool, k: int) -> Option<int>
    decreases s.len() - k,
{
    if k < 0 || k >= s.len() {
        None
    } else if pred(s[k]) {
        Some(k)
    } else {
        first_index_from(s, pred, k + 1)
    }
}

/// Whether an entry is for a span
pub open spec fn entry_for<T>(s: CodeSpan) -> spec_fn((CodeSpan, T)) -> bool {
    |e: (CodeSpan, T)| e.0 == s
}

/// The index of the entry for a span in a list of entries, if any
pub open spec fn span_entry<T>(entries: Seq<(CodeSpan, T)>, s: CodeSpan) -> Option<int> {
    first_index_from(entries, entry_for(s), 0)
}

/// Find the entry for a span in a list of entries
fn find_entry<T>(entries: &Vec<(CodeSpan, T)>, s: CodeSpan) -> (r: Option<usize>)
    ensures
        match r {
            Some(i) => span_entry(entries@, s) == Some(i as int) && i < entries@.len(),
            None => span_entry(entries@, s) is None,
        },
{
    let mut i: usize = 0;
    while i < entries.len()
        invariant
            i <= entries@.len(),
            span_entry(entries@, s) == first_index_from(entries@, entry_for::<T>(s), i as int),
        decreases entries@.len() - i,
    {
        if entries[i].0 == s {
            return Some(i);
        }
        i += 1;
    }
    None
}

/// Whether a name is that of a shadowable constant
pub open spec fn is_constant_name(names: Seq<String>, name: Seq<char>) -> bool {
    exists|j: int| 0 <= j < names.len() && #[trigger] names[j]@ == name
}

/// Whether a constant reference is for a span and names a shadowable constant
pub open spec fn constant_ref_for(names: Seq<String>, s: CodeSpan) -> spec_fn((CodeSpan, String)) -> bool {
    |e: (CodeSpan, String)| e.0 == s && is_constant_name(names, e.1@)
}

/// Whether a binding was bound at a span
pub open spec fn binding_at_span(s: CodeSpan) -> spec_fn(BindingInfo) -> bool {
    |b: BindingInfo| b.span == s
}

/// Whether a primitive is a constant that a number's text can stand for: the text starts its
/// name, or is how it is written
pub open spec fn constant_for(text: Seq<char>) -> spec_fn(Primitive) -> bool {
    |p: Primitive| p.spec_is_constant() && (text.is_prefix_of(p.spec_name()) || p.spec_text() == text)
}

/// The spans that have some text
pub open spec fn keep_nonempty(code: Seq<char>, spans: Seq<(CodeSpan, SpanKind)>) -> Seq<(CodeSpan, SpanKind)>
    decreases spans.len(),
{
    if spans.len() == 0 {
        seq![]
    } else {
        keep_nonempty(code, spans.drop_last()) + if span_text(code, spans.last().0).len() > 0 {
            seq![spans.last()]
        } else {
            seq![]
        }
    }
}

/// What tells the spans of code apart: the compiled assembly, what the compiler found out about
/// the code, the code itself, and the names of the shadowable constants
pub struct Spanner {
    /// The compiled assembly
    pub assembly: Assembly,
    /// What the compiler found out about the code
    pub code_meta: CodeMeta,
    /// The characters of the code that the spans point into
    pub code: Vec<char>,
    /// The names of the shadowable constants
    pub constant_names: Vec<String>,
}

impl Spanner {
    /// The text of a span of the code
    pub open spec fn text(&self, s: CodeSpan) -> Seq<char> {
        span_text(self.code@, s)
    }

    /// The declared signature of the function at a span, if any
    pub open spec fn sig_at(&self, s: CodeSpan) -> Option<SigDecl> {
        match span_entry(self.code_meta.function_sigs@, s) {
            Some(i) => Some(self.code_meta.function_sigs@[i].1),
            None => None,
        }
    }

    /// What documents the binding bound at a span: the first binding bound there
    pub open spec fn spec_binding_docs(&self, s: CodeSpan) -> Option<IdentDocs> {
        match first_index_from(binding_items(self.assembly.bindings), binding_at_span(s), 0) {
            Some(i) => Some(IdentDocs::Binding(i as usize)),
            None => None,
        }
    }

    /// What documents a reference at a span: the global binding it refers to, where it is one;
    /// else the shadowable constant it names, where it is one
    pub open spec fn spec_reference_docs(&self, s: CodeSpan) -> Option<IdentDocs> {
        let global = span_entry(self.code_meta.global_references@, s);
        if global is Some && self.code_meta.global_references@[global.unwrap()].1 < binding_items(
            self.assembly.bindings,
        ).len() {
            Some(IdentDocs::Binding(self.code_meta.global_references@[global.unwrap()].1))
        } else {
            match first_index_from(
                self.code_meta.constant_references@,
                constant_ref_for(self.constant_names@, s),
                0,
            ) {
                Some(k) => Some(IdentDocs::Constant(self.code_meta.constant_references@[k].1)),
                None => None,
            }
        }
    }

    /// The spans of a path: each module's name, then its `~`
    pub open spec fn spec_ref_path_spans(&self, path: Seq<RefComponent>) -> Seq<(CodeSpan, SpanKind)>
        decreases path.len(),
    {
        if path.len() == 0 {
            seq![]
        } else {
            self.spec_ref_path_spans(path.drop_last()) + seq![
                (
                    path.last().module,
                    SpanKind::Ident { docs: self.spec_reference_docs(path.last().module), original: false },
                ),
                (path.last().tilde_span, SpanKind::Delimiter),
            ]
        }
    }

    /// The spans of a reference: its path, then its name
    pub open spec fn spec_ref_spans(&self, r: Ref) -> Seq<(CodeSpan, SpanKind)> {
        self.spec_ref_path_spans(r.path@) + seq![
            (r.name, SpanKind::Ident { docs: self.spec_reference_docs(r.name), original: false }),
        ]
    }

    /// The kind of a number's span: the first constant primitive that its text stands for, or
    /// a number
    pub open spec fn number_kind(&self, s: CodeSpan) -> SpanKind {
        match first_match(Primitive::spec_all(), constant_for(self.text(s))) {
            Some(p) => SpanKind::Primitive(p, None),
            None => SpanKind::Number,
        }
    }

    /// The kind of a function's delimiters: the declared signature of the function, else the
    /// number of arguments of an inline macro, else a plain delimiter
    pub open spec fn func_kind(&self, s: CodeSpan) -> SpanKind {
        match self.sig_at(s) {
            Some(d) => SpanKind::FuncDelim(d.sig, d.set_inverses),
            None => match span_entry(self.code_meta.inline_macros@, s) {
                Some(i) => SpanKind::MacroDelim(self.code_meta.inline_macros@[i].1),
                None => SpanKind::Delimiter,
            },
        }
    }

    /// The spans of the lines of words up to line `k`, each line's spans one after another
    pub open spec fn spec_lines_upto(&self, lines: Seq<Vec<Sp<Word>>>, k: int) -> Seq<(CodeSpan, SpanKind)>
        decreases lines, k,
    {
        if k <= 0 || k > lines.len() {
            seq![]
        } else {
            self.spec_lines_upto(lines, k - 1) + self.spec_words_spans(lines[k - 1]@)
        }
    }

    /// The spans of a function: its opening delimiter, its signature, its lines, and its
    /// closing delimiter where it was written as `)` or `}`
    pub open spec fn spec_func_spans(&self, func: Func, s: CodeSpan) -> Seq<(CodeSpan, SpanKind)>
        decreases func, 0int,
    {
        let kind = self.func_kind(s);
        seq![(just_start(s), kind)] + match func.signature {
            Some(sig) => seq![(sig, SpanKind::Signature)],
            None => seq![],
        } + self.spec_lines_upto(func.lines@, func.lines@.len() as int) + if func.closed && (
        self.text(just_end(s)) == seq![')'] || self.text(just_end(s)) == seq!['}']) {
            seq![(just_end(s), kind)]
        } else {
            seq![]
        }
    }

    /// The spans of a macro: its function, its `^` and its name
    pub open spec fn spec_macro_spans(&self, mac: MacroUse) -> Seq<(CodeSpan, SpanKind)>
        decreases mac, 1int,
    {
        self.spec_func_spans(mac.func.value, mac.func.span) + match mac.caret_span {
            Some(c) => seq![(c, SpanKind::MacroDelim(mac.args))],
            None => seq![],
        } + seq![(mac.ident, SpanKind::MacroDelim(mac.args))]
    }

    /// The kind of the delimiter before a branch of a pack after the first: the inferred
    /// signature of the branch, where it was not declared, else a plain delimiter
    pub open spec fn branch_kind(&self, s: CodeSpan) -> SpanKind {
        match self.sig_at(s) {
            Some(d) => if !d.explicit {
                SpanKind::FuncDelim(d.sig, d.set_inverses)
            } else {
                SpanKind::Delimiter
            },
            None => SpanKind::Delimiter,
        }
    }

    /// The spans of the branches of a pack up to branch `k`, and the kind of the last branch
    /// delimiter, starting from the kind of the opening delimiter
    pub open spec fn spec_branches_upto(
        &self,
        branches: Seq<Sp<Func>>,
        k: int,
        kind0: SpanKind,
    ) -> (Seq<(CodeSpan, SpanKind)>, SpanKind)
        decreases branches, k,
    {
        if k <= 0 || k > branches.len() {
            (seq![], kind0)
        } else {
            let (before, kind) = self.spec_branches_upto(branches, k - 1, kind0);
            let b = branches[k - 1];
            let start = just_start(b.span);
            let (delim, kind2) = if k - 1 > 0 && self.text(start) == seq!['|'] {
                let bk = self.branch_kind(b.span);
                (seq![(start, bk)], bk)
            } else {
                (seq![], kind)
            };
            (
                before + delim + match b.value.signature {
                    Some(sig) => seq![(sig, SpanKind::Signature)],
                    None => seq![],
                } + self.spec_lines_upto(b.value.lines@, b.value.lines@.len() as int),
                kind2,
            )
        }
    }

    /// The kind of the opening delimiter of a pack: the signature of its first branch, if
    /// declared or inferred, else a plain delimiter
    pub open spec fn pack_kind(&self, pack: FunctionPack) -> SpanKind {
        if pack.branches@.len() > 0 && self.sig_at(pack.branches@[0].span) is Some {
            let d = self.sig_at(pack.branches@[0].span).unwrap();
            SpanKind::FuncDelim(d.sig, d.set_inverses)
        } else {
            SpanKind::Delimiter
        }
    }

    /// The spans of a pack: its opening delimiter, its branches with the delimiters between
    /// them, and its closing delimiter where it was written as `)`, of the last delimiter's kind
    pub open spec fn spec_pack_spans(&self, pack: FunctionPack, s: CodeSpan) -> Seq<(CodeSpan, SpanKind)>
        decreases pack, 0int,
    {
        let kind0 = self.pack_kind(pack);
        let (branches, kind) = self.spec_branches_upto(pack.branches@, pack.branches@.len() as int, kind0);
        seq![(just_start(s), kind0)] + branches + if pack.closed && self.text(just_end(s)) == seq![')'] {
            seq![(just_end(s), kind)]
        } else {
            seq![]
        }
    }

    /// The spans of a modifier
    pub open spec fn spec_modifier_spans(&self, m: Sp<Modifier>) -> Seq<(CodeSpan, SpanKind)>
        decreases m, 0int,
    {
        match m.value {
            Modifier::Primitive(Primitive::Obverse) => seq![
                (
                    m.span,
                    match span_entry(self.code_meta.obverses@, m.span) {
                        Some(i) => SpanKind::Obverse(self.code_meta.obverses@[i].1),
                        None => SpanKind::Primitive(Primitive::Obverse, None),
                    },
                ),
            ],
            Modifier::Primitive(p) => seq![(m.span, SpanKind::Primitive(p, None))],
            Modifier::Ref(r) => self.spec_ref_spans(r),
            Modifier::Macro(mac) => self.spec_macro_spans(mac),
        }
    }

    /// The spans of a modifier under a subscript
    pub open spec fn spec_sub_modifier_spans(&self, m: Sp<Modifier>, n: Sp<Option<i32>>) -> Seq<(CodeSpan, SpanKind)>
        decreases m, 0int,
    {
        match m.value {
            Modifier::Primitive(p) => seq![
                (m.span, SpanKind::Primitive(p, n.value)),
                (n.span, SpanKind::Subscript(Some(p), n.value)),
            ],
            Modifier::Ref(r) => self.spec_ref_spans(r) + seq![(n.span, SpanKind::Subscript(None, n.value))],
            Modifier::Macro(mac) => self.spec_macro_spans(mac) + seq![
                (n.span, SpanKind::Subscript(None, n.value)),
            ],
        }
    }

    /// The spans of the words of a strand up to word `k`, with the `_` between each two
    pub open spec fn spec_strand_upto(&self, items: Seq<Sp<Word>>, k: int) -> Seq<(CodeSpan, SpanKind)>
        decreases items, k,
    {
        if k <= 0 || k > items.len() {
            seq![]
        } else {
            self.spec_strand_upto(items, k - 1) + if k - 1 > 0 {
                seq![
                    (
                        CodeSpan { start: items[k - 2].span.end, end: items[k - 1].span.start },
                        SpanKind::Strand,
                    ),
                ]
            } else {
                seq![]
            } + keep_nonempty(self.code@, self.spec_word_spans(items[k - 1]))
        }
    }

    /// The spans of one word, before spans without text are dropped
    pub open spec fn spec_word_spans(&self, w: Sp<Word>) -> Seq<(CodeSpan, SpanKind)>
        decreases w, 0int,
    {
        match w.value {
            Word::Number => seq![(w.span, self.number_kind(w.span))],
            Word::Char | Word::String | Word::FormatString => seq![(w.span, SpanKind::String)],
            Word::Label => seq![(w.span, SpanKind::Label)],
            Word::MultilineString(lines) => lines@.map_values(|l: CodeSpan| (l, SpanKind::String)),
            Word::MultilineFormatString(lines) => lines@.map_values(|l: CodeSpan| (l, SpanKind::String)),
            Word::Ref(r) => self.spec_ref_spans(r),
            Word::IncompleteRef(path) => self.spec_ref_path_spans(path@),
            Word::Strand(items) => self.spec_strand_upto(items@, items@.len() as int),
            Word::Array(arr) => seq![(just_start(w.span), SpanKind::Delimiter)] + match arr.signature {
                Some(sig) => seq![(sig, SpanKind::Signature)],
                None => seq![],
            } + self.spec_lines_upto(arr.lines@, arr.lines@.len() as int) + if arr.closed && (
            self.text(just_end(w.span)) == seq![']'] || self.text(just_end(w.span)) == seq!['}']) {
                seq![(just_end(w.span), SpanKind::Delimiter)]
            } else {
                seq![]
            },
            Word::Func(func) => self.spec_func_spans(func, w.span),
            Word::Pack(pack) => self.spec_pack_spans(pack, w.span),
            Word::Primitive(p) => seq![(w.span, SpanKind::Primitive(p, None))],
            Word::Modified(m) => self.spec_modifier_spans(m.modifier) + self.spec_words_spans(
                m.operands@,
            ),
            Word::Spaces | Word::BreakLine | Word::FlipLine => seq![(w.span, SpanKind::Whitespace)],
            Word::Comment | Word::SemanticComment => seq![(w.span, SpanKind::Comment)],
            Word::OutputComment => seq![(w.span, SpanKind::OutputComment)],
            Word::Placeholder(op) => seq![(w.span, SpanKind::Placeholder(op))],
            Word::Subscripted(sub) => match sub.word.value {
                Word::Modified(m) => self.spec_sub_modifier_spans(m.modifier, sub.n)
                    + self.spec_words_spans(m.operands@),
                Word::Primitive(p) => seq![
                    (sub.word.span, SpanKind::Primitive(p, sub.n.value)),
                    (sub.n.span, SpanKind::Subscript(Some(p), sub.n.value)),
                ],
                _ => keep_nonempty(self.code@, self.spec_word_spans(sub.word)) + seq![
                    (sub.n.span, SpanKind::Subscript(None, sub.n.value)),
                ],
            },
            Word::InlineMacro(mac) => self.spec_macro_spans(mac),
        }
    }

    /// The spans of the words up to word `k`, before spans without text are dropped
    pub open spec fn spec_words_upto(&self, ws: Seq<Sp<Word>>, k: int) -> Seq<(CodeSpan, SpanKind)>
        decreases ws, k,
    {
        if k <= 0 || k > ws.len() {
            seq![]
        } else {
            self.spec_words_upto(ws, k - 1) + self.spec_word_spans(ws[k - 1])
        }
    }

    /// The spans of some words, in order, without the spans that have no text
    pub open spec fn spec_words_spans(&self, ws: Seq<Sp<Word>>) -> Seq<(CodeSpan, SpanKind)>
        decreases ws, ws.len() + 1,
    {
        keep_nonempty(self.code@, self.spec_words_upto(ws, ws.len() as int))
    }
}

impl Spanner {
    /// Check whether the text of a span is one character
    fn text_is(&self, s: CodeSpan, c: char) -> (r: bool)
        ensures
            r == (self.text(s) == seq![c]),
    {
        if s.start <= s.end && s.end <= self.code.len() {
            if s.end - s.start == 1 && self.code[s.start] == c {
                assert(self.text(s) =~= seq![c]);
                true
            } else {
                assert(s.end - s.start != 1 ==> self.text(s).len() != 1);
                assert(s.end - s.start == 1 ==> self.text(s)[0] != c);
                false
            }
        } else {
            assert(self.text(s).len() == 0);
            false
        }
    }

    /// Check whether a span has some text
    fn has_text(&self, s: CodeSpan) -> (r: bool)
        ensures
            r == (self.text(s).len() > 0),
    {
        s.start <= s.end && s.end <= self.code.len() && s.start < s.end
    }

    /// The text of a span
    fn text_string(&self, s: CodeSpan) -> (r: String)
        ensures
            r@ == self.text(s),
    {
        let mut v: Vec<char> = Vec::new();
        if s.start <= s.end && s.end <= self.code.len() {
            let mut i = s.start;
            while i < s.end
                invariant
                    s.start <= i <= s.end,
                    s.end <= self.code@.len(),
                    v@ == self.code@.subrange(s.start as int, i as int),
                decreases s.end - i,
            {
                v.push(self.code[i]);
                i += 1;
                assert(v@ =~= self.code@.subrange(s.start as int, i as int));
            }
        } else {
            assert(v@ =~= self.text(s));
        }
        string_of(&v)
    }

    /// Find the declared signature of the function at a span
    fn sig_at_exec(&self, s: CodeSpan) -> (r: Option<SigDecl>)
        ensures
            r == self.sig_at(s),
    {
        match find_entry(&self.code_meta.function_sigs, s) {
            Some(i) => Some(self.code_meta.function_sigs[i].1),
            None => None,
        }
    }

    /// Find what documents the binding bound at a span
    pub fn binding_docs(&self, s: CodeSpan) -> (r: Option<IdentDocs>)
        ensures
            r == self.spec_binding_docs(s),
    {
        let ghost items = binding_items(self.assembly.bindings);
        let n = bindings_len(&self.assembly.bindings);
        let mut i: usize = 0;
        while i < n
            invariant
                n == items.len(),
                items == binding_items(self.assembly.bindings),
                i <= n,
                first_index_from(items, binding_at_span(s), 0) == first_index_from(
                    items,
                    binding_at_span(s),
                    i as int,
                ),
            decreases n - i,
        {
            if binding_at(&self.assembly.bindings, i).span == s {
                return Some(IdentDocs::Binding(i));
            }
            i += 1;
        }
        None
    }

    /// Check whether a name is that of a shadowable constant
    fn is_constant_name_exec(&self, name: &String) -> (r: bool)
        ensures
            r == is_constant_name(self.constant_names@, name@),
    {
        let mut j: usize = 0;
        while j < self.constant_names.len()
            invariant
                j <= self.constant_names@.len(),
                forall|k: int| 0 <= k < j ==> #[trigger] self.constant_names@[k]@ != name@,
            decreases self.constant_names@.len() - j,
        {
            if str_eq(self.constant_names[j].as_str(), name.as_str()) {
                return true;
            }
            j += 1;
        }
        false
    }

    /// Find what documents a reference at a span
    pub fn reference_docs(&self, s: CodeSpan) -> (r: Option<IdentDocs>)
        ensures
            r == self.spec_reference_docs(s),
    {
        match find_entry(&self.code_meta.global_references, s) {
            Some(k) => {
                let idx = self.code_meta.global_references[k].1;
                if idx < bindings_len(&self.assembly.bindings) {
                    return Some(IdentDocs::Binding(idx));
                }
            },
            None => {},
        }
        let ghost refs = self.code_meta.constant_references@;
        let ghost pred = constant_ref_for(self.constant_names@, s);
        let mut k: usize = 0;
        while k < self.code_meta.constant_references.len()
            invariant
                refs == self.code_meta.constant_references@,
                pred == constant_ref_for(self.constant_names@, s),
                !(span_entry(self.code_meta.global_references@, s) is Some
                    && self.code_meta.global_references@[span_entry(
                    self.code_meta.global_references@,
                    s,
                ).unwrap()].1 < binding_items(self.assembly.bindings).len()),
                k <= refs.len(),
                first_index_from(refs, pred, 0) == first_index_from(refs, pred, k as int),
            decreases refs.len() - k,
        {
            let e = &self.code_meta.constant_references[k];
            if e.0 == s && self.is_constant_name_exec(&e.1) {
                return Some(IdentDocs::Constant(e.1.clone()));
            }
            k += 1;
        }
        None
    }

    /// Find the kind of a number's span
    fn number_kind_exec(&self, s: CodeSpan) -> (r: SpanKind)
        ensures
            r == self.number_kind(s),
    {
        let text = self.text_string(s);
        let all = Primitive::all();
        let ghost pred = constant_for(self.text(s));
        let mut i: usize = 0;
        assert(all@.skip(0) =~= all@);
        while i < all.len()
            invariant
                all@ == Primitive::spec_all(),
                text@ == self.text(s),
                pred == constant_for(self.text(s)),
                i <= all@.len(),
                first_match(all@, pred) == first_match(all@.skip(i as int), pred),
            decreases all@.len() - i,
        {
            let p = all[i];
            if p.is_constant() && (str_starts_with(p.name(), text.as_str()) || str_eq(
                p.to_string().as_str(),
                text.as_str(),
            )) {
                proof {
                    lemma_first_match_here(all@, pred, i as int);
                }
                return SpanKind::Primitive(p, None);
            }
            proof {
                lemma_first_match_skip(all@, pred, i as int);
            }
            i += 1;
        }
        SpanKind::Number
    }

    /// Find the kind of a function's delimiters
    fn func_kind_exec(&self, s: CodeSpan) -> (r: SpanKind)
        ensures
            r == self.func_kind(s),
    {
        match self.sig_at_exec(s) {
            Some(d) => SpanKind::FuncDelim(d.sig, d.set_inverses),
            None => match find_entry(&self.code_meta.inline_macros, s) {
                Some(i) => SpanKind::MacroDelim(self.code_meta.inline_macros[i].1),
                None => SpanKind::Delimiter,
            },
        }
    }

    /// Find the kind of the delimiter before a branch of a pack after the first
    fn branch_kind_exec(&self, s: CodeSpan) -> (r: SpanKind)
        ensures
            r == self.branch_kind(s),
    {
        match self.sig_at_exec(s) {
            Some(d) => if !d.explicit {
                SpanKind::FuncDelim(d.sig, d.set_inverses)
            } else {
                SpanKind::Delimiter
            },
            None => SpanKind::Delimiter,
        }
    }

    /// Drop the spans that have no text
    fn keep_nonempty_exec(&self, v: Vec<(CodeSpan, SpanKind)>) -> (r: Vec<(CodeSpan, SpanKind)>)
        ensures
            r@ == keep_nonempty(self.code@, v@),
    {
        let ghost all = v@;
        let mut v = v;
        let mut out: Vec<(CodeSpan, SpanKind)> = Vec::new();
        let mut rest: Vec<(CodeSpan, SpanKind)> = Vec::new();
        // take the spans from the back, then put the kept ones in order
        while v.len() > 0
            invariant
                all == v@ + rest@.reverse(),
            decreases v@.len(),
        {
            let x = v.pop().unwrap();
            proof {
                assert(all =~= v@ + (rest@.push(x)).reverse());
            }
            rest.push(x);
        }
        assert(all =~= rest@.reverse());
        let ghost mut done: Seq<(CodeSpan, SpanKind)> = seq![];
        while rest.len() > 0
            invariant
                all == done + rest@.reverse(),
                out@ == keep_nonempty(self.code@, done),
            decreases rest@.len(),
        {
            let x = rest.pop().unwrap();
            proof {
                assert(all =~= done.push(x) + rest@.reverse());
                assert(done.push(x).drop_last() =~= done);
            }
            let keep = self.has_text(x.0);
            if keep {
                out.push(x);
            }
            proof {
                done = done.push(x);
                assert(out@ =~= keep_nonempty(self.code@, done));
            }
        }
        assert(done =~= all);
        out
    }

    /// The spans of a path
    fn ref_path_spans(&self, path: &Vec<RefComponent>) -> (r: Vec<(CodeSpan, SpanKind)>)
        ensures
            r@ == self.spec_ref_path_spans(path@),
    {
        let mut out: Vec<(CodeSpan, SpanKind)> = Vec::new();
        let mut i: usize = 0;
        assert(path@.take(0) =~= seq![]);
        while i < path.len()
            invariant
                i <= path@.len(),
                out@ == self.spec_ref_path_spans(path@.take(i as int)),
            decreases path@.len() - i,
        {
            let comp = &path[i];
            let docs = self.reference_docs(comp.module);
            out.push((comp.module, SpanKind::Ident { docs, original: false }));
            out.push((comp.tilde_span, SpanKind::Delimiter));
            proof {
                assert(path@.take(i + 1).drop_last() =~= path@.take(i as int));
                assert(out@ =~= self.spec_ref_path_spans(path@.take(i + 1)));
            }
            i += 1;
        }
        assert(path@.take(path@.len() as int) =~= path@);
        out
    }

    /// The spans of a reference
    fn ref_spans(&self, r: &Ref) -> (out: Vec<(CodeSpan, SpanKind)>)
        ensures
            out@ == self.spec_ref_spans(*r),
    {
        let mut out = self.ref_path_spans(&r.path);
        let docs = self.reference_docs(r.name);
        out.push((r.name, SpanKind::Ident { docs, original: false }));
        out
    }
}

impl Spanner {
    /// The spans of lines of words
    fn lines_spans(&self, lines: &Vec<Vec<Sp<Word>>>) -> (r: Vec<(CodeSpan, SpanKind)>)
        ensures
            r@ == self.spec_lines_upto(lines@, lines@.len() as int),
        decreases lines, 1int,
    {
        let mut out: Vec<(CodeSpan, SpanKind)> = Vec::new();
        let mut i: usize = 0;
        while i < lines.len()
            invariant
                i <= lines@.len(),
                out@ == self.spec_lines_upto(lines@, i as int),
            decreases lines@.len() - i,
        {
            proof {
                assert(decreases_to!(lines => lines@));
                assert(decreases_to!(lines@ => lines@[i as int]));
            }
            let mut line = self.words_spans(&lines[i]);
            out.append(&mut line);
            i += 1;
        }
        out
    }

    /// The spans of a function at a span
    fn func_spans(&self, func: &Func, s: CodeSpan) -> (r: Vec<(CodeSpan, SpanKind)>)
        ensures
            r@ == self.spec_func_spans(*func, s),
        decreases func, 2int,
    {
        let kind = self.func_kind_exec(s);
        let mut out: Vec<(CodeSpan, SpanKind)> = Vec::new();
        out.push((just_start_exec(s), copy_kind(&kind)));
        match func.signature {
            Some(sig) => out.push((sig, SpanKind::Signature)),
            None => {},
        }
        let mut lines = self.lines_spans(&func.lines);
        out.append(&mut lines);
        if func.closed {
            let end = just_end_exec(s);
            if self.text_is(end, ')') || self.text_is(end, '}') {
                out.push((end, kind));
            }
        }
        proof {
            assert(out@ =~= self.spec_func_spans(*func, s));
        }
        out
    }

    /// The spans of a macro
    fn macro_spans(&self, mac: &MacroUse) -> (r: Vec<(CodeSpan, SpanKind)>)
        ensures
            r@ == self.spec_macro_spans(*mac),
        decreases mac, 3int,
    {
        let mut out = self.func_spans(&mac.func.value, mac.func.span);
        match mac.caret_span {
            Some(c) => out.push((c, SpanKind::MacroDelim(mac.args))),
            None => {},
        }
        out.push((mac.ident, SpanKind::MacroDelim(mac.args)));
        proof {
            assert(out@ =~= self.spec_macro_spans(*mac));
        }
        out
    }

    /// The spans of the branches of a pack, and the kind of the last branch delimiter
    fn branches_spans(&self, branches: &Vec<Sp<Func>>, kind0: SpanKind) -> (r: (
        Vec<(CodeSpan, SpanKind)>,
        SpanKind,
    ))
        ensures
            (r.0@, r.1) == self.spec_branches_upto(branches@, branches@.len() as int, kind0),
        decreases branches, 1int,
    {
        let mut out: Vec<(CodeSpan, SpanKind)> = Vec::new();
        let mut kind = kind0;
        let mut i: usize = 0;
        while i < branches.len()
            invariant
                i <= branches@.len(),
                (out@, kind) == self.spec_branches_upto(branches@, i as int, kind0),
            decreases branches@.len() - i,
        {
            let ghost before = out@;
            let ghost kind_before = kind;
            let b = &branches[i];
            let start = just_start_exec(b.span);
            if i > 0 && self.text_is(start, '|') {
                kind = self.branch_kind_exec(b.span);
                out.push((start, copy_kind(&kind)));
            }
            match b.value.signature {
                Some(sig) => out.push((sig, SpanKind::Signature)),
                None => {},
            }
            proof {
                assert(decreases_to!(branches => branches@));
                assert(decreases_to!(branches@ => branches@[i as int]));
            }
            let mut lines = self.lines_spans(&b.value.lines);
            out.append(&mut lines);
            proof {
                let (sb, kb) = self.spec_branches_upto(branches@, i as int, kind0);
                assert(sb == before && kb == kind_before);
                assert((out@, kind) =~= self.spec_branches_upto(branches@, i + 1, kind0));
            }
            i += 1;
        }
        (out, kind)
    }

    /// The spans of a pack at a span
    fn pack_spans(&self, pack: &FunctionPack, s: CodeSpan) -> (r: Vec<(CodeSpan, SpanKind)>)
        ensures
            r@ == self.spec_pack_spans(*pack, s),
        decreases pack, 2int,
    {
        let kind0 = if pack.branches.len() > 0 {
            match self.sig_at_exec(pack.branches[0].span) {
                Some(d) => SpanKind::FuncDelim(d.sig, d.set_inverses),
                None => SpanKind::Delimiter,
            }
        } else {
            SpanKind::Delimiter
        };
        assert(kind0 == self.pack_kind(*pack));
        let mut out: Vec<(CodeSpan, SpanKind)> = Vec::new();
        out.push((just_start_exec(s), copy_kind(&kind0)));
        let (mut branches, kind) = self.branches_spans(&pack.branches, kind0);
        out.append(&mut branches);
        if pack.closed {
            let end = just_end_exec(s);
            if self.text_is(end, ')') {
                out.push((end, kind));
            }
        }
        proof {
            assert(out@ =~= self.spec_pack_spans(*pack, s));
        }
        out
    }

    /// The spans of a modifier
    fn modifier_spans(&self, m: &Sp<Modifier>) -> (r: Vec<(CodeSpan, SpanKind)>)
        ensures
            r@ == self.spec_modifier_spans(*m),
        decreases m, 4int,
    {
        match &m.value {
            Modifier::Primitive(Primitive::Obverse) => {
                let kind = match find_entry(&self.code_meta.obverses, m.span) {
                    Some(i) => SpanKind::Obverse(self.code_meta.obverses[i].1),
                    None => SpanKind::Primitive(Primitive::Obverse, None),
                };
                let mut out: Vec<(CodeSpan, SpanKind)> = Vec::new();
                out.push((m.span, kind));
                assert(out@ =~= self.spec_modifier_spans(*m));
                out
            },
            Modifier::Primitive(p) => {
                let mut out: Vec<(CodeSpan, SpanKind)> = Vec::new();
                out.push((m.span, SpanKind::Primitive(*p, None)));
                assert(out@ =~= self.spec_modifier_spans(*m));
                out
            },
            Modifier::Ref(r) => self.ref_spans(r),
            Modifier::Macro(mac) => self.macro_spans(mac),
        }
    }

    /// The spans of a modifier under a subscript
    fn sub_modifier_spans(&self, m: &Sp<Modifier>, n: &Sp<Option<i32>>) -> (r: Vec<(CodeSpan, SpanKind)>)
        ensures
            r@ == self.spec_sub_modifier_spans(*m, *n),
        decreases m, 4int,
    {
        match &m.value {
            Modifier::Primitive(p) => {
                let mut out: Vec<(CodeSpan, SpanKind)> = Vec::new();
                out.push((m.span, SpanKind::Primitive(*p, n.value)));
                out.push((n.span, SpanKind::Subscript(Some(*p), n.value)));
                assert(out@ =~= self.spec_sub_modifier_spans(*m, *n));
                out
            },
            Modifier::Ref(r) => {
                let mut out = self.ref_spans(r);
                out.push((n.span, SpanKind::Subscript(None, n.value)));
                out
            },
            Modifier::Macro(mac) => {
                let mut out = self.macro_spans(mac);
                out.push((n.span, SpanKind::Subscript(None, n.value)));
                out
            },
        }
    }

    /// The spans of the words of a strand
    fn strand_spans(&self, items: &Vec<Sp<Word>>) -> (r: Vec<(CodeSpan, SpanKind)>)
        ensures
            r@ == self.spec_strand_upto(items@, items@.len() as int),
        decreases items, 1int,
    {
        let mut out: Vec<(CodeSpan, SpanKind)> = Vec::new();
        let mut i: usize = 0;
        while i < items.len()
            invariant
                i <= items@.len(),
                out@ == self.spec_strand_upto(items@, i as int),
            decreases items@.len() - i,
        {
            let ghost before = out@;
            if i > 0 {
                out.push((CodeSpan { start: items[i - 1].span.end, end: items[i].span.start }, SpanKind::Strand));
            }
            proof {
                assert(decreases_to!(items => items@));
                assert(decreases_to!(items@ => items@[i as int]));
            }
            let spans = self.word_spans(&items[i]);
            let mut kept = self.keep_nonempty_exec(spans);
            out.append(&mut kept);
            proof {
                assert(out@ =~= self.spec_strand_upto(items@, i + 1));
            }
            i += 1;
        }
        out
    }

    /// The spans of one word, before spans without text are dropped
    fn word_spans(&self, w: &Sp<Word>) -> (r: Vec<(CodeSpan, SpanKind)>)
        ensures
            r@ == self.spec_word_spans(*w),
        decreases w, 5int,
    {
        let mut out: Vec<(CodeSpan, SpanKind)> = Vec::new();
        match &w.value {
            Word::Number => {
                out.push((w.span, self.number_kind_exec(w.span)));
            },
            Word::Char | Word::String | Word::FormatString => {
                out.push((w.span, SpanKind::String));
            },
            Word::Label => {
                out.push((w.span, SpanKind::Label));
            },
            Word::MultilineString(lines) | Word::MultilineFormatString(lines) => {
                let mut i: usize = 0;
                while i < lines.len()
                    invariant
                        i <= lines@.len(),
                        out@ == lines@.take(i as int).map_values(|l: CodeSpan| (l, SpanKind::String)),
                    decreases lines@.len() - i,
                {
                    out.push((lines[i], SpanKind::String));
                    i += 1;
                    assert(out@ =~= lines@.take(i as int).map_values(|l: CodeSpan| (l, SpanKind::String)));
                }
                assert(lines@.take(lines@.len() as int) =~= lines@);
            },
            Word::Ref(r) => {
                out = self.ref_spans(r);
            },
            Word::IncompleteRef(path) => {
                out = self.ref_path_spans(path);
            },
            Word::Strand(items) => {
                out = self.strand_spans(items);
            },
            Word::Array(arr) => {
                out.push((just_start_exec(w.span), SpanKind::Delimiter));
                match arr.signature {
                    Some(sig) => out.push((sig, SpanKind::Signature)),
                    None => {},
                }
                let mut lines = self.lines_spans(&arr.lines);
                out.append(&mut lines);
                if arr.closed {
                    let end = just_end_exec(w.span);
                    if self.text_is(end, ']') || self.text_is(end, '}') {
                        out.push((end, SpanKind::Delimiter));
                    }
                }
            },
            Word::Func(func) => {
                out = self.func_spans(func, w.span);
            },
            Word::Pack(pack) => {
                out = self.pack_spans(pack, w.span);
            },
            Word::Primitive(p) => {
                out.push((w.span, SpanKind::Primitive(*p, None)));
            },
            Word::Modified(m) => {
                out = self.modifier_spans(&m.modifier);
                let mut ops = self.words_spans(&m.operands);
                out.append(&mut ops);
            },
            Word::Spaces | Word::BreakLine | Word::FlipLine => {
                out.push((w.span, SpanKind::Whitespace));
            },
            Word::Comment | Word::SemanticComment => {
                out.push((w.span, SpanKind::Comment));
            },
            Word::OutputComment => {
                out.push((w.span, SpanKind::OutputComment));
            },
            Word::Placeholder(op) => {
                out.push((w.span, SpanKind::Placeholder(*op)));
            },
            Word::Subscripted(sub) => {
                match &sub.word.value {
                    Word::Modified(m) => {
                        out = self.sub_modifier_spans(&m.modifier, &sub.n);
                        let mut ops = self.words_spans(&m.operands);
                        out.append(&mut ops);
                    },
                    Word::Primitive(p) => {
                        out.push((sub.word.span, SpanKind::Primitive(*p, sub.n.value)));
                        out.push((sub.n.span, SpanKind::Subscript(Some(*p), sub.n.value)));
                    },
                    _ => {
                        let spans = self.word_spans(&sub.word);
                        out = self.keep_nonempty_exec(spans);
                        out.push((sub.n.span, SpanKind::Subscript(None, sub.n.value)));
                    },
                }
            },
            Word::InlineMacro(mac) => {
                out = self.macro_spans(mac);
            },
        }
        proof {
            assert(out@ =~= self.spec_word_spans(*w));
        }
        out
    }

    /// Get the spans of some words and their kinds, in order, without the spans that have no
    /// text
    pub fn words_spans(&self, words: &Vec<Sp<Word>>) -> (r: Vec<(CodeSpan, SpanKind)>)
        ensures
            r@ == self.spec_words_spans(words@),
        decreases words, 0int,
    {
        let mut out: Vec<(CodeSpan, SpanKind)> = Vec::new();
        let mut i: usize = 0;
        while i < words.len()
            invariant
                i <= words@.len(),
                out@ == self.spec_words_upto(words@, i as int),
            decreases words@.len() - i,
        {
            proof {
                assert(decreases_to!(words => words@));
                assert(decreases_to!(words@ => words@[i as int]));
            }
            let mut spans = self.word_spans(&words[i]);
            out.append(&mut spans);
            i += 1;
        }
        self.keep_nonempty_exec(out)
    }
}

/// Place a span after the spans before it that start no later than it does
pub open spec fn insert_by_start(
    sorted: Seq<(CodeSpan, SpanKind)>,
    x: (CodeSpan, SpanKind),
) -> Seq<(CodeSpan, SpanKind)>
    decreases sorted.len(),
{
    if sorted.len() == 0 {
        seq![x]
    } else if sorted.last().0.start <= x.0.start {
        sorted.push(x)
    } else {
        insert_by_start(sorted.drop_last(), x).push(sorted.last())
    }
}

/// Spans ordered by where they start, those that start together kept in their order
pub open spec fn sort_by_start(spans: Seq<(CodeSpan, SpanKind)>) -> Seq<(CodeSpan, SpanKind)>
    decreases spans.len(),
{
    if spans.len() == 0 {
        seq![]
    } else {
        insert_by_start(sort_by_start(spans.drop_last()), spans.last())
    }
}

/// Whether spans are ordered by where they start
pub open spec fn sorted_by_start(spans: Seq<(CodeSpan, SpanKind)>) -> bool {
    forall|i: int, j: int| 0 <= i < j < spans.len() ==> #[trigger] spans[i].0.start <= #[trigger] spans[j].0.start
}

/// The line of a place in some code: the number of line breaks before it
pub open spec fn line_of(code: Seq<char>, pos: int) -> nat
    decreases pos,
{
    if pos <= 0 || code.len() == 0 {
        0
    } else if pos > code.len() {
        line_of(code, code.len() as int)
    } else {
        line_of(code, pos - 1) + if code[pos - 1] == '\n' {
            1nat
        } else {
            0nat
        }
    }
}

/// Placing a span where it goes among sorted spans puts it after the last one that starts no
/// later
proof fn lemma_insert_at(sorted: Seq<(CodeSpan, SpanKind)>, x: (CodeSpan, SpanKind), p: int)
    requires
        0 <= p <= sorted.len(),
        forall|k: int| p <= k < sorted.len() ==> #[trigger] sorted[k].0.start > x.0.start,
        p == 0 || sorted[p - 1].0.start <= x.0.start,
    ensures
        insert_by_start(sorted, x) == sorted.insert(p, x),
    decreases sorted.len(),
{
    if sorted.len() == 0 {
        assert(sorted.insert(p, x) =~= seq![x]);
    } else if p == sorted.len() {
        assert(sorted.insert(p, x) =~= sorted.push(x));
    } else {
        lemma_insert_at(sorted.drop_last(), x, p);
        assert(sorted.insert(p, x) =~= sorted.drop_last().insert(p, x).push(sorted.last()));
    }
}

/// Placing a span among sorted spans keeps them sorted
proof fn lemma_insert_sorted(sorted: Seq<(CodeSpan, SpanKind)>, x: (CodeSpan, SpanKind))
    requires
        sorted_by_start(sorted),
    ensures
        sorted_by_start(insert_by_start(sorted, x)),
        insert_by_start(sorted, x).len() == sorted.len() + 1,
        forall|k: int| 0 <= k < insert_by_start(sorted, x).len() ==> (#[trigger] insert_by_start(sorted, x)[k] == x
            || sorted.contains(insert_by_start(sorted, x)[k])),
    decreases sorted.len(),
{
    if sorted.len() == 0 {
    } else if sorted.last().0.start <= x.0.start {
        assert forall|k: int| 0 <= k < sorted.push(x).len() implies (#[trigger] sorted.push(x)[k] == x
            || sorted.contains(sorted.push(x)[k])) by {
            if k < sorted.len() {
                assert(sorted.push(x)[k] == sorted[k]);
            }
        }
    } else {
        let rest = sorted.drop_last();
        assert(sorted_by_start(rest));
        lemma_insert_sorted(rest, x);
        let ins = insert_by_start(rest, x);
        let r = ins.push(sorted.last());
        assert forall|k: int| 0 <= k < ins.len() implies #[trigger] ins[k].0.start <= sorted.last().0.start by {
            if ins[k] != x {
                let j = choose|j: int| 0 <= j < rest.len() && rest[j] == ins[k];
                assert(rest[j] == sorted[j]);
            }
        }
        assert forall|i: int, j: int| 0 <= i < j < r.len() implies #[trigger] r[i].0.start <= #[trigger] r[j].0.start by {
            if j == r.len() - 1 {
                assert(r[i] == ins[i]);
                assert(ins[i].0.start <= sorted.last().0.start);
            } else {
                assert(r[i] == ins[i] && r[j] == ins[j]);
            }
        }
        assert forall|k: int| 0 <= k < r.len() implies (#[trigger] r[k] == x || sorted.contains(r[k])) by {
            if k < ins.len() {
                assert(r[k] == ins[k]);
                if ins[k] != x {
                    let j = choose|j: int| 0 <= j < rest.len() && rest[j] == ins[k];
                    assert(sorted[j] == rest[j]);
                }
            } else {
                assert(sorted[sorted.len() - 1] == sorted.last());
            }
        }
    }
}

/// Spans sorted by where they start are sorted
pub proof fn lemma_sort_by_start_sorted(spans: Seq<(CodeSpan, SpanKind)>)
    ensures
        sorted_by_start(sort_by_start(spans)),
        sort_by_start(spans).len() == spans.len(),
    decreases spans.len(),
{
    if spans.len() > 0 {
        lemma_sort_by_start_sorted(spans.drop_last());
        lemma_insert_sorted(sort_by_start(spans.drop_last()), spans.last());
    }
}

/// Every span that is kept has some text
pub proof fn lemma_keep_nonempty(code: Seq<char>, spans: Seq<(CodeSpan, SpanKind)>)
    ensures
        forall|k: int| 0 <= k < keep_nonempty(code, spans).len() ==> #[trigger] span_text(
            code,
            keep_nonempty(code, spans)[k].0,
        ).len() > 0,
    decreases spans.len(),
{
    if spans.len() > 0 {
        lemma_keep_nonempty(code, spans.drop_last());
        let before = keep_nonempty(code, spans.drop_last());
        assert forall|k: int| 0 <= k < keep_nonempty(code, spans).len() implies #[trigger] span_text(
            code,
            keep_nonempty(code, spans)[k].0,
        ).len() > 0 by {
            if k < before.len() {
                assert(keep_nonempty(code, spans)[k] == before[k]);
            }
        }
    }
}

impl Spanner {
    /// The span of a name that refers to a binding or a constant
    pub open spec fn ref_ident(&self, s: CodeSpan) -> (CodeSpan, SpanKind) {
        (s, SpanKind::Ident { docs: self.spec_reference_docs(s), original: false })
    }

    /// The spans of a line of names brought into scope: its `~`, then the names
    pub open spec fn spec_import_line_spans(&self, line: ImportLine) -> Seq<(CodeSpan, SpanKind)> {
        seq![(line.tilde_span, SpanKind::Delimiter)] + line.items@.map_values(|s: CodeSpan| self.ref_ident(s))
    }

    /// The spans of the lines of an import up to line `k`; a missing line has none
    pub open spec fn spec_import_lines_upto(&self, lines: Seq<Option<ImportLine>>, k: int) -> Seq<(CodeSpan, SpanKind)>
        decreases k,
    {
        if k <= 0 || k > lines.len() {
            seq![]
        } else {
            self.spec_import_lines_upto(lines, k - 1) + match lines[k - 1] {
                Some(line) => self.spec_import_line_spans(line),
                None => seq![],
            }
        }
    }

    /// The kind of an import's path: where the module comes from, where that is known, else a
    /// string
    pub open spec fn import_kind(&self, path: CodeSpan) -> SpanKind {
        match span_entry(self.code_meta.import_srcs@, path) {
            Some(i) => SpanKind::ImportSrc(self.code_meta.import_srcs@[i].1),
            None => SpanKind::String,
        }
    }

    /// The spans of the fields of a data definition up to field `k`: the whitespace between two
    /// fields on one line, each field's name, its validator and its default value
    pub open spec fn spec_fields_upto(&self, fields: Seq<DataField>, k: int) -> Seq<(CodeSpan, SpanKind)>
        decreases fields, k,
    {
        if k <= 0 || k > fields.len() {
            seq![]
        } else {
            let f = fields[k - 1];
            self.spec_fields_upto(fields, k - 1) + (if k - 1 > 0 && line_of(
                self.code@,
                fields[k - 2].span.end as int,
            ) == line_of(self.code@, f.span.start as int) {
                seq![
                    (
                        CodeSpan { start: fields[k - 2].span.end, end: f.span.start },
                        SpanKind::Whitespace,
                    ),
                ]
            } else {
                seq![]
            }) + seq![
                (f.name, SpanKind::Ident { docs: self.spec_binding_docs(f.name), original: true }),
            ] + (match f.validator {
                Some(v) => seq![(v.open_span, SpanKind::Delimiter)] + self.spec_words_spans(v.words@)
                    + match v.close_span {
                    Some(c) => seq![(c, SpanKind::Delimiter)],
                    None => seq![],
                },
                None => seq![],
            }) + match f.init {
                Some(i) => seq![(i.arrow_span, SpanKind::Delimiter)] + self.spec_words_spans(i.words@),
                None => seq![],
            }
        }
    }

    /// The spans of one item, before they are sorted
    pub open spec fn spec_item_spans(&self, item: Item) -> Seq<(CodeSpan, SpanKind)>
        decreases item, 0int,
    {
        match item {
            Item::Module(m) => seq![(m.open_span, SpanKind::Delimiter)] + (match m.name {
                Some(name) => seq![
                    (name, SpanKind::Ident { docs: self.spec_binding_docs(name), original: true }),
                ],
                None => seq![],
            }) + (match m.imports {
                Some(line) => self.spec_import_line_spans(line),
                None => seq![],
            }) + self.spec_items_spans(m.items@) + match m.close_span {
                Some(c) => seq![(c, SpanKind::Delimiter)],
                None => seq![],
            },
            Item::Words(lines) => self.spec_lines_upto(lines@, lines@.len() as int),
            Item::Binding(b) => (match b.tilde_span {
                Some(t) => seq![(t, SpanKind::Delimiter)],
                None => seq![],
            }) + seq![
                (
                    b.name,
                    SpanKind::Ident {
                        docs: if self.spec_binding_docs(b.name) is Some {
                            self.spec_binding_docs(b.name)
                        } else {
                            self.spec_reference_docs(b.name)
                        },
                        original: true,
                    },
                ),
                (b.arrow_span, SpanKind::Delimiter),
            ] + (match b.signature {
                Some(sig) => seq![(sig, SpanKind::Signature)],
                None => seq![],
            }) + self.spec_words_spans(b.words@),
            Item::Data(d) => seq![(d.init_span, SpanKind::Delimiter)] + (match d.name {
                Some(name) => seq![
                    (name, SpanKind::Ident { docs: self.spec_binding_docs(name), original: true }),
                ] + match d.fields {
                    Some(fields) => seq![
                        (CodeSpan { start: name.end, end: fields.open_span.start }, SpanKind::Whitespace),
                    ],
                    None => seq![],
                },
                None => seq![],
            }) + (match d.fields {
                Some(fields) => seq![(fields.open_span, SpanKind::Delimiter)] + self.spec_fields_upto(
                    fields.fields@,
                    fields.fields@.len() as int,
                ) + match fields.close_span {
                    Some(c) => seq![(c, SpanKind::Delimiter)],
                    None => seq![],
                },
                None => seq![],
            }) + match d.func {
                Some(words) => self.spec_words_spans(words@),
                None => seq![],
            },
            Item::Import(imp) => (match imp.name {
                Some(name) => seq![
                    (name, SpanKind::Ident { docs: self.spec_binding_docs(name), original: false }),
                ],
                None => seq![],
            }) + seq![
                (imp.tilde_span, SpanKind::Delimiter),
                (imp.path, self.import_kind(imp.path)),
            ] + self.spec_import_lines_upto(imp.lines@, imp.lines@.len() as int),
        }
    }

    /// The spans of the items up to item `k`, before they are sorted
    pub open spec fn spec_items_upto(&self, items: Seq<Item>, k: int) -> Seq<(CodeSpan, SpanKind)>
        decreases items, k,
    {
        if k <= 0 || k > items.len() {
            seq![]
        } else {
            self.spec_items_upto(items, k - 1) + self.spec_item_spans(items[k - 1])
        }
    }

    /// The spans of some items, sorted by where they start
    pub open spec fn spec_items_spans(&self, items: Seq<Item>) -> Seq<(CodeSpan, SpanKind)>
        decreases items, items.len() + 1,
    {
        sort_by_start(self.spec_items_upto(items, items.len() as int))
    }
}

/// The spans of some items are sorted by where they start
pub proof fn lemma_items_spans_sorted(spanner: Spanner, items: Seq<Item>)
    ensures
        sorted_by_start(spanner.spec_items_spans(items)),
{
    lemma_sort_by_start_sorted(spanner.spec_items_upto(items, items.len() as int));
}

/// Every span of some words has some text
pub proof fn lemma_words_spans_have_text(spanner: Spanner, words: Seq<Sp<Word>>)
    ensures
        forall|k: int| 0 <= k < spanner.spec_words_spans(words).len() ==> #[trigger] spanner.text(
            spanner.spec_words_spans(words)[k].0,
        ).len() > 0,
{
    lemma_keep_nonempty(spanner.code@, spanner.spec_words_upto(words, words.len() as int));
}

/// Sort spans by where they start, keeping the order of those that start together
fn sort_by_start_exec(v: Vec<(CodeSpan, SpanKind)>) -> (r: Vec<(CodeSpan, SpanKind)>)
    ensures
        r@ == sort_by_start(v@),
{
    let ghost all = v@;
    let mut v = v;
    let mut rest: Vec<(CodeSpan, SpanKind)> = Vec::new();
    while v.len() > 0
        invariant
            all == v@ + rest@.reverse(),
        decreases v@.len(),
    {
        let x = v.pop().unwrap();
        proof {
            assert(all =~= v@ + (rest@.push(x)).reverse());
        }
        rest.push(x);
    }
    assert(all =~= rest@.reverse());
    let ghost mut done: Seq<(CodeSpan, SpanKind)> = seq![];
    let mut out: Vec<(CodeSpan, SpanKind)> = Vec::new();
    while rest.len() > 0
        invariant
            all == done + rest@.reverse(),
            out@ == sort_by_start(done),
        decreases rest@.len(),
    {
        let x = rest.pop().unwrap();
        proof {
            assert(all =~= done.push(x) + rest@.reverse());
            assert(done.push(x).drop_last() =~= done);
            lemma_sort_by_start_sorted(done);
        }
        let mut p = out.len();
        while p > 0 && out[p - 1].0.start > x.0.start
            invariant
                p <= out@.len(),
                forall|k: int| p <= k < out@.len() ==> #[trigger] out@[k].0.start > x.0.start,
            decreases p,
        {
            p -= 1;
        }
        proof {
            lemma_insert_at(out@, x, p as int);
            done = done.push(x);
        }
        out.insert(p, x);
    }
    assert(done =~= all);
    out
}

impl Spanner {
    /// Find the line of a place in the code
    fn line_of_exec(&self, pos: usize) -> (r: usize)
        ensures
            r == line_of(self.code@, pos as int),
    {
        let n = if pos <= self.code.len() {
            pos
        } else {
            self.code.len()
        };
        let mut count: usize = 0;
        let mut i: usize = 0;
        while i < n
            invariant
                n <= self.code@.len(),
                i <= n,
                count <= i,
                count == line_of(self.code@, i as int),
            decreases n - i,
        {
            if self.code[i] == '\n' {
                count += 1;
            }
            i += 1;
        }
        count
    }

    /// The span of a name that refers to a binding or a constant
    fn ref_ident_exec(&self, s: CodeSpan) -> (r: (CodeSpan, SpanKind))
        ensures
            r == self.ref_ident(s),
    {
        (s, SpanKind::Ident { docs: self.reference_docs(s), original: false })
    }

    /// The spans of a line of names brought into scope
    fn import_line_spans(&self, line: &ImportLine) -> (r: Vec<(CodeSpan, SpanKind)>)
        ensures
            r@ == self.spec_import_line_spans(*line),
    {
        let mut out: Vec<(CodeSpan, SpanKind)> = Vec::new();
        out.push((line.tilde_span, SpanKind::Delimiter));
        let mut i: usize = 0;
        while i < line.items.len()
            invariant
                i <= line.items@.len(),
                out@ == seq![(line.tilde_span, SpanKind::Delimiter)] + line.items@.take(
                    i as int,
                ).map_values(|s: CodeSpan| self.ref_ident(s)),
            decreases line.items@.len() - i,
        {
            out.push(self.ref_ident_exec(line.items[i]));
            i += 1;
            assert(out@ =~= seq![(line.tilde_span, SpanKind::Delimiter)] + line.items@.take(
                i as int,
            ).map_values(|s: CodeSpan| self.ref_ident(s)));
        }
        assert(line.items@.take(line.items@.len() as int) =~= line.items@);
        out
    }

    /// The spans of the lines of an import
    fn import_lines_spans(&self, lines: &Vec<Option<ImportLine>>) -> (r: Vec<(CodeSpan, SpanKind)>)
        ensures
            r@ == self.spec_import_lines_upto(lines@, lines@.len() as int),
    {
        let mut out: Vec<(CodeSpan, SpanKind)> = Vec::new();
        let mut i: usize = 0;
        while i < lines.len()
            invariant
                i <= lines@.len(),
                out@ == self.spec_import_lines_upto(lines@, i as int),
            decreases lines@.len() - i,
        {
            match &lines[i] {
                Some(line) => {
                    let mut l = self.import_line_spans(line);
                    out.append(&mut l);
                },
                None => {},
            }
            proof {
                assert(out@ =~= self.spec_import_lines_upto(lines@, i + 1));
            }
            i += 1;
        }
        out
    }

    /// Find the kind of an import's path
    fn import_kind_exec(&self, path: CodeSpan) -> (r: SpanKind)
        ensures
            r == self.import_kind(path),
    {
        match find_entry(&self.code_meta.import_srcs, path) {
            Some(i) => SpanKind::ImportSrc(copy_import_src(&self.code_meta.import_srcs[i].1)),
            None => SpanKind::String,
        }
    }

    /// The spans of the fields of a data definition
    fn fields_spans(&self, fields: &Vec<DataField>) -> (r: Vec<(CodeSpan, SpanKind)>)
        ensures
            r@ == self.spec_fields_upto(fields@, fields@.len() as int),
    {
        let mut out: Vec<(CodeSpan, SpanKind)> = Vec::new();
        let mut i: usize = 0;
        while i < fields.len()
            invariant
                i <= fields@.len(),
                out@ == self.spec_fields_upto(fields@, i as int),
            decreases fields@.len() - i,
        {
            let ghost before = out@;
            let f = &fields[i];
            if i > 0 {
                let prev = fields[i - 1].span;
                if self.line_of_exec(prev.end) == self.line_of_exec(f.span.start) {
                    out.push((CodeSpan { start: prev.end, end: f.span.start }, SpanKind::Whitespace));
                }
            }
            out.push((f.name, SpanKind::Ident { docs: self.binding_docs(f.name), original: true }));
            match &f.validator {
                Some(v) => {
                    out.push((v.open_span, SpanKind::Delimiter));
                    let mut w = self.words_spans(&v.words);
                    out.append(&mut w);
                    match v.close_span {
                        Some(c) => out.push((c, SpanKind::Delimiter)),
                        None => {},
                    }
                },
                None => {},
            }
            match &f.init {
                Some(init) => {
                    out.push((init.arrow_span, SpanKind::Delimiter));
                    let mut w = self.words_spans(&init.words);
                    out.append(&mut w);
                },
                None => {},
            }
            proof {
                assert(out@ =~= self.spec_fields_upto(fields@, i + 1));
            }
            i += 1;
        }
        out
    }

    /// The spans of one item, before they are sorted
    fn item_spans(&self, item: &Item) -> (r: Vec<(CodeSpan, SpanKind)>)
        ensures
            r@ == self.spec_item_spans(*item),
        decreases item, 1int,
    {
        let mut out: Vec<(CodeSpan, SpanKind)> = Vec::new();
        match item {
            Item::Module(m) => {
                out.push((m.open_span, SpanKind::Delimiter));
                match m.name {
                    Some(name) => out.push(
                        (name, SpanKind::Ident { docs: self.binding_docs(name), original: true }),
                    ),
                    None => {},
                }
                match &m.imports {
                    Some(line) => {
                        let mut l = self.import_line_spans(line);
                        out.append(&mut l);
                    },
                    None => {},
                }
                let mut inner = self.items_spans(&m.items);
                out.append(&mut inner);
                match m.close_span {
                    Some(c) => out.push((c, SpanKind::Delimiter)),
                    None => {},
                }
            },
            Item::Words(lines) => {
                out = self.lines_spans(lines);
            },
            Item::Binding(b) => {
                match b.tilde_span {
                    Some(t) => out.push((t, SpanKind::Delimiter)),
                    None => {},
                }
                let docs = match self.binding_docs(b.name) {
                    Some(d) => Some(d),
                    None => self.reference_docs(b.name),
                };
                out.push((b.name, SpanKind::Ident { docs, original: true }));
                out.push((b.arrow_span, SpanKind::Delimiter));
                match b.signature {
                    Some(sig) => out.push((sig, SpanKind::Signature)),
                    None => {},
                }
                let mut w = self.words_spans(&b.words);
                out.append(&mut w);
            },
            Item::Data(d) => {
                out.push((d.init_span, SpanKind::Delimiter));
                match d.name {
                    Some(name) => {
                        out.push(
                            (name, SpanKind::Ident { docs: self.binding_docs(name), original: true }),
                        );
                        match &d.fields {
                            Some(fields) => out.push(
                                (
                                    CodeSpan { start: name.end, end: fields.open_span.start },
                                    SpanKind::Whitespace,
                                ),
                            ),
                            None => {},
                        }
                    },
                    None => {},
                }
                match &d.fields {
                    Some(fields) => {
                        out.push((fields.open_span, SpanKind::Delimiter));
                        let mut f = self.fields_spans(&fields.fields);
                        out.append(&mut f);
                        match fields.close_span {
                            Some(c) => out.push((c, SpanKind::Delimiter)),
                            None => {},
                        }
                    },
                    None => {},
                }
                match &d.func {
                    Some(words) => {
                        let mut w = self.words_spans(words);
                        out.append(&mut w);
                    },
                    None => {},
                }
            },
            Item::Import(imp) => {
                match imp.name {
                    Some(name) => out.push(
                        (name, SpanKind::Ident { docs: self.binding_docs(name), original: false }),
                    ),
                    None => {},
                }
                out.push((imp.tilde_span, SpanKind::Delimiter));
                out.push((imp.path, self.import_kind_exec(imp.path)));
                let mut l = self.import_lines_spans(&imp.lines);
                out.append(&mut l);
            },
        }
        proof {
            assert(out@ =~= self.spec_item_spans(*item));
        }
        out
    }

    /// Get the spans of some items and their kinds, sorted by where they start
    pub fn items_spans(&self, items: &Vec<Item>) -> (r: Vec<(CodeSpan, SpanKind)>)
        ensures
            r@ == self.spec_items_spans(items@),
        decreases items, 0int,
    {
        let mut out: Vec<(CodeSpan, SpanKind)> = Vec::new();
        let mut i: usize = 0;
        while i < items.len()
            invariant
                i <= items@.len(),
                out@ == self.spec_items_upto(items@, i as int),
            decreases items@.len() - i,
        {
            proof {
                assert(decreases_to!(items => items@));
                assert(decreases_to!(items@ => items@[i as int]));
            }
            let mut spans = self.item_spans(&items[i]);
            out.append(&mut spans);
            i += 1;
        }
        sort_by_start_exec(out)
    }
}

} // verus!
