//! Compiled bindings, functions and the documentation comments of bindings
use vstd::prelude::*;

use ecow::{EcoString, EcoVec};

use crate::eco::{
    binding_items, bindings_len, bindings_new, bindings_push, bindings_set, def_at,
    def_items, defs_len, defs_new, defs_push, eco_as_str, eco_chars, span_at, span_items,
    spans_new, spans_push,
};
use crate::text::decimal_string;
use crate::text::decimal;
use crate::inputs::Inputs;
use crate::value::Value;
use crate::{FunctionId, Signature};

verus! {

/// A Uiua function
///
/// This does not contain the function's code. It is a lightweight handle that can be used to
/// look up the function's code in an assembly.
#[derive(Clone)]
pub struct Function {
    /// The function's id
    pub id: FunctionId,
    /// The function's signature
    pub sig: Signature,
    /// Where the function's code is stored in the assembly
    pub index: usize,
    /// The hash of the function's code
    pub hash: u64,
}

impl Function {
    /// Whether two functions are the same: the same id, signature and code hash
    pub open spec fn spec_same(&self, other: &Function) -> bool {
        self.id.spec_same(&other.id) && self.sig == other.sig && self.hash == other.hash
    }

    /// How a function is debugged: its id, an arrow and its signature
    pub open spec fn spec_debug_text(&self) -> Seq<char> {
        self.id.spec_text() + " ← "@ + self.sig.spec_text()
    }

    /// Write the function as it is debugged
    pub fn debug_text(&self) -> (s: String)
        ensures
            s@ == self.spec_debug_text(),
    {
        self.id.to_string().concat(" ← ").concat(self.sig.to_string().as_str())
    }

    /// Check whether two functions are the same; where the code is stored does not matter
    pub fn same(&self, other: &Function) -> (r: bool)
        ensures
            r == self.spec_same(other),
    {
        self.id.same(&other.id) && self.sig == other.sig && self.hash == other.hash
    }
}

/// A name bound in a scope, by where its binding is stored
#[derive(Debug, Clone, Copy, PartialEq, Eq, Structural)]
pub struct LocalName {
    /// The index of the binding
    pub index: usize,
    /// Whether the binding is public
    pub public: bool,
}

/// A span of code, by the character positions where it starts and ends
#[derive(Debug, Clone, Copy, PartialEq, Eq, Structural)]
pub struct CodeSpan {
    /// Where the span starts
    pub start: usize,
    /// Where the span ends
    pub end: usize,
}

impl CodeSpan {
    /// The span of code that stands for no real code
    pub open spec fn spec_dummy() -> CodeSpan {
        CodeSpan { start: 0, end: 0 }
    }

    /// A span that stands for no real code
    pub fn dummy() -> (s: CodeSpan)
        ensures
            s == Self::spec_dummy(),
    {
        CodeSpan { start: 0, end: 0 }
    }
}

/// Where a node of code comes from
#[derive(Debug, Clone, Copy, PartialEq, Eq, Structural)]
pub enum Span {
    /// A span of written code
    Code(CodeSpan),
    /// Built-in code
    Builtin,
}

impl Span {
    /// The span of written code, if any
    pub fn code(self) -> (r: Option<CodeSpan>)
        ensures
            r == match self {
                Span::Code(s) => Some(s),
                Span::Builtin => None,
            },
    {
        match self {
            Span::Code(s) => Some(s),
            Span::Builtin => None,
        }
    }
}

/// A module: the names it binds
#[derive(Clone)]
pub struct Module {
    /// The names bound in the module
    pub names: Vec<(String, LocalName)>,
}

/// A kind of global binding
#[derive(Clone)]
pub enum BindingKind {
    /// A constant value
    Const(Option<Value>),
    /// A function
    Func(Function),
    /// An imported module, by its path
    Import(String),
    /// A scoped module
    Module(Module),
    /// A scope being compiled
    Scope(usize),
    /// An index macro
    ///
    /// Contains the number of arguments
    IndexMacro(usize),
    /// A code macro, by its code
    CodeMacro(String),
    /// An error
    Error,
}

impl BindingKind {
    /// The signature of a binding: constants push one value, functions have their own
    /// signature, and the other kinds have none
    pub open spec fn spec_sig(&self) -> Option<Signature> {
        match self {
            BindingKind::Const(_) => Some(Signature { args: 0, outputs: 1 }),
            BindingKind::Func(f) => Some(f.sig),
            _ => None,
        }
    }

    /// Get the signature of the binding
    pub fn sig(&self) -> (r: Option<Signature>)
        ensures
            r == self.spec_sig(),
    {
        match self {
            BindingKind::Const(_) => Some(Signature::new(0, 1)),
            BindingKind::Func(func) => Some(func.sig),
            BindingKind::Import(_) => None,
            BindingKind::Module(_) => None,
            BindingKind::Scope(_) => None,
            BindingKind::IndexMacro(_) => None,
            BindingKind::CodeMacro(_) => None,
            BindingKind::Error => None,
        }
    }

    /// Check if the global is a once-bound constant
    pub fn is_constant(&self) -> (r: bool)
        ensures
            r == self is Const,
    {
        match self {
            BindingKind::Const(_) => true,
            _ => false,
        }
    }
}

/// Character counts for a binding
#[derive(Debug, Clone, Copy, PartialEq, Eq, Structural)]
pub struct BindingCounts {
    /// The number of characters
    pub char: usize,
    /// The number of SBCS bytes
    pub sbcs: usize,
}

impl BindingCounts {
    /// The text of the counts: the character count, and the SBCS count when it differs
    pub open spec fn spec_text(self) -> Seq<char> {
        let chars = decimal(self.char as nat) + " character"@ + if self.char == 1 { ""@ } else { "s"@ };
        if self.sbcs != self.char {
            chars + " ("@ + decimal(self.sbcs as nat) + " SBCS)"@
        } else {
            chars
        }
    }

    /// Display the counts
    pub fn to_string(&self) -> (s: String)
        ensures
            s@ == self.spec_text(),
    {
        let s = decimal_string(self.char).concat(" character").concat(
            if self.char == 1 { "" } else { "s" },
        );
        if self.sbcs != self.char {
            s.concat(" (").concat(decimal_string(self.sbcs).as_str()).concat(" SBCS)")
        } else {
            s
        }
    }
}

/// An argument in a doc comment signature
#[derive(Clone)]
pub struct DocCommentArg {
    /// The name of the argument
    pub name: EcoString,
    /// A type descriptor for the argument
    pub ty: Option<EcoString>,
}

/// A signature in a doc comment
#[derive(Clone)]
pub struct DocCommentSig {
    /// Whether this is a labelling signature
    pub label: bool,
    /// The arguments of the signature
    pub args: Option<Vec<DocCommentArg>>,
    /// The outputs of the signature
    pub outputs: Option<Vec<DocCommentArg>>,
}

/// A comment that documents a binding
#[derive(Clone)]
pub struct DocComment {
    /// The comment text
    pub text: EcoString,
    /// The signature of the binding
    pub sig: Option<DocCommentSig>,
}

/// Metadata about a binding
#[derive(Clone)]
pub struct BindingMeta {
    /// The comment preceding the binding
    pub comment: Option<DocComment>,
    /// The character counts for golfing
    pub counts: Option<BindingCounts>,
    /// The deprecation message
    pub deprecation: Option<EcoString>,
    /// Whether this binding's code was externally provided
    pub external: bool,
}

impl BindingMeta {
    /// Metadata that says nothing
    pub open spec fn spec_default() -> BindingMeta {
        BindingMeta { comment: None, counts: None, deprecation: None, external: false }
    }
}

impl Default for BindingMeta {
    fn default() -> (m: Self)
        ensures
            m == Self::spec_default(),
    {
        BindingMeta { comment: None, counts: None, deprecation: None, external: false }
    }
}

/// Information about a binding
#[derive(Clone)]
pub struct BindingInfo {
    /// The binding kind
    pub kind: BindingKind,
    /// Whether the binding is public
    pub public: bool,
    /// The span of the original binding name
    pub span: CodeSpan,
    /// Metadata about the binding
    pub meta: BindingMeta,
}

impl BindingInfo {
    /// The binding that fills the gap before a binding stored further on
    pub open spec fn spec_placeholder() -> BindingInfo {
        BindingInfo {
            kind: BindingKind::Const(None),
            public: false,
            span: CodeSpan::spec_dummy(),
            meta: BindingMeta::spec_default(),
        }
    }
}

/// Information for a data definition
#[derive(Clone)]
pub struct DefInfo {
    /// The name of the definition
    pub name: Option<EcoString>,
}

/// The bindings and data definitions of a compiled program
pub struct Assembly {
    /// A list of global bindings
    pub bindings: EcoVec<BindingInfo>,
    /// A list of data definitions
    pub defs: EcoVec<DefInfo>,
    /// Where the nodes of code come from, by index
    pub spans: EcoVec<Span>,
    /// Inputs used to build the assembly
    pub inputs: Inputs,
}

/// The bindings after one is stored at `index`: put in place of the binding there, or stored
/// after placeholders that fill the gap up to it
pub open spec fn spec_bindings_after(old: Seq<BindingInfo>, index: int, binding: BindingInfo) -> Seq<BindingInfo> {
    if index < old.len() {
        old.update(index, binding)
    } else {
        old + Seq::new((index - old.len()) as nat, |i: int| BindingInfo::spec_placeholder()) + seq![binding]
    }
}

impl Default for Assembly {
    fn default() -> (a: Self)
        ensures
            binding_items(a.bindings).len() == 0,
            def_items(a.defs).len() == 0,
            span_items(a.spans) == seq![Span::Builtin],
            a.inputs.spec_empty(),
    {
        let mut spans = spans_new();
        spans_push(&mut spans, Span::Builtin);
        Assembly { bindings: bindings_new(), defs: defs_new(), spans, inputs: Inputs::default() }
    }
}

impl Assembly {
    /// Store a binding at the index of its local name
    pub fn add_binding_at(&mut self, local: LocalName, global: BindingKind, span: Option<CodeSpan>, meta: BindingMeta)
        requires
            local.index < usize::MAX,
        ensures
            binding_items(final(self).bindings) == spec_bindings_after(
                binding_items(old(self).bindings),
                local.index as int,
                BindingInfo {
                    public: local.public,
                    kind: global,
                    span: match span {
                        Some(s) => s,
                        None => CodeSpan::spec_dummy(),
                    },
                    meta,
                },
            ),
            def_items(final(self).defs) == def_items(old(self).defs),
            span_items(final(self).spans) == span_items(old(self).spans),
            final(self).inputs == old(self).inputs,
    {
        let binding = BindingInfo {
            public: local.public,
            kind: global,
            span: match span {
                Some(s) => s,
                None => CodeSpan::dummy(),
            },
            meta,
        };
        if local.index < bindings_len(&self.bindings) {
            bindings_set(&mut self.bindings, local.index, binding);
        } else {
            let ghost old_bindings = binding_items(self.bindings);
            while bindings_len(&self.bindings) < local.index
                invariant
                    old_bindings.len() <= binding_items(self.bindings).len() <= local.index,
                    binding_items(self.bindings) == old_bindings + Seq::new(
                        (binding_items(self.bindings).len() - old_bindings.len()) as nat,
                        |i: int| BindingInfo::spec_placeholder(),
                    ),
                    def_items(self.defs) == def_items(old(self).defs),
                    span_items(self.spans) == span_items(old(self).spans),
                    self.inputs == old(self).inputs,
                decreases local.index - binding_items(self.bindings).len(),
            {
                let ghost before = binding_items(self.bindings);
                bindings_push(
                    &mut self.bindings,
                    BindingInfo {
                        kind: BindingKind::Const(None),
                        public: false,
                        span: CodeSpan::dummy(),
                        meta: BindingMeta::default(),
                    },
                );
                assert(binding_items(self.bindings) =~= old_bindings + Seq::new(
                    (binding_items(self.bindings).len() - old_bindings.len()) as nat,
                    |i: int| BindingInfo::spec_placeholder(),
                ));
            }
            bindings_push(&mut self.bindings, binding);
        }
    }

    /// Bind a constant at the index of its local name, with the code span of a span of the
    /// assembly
    pub fn bind_const(&mut self, local: LocalName, value: Option<Value>, span: usize, meta: BindingMeta)
        requires
            local.index < usize::MAX,
            span < span_items(old(self).spans).len(),
        ensures
            binding_items(final(self).bindings) == spec_bindings_after(
                binding_items(old(self).bindings),
                local.index as int,
                BindingInfo {
                    public: local.public,
                    kind: BindingKind::Const(value),
                    span: match span_items(old(self).spans)[span as int] {
                        Span::Code(s) => s,
                        Span::Builtin => CodeSpan::spec_dummy(),
                    },
                    meta,
                },
            ),
            def_items(final(self).defs) == def_items(old(self).defs),
            span_items(final(self).spans) == span_items(old(self).spans),
    {
        let span = span_at(&self.spans, span);
        self.add_binding_at(local, BindingKind::Const(value), span.code(), meta);
    }

    /// Add a data definition, and get its index
    pub fn bind_def(&mut self, info: DefInfo) -> (index: usize)
        ensures
            index == def_items(old(self).defs).len(),
            def_items(final(self).defs) == def_items(old(self).defs).push(info),
            binding_items(final(self).bindings) == binding_items(old(self).bindings),
            span_items(final(self).spans) == span_items(old(self).spans),
    {
        let index = defs_len(&self.defs);
        defs_push(&mut self.defs, info);
        index
    }

    /// Get a data definition by its index
    pub fn def(&self, index: usize) -> (r: &DefInfo)
        requires
            index < def_items(self.defs).len(),
        ensures
            *r == def_items(self.defs)[index as int],
    {
        def_at(&self.defs, index)
    }
}

/// Storing a binding at an index puts it there, keeps the bindings before and after it, fills
/// any gap up to it with placeholders, and makes the list reach past it
pub proof fn lemma_binding_after_store(old: Seq<BindingInfo>, index: int, binding: BindingInfo)
    requires
        0 <= index,
    ensures
        spec_bindings_after(old, index, binding)[index] == binding,
        spec_bindings_after(old, index, binding).len() == if index < old.len() {
            old.len() as int
        } else {
            index + 1
        },
        forall|k: int|
            0 <= k < old.len() && k != index ==> #[trigger] spec_bindings_after(
                old,
                index,
                binding,
            )[k] == old[k],
        forall|k: int|
            old.len() <= k < index ==> #[trigger] spec_bindings_after(old, index, binding)[k]
                == BindingInfo::spec_placeholder(),
{
}

/// A data definition that was added is found again at the index that adding it gave
pub proof fn lemma_def_after_bind(old: Seq<DefInfo>, info: DefInfo)
    ensures
        old.push(info)[old.len() as int] == info,
        forall|k: int| 0 <= k < old.len() ==> #[trigger] old.push(info)[k] == old[k],
{
}

} // verus!
