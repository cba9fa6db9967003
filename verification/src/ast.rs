//! The parsed form of Uiua code, as far as telling the kinds of its spans needs it: words, with
//! their spans, and the items that they make up
use vstd::prelude::*;

use crate::assembly::CodeSpan;
use crate::primitive::Primitive;

verus! {

/// A value with the span of code it was parsed from
pub struct Sp<T> {
    /// The span of the code
    pub span: CodeSpan,
    /// The parsed value
    pub value: T,
}

/// A component of a path to a binding in a module: the module's name and the `~` after it
pub struct RefComponent {
    /// The span of the module's name
    pub module: CodeSpan,
    /// The span of the `~`
    pub tilde_span: CodeSpan,
}

/// A reference to a binding in a module
pub struct Ref {
    /// The modules on the way
    pub path: Vec<RefComponent>,
    /// The span of the binding's name
    pub name: CodeSpan,
}

/// An array or a function: its lines of words, an optional signature, and whether it is closed
pub struct Func {
    /// The span of the declared signature, if any
    pub signature: Option<CodeSpan>,
    /// The lines of words
    pub lines: Vec<Vec<Sp<Word>>>,
    /// Whether the closing delimiter was written
    pub closed: bool,
}

/// A pack of functions, such as a switch or a fork
pub struct FunctionPack {
    /// The branches, each with its span
    pub branches: Vec<Sp<Func>>,
    /// Whether the closing delimiter was written
    pub closed: bool,
}

/// A macro used as a modifier, or written inline: its function, its name, and the number of
/// arguments that its name says it takes
pub struct MacroUse {
    /// The function, with its span
    pub func: Sp<Func>,
    /// The span of the name
    pub ident: CodeSpan,
    /// The number of arguments that the name says the macro takes
    pub args: usize,
    /// The span of the `^`, if any
    pub caret_span: Option<CodeSpan>,
}

/// What modifies a function
pub enum Modifier {
    /// A modifier primitive
    Primitive(Primitive),
    /// A reference to a modifier binding
    Ref(Ref),
    /// A macro
    Macro(MacroUse),
}

/// A modifier with its operands
pub struct Modified {
    /// The modifier, with its span
    pub modifier: Sp<Modifier>,
    /// The operands
    pub operands: Vec<Sp<Word>>,
}

/// A word with a subscript
pub struct Subscripted {
    /// The subscript's number, if it has one, with the subscript's span
    pub n: Sp<Option<i32>>,
    /// The word under the subscript
    pub word: Sp<Word>,
}

/// A word of Uiua code
pub enum Word {
    /// A number
    Number,
    /// A character
    Char,
    /// A string
    String,
    /// A format string
    FormatString,
    /// A multiline string, by the spans of its lines
    MultilineString(Vec<CodeSpan>),
    /// A multiline format string, by the spans of its lines
    MultilineFormatString(Vec<CodeSpan>),
    /// A label
    Label,
    /// A reference to a binding in a module
    Ref(Ref),
    /// A path that does not yet name a binding
    IncompleteRef(Vec<RefComponent>),
    /// Words joined by `_`
    Strand(Vec<Sp<Word>>),
    /// An array
    Array(Func),
    /// A function
    Func(Func),
    /// A pack of functions
    Pack(FunctionPack),
    /// A primitive
    Primitive(Primitive),
    /// A modifier with its operands
    Modified(Box<Modified>),
    /// A placeholder for a macro argument
    Placeholder(usize),
    /// Spaces
    Spaces,
    /// A line break
    BreakLine,
    /// A line break that flips
    FlipLine,
    /// A comment
    Comment,
    /// A semantic comment
    SemanticComment,
    /// An output comment
    OutputComment,
    /// A word with a subscript
    Subscripted(Box<Subscripted>),
    /// A macro written inline
    InlineMacro(MacroUse),
}

/// A line of `~` and the names it brings into scope
pub struct ImportLine {
    /// The span of the `~`
    pub tilde_span: CodeSpan,
    /// The spans of the names
    pub items: Vec<CodeSpan>,
}

/// A module written in the code
pub struct ScopedModule {
    /// The span of the opening delimiter
    pub open_span: CodeSpan,
    /// The span of the module's name, where it is named (a test module is not)
    pub name: Option<CodeSpan>,
    /// The names brought into scope, if any
    pub imports: Option<ImportLine>,
    /// The items of the module
    pub items: Vec<Item>,
    /// The span of the closing delimiter, if written
    pub close_span: Option<CodeSpan>,
}

/// A binding
pub struct Binding {
    /// The span of the `~` that makes it private, if any
    pub tilde_span: Option<CodeSpan>,
    /// The span of the name
    pub name: CodeSpan,
    /// The span of the arrow
    pub arrow_span: CodeSpan,
    /// The span of the declared signature, if any
    pub signature: Option<CodeSpan>,
    /// The words bound
    pub words: Vec<Sp<Word>>,
}

/// The validator of a data field
pub struct FieldValidator {
    /// The span of the opening delimiter
    pub open_span: CodeSpan,
    /// The words of the validator
    pub words: Vec<Sp<Word>>,
    /// The span of the closing delimiter, if written
    pub close_span: Option<CodeSpan>,
}

/// The default value of a data field
pub struct FieldInit {
    /// The span of the arrow
    pub arrow_span: CodeSpan,
    /// The words of the default value
    pub words: Vec<Sp<Word>>,
}

/// A field of a data definition
pub struct DataField {
    /// The span of the field's name
    pub name: CodeSpan,
    /// The span of the whole field
    pub span: CodeSpan,
    /// The validator, if any
    pub validator: Option<FieldValidator>,
    /// The default value, if any
    pub init: Option<FieldInit>,
}

/// The fields of a data definition
pub struct DataFields {
    /// The span of the opening delimiter
    pub open_span: CodeSpan,
    /// The fields
    pub fields: Vec<DataField>,
    /// The span of the closing delimiter, if written
    pub close_span: Option<CodeSpan>,
}

/// A data definition
pub struct DataDef {
    /// The span of the `~` that starts it
    pub init_span: CodeSpan,
    /// The span of the name, if any
    pub name: Option<CodeSpan>,
    /// The fields, if any
    pub fields: Option<DataFields>,
    /// The words of its function, if any
    pub func: Option<Vec<Sp<Word>>>,
}

/// An import of a module
pub struct Import {
    /// The span of the name it is bound to, if any
    pub name: Option<CodeSpan>,
    /// The span of the `~`
    pub tilde_span: CodeSpan,
    /// The span of the path
    pub path: CodeSpan,
    /// The lines of names brought into scope
    pub lines: Vec<Option<ImportLine>>,
}

/// An item of Uiua code
pub enum Item {
    /// A module written in the code
    Module(Box<ScopedModule>),
    /// Lines of words
    Words(Vec<Vec<Sp<Word>>>),
    /// A binding
    Binding(Binding),
    /// A data definition
    Data(DataDef),
    /// An import
    Import(Import),
}

} // verus!
