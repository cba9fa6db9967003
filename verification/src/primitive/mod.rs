//! Primitive definitions and queries over them
use vstd::prelude::*;

pub mod format_laws;
pub mod format_name;
pub mod laws;
pub mod lookup;
pub mod impl_prim;
pub mod multi;
pub mod multi_laws;
pub mod trace;
pub use lookup::{first_match, FormatPrimitive};

use crate::sys::{SysOp, SysOpClass};
use crate::Signature;

verus! {

/// An ASCII token that formats to a primitive
#[derive(Debug, Clone, Copy, PartialEq, Eq, Structural)]
pub enum AsciiToken {
    Star,
    Percent,
    Backtick,
    BangEqual,
    LessEqual,
    GreaterEqual,
}

impl AsciiToken {
    /// The text of the token
    pub open spec fn spec_text(self) -> Seq<char> {
        match self {
            AsciiToken::Star => "*"@,
            AsciiToken::Percent => "%"@,
            AsciiToken::Backtick => "`"@,
            AsciiToken::BangEqual => "!="@,
            AsciiToken::LessEqual => "<="@,
            AsciiToken::GreaterEqual => ">="@,
        }
    }

    /// The text of the token
    pub fn text(&self) -> (r: &'static str)
        ensures
            r@ == self.spec_text(),
    {
        match self {
            AsciiToken::Star => "*",
            AsciiToken::Percent => "%",
            AsciiToken::Backtick => "`",
            AsciiToken::BangEqual => "!=",
            AsciiToken::LessEqual => "<=",
            AsciiToken::GreaterEqual => ">=",
        }
    }
}

/// Categories of primitives
#[derive(Debug, Clone, Copy, PartialEq, Eq, Structural)]
pub enum PrimClass {
    Stack,
    Constant,
    MonadicPervasive,
    DyadicPervasive,
    MonadicArray,
    DyadicArray,
    IteratingModifier,
    AggregatingModifier,
    InversionModifier,
    Planet,
    OtherModifier,
    Comptime,
    Debug,
    Thread,
    Maps,
    Encoding,
    Misc,
    Sys(SysOpClass),
}

impl PrimClass {
    /// Every primitive class in declaration order, the system classes in their own order in
    /// place of the last one
    pub open spec fn spec_all() -> Seq<PrimClass> {
        seq![
            PrimClass::Stack,
            PrimClass::Constant,
            PrimClass::MonadicPervasive,
            PrimClass::DyadicPervasive,
            PrimClass::MonadicArray,
            PrimClass::DyadicArray,
            PrimClass::IteratingModifier,
            PrimClass::AggregatingModifier,
            PrimClass::InversionModifier,
            PrimClass::Planet,
            PrimClass::OtherModifier,
            PrimClass::Comptime,
            PrimClass::Debug,
            PrimClass::Thread,
            PrimClass::Maps,
            PrimClass::Encoding,
            PrimClass::Misc,
        ] + SysOpClass::spec_all().map_values(|c: SysOpClass| PrimClass::Sys(c))
    }

    /// All primitive classes
    pub fn all() -> (v: Vec<PrimClass>)
        ensures
            v@ == Self::spec_all(),
    {
        let mut v = vec![
            PrimClass::Stack,
            PrimClass::Constant,
            PrimClass::MonadicPervasive,
            PrimClass::DyadicPervasive,
            PrimClass::MonadicArray,
            PrimClass::DyadicArray,
            PrimClass::IteratingModifier,
            PrimClass::AggregatingModifier,
            PrimClass::InversionModifier,
            PrimClass::Planet,
            PrimClass::OtherModifier,
            PrimClass::Comptime,
            PrimClass::Debug,
            PrimClass::Thread,
            PrimClass::Maps,
            PrimClass::Encoding,
            PrimClass::Misc,
        ];
        let ghost head = v@;
        let sys = SysOpClass::all();
        let mut i: usize = 0;
        while i < sys.len()
            invariant
                i <= sys@.len(),
                sys@ == SysOpClass::spec_all(),
                v@ == head + sys@.take(i as int).map_values(|c: SysOpClass| PrimClass::Sys(c)),
            decreases sys@.len() - i,
        {
            v.push(PrimClass::Sys(sys[i]));
            i += 1;
            assert(sys@.take(i as int).map_values(|c: SysOpClass| PrimClass::Sys(c))
                =~= sys@.take(i - 1).map_values(|c: SysOpClass| PrimClass::Sys(c)).push(
                PrimClass::Sys(sys@[i - 1]),
            ));
        }
        assert(sys@.take(sys@.len() as int) =~= sys@);
        assert(v@ =~= Self::spec_all());
        v
    }

    /// Whether the class holds pervasive functions
    pub open spec fn spec_is_pervasive(self) -> bool {
        self is MonadicPervasive || self is DyadicPervasive
    }

    /// Check if this class is pervasive
    pub fn is_pervasive(&self) -> (r: bool)
        ensures
            r == self.spec_is_pervasive(),
    {
        match self {
            PrimClass::MonadicPervasive | PrimClass::DyadicPervasive => true,
            _ => false,
        }
    }
}

/// The names of a primitive
#[derive(Debug, Clone, Copy, PartialEq, Eq)]
pub struct PrimNames {
    /// The text name
    pub text: &'static str,
    /// An ASCII token that formats to the primitive
    pub ascii: Option<AsciiToken>,
    /// The primitive's glyph
    pub glyph: Option<char>,
}

/// A built-in function or modifier
#[derive(Debug, Clone, Copy, PartialEq, Eq, Structural)]
pub enum Primitive {
    Eta,
    Pi,
    Tau,
    Infinity,
    Identity,
    Dup,
    Flip,
    Over,
    Around,
    Pop,
    Gap,
    Dip,
    Both,
    Fork,
    Bracket,
    On,
    By,
    With,
    Off,
    Above,
    Below,
    Slf,
    Reach,
    Not,
    Sign,
    Neg,
    Abs,
    Sqrt,
    Sin,
    Floor,
    Ceil,
    Round,
    Eq,
    Ne,
    Lt,
    Le,
    Gt,
    Ge,
    Add,
    Sub,
    Mul,
    Div,
    Modulus,
    Or,
    Pow,
    Log,
    Min,
    Max,
    Atan,
    Len,
    Shape,
    Range,
    First,
    Last,
    Reverse,
    Deshape,
    Fix,
    Bits,
    Transpose,
    Sort,
    Rise,
    Fall,
    Where,
    Classify,
    Deduplicate,
    Unique,
    Box,
    Match,
    Couple,
    Join,
    Select,
    Pick,
    Reshape,
    Rerank,
    Take,
    Drop,
    Rotate,
    Orient,
    Windows,
    Keep,
    Find,
    Mask,
    MemberOf,
    IndexOf,
    Base,
    Each,
    Rows,
    Table,
    Inventory,
    Repeat,
    Do,
    Tuples,
    Stencil,
    Reduce,
    Fold,
    Scan,
    Group,
    Partition,
    Un,
    Anti,
    Under,
    Obverse,
    Content,
    Fill,
    Try,
    Case,
    Switch,
    Astar,
    Path,
    Memo,
    Comptime,
    Quote,
    Sig,
    Stringify,
    Trace,
    Stack,
    Dump,
    Assert,
    Spawn,
    Pool,
    Wait,
    Send,
    Recv,
    TryRecv,
    Mapping,
    Insert,
    Has,
    Get,
    Remove,
    Parse,
    Utf8,
    Graphemes,
    Rand,
    Gen,
    Tag,
    Type,
    Repr,
    Now,
    TimeZone,
    DateTime,
    Sys(SysOp),
}

impl Primitive {
    /// The primitive's text name
    pub open spec fn spec_name(self) -> Seq<char> {
        match self {
            Primitive::Eta => "eta"@,
            Primitive::Pi => "pi"@,
            Primitive::Tau => "tau"@,
            Primitive::Infinity => "infinity"@,
            Primitive::Identity => "identity"@,
            Primitive::Dup => "duplicate"@,
            Primitive::Flip => "flip"@,
            Primitive::Over => "over"@,
            Primitive::Around => "around"@,
            Primitive::Pop => "pop"@,
            Primitive::Gap => "gap"@,
            Primitive::Dip => "dip"@,
            Primitive::Both => "both"@,
            Primitive::Fork => "fork"@,
            Primitive::Bracket => "bracket"@,
            Primitive::On => "on"@,
            Primitive::By => "by"@,
            Primitive::With => "with"@,
            Primitive::Off => "off"@,
            Primitive::Above => "above"@,
            Primitive::Below => "below"@,
            Primitive::Slf => "self"@,
            Primitive::Reach => "reach"@,
            Primitive::Not => "not"@,
            Primitive::Sign => "sign"@,
            Primitive::Neg => "negate"@,
            Primitive::Abs => "absolute value"@,
            Primitive::Sqrt => "sqrt"@,
            Primitive::Sin => "sine"@,
            Primitive::Floor => "floor"@,
            Primitive::Ceil => "ceiling"@,
            Primitive::Round => "round"@,
            Primitive::Eq => "equals"@,
            Primitive::Ne => "not equals"@,
            Primitive::Lt => "less than"@,
            Primitive::Le => "less or equal"@,
            Primitive::Gt => "greater than"@,
            Primitive::Ge => "greater or equal"@,
            Primitive::Add => "add"@,
            Primitive::Sub => "subtract"@,
            Primitive::Mul => "multiply"@,
            Primitive::Div => "divide"@,
            Primitive::Modulus => "modulus"@,
            Primitive::Or => "or"@,
            Primitive::Pow => "power"@,
            Primitive::Log => "logarithm"@,
            Primitive::Min => "minimum"@,
            Primitive::Max => "maximum"@,
            Primitive::Atan => "atangent"@,
            Primitive::Len => "length"@,
            Primitive::Shape => "shape"@,
            Primitive::Range => "range"@,
            Primitive::First => "first"@,
            Primitive::Last => "last"@,
            Primitive::Reverse => "reverse"@,
            Primitive::Deshape => "deshape"@,
            Primitive::Fix => "fix"@,
            Primitive::Bits => "bits"@,
            Primitive::Transpose => "transpose"@,
            Primitive::Sort => "sort"@,
            Primitive::Rise => "rise"@,
            Primitive::Fall => "fall"@,
            Primitive::Where => "where"@,
            Primitive::Classify => "classify"@,
            Primitive::Deduplicate => "deduplicate"@,
            Primitive::Unique => "unique"@,
            Primitive::Box => "box"@,
            Primitive::Match => "match"@,
            Primitive::Couple => "couple"@,
            Primitive::Join => "join"@,
            Primitive::Select => "select"@,
            Primitive::Pick => "pick"@,
            Primitive::Reshape => "reshape"@,
            Primitive::Rerank => "rerank"@,
            Primitive::Take => "take"@,
            Primitive::Drop => "drop"@,
            Primitive::Rotate => "rotate"@,
            Primitive::Orient => "orient"@,
            Primitive::Windows => "windows"@,
            Primitive::Keep => "keep"@,
            Primitive::Find => "find"@,
            Primitive::Mask => "mask"@,
            Primitive::MemberOf => "memberof"@,
            Primitive::IndexOf => "indexof"@,
            Primitive::Base => "base"@,
            Primitive::Each => "each"@,
            Primitive::Rows => "rows"@,
            Primitive::Table => "table"@,
            Primitive::Inventory => "inventory"@,
            Primitive::Repeat => "repeat"@,
            Primitive::Do => "do"@,
            Primitive::Tuples => "tuples"@,
            Primitive::Stencil => "stencil"@,
            Primitive::Reduce => "reduce"@,
            Primitive::Fold => "fold"@,
            Primitive::Scan => "scan"@,
            Primitive::Group => "group"@,
            Primitive::Partition => "partition"@,
            Primitive::Un => "un"@,
            Primitive::Anti => "anti"@,
            Primitive::Under => "under"@,
            Primitive::Obverse => "obverse"@,
            Primitive::Content => "content"@,
            Primitive::Fill => "fill"@,
            Primitive::Try => "try"@,
            Primitive::Case => "case"@,
            Primitive::Switch => "switch"@,
            Primitive::Astar => "astar"@,
            Primitive::Path => "path"@,
            Primitive::Memo => "memo"@,
            Primitive::Comptime => "comptime"@,
            Primitive::Quote => "quote"@,
            Primitive::Sig => "signature"@,
            Primitive::Stringify => "stringify"@,
            Primitive::Trace => "trace"@,
            Primitive::Stack => "stack"@,
            Primitive::Dump => "dump"@,
            Primitive::Assert => "assert"@,
            Primitive::Spawn => "spawn"@,
            Primitive::Pool => "pool"@,
            Primitive::Wait => "wait"@,
            Primitive::Send => "send"@,
            Primitive::Recv => "recv"@,
            Primitive::TryRecv => "tryrecv"@,
            Primitive::Mapping => "map"@,
            Primitive::Insert => "insert"@,
            Primitive::Has => "has"@,
            Primitive::Get => "get"@,
            Primitive::Remove => "remove"@,
            Primitive::Parse => "parse"@,
            Primitive::Utf8 => "utf₈"@,
            Primitive::Graphemes => "graphemes"@,
            Primitive::Rand => "random"@,
            Primitive::Gen => "gen"@,
            Primitive::Tag => "tag"@,
            Primitive::Type => "type"@,
            Primitive::Repr => "repr"@,
            Primitive::Now => "now"@,
            Primitive::TimeZone => "timezone"@,
            Primitive::DateTime => "datetime"@,
            Primitive::Sys(op) => op.spec_name(),
        }
    }

    /// The ASCII token that formats to the primitive
    pub open spec fn spec_ascii(self) -> Option<AsciiToken> {
        match self {
            Primitive::Neg => Some(AsciiToken::Backtick),
            Primitive::Ne => Some(AsciiToken::BangEqual),
            Primitive::Le => Some(AsciiToken::LessEqual),
            Primitive::Ge => Some(AsciiToken::GreaterEqual),
            Primitive::Mul => Some(AsciiToken::Star),
            Primitive::Div => Some(AsciiToken::Percent),
            _ => None,
        }
    }

    /// The primitive's glyph
    pub open spec fn spec_glyph(self) -> Option<char> {
        match self {
            Primitive::Eta => Some('η'),
            Primitive::Pi => Some('π'),
            Primitive::Tau => Some('τ'),
            Primitive::Infinity => Some('∞'),
            Primitive::Identity => Some('∘'),
            Primitive::Dup => Some('.'),
            Primitive::Flip => Some(':'),
            Primitive::Over => Some(','),
            Primitive::Around => Some('’'),
            Primitive::Pop => Some('◌'),
            Primitive::Gap => Some('⋅'),
            Primitive::Dip => Some('⊙'),
            Primitive::Both => Some('∩'),
            Primitive::Fork => Some('⊃'),
            Primitive::Bracket => Some('⊓'),
            Primitive::On => Some('⟜'),
            Primitive::By => Some('⊸'),
            Primitive::With => Some('⤙'),
            Primitive::Off => Some('⤚'),
            Primitive::Above => Some('◠'),
            Primitive::Below => Some('◡'),
            Primitive::Slf => Some('˙'),
            Primitive::Reach => Some('𝄐'),
            Primitive::Not => Some('¬'),
            Primitive::Sign => Some('±'),
            Primitive::Neg => Some('¯'),
            Primitive::Abs => Some('⌵'),
            Primitive::Sqrt => Some('√'),
            Primitive::Sin => Some('∿'),
            Primitive::Floor => Some('⌊'),
            Primitive::Ceil => Some('⌈'),
            Primitive::Round => Some('⁅'),
            Primitive::Eq => Some('='),
            Primitive::Ne => Some('≠'),
            Primitive::Lt => Some('<'),
            Primitive::Le => Some('≤'),
            Primitive::Gt => Some('>'),
            Primitive::Ge => Some('≥'),
            Primitive::Add => Some('+'),
            Primitive::Sub => Some('-'),
            Primitive::Mul => Some('×'),
            Primitive::Div => Some('÷'),
            Primitive::Modulus => Some('◿'),
            Primitive::Or => Some('∨'),
            Primitive::Pow => Some('ⁿ'),
            Primitive::Log => Some('ₙ'),
            Primitive::Min => Some('↧'),
            Primitive::Max => Some('↥'),
            Primitive::Atan => Some('∠'),
            Primitive::Len => Some('⧻'),
            Primitive::Shape => Some('△'),
            Primitive::Range => Some('⇡'),
            Primitive::First => Some('⊢'),
            Primitive::Last => Some('⊣'),
            Primitive::Reverse => Some('⇌'),
            Primitive::Deshape => Some('♭'),
            Primitive::Fix => Some('¤'),
            Primitive::Bits => Some('⋯'),
            Primitive::Transpose => Some('⍉'),
            Primitive::Sort => Some('⍆'),
            Primitive::Rise => Some('⍏'),
            Primitive::Fall => Some('⍖'),
            Primitive::Where => Some('⊚'),
            Primitive::Classify => Some('⊛'),
            Primitive::Deduplicate => Some('◴'),
            Primitive::Unique => Some('◰'),
            Primitive::Box => Some('□'),
            Primitive::Match => Some('≍'),
            Primitive::Couple => Some('⊟'),
            Primitive::Join => Some('⊂'),
            Primitive::Select => Some('⊏'),
            Primitive::Pick => Some('⊡'),
            Primitive::Reshape => Some('↯'),
            Primitive::Rerank => Some('☇'),
            Primitive::Take => Some('↙'),
            Primitive::Drop => Some('↘'),
            Primitive::Rotate => Some('↻'),
            Primitive::Orient => Some('⤸'),
            Primitive::Windows => Some('◫'),
            Primitive::Keep => Some('▽'),
            Primitive::Find => Some('⌕'),
            Primitive::Mask => Some('⦷'),
            Primitive::MemberOf => Some('∊'),
            Primitive::IndexOf => Some('⊗'),
            Primitive::Base => Some('⊥'),
            Primitive::Each => Some('∵'),
            Primitive::Rows => Some('≡'),
            Primitive::Table => Some('⊞'),
            Primitive::Inventory => Some('⍚'),
            Primitive::Repeat => Some('⍥'),
            Primitive::Do => Some('⍢'),
            Primitive::Tuples => Some('⧅'),
            Primitive::Stencil => Some('⧈'),
            Primitive::Reduce => Some('/'),
            Primitive::Fold => Some('∧'),
            Primitive::Scan => Some('\\'),
            Primitive::Group => Some('⊕'),
            Primitive::Partition => Some('⊜'),
            Primitive::Un => Some('°'),
            Primitive::Anti => Some('⌝'),
            Primitive::Under => Some('⍜'),
            Primitive::Obverse => Some('⌅'),
            Primitive::Content => Some('◇'),
            Primitive::Fill => Some('⬚'),
            Primitive::Try => Some('⍣'),
            Primitive::Switch => Some('⨬'),
            Primitive::Trace => Some('⸮'),
            Primitive::Stack => Some('?'),
            Primitive::Assert => Some('⍤'),
            Primitive::Spawn => Some('↰'),
            Primitive::Pool => Some('↱'),
            Primitive::Parse => Some('⋕'),
            Primitive::Rand => Some('⚂'),
            _ => None,
        }
    }

    /// The number of arguments the primitive takes, if it is fixed
    pub open spec fn spec_args(self) -> Option<usize> {
        match self {
            Primitive::Eta => Some(0),
            Primitive::Pi => Some(0),
            Primitive::Tau => Some(0),
            Primitive::Infinity => Some(0),
            Primitive::Identity => Some(1),
            Primitive::Dup => Some(1),
            Primitive::Flip => Some(2),
            Primitive::Over => Some(2),
            Primitive::Around => Some(2),
            Primitive::Pop => Some(1),
            Primitive::Not => Some(1),
            Primitive::Sign => Some(1),
            Primitive::Neg => Some(1),
            Primitive::Abs => Some(1),
            Primitive::Sqrt => Some(1),
            Primitive::Sin => Some(1),
            Primitive::Floor => Some(1),
            Primitive::Ceil => Some(1),
            Primitive::Round => Some(1),
            Primitive::Eq => Some(2),
            Primitive::Ne => Some(2),
            Primitive::Lt => Some(2),
            Primitive::Le => Some(2),
            Primitive::Gt => Some(2),
            Primitive::Ge => Some(2),
            Primitive::Add => Some(2),
            Primitive::Sub => Some(2),
            Primitive::Mul => Some(2),
            Primitive::Div => Some(2),
            Primitive::Modulus => Some(2),
            Primitive::Or => Some(2),
            Primitive::Pow => Some(2),
            Primitive::Log => Some(2),
            Primitive::Min => Some(2),
            Primitive::Max => Some(2),
            Primitive::Atan => Some(2),
            Primitive::Len => Some(1),
            Primitive::Shape => Some(1),
            Primitive::Range => Some(1),
            Primitive::First => Some(1),
            Primitive::Last => Some(1),
            Primitive::Reverse => Some(1),
            Primitive::Deshape => Some(1),
            Primitive::Fix => Some(1),
            Primitive::Bits => Some(1),
            Primitive::Transpose => Some(1),
            Primitive::Sort => Some(1),
            Primitive::Rise => Some(1),
            Primitive::Fall => Some(1),
            Primitive::Where => Some(1),
            Primitive::Classify => Some(1),
            Primitive::Deduplicate => Some(1),
            Primitive::Unique => Some(1),
            Primitive::Box => Some(1),
            Primitive::Match => Some(2),
            Primitive::Couple => Some(2),
            Primitive::Join => Some(2),
            Primitive::Select => Some(2),
            Primitive::Pick => Some(2),
            Primitive::Reshape => Some(2),
            Primitive::Rerank => Some(2),
            Primitive::Take => Some(2),
            Primitive::Drop => Some(2),
            Primitive::Rotate => Some(2),
            Primitive::Orient => Some(2),
            Primitive::Windows => Some(2),
            Primitive::Keep => Some(2),
            Primitive::Find => Some(2),
            Primitive::Mask => Some(2),
            Primitive::MemberOf => Some(2),
            Primitive::IndexOf => Some(2),
            Primitive::Base => Some(2),
            Primitive::Trace => Some(1),
            Primitive::Stack => Some(0),
            Primitive::Assert => Some(2),
            Primitive::Wait => Some(1),
            Primitive::Send => Some(2),
            Primitive::Recv => Some(1),
            Primitive::TryRecv => Some(1),
            Primitive::Mapping => Some(2),
            Primitive::Insert => Some(3),
            Primitive::Has => Some(2),
            Primitive::Get => Some(2),
            Primitive::Remove => Some(2),
            Primitive::Parse => Some(1),
            Primitive::Utf8 => Some(1),
            Primitive::Graphemes => Some(1),
            Primitive::Rand => Some(0),
            Primitive::Gen => Some(2),
            Primitive::Tag => Some(0),
            Primitive::Type => Some(1),
            Primitive::Repr => Some(1),
            Primitive::Now => Some(0),
            Primitive::TimeZone => Some(0),
            Primitive::DateTime => Some(1),
            Primitive::Sys(op) => if op.spec_modifier_args() is None { Some(op.spec_args()) } else { None },
            _ => None,
        }
    }

    /// The number of outputs the primitive returns, if it is fixed
    pub open spec fn spec_outputs(self) -> Option<usize> {
        match self {
            Primitive::Eta => Some(1),
            Primitive::Pi => Some(1),
            Primitive::Tau => Some(1),
            Primitive::Infinity => Some(1),
            Primitive::Identity => Some(1),
            Primitive::Dup => Some(2),
            Primitive::Flip => Some(2),
            Primitive::Over => Some(3),
            Primitive::Around => Some(3),
            Primitive::Pop => Some(0),
            Primitive::Not => Some(1),
            Primitive::Sign => Some(1),
            Primitive::Neg => Some(1),
            Primitive::Abs => Some(1),
            Primitive::Sqrt => Some(1),
            Primitive::Sin => Some(1),
            Primitive::Floor => Some(1),
            Primitive::Ceil => Some(1),
            Primitive::Round => Some(1),
            Primitive::Eq => Some(1),
            Primitive::Ne => Some(1),
            Primitive::Lt => Some(1),
            Primitive::Le => Some(1),
            Primitive::Gt => Some(1),
            Primitive::Ge => Some(1),
            Primitive::Add => Some(1),
            Primitive::Sub => Some(1),
            Primitive::Mul => Some(1),
            Primitive::Div => Some(1),
            Primitive::Modulus => Some(1),
            Primitive::Or => Some(1),
            Primitive::Pow => Some(1),
            Primitive::Log => Some(1),
            Primitive::Min => Some(1),
            Primitive::Max => Some(1),
            Primitive::Atan => Some(1),
            Primitive::Len => Some(1),
            Primitive::Shape => Some(1),
            Primitive::Range => Some(1),
            Primitive::First => Some(1),
            Primitive::Last => Some(1),
            Primitive::Reverse => Some(1),
            Primitive::Deshape => Some(1),
            Primitive::Fix => Some(1),
            Primitive::Bits => Some(1),
            Primitive::Transpose => Some(1),
            Primitive::Sort => Some(1),
            Primitive::Rise => Some(1),
            Primitive::Fall => Some(1),
            Primitive::Where => Some(1),
            Primitive::Classify => Some(1),
            Primitive::Deduplicate => Some(1),
            Primitive::Unique => Some(1),
            Primitive::Box => Some(1),
            Primitive::Match => Some(1),
            Primitive::Couple => Some(1),
            Primitive::Join => Some(1),
            Primitive::Select => Some(1),
            Primitive::Pick => Some(1),
            Primitive::Reshape => Some(1),
            Primitive::Rerank => Some(1),
            Primitive::Take => Some(1),
            Primitive::Drop => Some(1),
            Primitive::Rotate => Some(1),
            Primitive::Orient => Some(1),
            Primitive::Windows => Some(1),
            Primitive::Keep => Some(1),
            Primitive::Find => Some(1),
            Primitive::Mask => Some(1),
            Primitive::MemberOf => Some(1),
            Primitive::IndexOf => Some(1),
            Primitive::Base => Some(1),
            Primitive::Trace => Some(1),
            Primitive::Stack => Some(0),
            Primitive::Assert => Some(0),
            Primitive::Wait => Some(1),
            Primitive::Send => Some(0),
            Primitive::Recv => Some(1),
            Primitive::TryRecv => Some(1),
            Primitive::Mapping => Some(1),
            Primitive::Insert => Some(1),
            Primitive::Has => Some(1),
            Primitive::Get => Some(1),
            Primitive::Remove => Some(1),
            Primitive::Parse => Some(1),
            Primitive::Utf8 => Some(1),
            Primitive::Graphemes => Some(1),
            Primitive::Rand => Some(1),
            Primitive::Gen => Some(2),
            Primitive::Tag => Some(1),
            Primitive::Type => Some(1),
            Primitive::Repr => Some(1),
            Primitive::Now => Some(1),
            Primitive::TimeZone => Some(1),
            Primitive::DateTime => Some(1),
            Primitive::Sys(op) => if op.spec_modifier_args() is None { Some(op.spec_outputs()) } else { None },
            _ => None,
        }
    }

    /// The number of function arguments the primitive takes, if it is a modifier
    pub open spec fn spec_modifier_args(self) -> Option<usize> {
        match self {
            Primitive::Gap => Some(1),
            Primitive::Dip => Some(1),
            Primitive::Both => Some(1),
            Primitive::Fork => Some(2),
            Primitive::Bracket => Some(2),
            Primitive::On => Some(1),
            Primitive::By => Some(1),
            Primitive::With => Some(1),
            Primitive::Off => Some(1),
            Primitive::Above => Some(1),
            Primitive::Below => Some(1),
            Primitive::Slf => Some(1),
            Primitive::Reach => Some(1),
            Primitive::Each => Some(1),
            Primitive::Rows => Some(1),
            Primitive::Table => Some(1),
            Primitive::Inventory => Some(1),
            Primitive::Repeat => Some(1),
            Primitive::Do => Some(2),
            Primitive::Tuples => Some(1),
            Primitive::Stencil => Some(1),
            Primitive::Reduce => Some(1),
            Primitive::Fold => Some(1),
            Primitive::Scan => Some(1),
            Primitive::Group => Some(1),
            Primitive::Partition => Some(1),
            Primitive::Un => Some(1),
            Primitive::Anti => Some(1),
            Primitive::Under => Some(2),
            Primitive::Obverse => Some(1),
            Primitive::Content => Some(1),
            Primitive::Fill => Some(2),
            Primitive::Try => Some(2),
            Primitive::Case => Some(1),
            Primitive::Switch => Some(1),
            Primitive::Astar => Some(3),
            Primitive::Path => Some(2),
            Primitive::Memo => Some(1),
            Primitive::Comptime => Some(1),
            Primitive::Quote => Some(1),
            Primitive::Sig => Some(1),
            Primitive::Stringify => Some(1),
            Primitive::Dump => Some(1),
            Primitive::Spawn => Some(1),
            Primitive::Pool => Some(1),
            Primitive::Sys(op) => op.spec_modifier_args(),
            _ => None,
        }
    }

    /// The category of the primitive
    pub open spec fn spec_class(self) -> PrimClass {
        match self {
            Primitive::Eta => PrimClass::Constant,
            Primitive::Pi => PrimClass::Constant,
            Primitive::Tau => PrimClass::Constant,
            Primitive::Infinity => PrimClass::Constant,
            Primitive::Identity => PrimClass::Stack,
            Primitive::Dup => PrimClass::Stack,
            Primitive::Flip => PrimClass::Stack,
            Primitive::Over => PrimClass::Stack,
            Primitive::Around => PrimClass::Stack,
            Primitive::Pop => PrimClass::Stack,
            Primitive::Gap => PrimClass::Planet,
            Primitive::Dip => PrimClass::Planet,
            Primitive::Both => PrimClass::Planet,
            Primitive::Fork => PrimClass::Planet,
            Primitive::Bracket => PrimClass::Planet,
            Primitive::On => PrimClass::Planet,
            Primitive::By => PrimClass::Planet,
            Primitive::With => PrimClass::Planet,
            Primitive::Off => PrimClass::Planet,
            Primitive::Above => PrimClass::Planet,
            Primitive::Below => PrimClass::Planet,
            Primitive::Slf => PrimClass::Planet,
            Primitive::Reach => PrimClass::Planet,
            Primitive::Not => PrimClass::MonadicPervasive,
            Primitive::Sign => PrimClass::MonadicPervasive,
            Primitive::Neg => PrimClass::MonadicPervasive,
            Primitive::Abs => PrimClass::MonadicPervasive,
            Primitive::Sqrt => PrimClass::MonadicPervasive,
            Primitive::Sin => PrimClass::MonadicPervasive,
            Primitive::Floor => PrimClass::MonadicPervasive,
            Primitive::Ceil => PrimClass::MonadicPervasive,
            Primitive::Round => PrimClass::MonadicPervasive,
            Primitive::Eq => PrimClass::DyadicPervasive,
            Primitive::Ne => PrimClass::DyadicPervasive,
            Primitive::Lt => PrimClass::DyadicPervasive,
            Primitive::Le => PrimClass::DyadicPervasive,
            Primitive::Gt => PrimClass::DyadicPervasive,
            Primitive::Ge => PrimClass::DyadicPervasive,
            Primitive::Add => PrimClass::DyadicPervasive,
            Primitive::Sub => PrimClass::DyadicPervasive,
            Primitive::Mul => PrimClass::DyadicPervasive,
            Primitive::Div => PrimClass::DyadicPervasive,
            Primitive::Modulus => PrimClass::DyadicPervasive,
            Primitive::Or => PrimClass::DyadicPervasive,
            Primitive::Pow => PrimClass::DyadicPervasive,
            Primitive::Log => PrimClass::DyadicPervasive,
            Primitive::Min => PrimClass::DyadicPervasive,
            Primitive::Max => PrimClass::DyadicPervasive,
            Primitive::Atan => PrimClass::DyadicPervasive,
            Primitive::Len => PrimClass::MonadicArray,
            Primitive::Shape => PrimClass::MonadicArray,
            Primitive::Range => PrimClass::MonadicArray,
            Primitive::First => PrimClass::MonadicArray,
            Primitive::Last => PrimClass::MonadicArray,
            Primitive::Reverse => PrimClass::MonadicArray,
            Primitive::Deshape => PrimClass::MonadicArray,
            Primitive::Fix => PrimClass::MonadicArray,
            Primitive::Bits => PrimClass::MonadicArray,
            Primitive::Transpose => PrimClass::MonadicArray,
            Primitive::Sort => PrimClass::MonadicArray,
            Primitive::Rise => PrimClass::MonadicArray,
            Primitive::Fall => PrimClass::MonadicArray,
            Primitive::Where => PrimClass::MonadicArray,
            Primitive::Classify => PrimClass::MonadicArray,
            Primitive::Deduplicate => PrimClass::MonadicArray,
            Primitive::Unique => PrimClass::MonadicArray,
            Primitive::Box => PrimClass::MonadicArray,
            Primitive::Match => PrimClass::DyadicArray,
            Primitive::Couple => PrimClass::DyadicArray,
            Primitive::Join => PrimClass::DyadicArray,
            Primitive::Select => PrimClass::DyadicArray,
            Primitive::Pick => PrimClass::DyadicArray,
            Primitive::Reshape => PrimClass::DyadicArray,
            Primitive::Rerank => PrimClass::DyadicArray,
            Primitive::Take => PrimClass::DyadicArray,
            Primitive::Drop => PrimClass::DyadicArray,
            Primitive::Rotate => PrimClass::DyadicArray,
            Primitive::Orient => PrimClass::DyadicArray,
            Primitive::Windows => PrimClass::DyadicArray,
            Primitive::Keep => PrimClass::DyadicArray,
            Primitive::Find => PrimClass::DyadicArray,
            Primitive::Mask => PrimClass::DyadicArray,
            Primitive::MemberOf => PrimClass::DyadicArray,
            Primitive::IndexOf => PrimClass::DyadicArray,
            Primitive::Base => PrimClass::DyadicArray,
            Primitive::Each => PrimClass::IteratingModifier,
            Primitive::Rows => PrimClass::IteratingModifier,
            Primitive::Table => PrimClass::IteratingModifier,
            Primitive::Inventory => PrimClass::IteratingModifier,
            Primitive::Repeat => PrimClass::IteratingModifier,
            Primitive::Do => PrimClass::IteratingModifier,
            Primitive::Tuples => PrimClass::IteratingModifier,
            Primitive::Stencil => PrimClass::IteratingModifier,
            Primitive::Reduce => PrimClass::AggregatingModifier,
            Primitive::Fold => PrimClass::AggregatingModifier,
            Primitive::Scan => PrimClass::AggregatingModifier,
            Primitive::Group => PrimClass::AggregatingModifier,
            Primitive::Partition => PrimClass::AggregatingModifier,
            Primitive::Un => PrimClass::InversionModifier,
            Primitive::Anti => PrimClass::InversionModifier,
            Primitive::Under => PrimClass::InversionModifier,
            Primitive::Obverse => PrimClass::InversionModifier,
            Primitive::Content => PrimClass::OtherModifier,
            Primitive::Fill => PrimClass::OtherModifier,
            Primitive::Try => PrimClass::OtherModifier,
            Primitive::Case => PrimClass::OtherModifier,
            Primitive::Switch => PrimClass::OtherModifier,
            Primitive::Astar => PrimClass::OtherModifier,
            Primitive::Path => PrimClass::OtherModifier,
            Primitive::Memo => PrimClass::OtherModifier,
            Primitive::Comptime => PrimClass::Comptime,
            Primitive::Quote => PrimClass::Comptime,
            Primitive::Sig => PrimClass::Comptime,
            Primitive::Stringify => PrimClass::Comptime,
            Primitive::Trace => PrimClass::Debug,
            Primitive::Stack => PrimClass::Debug,
            Primitive::Dump => PrimClass::Debug,
            Primitive::Assert => PrimClass::Debug,
            Primitive::Spawn => PrimClass::Thread,
            Primitive::Pool => PrimClass::Thread,
            Primitive::Wait => PrimClass::Thread,
            Primitive::Send => PrimClass::Thread,
            Primitive::Recv => PrimClass::Thread,
            Primitive::TryRecv => PrimClass::Thread,
            Primitive::Mapping => PrimClass::Maps,
            Primitive::Insert => PrimClass::Maps,
            Primitive::Has => PrimClass::Maps,
            Primitive::Get => PrimClass::Maps,
            Primitive::Remove => PrimClass::Maps,
            Primitive::Parse => PrimClass::Encoding,
            Primitive::Utf8 => PrimClass::Encoding,
            Primitive::Graphemes => PrimClass::Encoding,
            Primitive::Rand => PrimClass::Misc,
            Primitive::Gen => PrimClass::Misc,
            Primitive::Tag => PrimClass::Misc,
            Primitive::Type => PrimClass::Misc,
            Primitive::Repr => PrimClass::Misc,
            Primitive::Now => PrimClass::Misc,
            Primitive::TimeZone => PrimClass::Misc,
            Primitive::DateTime => PrimClass::Misc,
            Primitive::Sys(op) => PrimClass::Sys(op.spec_class()),
        }
    }

    /// Every primitive, in declaration order
    pub open spec fn spec_all() -> Seq<Primitive> {
        seq![
            Primitive::Eta,
            Primitive::Pi,
            Primitive::Tau,
            Primitive::Infinity,
            Primitive::Identity,
            Primitive::Dup,
            Primitive::Flip,
            Primitive::Over,
            Primitive::Around,
            Primitive::Pop,
            Primitive::Gap,
            Primitive::Dip,
            Primitive::Both,
            Primitive::Fork,
            Primitive::Bracket,
            Primitive::On,
            Primitive::By,
            Primitive::With,
            Primitive::Off,
            Primitive::Above,
            Primitive::Below,
            Primitive::Slf,
            Primitive::Reach,
            Primitive::Not,
            Primitive::Sign,
            Primitive::Neg,
            Primitive::Abs,
            Primitive::Sqrt,
            Primitive::Sin,
            Primitive::Floor,
            Primitive::Ceil,
            Primitive::Round,
            Primitive::Eq,
            Primitive::Ne,
            Primitive::Lt,
            Primitive::Le,
            Primitive::Gt,
            Primitive::Ge,
            Primitive::Add,
            Primitive::Sub,
            Primitive::Mul,
            Primitive::Div,
            Primitive::Modulus,
            Primitive::Or,
            Primitive::Pow,
            Primitive::Log,
            Primitive::Min,
            Primitive::Max,
            Primitive::Atan,
            Primitive::Len,
            Primitive::Shape,
            Primitive::Range,
            Primitive::First,
            Primitive::Last,
            Primitive::Reverse,
            Primitive::Deshape,
            Primitive::Fix,
            Primitive::Bits,
            Primitive::Transpose,
            Primitive::Sort,
            Primitive::Rise,
            Primitive::Fall,
            Primitive::Where,
            Primitive::Classify,
            Primitive::Deduplicate,
            Primitive::Unique,
            Primitive::Box,
            Primitive::Match,
            Primitive::Couple,
            Primitive::Join,
            Primitive::Select,
            Primitive::Pick,
            Primitive::Reshape,
            Primitive::Rerank,
            Primitive::Take,
            Primitive::Drop,
            Primitive::Rotate,
            Primitive::Orient,
            Primitive::Windows,
            Primitive::Keep,
            Primitive::Find,
            Primitive::Mask,
            Primitive::MemberOf,
            Primitive::IndexOf,
            Primitive::Base,
            Primitive::Each,
            Primitive::Rows,
            Primitive::Table,
            Primitive::Inventory,
            Primitive::Repeat,
            Primitive::Do,
            Primitive::Tuples,
            Primitive::Stencil,
            Primitive::Reduce,
            Primitive::Fold,
            Primitive::Scan,
            Primitive::Group,
            Primitive::Partition,
            Primitive::Un,
            Primitive::Anti,
            Primitive::Under,
            Primitive::Obverse,
            Primitive::Content,
            Primitive::Fill,
            Primitive::Try,
            Primitive::Case,
            Primitive::Switch,
            Primitive::Astar,
            Primitive::Path,
            Primitive::Memo,
            Primitive::Comptime,
            Primitive::Quote,
            Primitive::Sig,
            Primitive::Stringify,
            Primitive::Trace,
            Primitive::Stack,
            Primitive::Dump,
            Primitive::Assert,
            Primitive::Spawn,
            Primitive::Pool,
            Primitive::Wait,
            Primitive::Send,
            Primitive::Recv,
            Primitive::TryRecv,
            Primitive::Mapping,
            Primitive::Insert,
            Primitive::Has,
            Primitive::Get,
            Primitive::Remove,
            Primitive::Parse,
            Primitive::Utf8,
            Primitive::Graphemes,
            Primitive::Rand,
            Primitive::Gen,
            Primitive::Tag,
            Primitive::Type,
            Primitive::Repr,
            Primitive::Now,
            Primitive::TimeZone,
            Primitive::DateTime,
            Primitive::Sys(SysOp::Exit),
            Primitive::Sys(SysOp::Sleep),
            Primitive::Sys(SysOp::ReadStr),
            Primitive::Sys(SysOp::ReadBytes),
            Primitive::Sys(SysOp::ReadUntil),
            Primitive::Sys(SysOp::ReadLines),
            Primitive::Sys(SysOp::Write),
            Primitive::Sys(SysOp::Close),
            Primitive::Sys(SysOp::FOpen),
            Primitive::Sys(SysOp::FCreate),
            Primitive::Sys(SysOp::FMakeDir),
            Primitive::Sys(SysOp::FDelete),
            Primitive::Sys(SysOp::FTrash),
            Primitive::Sys(SysOp::FExists),
            Primitive::Sys(SysOp::FListDir),
            Primitive::Sys(SysOp::FIsFile),
            Primitive::Sys(SysOp::FReadAllStr),
            Primitive::Sys(SysOp::FReadAllBytes),
            Primitive::Sys(SysOp::FWriteAll),
        ]
    }

    /// Get all primitives, in declaration order
    pub fn all() -> (v: Vec<Primitive>)
        ensures
            v@ == Self::spec_all(),
    {
        let v = vec![
            Primitive::Eta,
            Primitive::Pi,
            Primitive::Tau,
            Primitive::Infinity,
            Primitive::Identity,
            Primitive::Dup,
            Primitive::Flip,
            Primitive::Over,
            Primitive::Around,
            Primitive::Pop,
            Primitive::Gap,
            Primitive::Dip,
            Primitive::Both,
            Primitive::Fork,
            Primitive::Bracket,
            Primitive::On,
            Primitive::By,
            Primitive::With,
            Primitive::Off,
            Primitive::Above,
            Primitive::Below,
            Primitive::Slf,
            Primitive::Reach,
            Primitive::Not,
            Primitive::Sign,
            Primitive::Neg,
            Primitive::Abs,
            Primitive::Sqrt,
            Primitive::Sin,
            Primitive::Floor,
            Primitive::Ceil,
            Primitive::Round,
            Primitive::Eq,
            Primitive::Ne,
            Primitive::Lt,
            Primitive::Le,
            Primitive::Gt,
            Primitive::Ge,
            Primitive::Add,
            Primitive::Sub,
            Primitive::Mul,
            Primitive::Div,
            Primitive::Modulus,
            Primitive::Or,
            Primitive::Pow,
            Primitive::Log,
            Primitive::Min,
            Primitive::Max,
            Primitive::Atan,
            Primitive::Len,
            Primitive::Shape,
            Primitive::Range,
            Primitive::First,
            Primitive::Last,
            Primitive::Reverse,
            Primitive::Deshape,
            Primitive::Fix,
            Primitive::Bits,
            Primitive::Transpose,
            Primitive::Sort,
            Primitive::Rise,
            Primitive::Fall,
            Primitive::Where,
            Primitive::Classify,
            Primitive::Deduplicate,
            Primitive::Unique,
            Primitive::Box,
            Primitive::Match,
            Primitive::Couple,
            Primitive::Join,
            Primitive::Select,
            Primitive::Pick,
            Primitive::Reshape,
            Primitive::Rerank,
            Primitive::Take,
            Primitive::Drop,
            Primitive::Rotate,
            Primitive::Orient,
            Primitive::Windows,
            Primitive::Keep,
            Primitive::Find,
            Primitive::Mask,
            Primitive::MemberOf,
            Primitive::IndexOf,
            Primitive::Base,
            Primitive::Each,
            Primitive::Rows,
            Primitive::Table,
            Primitive::Inventory,
            Primitive::Repeat,
            Primitive::Do,
            Primitive::Tuples,
            Primitive::Stencil,
            Primitive::Reduce,
            Primitive::Fold,
            Primitive::Scan,
            Primitive::Group,
            Primitive::Partition,
            Primitive::Un,
            Primitive::Anti,
            Primitive::Under,
            Primitive::Obverse,
            Primitive::Content,
            Primitive::Fill,
            Primitive::Try,
            Primitive::Case,
            Primitive::Switch,
            Primitive::Astar,
            Primitive::Path,
            Primitive::Memo,
            Primitive::Comptime,
            Primitive::Quote,
            Primitive::Sig,
            Primitive::Stringify,
            Primitive::Trace,
            Primitive::Stack,
            Primitive::Dump,
            Primitive::Assert,
            Primitive::Spawn,
            Primitive::Pool,
            Primitive::Wait,
            Primitive::Send,
            Primitive::Recv,
            Primitive::TryRecv,
            Primitive::Mapping,
            Primitive::Insert,
            Primitive::Has,
            Primitive::Get,
            Primitive::Remove,
            Primitive::Parse,
            Primitive::Utf8,
            Primitive::Graphemes,
            Primitive::Rand,
            Primitive::Gen,
            Primitive::Tag,
            Primitive::Type,
            Primitive::Repr,
            Primitive::Now,
            Primitive::TimeZone,
            Primitive::DateTime,
            Primitive::Sys(SysOp::Exit),
            Primitive::Sys(SysOp::Sleep),
            Primitive::Sys(SysOp::ReadStr),
            Primitive::Sys(SysOp::ReadBytes),
            Primitive::Sys(SysOp::ReadUntil),
            Primitive::Sys(SysOp::ReadLines),
            Primitive::Sys(SysOp::Write),
            Primitive::Sys(SysOp::Close),
            Primitive::Sys(SysOp::FOpen),
            Primitive::Sys(SysOp::FCreate),
            Primitive::Sys(SysOp::FMakeDir),
            Primitive::Sys(SysOp::FDelete),
            Primitive::Sys(SysOp::FTrash),
            Primitive::Sys(SysOp::FExists),
            Primitive::Sys(SysOp::FListDir),
            Primitive::Sys(SysOp::FIsFile),
            Primitive::Sys(SysOp::FReadAllStr),
            Primitive::Sys(SysOp::FReadAllBytes),
            Primitive::Sys(SysOp::FWriteAll),
        ];
        assert(v@ =~= Self::spec_all());
        v
    }

    /// Get the primitive's name
    ///
    /// This is the name that is used for formatting
    pub fn name(&self) -> (r: &'static str)
        ensures
            r@ == self.spec_name(),
    {
        match self {
            Primitive::Eta => "eta",
            Primitive::Pi => "pi",
            Primitive::Tau => "tau",
            Primitive::Infinity => "infinity",
            Primitive::Identity => "identity",
            Primitive::Dup => "duplicate",
            Primitive::Flip => "flip",
            Primitive::Over => "over",
            Primitive::Around => "around",
            Primitive::Pop => "pop",
            Primitive::Gap => "gap",
            Primitive::Dip => "dip",
            Primitive::Both => "both",
            Primitive::Fork => "fork",
            Primitive::Bracket => "bracket",
            Primitive::On => "on",
            Primitive::By => "by",
            Primitive::With => "with",
            Primitive::Off => "off",
            Primitive::Above => "above",
            Primitive::Below => "below",
            Primitive::Slf => "self",
            Primitive::Reach => "reach",
            Primitive::Not => "not",
            Primitive::Sign => "sign",
            Primitive::Neg => "negate",
            Primitive::Abs => "absolute value",
            Primitive::Sqrt => "sqrt",
            Primitive::Sin => "sine",
            Primitive::Floor => "floor",
            Primitive::Ceil => "ceiling",
            Primitive::Round => "round",
            Primitive::Eq => "equals",
            Primitive::Ne => "not equals",
            Primitive::Lt => "less than",
            Primitive::Le => "less or equal",
            Primitive::Gt => "greater than",
            Primitive::Ge => "greater or equal",
            Primitive::Add => "add",
            Primitive::Sub => "subtract",
            Primitive::Mul => "multiply",
            Primitive::Div => "divide",
            Primitive::Modulus => "modulus",
            Primitive::Or => "or",
            Primitive::Pow => "power",
            Primitive::Log => "logarithm",
            Primitive::Min => "minimum",
            Primitive::Max => "maximum",
            Primitive::Atan => "atangent",
            Primitive::Len => "length",
            Primitive::Shape => "shape",
            Primitive::Range => "range",
            Primitive::First => "first",
            Primitive::Last => "last",
            Primitive::Reverse => "reverse",
            Primitive::Deshape => "deshape",
            Primitive::Fix => "fix",
            Primitive::Bits => "bits",
            Primitive::Transpose => "transpose",
            Primitive::Sort => "sort",
            Primitive::Rise => "rise",
            Primitive::Fall => "fall",
            Primitive::Where => "where",
            Primitive::Classify => "classify",
            Primitive::Deduplicate => "deduplicate",
            Primitive::Unique => "unique",
            Primitive::Box => "box",
            Primitive::Match => "match",
            Primitive::Couple => "couple",
            Primitive::Join => "join",
            Primitive::Select => "select",
            Primitive::Pick => "pick",
            Primitive::Reshape => "reshape",
            Primitive::Rerank => "rerank",
            Primitive::Take => "take",
            Primitive::Drop => "drop",
            Primitive::Rotate => "rotate",
            Primitive::Orient => "orient",
            Primitive::Windows => "windows",
            Primitive::Keep => "keep",
            Primitive::Find => "find",
            Primitive::Mask => "mask",
            Primitive::MemberOf => "memberof",
            Primitive::IndexOf => "indexof",
            Primitive::Base => "base",
            Primitive::Each => "each",
            Primitive::Rows => "rows",
            Primitive::Table => "table",
            Primitive::Inventory => "inventory",
            Primitive::Repeat => "repeat",
            Primitive::Do => "do",
            Primitive::Tuples => "tuples",
            Primitive::Stencil => "stencil",
            Primitive::Reduce => "reduce",
            Primitive::Fold => "fold",
            Primitive::Scan => "scan",
            Primitive::Group => "group",
            Primitive::Partition => "partition",
            Primitive::Un => "un",
            Primitive::Anti => "anti",
            Primitive::Under => "under",
            Primitive::Obverse => "obverse",
            Primitive::Content => "content",
            Primitive::Fill => "fill",
            Primitive::Try => "try",
            Primitive::Case => "case",
            Primitive::Switch => "switch",
            Primitive::Astar => "astar",
            Primitive::Path => "path",
            Primitive::Memo => "memo",
            Primitive::Comptime => "comptime",
            Primitive::Quote => "quote",
            Primitive::Sig => "signature",
            Primitive::Stringify => "stringify",
            Primitive::Trace => "trace",
            Primitive::Stack => "stack",
            Primitive::Dump => "dump",
            Primitive::Assert => "assert",
            Primitive::Spawn => "spawn",
            Primitive::Pool => "pool",
            Primitive::Wait => "wait",
            Primitive::Send => "send",
            Primitive::Recv => "recv",
            Primitive::TryRecv => "tryrecv",
            Primitive::Mapping => "map",
            Primitive::Insert => "insert",
            Primitive::Has => "has",
            Primitive::Get => "get",
            Primitive::Remove => "remove",
            Primitive::Parse => "parse",
            Primitive::Utf8 => "utf₈",
            Primitive::Graphemes => "graphemes",
            Primitive::Rand => "random",
            Primitive::Gen => "gen",
            Primitive::Tag => "tag",
            Primitive::Type => "type",
            Primitive::Repr => "repr",
            Primitive::Now => "now",
            Primitive::TimeZone => "timezone",
            Primitive::DateTime => "datetime",
            Primitive::Sys(op) => op.name(),
        }
    }

    /// Get the ASCII token that formats to the primitive
    pub fn ascii(&self) -> (r: Option<AsciiToken>)
        ensures
            r == self.spec_ascii(),
    {
        match self {
            Primitive::Neg => Some(AsciiToken::Backtick),
            Primitive::Ne => Some(AsciiToken::BangEqual),
            Primitive::Le => Some(AsciiToken::LessEqual),
            Primitive::Ge => Some(AsciiToken::GreaterEqual),
            Primitive::Mul => Some(AsciiToken::Star),
            Primitive::Div => Some(AsciiToken::Percent),
            _ => None,
        }
    }

    /// Get the primitive's glyph
    pub fn glyph(&self) -> (r: Option<char>)
        ensures
            r == self.spec_glyph(),
    {
        match self {
            Primitive::Eta => Some('η'),
            Primitive::Pi => Some('π'),
            Primitive::Tau => Some('τ'),
            Primitive::Infinity => Some('∞'),
            Primitive::Identity => Some('∘'),
            Primitive::Dup => Some('.'),
            Primitive::Flip => Some(':'),
            Primitive::Over => Some(','),
            Primitive::Around => Some('’'),
            Primitive::Pop => Some('◌'),
            Primitive::Gap => Some('⋅'),
            Primitive::Dip => Some('⊙'),
            Primitive::Both => Some('∩'),
            Primitive::Fork => Some('⊃'),
            Primitive::Bracket => Some('⊓'),
            Primitive::On => Some('⟜'),
            Primitive::By => Some('⊸'),
            Primitive::With => Some('⤙'),
            Primitive::Off => Some('⤚'),
            Primitive::Above => Some('◠'),
            Primitive::Below => Some('◡'),
            Primitive::Slf => Some('˙'),
            Primitive::Reach => Some('𝄐'),
            Primitive::Not => Some('¬'),
            Primitive::Sign => Some('±'),
            Primitive::Neg => Some('¯'),
            Primitive::Abs => Some('⌵'),
            Primitive::Sqrt => Some('√'),
            Primitive::Sin => Some('∿'),
            Primitive::Floor => Some('⌊'),
            Primitive::Ceil => Some('⌈'),
            Primitive::Round => Some('⁅'),
            Primitive::Eq => Some('='),
            Primitive::Ne => Some('≠'),
            Primitive::Lt => Some('<'),
            Primitive::Le => Some('≤'),
            Primitive::Gt => Some('>'),
            Primitive::Ge => Some('≥'),
            Primitive::Add => Some('+'),
            Primitive::Sub => Some('-'),
            Primitive::Mul => Some('×'),
            Primitive::Div => Some('÷'),
            Primitive::Modulus => Some('◿'),
            Primitive::Or => Some('∨'),
            Primitive::Pow => Some('ⁿ'),
            Primitive::Log => Some('ₙ'),
            Primitive::Min => Some('↧'),
            Primitive::Max => Some('↥'),
            Primitive::Atan => Some('∠'),
            Primitive::Len => Some('⧻'),
            Primitive::Shape => Some('△'),
            Primitive::Range => Some('⇡'),
            Primitive::First => Some('⊢'),
            Primitive::Last => Some('⊣'),
            Primitive::Reverse => Some('⇌'),
            Primitive::Deshape => Some('♭'),
            Primitive::Fix => Some('¤'),
            Primitive::Bits => Some('⋯'),
            Primitive::Transpose => Some('⍉'),
            Primitive::Sort => Some('⍆'),
            Primitive::Rise => Some('⍏'),
            Primitive::Fall => Some('⍖'),
            Primitive::Where => Some('⊚'),
            Primitive::Classify => Some('⊛'),
            Primitive::Deduplicate => Some('◴'),
            Primitive::Unique => Some('◰'),
            Primitive::Box => Some('□'),
            Primitive::Match => Some('≍'),
            Primitive::Couple => Some('⊟'),
            Primitive::Join => Some('⊂'),
            Primitive::Select => Some('⊏'),
            Primitive::Pick => Some('⊡'),
            Primitive::Reshape => Some('↯'),
            Primitive::Rerank => Some('☇'),
            Primitive::Take => Some('↙'),
            Primitive::Drop => Some('↘'),
            Primitive::Rotate => Some('↻'),
            Primitive::Orient => Some('⤸'),
            Primitive::Windows => Some('◫'),
            Primitive::Keep => Some('▽'),
            Primitive::Find => Some('⌕'),
            Primitive::Mask => Some('⦷'),
            Primitive::MemberOf => Some('∊'),
            Primitive::IndexOf => Some('⊗'),
            Primitive::Base => Some('⊥'),
            Primitive::Each => Some('∵'),
            Primitive::Rows => Some('≡'),
            Primitive::Table => Some('⊞'),
            Primitive::Inventory => Some('⍚'),
            Primitive::Repeat => Some('⍥'),
            Primitive::Do => Some('⍢'),
            Primitive::Tuples => Some('⧅'),
            Primitive::Stencil => Some('⧈'),
            Primitive::Reduce => Some('/'),
            Primitive::Fold => Some('∧'),
            Primitive::Scan => Some('\\'),
            Primitive::Group => Some('⊕'),
            Primitive::Partition => Some('⊜'),
            Primitive::Un => Some('°'),
            Primitive::Anti => Some('⌝'),
            Primitive::Under => Some('⍜'),
            Primitive::Obverse => Some('⌅'),
            Primitive::Content => Some('◇'),
            Primitive::Fill => Some('⬚'),
            Primitive::Try => Some('⍣'),
            Primitive::Switch => Some('⨬'),
            Primitive::Trace => Some('⸮'),
            Primitive::Stack => Some('?'),
            Primitive::Assert => Some('⍤'),
            Primitive::Spawn => Some('↰'),
            Primitive::Pool => Some('↱'),
            Primitive::Parse => Some('⋕'),
            Primitive::Rand => Some('⚂'),
            _ => None,
        }
    }

    /// Get the number of arguments the primitive takes, if it is fixed
    pub fn args(&self) -> (r: Option<usize>)
        ensures
            r == self.spec_args(),
    {
        match self {
            Primitive::Eta => Some(0),
            Primitive::Pi => Some(0),
            Primitive::Tau => Some(0),
            Primitive::Infinity => Some(0),
            Primitive::Identity => Some(1),
            Primitive::Dup => Some(1),
            Primitive::Flip => Some(2),
            Primitive::Over => Some(2),
            Primitive::Around => Some(2),
            Primitive::Pop => Some(1),
            Primitive::Not => Some(1),
            Primitive::Sign => Some(1),
            Primitive::Neg => Some(1),
            Primitive::Abs => Some(1),
            Primitive::Sqrt => Some(1),
            Primitive::Sin => Some(1),
            Primitive::Floor => Some(1),
            Primitive::Ceil => Some(1),
            Primitive::Round => Some(1),
            Primitive::Eq => Some(2),
            Primitive::Ne => Some(2),
            Primitive::Lt => Some(2),
            Primitive::Le => Some(2),
            Primitive::Gt => Some(2),
            Primitive::Ge => Some(2),
            Primitive::Add => Some(2),
            Primitive::Sub => Some(2),
            Primitive::Mul => Some(2),
            Primitive::Div => Some(2),
            Primitive::Modulus => Some(2),
            Primitive::Or => Some(2),
            Primitive::Pow => Some(2),
            Primitive::Log => Some(2),
            Primitive::Min => Some(2),
            Primitive::Max => Some(2),
            Primitive::Atan => Some(2),
            Primitive::Len => Some(1),
            Primitive::Shape => Some(1),
            Primitive::Range => Some(1),
            Primitive::First => Some(1),
            Primitive::Last => Some(1),
            Primitive::Reverse => Some(1),
            Primitive::Deshape => Some(1),
            Primitive::Fix => Some(1),
            Primitive::Bits => Some(1),
            Primitive::Transpose => Some(1),
            Primitive::Sort => Some(1),
            Primitive::Rise => Some(1),
            Primitive::Fall => Some(1),
            Primitive::Where => Some(1),
            Primitive::Classify => Some(1),
            Primitive::Deduplicate => Some(1),
            Primitive::Unique => Some(1),
            Primitive::Box => Some(1),
            Primitive::Match => Some(2),
            Primitive::Couple => Some(2),
            Primitive::Join => Some(2),
            Primitive::Select => Some(2),
            Primitive::Pick => Some(2),
            Primitive::Reshape => Some(2),
            Primitive::Rerank => Some(2),
            Primitive::Take => Some(2),
            Primitive::Drop => Some(2),
            Primitive::Rotate => Some(2),
            Primitive::Orient => Some(2),
            Primitive::Windows => Some(2),
            Primitive::Keep => Some(2),
            Primitive::Find => Some(2),
            Primitive::Mask => Some(2),
            Primitive::MemberOf => Some(2),
            Primitive::IndexOf => Some(2),
            Primitive::Base => Some(2),
            Primitive::Trace => Some(1),
            Primitive::Stack => Some(0),
            Primitive::Assert => Some(2),
            Primitive::Wait => Some(1),
            Primitive::Send => Some(2),
            Primitive::Recv => Some(1),
            Primitive::TryRecv => Some(1),
            Primitive::Mapping => Some(2),
            Primitive::Insert => Some(3),
            Primitive::Has => Some(2),
            Primitive::Get => Some(2),
            Primitive::Remove => Some(2),
            Primitive::Parse => Some(1),
            Primitive::Utf8 => Some(1),
            Primitive::Graphemes => Some(1),
            Primitive::Rand => Some(0),
            Primitive::Gen => Some(2),
            Primitive::Tag => Some(0),
            Primitive::Type => Some(1),
            Primitive::Repr => Some(1),
            Primitive::Now => Some(0),
            Primitive::TimeZone => Some(0),
            Primitive::DateTime => Some(1),
            Primitive::Sys(op) => if op.modifier_args().is_none() { Some(op.args()) } else { None },
            _ => None,
        }
    }

    /// Get the number of outputs the primitive returns, if it is fixed
    pub fn outputs(&self) -> (r: Option<usize>)
        ensures
            r == self.spec_outputs(),
    {
        match self {
            Primitive::Eta => Some(1),
            Primitive::Pi => Some(1),
            Primitive::Tau => Some(1),
            Primitive::Infinity => Some(1),
            Primitive::Identity => Some(1),
            Primitive::Dup => Some(2),
            Primitive::Flip => Some(2),
            Primitive::Over => Some(3),
            Primitive::Around => Some(3),
            Primitive::Pop => Some(0),
            Primitive::Not => Some(1),
            Primitive::Sign => Some(1),
            Primitive::Neg => Some(1),
            Primitive::Abs => Some(1),
            Primitive::Sqrt => Some(1),
            Primitive::Sin => Some(1),
            Primitive::Floor => Some(1),
            Primitive::Ceil => Some(1),
            Primitive::Round => Some(1),
            Primitive::Eq => Some(1),
            Primitive::Ne => Some(1),
            Primitive::Lt => Some(1),
            Primitive::Le => Some(1),
            Primitive::Gt => Some(1),
            Primitive::Ge => Some(1),
            Primitive::Add => Some(1),
            Primitive::Sub => Some(1),
            Primitive::Mul => Some(1),
            Primitive::Div => Some(1),
            Primitive::Modulus => Some(1),
            Primitive::Or => Some(1),
            Primitive::Pow => Some(1),
            Primitive::Log => Some(1),
            Primitive::Min => Some(1),
            Primitive::Max => Some(1),
            Primitive::Atan => Some(1),
            Primitive::Len => Some(1),
            Primitive::Shape => Some(1),
            Primitive::Range => Some(1),
            Primitive::First => Some(1),
            Primitive::Last => Some(1),
            Primitive::Reverse => Some(1),
            Primitive::Deshape => Some(1),
            Primitive::Fix => Some(1),
            Primitive::Bits => Some(1),
            Primitive::Transpose => Some(1),
            Primitive::Sort => Some(1),
            Primitive::Rise => Some(1),
            Primitive::Fall => Some(1),
            Primitive::Where => Some(1),
            Primitive::Classify => Some(1),
            Primitive::Deduplicate => Some(1),
            Primitive::Unique => Some(1),
            Primitive::Box => Some(1),
            Primitive::Match => Some(1),
            Primitive::Couple => Some(1),
            Primitive::Join => Some(1),
            Primitive::Select => Some(1),
            Primitive::Pick => Some(1),
            Primitive::Reshape => Some(1),
            Primitive::Rerank => Some(1),
            Primitive::Take => Some(1),
            Primitive::Drop => Some(1),
            Primitive::Rotate => Some(1),
            Primitive::Orient => Some(1),
            Primitive::Windows => Some(1),
            Primitive::Keep => Some(1),
            Primitive::Find => Some(1),
            Primitive::Mask => Some(1),
            Primitive::MemberOf => Some(1),
            Primitive::IndexOf => Some(1),
            Primitive::Base => Some(1),
            Primitive::Trace => Some(1),
            Primitive::Stack => Some(0),
            Primitive::Assert => Some(0),
            Primitive::Wait => Some(1),
            Primitive::Send => Some(0),
            Primitive::Recv => Some(1),
            Primitive::TryRecv => Some(1),
            Primitive::Mapping => Some(1),
            Primitive::Insert => Some(1),
            Primitive::Has => Some(1),
            Primitive::Get => Some(1),
            Primitive::Remove => Some(1),
            Primitive::Parse => Some(1),
            Primitive::Utf8 => Some(1),
            Primitive::Graphemes => Some(1),
            Primitive::Rand => Some(1),
            Primitive::Gen => Some(2),
            Primitive::Tag => Some(1),
            Primitive::Type => Some(1),
            Primitive::Repr => Some(1),
            Primitive::Now => Some(1),
            Primitive::TimeZone => Some(1),
            Primitive::DateTime => Some(1),
            Primitive::Sys(op) => if op.modifier_args().is_none() { Some(op.outputs()) } else { None },
            _ => None,
        }
    }

    /// Get the number of function arguments the primitive takes, if it is a modifier
    pub fn modifier_args(&self) -> (r: Option<usize>)
        ensures
            r == self.spec_modifier_args(),
    {
        match self {
            Primitive::Gap => Some(1),
            Primitive::Dip => Some(1),
            Primitive::Both => Some(1),
            Primitive::Fork => Some(2),
            Primitive::Bracket => Some(2),
            Primitive::On => Some(1),
            Primitive::By => Some(1),
            Primitive::With => Some(1),
            Primitive::Off => Some(1),
            Primitive::Above => Some(1),
            Primitive::Below => Some(1),
            Primitive::Slf => Some(1),
            Primitive::Reach => Some(1),
            Primitive::Each => Some(1),
            Primitive::Rows => Some(1),
            Primitive::Table => Some(1),
            Primitive::Inventory => Some(1),
            Primitive::Repeat => Some(1),
            Primitive::Do => Some(2),
            Primitive::Tuples => Some(1),
            Primitive::Stencil => Some(1),
            Primitive::Reduce => Some(1),
            Primitive::Fold => Some(1),
            Primitive::Scan => Some(1),
            Primitive::Group => Some(1),
            Primitive::Partition => Some(1),
            Primitive::Un => Some(1),
            Primitive::Anti => Some(1),
            Primitive::Under => Some(2),
            Primitive::Obverse => Some(1),
            Primitive::Content => Some(1),
            Primitive::Fill => Some(2),
            Primitive::Try => Some(2),
            Primitive::Case => Some(1),
            Primitive::Switch => Some(1),
            Primitive::Astar => Some(3),
            Primitive::Path => Some(2),
            Primitive::Memo => Some(1),
            Primitive::Comptime => Some(1),
            Primitive::Quote => Some(1),
            Primitive::Sig => Some(1),
            Primitive::Stringify => Some(1),
            Primitive::Dump => Some(1),
            Primitive::Spawn => Some(1),
            Primitive::Pool => Some(1),
            Primitive::Sys(op) => op.modifier_args(),
            _ => None,
        }
    }

    /// Get the primitive's class
    pub fn class(&self) -> (r: PrimClass)
        ensures
            r == self.spec_class(),
    {
        match self {
            Primitive::Eta => PrimClass::Constant,
            Primitive::Pi => PrimClass::Constant,
            Primitive::Tau => PrimClass::Constant,
            Primitive::Infinity => PrimClass::Constant,
            Primitive::Identity => PrimClass::Stack,
            Primitive::Dup => PrimClass::Stack,
            Primitive::Flip => PrimClass::Stack,
            Primitive::Over => PrimClass::Stack,
            Primitive::Around => PrimClass::Stack,
            Primitive::Pop => PrimClass::Stack,
            Primitive::Gap => PrimClass::Planet,
            Primitive::Dip => PrimClass::Planet,
            Primitive::Both => PrimClass::Planet,
            Primitive::Fork => PrimClass::Planet,
            Primitive::Bracket => PrimClass::Planet,
            Primitive::On => PrimClass::Planet,
            Primitive::By => PrimClass::Planet,
            Primitive::With => PrimClass::Planet,
            Primitive::Off => PrimClass::Planet,
            Primitive::Above => PrimClass::Planet,
            Primitive::Below => PrimClass::Planet,
            Primitive::Slf => PrimClass::Planet,
            Primitive::Reach => PrimClass::Planet,
            Primitive::Not => PrimClass::MonadicPervasive,
            Primitive::Sign => PrimClass::MonadicPervasive,
            Primitive::Neg => PrimClass::MonadicPervasive,
            Primitive::Abs => PrimClass::MonadicPervasive,
            Primitive::Sqrt => PrimClass::MonadicPervasive,
            Primitive::Sin => PrimClass::MonadicPervasive,
            Primitive::Floor => PrimClass::MonadicPervasive,
            Primitive::Ceil => PrimClass::MonadicPervasive,
            Primitive::Round => PrimClass::MonadicPervasive,
            Primitive::Eq => PrimClass::DyadicPervasive,
            Primitive::Ne => PrimClass::DyadicPervasive,
            Primitive::Lt => PrimClass::DyadicPervasive,
            Primitive::Le => PrimClass::DyadicPervasive,
            Primitive::Gt => PrimClass::DyadicPervasive,
            Primitive::Ge => PrimClass::DyadicPervasive,
            Primitive::Add => PrimClass::DyadicPervasive,
            Primitive::Sub => PrimClass::DyadicPervasive,
            Primitive::Mul => PrimClass::DyadicPervasive,
            Primitive::Div => PrimClass::DyadicPervasive,
            Primitive::Modulus => PrimClass::DyadicPervasive,
            Primitive::Or => PrimClass::DyadicPervasive,
            Primitive::Pow => PrimClass::DyadicPervasive,
            Primitive::Log => PrimClass::DyadicPervasive,
            Primitive::Min => PrimClass::DyadicPervasive,
            Primitive::Max => PrimClass::DyadicPervasive,
            Primitive::Atan => PrimClass::DyadicPervasive,
            Primitive::Len => PrimClass::MonadicArray,
            Primitive::Shape => PrimClass::MonadicArray,
            Primitive::Range => PrimClass::MonadicArray,
            Primitive::First => PrimClass::MonadicArray,
            Primitive::Last => PrimClass::MonadicArray,
            Primitive::Reverse => PrimClass::MonadicArray,
            Primitive::Deshape => PrimClass::MonadicArray,
            Primitive::Fix => PrimClass::MonadicArray,
            Primitive::Bits => PrimClass::MonadicArray,
            Primitive::Transpose => PrimClass::MonadicArray,
            Primitive::Sort => PrimClass::MonadicArray,
            Primitive::Rise => PrimClass::MonadicArray,
            Primitive::Fall => PrimClass::MonadicArray,
            Primitive::Where => PrimClass::MonadicArray,
            Primitive::Classify => PrimClass::MonadicArray,
            Primitive::Deduplicate => PrimClass::MonadicArray,
            Primitive::Unique => PrimClass::MonadicArray,
            Primitive::Box => PrimClass::MonadicArray,
            Primitive::Match => PrimClass::DyadicArray,
            Primitive::Couple => PrimClass::DyadicArray,
            Primitive::Join => PrimClass::DyadicArray,
            Primitive::Select => PrimClass::DyadicArray,
            Primitive::Pick => PrimClass::DyadicArray,
            Primitive::Reshape => PrimClass::DyadicArray,
            Primitive::Rerank => PrimClass::DyadicArray,
            Primitive::Take => PrimClass::DyadicArray,
            Primitive::Drop => PrimClass::DyadicArray,
            Primitive::Rotate => PrimClass::DyadicArray,
            Primitive::Orient => PrimClass::DyadicArray,
            Primitive::Windows => PrimClass::DyadicArray,
            Primitive::Keep => PrimClass::DyadicArray,
            Primitive::Find => PrimClass::DyadicArray,
            Primitive::Mask => PrimClass::DyadicArray,
            Primitive::MemberOf => PrimClass::DyadicArray,
            Primitive::IndexOf => PrimClass::DyadicArray,
            Primitive::Base => PrimClass::DyadicArray,
            Primitive::Each => PrimClass::IteratingModifier,
            Primitive::Rows => PrimClass::IteratingModifier,
            Primitive::Table => PrimClass::IteratingModifier,
            Primitive::Inventory => PrimClass::IteratingModifier,
            Primitive::Repeat => PrimClass::IteratingModifier,
            Primitive::Do => PrimClass::IteratingModifier,
            Primitive::Tuples => PrimClass::IteratingModifier,
            Primitive::Stencil => PrimClass::IteratingModifier,
            Primitive::Reduce => PrimClass::AggregatingModifier,
            Primitive::Fold => PrimClass::AggregatingModifier,
            Primitive::Scan => PrimClass::AggregatingModifier,
            Primitive::Group => PrimClass::AggregatingModifier,
            Primitive::Partition => PrimClass::AggregatingModifier,
            Primitive::Un => PrimClass::InversionModifier,
            Primitive::Anti => PrimClass::InversionModifier,
            Primitive::Under => PrimClass::InversionModifier,
            Primitive::Obverse => PrimClass::InversionModifier,
            Primitive::Content => PrimClass::OtherModifier,
            Primitive::Fill => PrimClass::OtherModifier,
            Primitive::Try => PrimClass::OtherModifier,
            Primitive::Case => PrimClass::OtherModifier,
            Primitive::Switch => PrimClass::OtherModifier,
            Primitive::Astar => PrimClass::OtherModifier,
            Primitive::Path => PrimClass::OtherModifier,
            Primitive::Memo => PrimClass::OtherModifier,
            Primitive::Comptime => PrimClass::Comptime,
            Primitive::Quote => PrimClass::Comptime,
            Primitive::Sig => PrimClass::Comptime,
            Primitive::Stringify => PrimClass::Comptime,
            Primitive::Trace => PrimClass::Debug,
            Primitive::Stack => PrimClass::Debug,
            Primitive::Dump => PrimClass::Debug,
            Primitive::Assert => PrimClass::Debug,
            Primitive::Spawn => PrimClass::Thread,
            Primitive::Pool => PrimClass::Thread,
            Primitive::Wait => PrimClass::Thread,
            Primitive::Send => PrimClass::Thread,
            Primitive::Recv => PrimClass::Thread,
            Primitive::TryRecv => PrimClass::Thread,
            Primitive::Mapping => PrimClass::Maps,
            Primitive::Insert => PrimClass::Maps,
            Primitive::Has => PrimClass::Maps,
            Primitive::Get => PrimClass::Maps,
            Primitive::Remove => PrimClass::Maps,
            Primitive::Parse => PrimClass::Encoding,
            Primitive::Utf8 => PrimClass::Encoding,
            Primitive::Graphemes => PrimClass::Encoding,
            Primitive::Rand => PrimClass::Misc,
            Primitive::Gen => PrimClass::Misc,
            Primitive::Tag => PrimClass::Misc,
            Primitive::Type => PrimClass::Misc,
            Primitive::Repr => PrimClass::Misc,
            Primitive::Now => PrimClass::Misc,
            Primitive::TimeZone => PrimClass::Misc,
            Primitive::DateTime => PrimClass::Misc,
            Primitive::Sys(op) => PrimClass::Sys(op.class()),
        }
    }
}


impl PrimClass {
    /// The name of the class as it is debugged: a system class by its own name
    pub open spec fn spec_debug_text(self) -> Seq<char> {
        match self {
            PrimClass::Stack => "Stack"@,
            PrimClass::Constant => "Constant"@,
            PrimClass::MonadicPervasive => "MonadicPervasive"@,
            PrimClass::DyadicPervasive => "DyadicPervasive"@,
            PrimClass::MonadicArray => "MonadicArray"@,
            PrimClass::DyadicArray => "DyadicArray"@,
            PrimClass::IteratingModifier => "IteratingModifier"@,
            PrimClass::AggregatingModifier => "AggregatingModifier"@,
            PrimClass::InversionModifier => "InversionModifier"@,
            PrimClass::Planet => "Planet"@,
            PrimClass::OtherModifier => "OtherModifier"@,
            PrimClass::Comptime => "Comptime"@,
            PrimClass::Debug => "Debug"@,
            PrimClass::Thread => "Thread"@,
            PrimClass::Maps => "Map"@,
            PrimClass::Encoding => "Encoding"@,
            PrimClass::Misc => "Misc"@,
            PrimClass::Sys(op) => op.spec_debug_text(),
        }
    }

    /// The name of the class as it is debugged
    pub fn debug_text(&self) -> (r: &'static str)
        ensures
            r@ == self.spec_debug_text(),
    {
        match self {
            PrimClass::Stack => "Stack",
            PrimClass::Constant => "Constant",
            PrimClass::MonadicPervasive => "MonadicPervasive",
            PrimClass::DyadicPervasive => "DyadicPervasive",
            PrimClass::MonadicArray => "MonadicArray",
            PrimClass::DyadicArray => "DyadicArray",
            PrimClass::IteratingModifier => "IteratingModifier",
            PrimClass::AggregatingModifier => "AggregatingModifier",
            PrimClass::InversionModifier => "InversionModifier",
            PrimClass::Planet => "Planet",
            PrimClass::OtherModifier => "OtherModifier",
            PrimClass::Comptime => "Comptime",
            PrimClass::Debug => "Debug",
            PrimClass::Thread => "Thread",
            PrimClass::Maps => "Map",
            PrimClass::Encoding => "Encoding",
            PrimClass::Misc => "Misc",
            PrimClass::Sys(op) => op.debug_text(),
        }
    }
}

impl crate::sys::SysOpClass {
    /// The name of the system class as it is debugged
    pub open spec fn spec_debug_text(self) -> Seq<char> {
        match self {
            SysOpClass::Filesystem => "Filesystem"@,
            SysOpClass::StdIO => "StdIO"@,
            SysOpClass::Env => "Env"@,
            SysOpClass::Stream => "Stream"@,
            SysOpClass::Command => "Command"@,
            SysOpClass::Media => "Media"@,
            SysOpClass::Tcp => "Tcp"@,
            SysOpClass::Ffi => "Ffi"@,
            SysOpClass::Misc => "Misc"@,
        }
    }

    /// The name of the system class as it is debugged
    pub fn debug_text(&self) -> (r: &'static str)
        ensures
            r@ == self.spec_debug_text(),
    {
        match self {
            SysOpClass::Filesystem => "Filesystem",
            SysOpClass::StdIO => "StdIO",
            SysOpClass::Env => "Env",
            SysOpClass::Stream => "Stream",
            SysOpClass::Command => "Command",
            SysOpClass::Media => "Media",
            SysOpClass::Tcp => "Tcp",
            SysOpClass::Ffi => "Ffi",
            SysOpClass::Misc => "Misc",
        }
    }
}

impl From<&'static str> for PrimNames {
    fn from(text: &'static str) -> (r: Self) {
        PrimNames { text, ascii: None, glyph: None }
    }
}

impl vstd::std_specs::convert::FromSpecImpl<&'static str> for PrimNames {
    open spec fn obeys_from_spec() -> bool {
        true
    }

    open spec fn from_spec(text: &'static str) -> PrimNames {
        PrimNames { text, ascii: None, glyph: None }
    }
}

impl From<(&'static str, char)> for PrimNames {
    fn from(names: (&'static str, char)) -> (r: Self) {
        PrimNames { text: names.0, ascii: None, glyph: Some(names.1) }
    }
}

impl vstd::std_specs::convert::FromSpecImpl<(&'static str, char)> for PrimNames {
    open spec fn obeys_from_spec() -> bool {
        true
    }

    open spec fn from_spec(names: (&'static str, char)) -> PrimNames {
        PrimNames { text: names.0, ascii: None, glyph: Some(names.1) }
    }
}

impl From<(&'static str, AsciiToken, char)> for PrimNames {
    fn from(names: (&'static str, AsciiToken, char)) -> (r: Self) {
        PrimNames { text: names.0, ascii: Some(names.1), glyph: Some(names.2) }
    }
}

impl vstd::std_specs::convert::FromSpecImpl<(&'static str, AsciiToken, char)> for PrimNames {
    open spec fn obeys_from_spec() -> bool {
        true
    }

    open spec fn from_spec(names: (&'static str, AsciiToken, char)) -> PrimNames {
        PrimNames { text: names.0, ascii: Some(names.1), glyph: Some(names.2) }
    }
}

} // verus!
