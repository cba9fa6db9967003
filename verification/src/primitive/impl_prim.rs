//! The primitives that the compiler makes on its own, and how they are written
use vstd::prelude::*;

use super::trace::{fmt_subscript, spec_fmt_subscript, subscript_digit};
use super::Primitive;
use crate::sys::SysOp;
use crate::text::{decimal, decimal_string};

verus! {

/// Primitives that only the compiler makes: inverses, optimized combinations and checks
#[derive(Debug, Clone, Copy, PartialEq, Eq, Structural)]
pub enum ImplPrimitive {
    /// Deshape with a subscript
    DeshapeSub(i32),
    /// Each with a subscript
    EachSub(i32),
    /// On with a subscript
    OnSub(u8),
    /// By with a subscript
    BySub(u8),
    /// With with a subscript
    WithSub(u8),
    /// Off with a subscript
    OffSub(u8),
    /// Bits with a number of bits
    NBits(u8),
    /// Shown as `Anti` `Pow`
    Root,
    /// Shown as `cos`
    Cos,
    /// Shown as `Un` `Sin`
    Asin,
    /// Shown as `Un` `cos`
    Acos,
    /// Shown as `Un` `Pop`
    UnPop,
    /// Shown as `Un` `Bits`
    UnBits,
    /// Shown as `Un` `Where`
    UnWhere,
    /// Shown as `Un` `Couple`
    UnCouple,
    /// Shown as `Un` `Mapping`
    UnMap,
    /// Shown as `Un` `Atan`
    UnAtan,
    /// Shown as `Un` `Utf8`
    UnUtf8,
    /// Shown as `Un` `utf₁₆`
    UnUtf16,
    /// Shown as `utf₁₆`
    Utf16,
    /// Shown as `Un` `Graphemes`
    UnGraphemes,
    /// Shown as `Un` `Parse`
    UnParse,
    /// Shown as `Un` `Fix`
    UnFix,
    /// Shown as `Un` `Shape`
    UnShape,
    /// Shown as `Anti` `Drop`
    AntiDrop,
    /// Shown as `Anti` `Select`
    AntiSelect,
    /// Shown as `Anti` `Pick`
    AntiPick,
    /// Shown as `Un` `Join`
    UnJoin,
    /// Shown as `Un` `Join`
    UnJoinShape,
    /// Shown as `Un` `Join`
    UnJoinShape2,
    /// Shown as `Un` `(` `Join` `Flip` `)`
    UnJoinEnd,
    /// Shown as `Un` `(` `Join` `Flip` `)`
    UnJoinShapeEnd,
    /// Shown as `Un` `(` `Join` `Flip` `)`
    UnJoinShape2End,
    /// Shown as `Un` `Keep`
    UnKeep,
    /// Shown as `Un` `Scan`
    UnScan,
    /// Shown as `Un` `Stack`
    UnStack,
    /// Shown as `Un` `Dump`
    UnDump,
    /// Shown as `Un` `Fill`
    UnFill,
    /// Shown as `Un` `Box`
    UnBox,
    /// Shown as `Un` `Sort`
    UnSort,
    /// Shown as `Un` `DateTime`
    UnDatetime,
    /// Shown as `Un` `Both`
    UnBoth,
    /// Shown as `Un` `Bracket`
    UnBracket,
    /// Shown as `Un` `By` `Select`
    ProgressiveIndexOf,
    /// Shown as `Under` `Un` `Bits`
    UndoUnBits,
    /// Shown as `Anti` `Base`
    AntiBase,
    /// Shown as `Under` `Take`
    UndoTake,
    /// Shown as `Under` `Drop`
    UndoDrop,
    /// Shown as `Under` `Select`
    UndoSelect,
    /// Shown as `Under` `Pick`
    UndoPick,
    /// Shown as `Under` `Where`
    UndoWhere,
    /// Shown as `Anti` `Orient`
    AntiOrient,
    /// Shown as `Under` `Orient`
    UndoAntiOrient,
    /// Shown as `Under` `Insert`
    UndoInsert,
    /// Shown as `Under` `Remove`
    UndoRemove,
    /// Shown as `Under` `Partition`
    UndoPartition1,
    /// Shown as `Under` `Partition`
    UndoPartition2,
    /// Shown as `Under` `Group`
    UndoGroup1,
    /// Shown as `Under` `Group`
    UndoGroup2,
    /// Shown as `Close`
    TryClose,
    /// Shown as `Under` `Fix`
    UndoFix,
    /// Shown as `Under` `First`
    UndoFirst,
    /// Shown as `Under` `Last`
    UndoLast,
    /// Shown as `Under` `Keep`
    UndoKeep,
    /// Shown as `Under` `Rerank`
    UndoRerank,
    /// Shown as `Un` `Reshape`
    UndoReshape,
    /// Shown as `Un` `Stencil` `Identity`
    UndoWindows,
    /// Shown as `Under` `Join`
    UndoJoin,
    /// Shown as `Under` `Rows`
    UndoRows,
    /// Shown as `Under` `Inventory`
    UndoInventory,
    /// Shown as `Under` `Sign`
    SetSign,
    /// Shown as `First` `Rise`
    FirstMinIndex,
    /// Shown as `First` `Fall`
    FirstMaxIndex,
    /// Shown as `First` `Reverse` `Rise`
    LastMinIndex,
    /// Shown as `First` `Reverse` `Fall`
    LastMaxIndex,
    /// Shown as `First` `Where`
    FirstWhere,
    /// Shown as `First` `Reverse` `Where`
    LastWhere,
    /// Shown as `Len` `Where`
    LenWhere,
    /// Shown as `MemberOf` `Range`
    MemberOfRange,
    /// Shown as `MemberOf` `Rerank` `1` `Range`
    MultidimMemberOfRange,
    /// Shown as `First` `Un` `Sort`
    RandomRow,
    /// Shown as `Select` `Fall` `Dup`
    SortDown,
    /// Shown as `all same`
    AllSame,
    /// Shown as `Un` `Reduce` `Mul`
    Primes,
    /// Shown as `Gap` `Rand`
    ReplaceRand,
    /// Shown as `Gap` `Gap` `Rand`
    ReplaceRand2,
    /// Shown as `Reduce` `Content`
    ReduceContent,
    /// Shown as `Reduce` `Content` `Join` `Inventory`
    ReduceConjoinInventory,
    /// Shown as `Reduce` `(…)` `Table`
    ReduceTable,
    /// Shown as `Len` `Deduplicate`
    CountUnique,
    /// Shown as `pattern match`
    MatchPattern,
    /// Shown as `match ≤`
    MatchLe,
    /// Shown as `match ≥`
    MatchGe,
    /// Shown as `First` `Astar`
    AstarFirst,
    /// Shown as `Take` `…` `Astar`
    AstarTake,
    /// Shown as `Pop` `Astar`
    AstarPop,
    /// Shown as `First` `Path`
    PathFirst,
    /// Shown as `Take` `…` `Path`
    PathTake,
    /// Shown as `Pop` `Path`
    PathPop,
    /// Shown as `Partition` `Box` `By` `Ne`
    SplitByScalar,
    /// Shown as `Partition` `Box` `Not` `By` `Mask`
    SplitBy,
    /// Shown as `Un` `Reduce` `$"_…_"`
    SplitByKeepEmpty,
    /// Shown as `Anti` `Under` `Transpose` `(` `Reduce` `Add` `Mul` `)`
    MatrixDiv,
    /// Shown as `Repeat`
    RepeatWithInverse,
    /// Shown as `Un` `Repeat`
    RepeatCountConvergence,
    /// Shown as `Un` `…` `Type` `Dup`
    ValidateType,
    /// Shown as `Un` `…` `Type`
    ValidateTypeConsume,
    /// Shown as `Assert`
    TestAssert,
    /// Shown as `|…[…]`
    ValidateNonBoxedVariant,
    /// Shown as `|…°[…]`
    ValidateVariant,
    /// Shown as `<tag variant>`
    TagVariant,
    /// Under reverse, with its depth
    UndoReverse {
        /// The depth
        n: usize,
        /// Whether it reverses all axes
        all: bool,
    },
    /// Under transpose, with its count and amount
    UndoTransposeN(usize, i32),
    /// Under rotate, with its count
    UndoRotate(usize),
    /// Under deshape, with its subscript
    UndoDeshape(Option<i32>),
    /// The most rows of some arrays
    MaxRowCount(usize),
    /// Reduce at a depth
    ReduceDepth(usize),
    /// Transpose a number of times, the inverse where negative
    TransposeN(i32),
    /// Stack with a count, or its inverse
    StackN {
        /// The count
        n: usize,
        /// Whether it is the inverse
        inverse: bool,
    },
}

/// The text of a number of primitives written one after another
pub open spec fn repeated_text(p: Primitive, n: nat) -> Seq<char>
    decreases n,
{
    if n == 0 {
        ""@
    } else {
        repeated_text(p, (n - 1) as nat) + p.spec_text()
    }
}

/// The subscript digits of a number, most significant first
pub open spec fn subscript_number(n: nat) -> Seq<char> {
    decimal(n).map_values(|c: char| subscript_digit((c as u32 - 48) as int))
}

/// The magnitude of a number
pub open spec fn magnitude(n: int) -> nat {
    if n < 0 {
        (-n) as nat
    } else {
        n as nat
    }
}

impl ImplPrimitive {
    /// How the primitive is written
    pub open spec fn spec_text(self) -> Seq<char> {
        match self {
            ImplPrimitive::DeshapeSub(i) => Primitive::Deshape.spec_text() + spec_fmt_subscript(i as int),
            ImplPrimitive::EachSub(i) => Primitive::Each.spec_text() + spec_fmt_subscript(i as int),
            ImplPrimitive::OnSub(i) => Primitive::On.spec_text() + spec_fmt_subscript(i as int),
            ImplPrimitive::BySub(i) => Primitive::By.spec_text() + spec_fmt_subscript(i as int),
            ImplPrimitive::WithSub(i) => Primitive::With.spec_text() + spec_fmt_subscript(i as int),
            ImplPrimitive::OffSub(i) => Primitive::Off.spec_text() + spec_fmt_subscript(i as int),
            ImplPrimitive::NBits(n) => Primitive::Bits.spec_text() + spec_fmt_subscript(n as int),
            ImplPrimitive::Root => Primitive::Anti.spec_text() + Primitive::Pow.spec_text(),
            ImplPrimitive::Cos => "cos"@,
            ImplPrimitive::Asin => Primitive::Un.spec_text() + Primitive::Sin.spec_text(),
            ImplPrimitive::Acos => Primitive::Un.spec_text() + "cos"@,
            ImplPrimitive::UnPop => Primitive::Un.spec_text() + Primitive::Pop.spec_text(),
            ImplPrimitive::UnBits => Primitive::Un.spec_text() + Primitive::Bits.spec_text(),
            ImplPrimitive::UnWhere => Primitive::Un.spec_text() + Primitive::Where.spec_text(),
            ImplPrimitive::UnCouple => Primitive::Un.spec_text() + Primitive::Couple.spec_text(),
            ImplPrimitive::UnMap => Primitive::Un.spec_text() + Primitive::Mapping.spec_text(),
            ImplPrimitive::UnAtan => Primitive::Un.spec_text() + Primitive::Atan.spec_text(),
            ImplPrimitive::UnUtf8 => Primitive::Un.spec_text() + Primitive::Utf8.spec_text(),
            ImplPrimitive::UnUtf16 => Primitive::Un.spec_text() + "utf₁₆"@,
            ImplPrimitive::Utf16 => "utf₁₆"@,
            ImplPrimitive::UnGraphemes => Primitive::Un.spec_text() + Primitive::Graphemes.spec_text(),
            ImplPrimitive::UnParse => Primitive::Un.spec_text() + Primitive::Parse.spec_text(),
            ImplPrimitive::UnFix => Primitive::Un.spec_text() + Primitive::Fix.spec_text(),
            ImplPrimitive::UnShape => Primitive::Un.spec_text() + Primitive::Shape.spec_text(),
            ImplPrimitive::AntiDrop => Primitive::Anti.spec_text() + Primitive::Drop.spec_text(),
            ImplPrimitive::AntiSelect => Primitive::Anti.spec_text() + Primitive::Select.spec_text(),
            ImplPrimitive::AntiPick => Primitive::Anti.spec_text() + Primitive::Pick.spec_text(),
            ImplPrimitive::UnJoin => Primitive::Un.spec_text() + Primitive::Join.spec_text(),
            ImplPrimitive::UnJoinShape => Primitive::Un.spec_text() + Primitive::Join.spec_text(),
            ImplPrimitive::UnJoinShape2 => Primitive::Un.spec_text() + Primitive::Join.spec_text(),
            ImplPrimitive::UnJoinEnd => Primitive::Un.spec_text() + "("@ + Primitive::Join.spec_text() + Primitive::Flip.spec_text() + ")"@,
            ImplPrimitive::UnJoinShapeEnd => Primitive::Un.spec_text() + "("@ + Primitive::Join.spec_text() + Primitive::Flip.spec_text() + ")"@,
            ImplPrimitive::UnJoinShape2End => Primitive::Un.spec_text() + "("@ + Primitive::Join.spec_text() + Primitive::Flip.spec_text() + ")"@,
            ImplPrimitive::UnKeep => Primitive::Un.spec_text() + Primitive::Keep.spec_text(),
            ImplPrimitive::UnScan => Primitive::Un.spec_text() + Primitive::Scan.spec_text(),
            ImplPrimitive::UnStack => Primitive::Un.spec_text() + Primitive::Stack.spec_text(),
            ImplPrimitive::UnDump => Primitive::Un.spec_text() + Primitive::Dump.spec_text(),
            ImplPrimitive::UnFill => Primitive::Un.spec_text() + Primitive::Fill.spec_text(),
            ImplPrimitive::UnBox => Primitive::Un.spec_text() + Primitive::Box.spec_text(),
            ImplPrimitive::UnSort => Primitive::Un.spec_text() + Primitive::Sort.spec_text(),
            ImplPrimitive::UnDatetime => Primitive::Un.spec_text() + Primitive::DateTime.spec_text(),
            ImplPrimitive::UnBoth => Primitive::Un.spec_text() + Primitive::Both.spec_text(),
            ImplPrimitive::UnBracket => Primitive::Un.spec_text() + Primitive::Bracket.spec_text(),
            ImplPrimitive::ProgressiveIndexOf => Primitive::Un.spec_text() + Primitive::By.spec_text() + Primitive::Select.spec_text(),
            ImplPrimitive::UndoUnBits => Primitive::Under.spec_text() + Primitive::Un.spec_text() + Primitive::Bits.spec_text(),
            ImplPrimitive::AntiBase => Primitive::Anti.spec_text() + Primitive::Base.spec_text(),
            ImplPrimitive::UndoTake => Primitive::Under.spec_text() + Primitive::Take.spec_text(),
            ImplPrimitive::UndoDrop => Primitive::Under.spec_text() + Primitive::Drop.spec_text(),
            ImplPrimitive::UndoSelect => Primitive::Under.spec_text() + Primitive::Select.spec_text(),
            ImplPrimitive::UndoPick => Primitive::Under.spec_text() + Primitive::Pick.spec_text(),
            ImplPrimitive::UndoWhere => Primitive::Under.spec_text() + Primitive::Where.spec_text(),
            ImplPrimitive::AntiOrient => Primitive::Anti.spec_text() + Primitive::Orient.spec_text(),
            ImplPrimitive::UndoAntiOrient => Primitive::Under.spec_text() + Primitive::Orient.spec_text(),
            ImplPrimitive::UndoInsert => Primitive::Under.spec_text() + Primitive::Insert.spec_text(),
            ImplPrimitive::UndoRemove => Primitive::Under.spec_text() + Primitive::Remove.spec_text(),
            ImplPrimitive::UndoPartition1 => Primitive::Under.spec_text() + Primitive::Partition.spec_text(),
            ImplPrimitive::UndoPartition2 => Primitive::Under.spec_text() + Primitive::Partition.spec_text(),
            ImplPrimitive::UndoGroup1 => Primitive::Under.spec_text() + Primitive::Group.spec_text(),
            ImplPrimitive::UndoGroup2 => Primitive::Under.spec_text() + Primitive::Group.spec_text(),
            ImplPrimitive::TryClose => Primitive::Sys(SysOp::Close).spec_text(),
            ImplPrimitive::UndoFix => Primitive::Under.spec_text() + Primitive::Fix.spec_text(),
            ImplPrimitive::UndoFirst => Primitive::Under.spec_text() + Primitive::First.spec_text(),
            ImplPrimitive::UndoLast => Primitive::Under.spec_text() + Primitive::Last.spec_text(),
            ImplPrimitive::UndoKeep => Primitive::Under.spec_text() + Primitive::Keep.spec_text(),
            ImplPrimitive::UndoRerank => Primitive::Under.spec_text() + Primitive::Rerank.spec_text(),
            ImplPrimitive::UndoReshape => Primitive::Un.spec_text() + Primitive::Reshape.spec_text(),
            ImplPrimitive::UndoWindows => Primitive::Un.spec_text() + Primitive::Stencil.spec_text() + Primitive::Identity.spec_text(),
            ImplPrimitive::UndoJoin => Primitive::Under.spec_text() + Primitive::Join.spec_text(),
            ImplPrimitive::UndoRows => Primitive::Under.spec_text() + Primitive::Rows.spec_text(),
            ImplPrimitive::UndoInventory => Primitive::Under.spec_text() + Primitive::Inventory.spec_text(),
            ImplPrimitive::SetSign => Primitive::Under.spec_text() + Primitive::Sign.spec_text(),
            ImplPrimitive::FirstMinIndex => Primitive::First.spec_text() + Primitive::Rise.spec_text(),
            ImplPrimitive::FirstMaxIndex => Primitive::First.spec_text() + Primitive::Fall.spec_text(),
            ImplPrimitive::LastMinIndex => Primitive::First.spec_text() + Primitive::Reverse.spec_text() + Primitive::Rise.spec_text(),
            ImplPrimitive::LastMaxIndex => Primitive::First.spec_text() + Primitive::Reverse.spec_text() + Primitive::Fall.spec_text(),
            ImplPrimitive::FirstWhere => Primitive::First.spec_text() + Primitive::Where.spec_text(),
            ImplPrimitive::LastWhere => Primitive::First.spec_text() + Primitive::Reverse.spec_text() + Primitive::Where.spec_text(),
            ImplPrimitive::LenWhere => Primitive::Len.spec_text() + Primitive::Where.spec_text(),
            ImplPrimitive::MemberOfRange => Primitive::MemberOf.spec_text() + Primitive::Range.spec_text(),
            ImplPrimitive::MultidimMemberOfRange => Primitive::MemberOf.spec_text() + Primitive::Rerank.spec_text() + "1"@ + Primitive::Range.spec_text(),
            ImplPrimitive::RandomRow => Primitive::First.spec_text() + Primitive::Un.spec_text() + Primitive::Sort.spec_text(),
            ImplPrimitive::SortDown => Primitive::Select.spec_text() + Primitive::Fall.spec_text() + Primitive::Dup.spec_text(),
            ImplPrimitive::AllSame => "all same"@,
            ImplPrimitive::Primes => Primitive::Un.spec_text() + Primitive::Reduce.spec_text() + Primitive::Mul.spec_text(),
            ImplPrimitive::ReplaceRand => Primitive::Gap.spec_text() + Primitive::Rand.spec_text(),
            ImplPrimitive::ReplaceRand2 => Primitive::Gap.spec_text() + Primitive::Gap.spec_text() + Primitive::Rand.spec_text(),
            ImplPrimitive::ReduceContent => Primitive::Reduce.spec_text() + Primitive::Content.spec_text(),
            ImplPrimitive::ReduceConjoinInventory => Primitive::Reduce.spec_text() + Primitive::Content.spec_text() + Primitive::Join.spec_text() + Primitive::Inventory.spec_text(),
            ImplPrimitive::ReduceTable => Primitive::Reduce.spec_text() + "(…)"@ + Primitive::Table.spec_text(),
            ImplPrimitive::CountUnique => Primitive::Len.spec_text() + Primitive::Deduplicate.spec_text(),
            ImplPrimitive::MatchPattern => "pattern match"@,
            ImplPrimitive::MatchLe => "match ≤"@,
            ImplPrimitive::MatchGe => "match ≥"@,
            ImplPrimitive::AstarFirst => Primitive::First.spec_text() + Primitive::Astar.spec_text(),
            ImplPrimitive::AstarTake => Primitive::Take.spec_text() + "…"@ + Primitive::Astar.spec_text(),
            ImplPrimitive::AstarPop => Primitive::Pop.spec_text() + Primitive::Astar.spec_text(),
            ImplPrimitive::PathFirst => Primitive::First.spec_text() + Primitive::Path.spec_text(),
            ImplPrimitive::PathTake => Primitive::Take.spec_text() + "…"@ + Primitive::Path.spec_text(),
            ImplPrimitive::PathPop => Primitive::Pop.spec_text() + Primitive::Path.spec_text(),
            ImplPrimitive::SplitByScalar => Primitive::Partition.spec_text() + Primitive::Box.spec_text() + Primitive::By.spec_text() + Primitive::Ne.spec_text(),
            ImplPrimitive::SplitBy => Primitive::Partition.spec_text() + Primitive::Box.spec_text() + Primitive::Not.spec_text() + Primitive::By.spec_text() + Primitive::Mask.spec_text(),
            ImplPrimitive::SplitByKeepEmpty => Primitive::Un.spec_text() + Primitive::Reduce.spec_text() + "$\"_…_\""@,
            ImplPrimitive::MatrixDiv => Primitive::Anti.spec_text() + Primitive::Under.spec_text() + Primitive::Transpose.spec_text() + "("@ + Primitive::Reduce.spec_text() + Primitive::Add.spec_text() + Primitive::Mul.spec_text() + ")"@,
            ImplPrimitive::RepeatWithInverse => Primitive::Repeat.spec_text(),
            ImplPrimitive::RepeatCountConvergence => Primitive::Un.spec_text() + Primitive::Repeat.spec_text(),
            ImplPrimitive::ValidateType => Primitive::Un.spec_text() + "…"@ + Primitive::Type.spec_text() + Primitive::Dup.spec_text(),
            ImplPrimitive::ValidateTypeConsume => Primitive::Un.spec_text() + "…"@ + Primitive::Type.spec_text(),
            ImplPrimitive::TestAssert => Primitive::Assert.spec_text(),
            ImplPrimitive::ValidateNonBoxedVariant => "|…[…]"@,
            ImplPrimitive::ValidateVariant => "|…°[…]"@,
            ImplPrimitive::TagVariant => "<tag variant>"@,
            ImplPrimitive::UndoReverse { n, .. } => Primitive::Under.spec_text()
                + Primitive::Reverse.spec_text() + "("@ + decimal(n as nat) + ")"@,
            ImplPrimitive::UndoTransposeN(n, _) => Primitive::Under.spec_text()
                + Primitive::Transpose.spec_text() + "("@ + decimal(n as nat) + ")"@,
            ImplPrimitive::UndoRotate(n) => Primitive::Under.spec_text()
                + Primitive::Rotate.spec_text() + "("@ + decimal(n as nat) + ")"@,
            ImplPrimitive::UndoDeshape(_) => Primitive::Under.spec_text()
                + Primitive::Deshape.spec_text(),
            ImplPrimitive::MaxRowCount(n) => "MaxRowCount("@ + decimal(n as nat) + ")"@,
            ImplPrimitive::ReduceDepth(n) => repeated_text(Primitive::Rows, n as nat)
                + Primitive::Reduce.spec_text() + "(…)"@,
            ImplPrimitive::TransposeN(n) => (if n < 0 {
                Primitive::Un.spec_text()
            } else {
                ""@
            }) + (if n < -1 {
                "("@
            } else {
                ""@
            }) + repeated_text(Primitive::Transpose, magnitude(n as int)) + (if n < -1 {
                ")"@
            } else {
                ""@
            }),
            ImplPrimitive::StackN { n, inverse } => (if inverse {
                Primitive::Un.spec_text()
            } else {
                ""@
            }) + Primitive::Stack.spec_text() + subscript_number(n as nat),
        }
    }

    /// Write the primitive
    pub fn to_string(&self) -> (s: String)
        requires
            self matches ImplPrimitive::DeshapeSub(i) ==> i != i32::MIN,
            self matches ImplPrimitive::EachSub(i) ==> i != i32::MIN,
        ensures
            s@ == self.spec_text(),
    {
        proof {
            reveal_strlit("");
        }
        match *self {
            ImplPrimitive::DeshapeSub(i) => Primitive::Deshape.to_string().concat(fmt_subscript(i).as_str()),
            ImplPrimitive::EachSub(i) => Primitive::Each.to_string().concat(fmt_subscript(i).as_str()),
            ImplPrimitive::OnSub(i) => Primitive::On.to_string().concat(fmt_subscript(i as i32).as_str()),
            ImplPrimitive::BySub(i) => Primitive::By.to_string().concat(fmt_subscript(i as i32).as_str()),
            ImplPrimitive::WithSub(i) => Primitive::With.to_string().concat(fmt_subscript(i as i32).as_str()),
            ImplPrimitive::OffSub(i) => Primitive::Off.to_string().concat(fmt_subscript(i as i32).as_str()),
            ImplPrimitive::NBits(n) => Primitive::Bits.to_string().concat(fmt_subscript(n as i32).as_str()),
            ImplPrimitive::Root => Primitive::Anti.to_string().concat(Primitive::Pow.to_string().as_str()),
            ImplPrimitive::Cos => String::from_str("cos"),
            ImplPrimitive::Asin => Primitive::Un.to_string().concat(Primitive::Sin.to_string().as_str()),
            ImplPrimitive::Acos => Primitive::Un.to_string().concat("cos"),
            ImplPrimitive::UnPop => Primitive::Un.to_string().concat(Primitive::Pop.to_string().as_str()),
            ImplPrimitive::UnBits => Primitive::Un.to_string().concat(Primitive::Bits.to_string().as_str()),
            ImplPrimitive::UnWhere => Primitive::Un.to_string().concat(Primitive::Where.to_string().as_str()),
            ImplPrimitive::UnCouple => Primitive::Un.to_string().concat(Primitive::Couple.to_string().as_str()),
            ImplPrimitive::UnMap => Primitive::Un.to_string().concat(Primitive::Mapping.to_string().as_str()),
            ImplPrimitive::UnAtan => Primitive::Un.to_string().concat(Primitive::Atan.to_string().as_str()),
            ImplPrimitive::UnUtf8 => Primitive::Un.to_string().concat(Primitive::Utf8.to_string().as_str()),
            ImplPrimitive::UnUtf16 => Primitive::Un.to_string().concat("utf₁₆"),
            ImplPrimitive::Utf16 => String::from_str("utf₁₆"),
            ImplPrimitive::UnGraphemes => Primitive::Un.to_string().concat(Primitive::Graphemes.to_string().as_str()),
            ImplPrimitive::UnParse => Primitive::Un.to_string().concat(Primitive::Parse.to_string().as_str()),
            ImplPrimitive::UnFix => Primitive::Un.to_string().concat(Primitive::Fix.to_string().as_str()),
            ImplPrimitive::UnShape => Primitive::Un.to_string().concat(Primitive::Shape.to_string().as_str()),
            ImplPrimitive::AntiDrop => Primitive::Anti.to_string().concat(Primitive::Drop.to_string().as_str()),
            ImplPrimitive::AntiSelect => Primitive::Anti.to_string().concat(Primitive::Select.to_string().as_str()),
            ImplPrimitive::AntiPick => Primitive::Anti.to_string().concat(Primitive::Pick.to_string().as_str()),
            ImplPrimitive::UnJoin => Primitive::Un.to_string().concat(Primitive::Join.to_string().as_str()),
            ImplPrimitive::UnJoinShape => Primitive::Un.to_string().concat(Primitive::Join.to_string().as_str()),
            ImplPrimitive::UnJoinShape2 => Primitive::Un.to_string().concat(Primitive::Join.to_string().as_str()),
            ImplPrimitive::UnJoinEnd => Primitive::Un.to_string().concat("(").concat(Primitive::Join.to_string().as_str()).concat(Primitive::Flip.to_string().as_str()).concat(")"),
            ImplPrimitive::UnJoinShapeEnd => Primitive::Un.to_string().concat("(").concat(Primitive::Join.to_string().as_str()).concat(Primitive::Flip.to_string().as_str()).concat(")"),
            ImplPrimitive::UnJoinShape2End => Primitive::Un.to_string().concat("(").concat(Primitive::Join.to_string().as_str()).concat(Primitive::Flip.to_string().as_str()).concat(")"),
            ImplPrimitive::UnKeep => Primitive::Un.to_string().concat(Primitive::Keep.to_string().as_str()),
            ImplPrimitive::UnScan => Primitive::Un.to_string().concat(Primitive::Scan.to_string().as_str()),
            ImplPrimitive::UnStack => Primitive::Un.to_string().concat(Primitive::Stack.to_string().as_str()),
            ImplPrimitive::UnDump => Primitive::Un.to_string().concat(Primitive::Dump.to_string().as_str()),
            ImplPrimitive::UnFill => Primitive::Un.to_string().concat(Primitive::Fill.to_string().as_str()),
            ImplPrimitive::UnBox => Primitive::Un.to_string().concat(Primitive::Box.to_string().as_str()),
            ImplPrimitive::UnSort => Primitive::Un.to_string().concat(Primitive::Sort.to_string().as_str()),
            ImplPrimitive::UnDatetime => Primitive::Un.to_string().concat(Primitive::DateTime.to_string().as_str()),
            ImplPrimitive::UnBoth => Primitive::Un.to_string().concat(Primitive::Both.to_string().as_str()),
            ImplPrimitive::UnBracket => Primitive::Un.to_string().concat(Primitive::Bracket.to_string().as_str()),
            ImplPrimitive::ProgressiveIndexOf => Primitive::Un.to_string().concat(Primitive::By.to_string().as_str()).concat(Primitive::Select.to_string().as_str()),
            ImplPrimitive::UndoUnBits => Primitive::Under.to_string().concat(Primitive::Un.to_string().as_str()).concat(Primitive::Bits.to_string().as_str()),
            ImplPrimitive::AntiBase => Primitive::Anti.to_string().concat(Primitive::Base.to_string().as_str()),
            ImplPrimitive::UndoTake => Primitive::Under.to_string().concat(Primitive::Take.to_string().as_str()),
            ImplPrimitive::UndoDrop => Primitive::Under.to_string().concat(Primitive::Drop.to_string().as_str()),
            ImplPrimitive::UndoSelect => Primitive::Under.to_string().concat(Primitive::Select.to_string().as_str()),
            ImplPrimitive::UndoPick => Primitive::Under.to_string().concat(Primitive::Pick.to_string().as_str()),
            ImplPrimitive::UndoWhere => Primitive::Under.to_string().concat(Primitive::Where.to_string().as_str()),
            ImplPrimitive::AntiOrient => Primitive::Anti.to_string().concat(Primitive::Orient.to_string().as_str()),
            ImplPrimitive::UndoAntiOrient => Primitive::Under.to_string().concat(Primitive::Orient.to_string().as_str()),
            ImplPrimitive::UndoInsert => Primitive::Under.to_string().concat(Primitive::Insert.to_string().as_str()),
            ImplPrimitive::UndoRemove => Primitive::Under.to_string().concat(Primitive::Remove.to_string().as_str()),
            ImplPrimitive::UndoPartition1 => Primitive::Under.to_string().concat(Primitive::Partition.to_string().as_str()),
            ImplPrimitive::UndoPartition2 => Primitive::Under.to_string().concat(Primitive::Partition.to_string().as_str()),
            ImplPrimitive::UndoGroup1 => Primitive::Under.to_string().concat(Primitive::Group.to_string().as_str()),
            ImplPrimitive::UndoGroup2 => Primitive::Under.to_string().concat(Primitive::Group.to_string().as_str()),
            ImplPrimitive::TryClose => Primitive::Sys(SysOp::Close).to_string(),
            ImplPrimitive::UndoFix => Primitive::Under.to_string().concat(Primitive::Fix.to_string().as_str()),
            ImplPrimitive::UndoFirst => Primitive::Under.to_string().concat(Primitive::First.to_string().as_str()),
            ImplPrimitive::UndoLast => Primitive::Under.to_string().concat(Primitive::Last.to_string().as_str()),
            ImplPrimitive::UndoKeep => Primitive::Under.to_string().concat(Primitive::Keep.to_string().as_str()),
            ImplPrimitive::UndoRerank => Primitive::Under.to_string().concat(Primitive::Rerank.to_string().as_str()),
            ImplPrimitive::UndoReshape => Primitive::Un.to_string().concat(Primitive::Reshape.to_string().as_str()),
            ImplPrimitive::UndoWindows => Primitive::Un.to_string().concat(Primitive::Stencil.to_string().as_str()).concat(Primitive::Identity.to_string().as_str()),
            ImplPrimitive::UndoJoin => Primitive::Under.to_string().concat(Primitive::Join.to_string().as_str()),
            ImplPrimitive::UndoRows => Primitive::Under.to_string().concat(Primitive::Rows.to_string().as_str()),
            ImplPrimitive::UndoInventory => Primitive::Under.to_string().concat(Primitive::Inventory.to_string().as_str()),
            ImplPrimitive::SetSign => Primitive::Under.to_string().concat(Primitive::Sign.to_string().as_str()),
            ImplPrimitive::FirstMinIndex => Primitive::First.to_string().concat(Primitive::Rise.to_string().as_str()),
            ImplPrimitive::FirstMaxIndex => Primitive::First.to_string().concat(Primitive::Fall.to_string().as_str()),
            ImplPrimitive::LastMinIndex => Primitive::First.to_string().concat(Primitive::Reverse.to_string().as_str()).concat(Primitive::Rise.to_string().as_str()),
            ImplPrimitive::LastMaxIndex => Primitive::First.to_string().concat(Primitive::Reverse.to_string().as_str()).concat(Primitive::Fall.to_string().as_str()),
            ImplPrimitive::FirstWhere => Primitive::First.to_string().concat(Primitive::Where.to_string().as_str()),
            ImplPrimitive::LastWhere => Primitive::First.to_string().concat(Primitive::Reverse.to_string().as_str()).concat(Primitive::Where.to_string().as_str()),
            ImplPrimitive::LenWhere => Primitive::Len.to_string().concat(Primitive::Where.to_string().as_str()),
            ImplPrimitive::MemberOfRange => Primitive::MemberOf.to_string().concat(Primitive::Range.to_string().as_str()),
            ImplPrimitive::MultidimMemberOfRange => Primitive::MemberOf.to_string().concat(Primitive::Rerank.to_string().as_str()).concat("1").concat(Primitive::Range.to_string().as_str()),
            ImplPrimitive::RandomRow => Primitive::First.to_string().concat(Primitive::Un.to_string().as_str()).concat(Primitive::Sort.to_string().as_str()),
            ImplPrimitive::SortDown => Primitive::Select.to_string().concat(Primitive::Fall.to_string().as_str()).concat(Primitive::Dup.to_string().as_str()),
            ImplPrimitive::AllSame => String::from_str("all same"),
            ImplPrimitive::Primes => Primitive::Un.to_string().concat(Primitive::Reduce.to_string().as_str()).concat(Primitive::Mul.to_string().as_str()),
            ImplPrimitive::ReplaceRand => Primitive::Gap.to_string().concat(Primitive::Rand.to_string().as_str()),
            ImplPrimitive::ReplaceRand2 => Primitive::Gap.to_string().concat(Primitive::Gap.to_string().as_str()).concat(Primitive::Rand.to_string().as_str()),
            ImplPrimitive::ReduceContent => Primitive::Reduce.to_string().concat(Primitive::Content.to_string().as_str()),
            ImplPrimitive::ReduceConjoinInventory => Primitive::Reduce.to_string().concat(Primitive::Content.to_string().as_str()).concat(Primitive::Join.to_string().as_str()).concat(Primitive::Inventory.to_string().as_str()),
            ImplPrimitive::ReduceTable => Primitive::Reduce.to_string().concat("(…)").concat(Primitive::Table.to_string().as_str()),
            ImplPrimitive::CountUnique => Primitive::Len.to_string().concat(Primitive::Deduplicate.to_string().as_str()),
            ImplPrimitive::MatchPattern => String::from_str("pattern match"),
            ImplPrimitive::MatchLe => String::from_str("match ≤"),
            ImplPrimitive::MatchGe => String::from_str("match ≥"),
            ImplPrimitive::AstarFirst => Primitive::First.to_string().concat(Primitive::Astar.to_string().as_str()),
            ImplPrimitive::AstarTake => Primitive::Take.to_string().concat("…").concat(Primitive::Astar.to_string().as_str()),
            ImplPrimitive::AstarPop => Primitive::Pop.to_string().concat(Primitive::Astar.to_string().as_str()),
            ImplPrimitive::PathFirst => Primitive::First.to_string().concat(Primitive::Path.to_string().as_str()),
            ImplPrimitive::PathTake => Primitive::Take.to_string().concat("…").concat(Primitive::Path.to_string().as_str()),
            ImplPrimitive::PathPop => Primitive::Pop.to_string().concat(Primitive::Path.to_string().as_str()),
            ImplPrimitive::SplitByScalar => Primitive::Partition.to_string().concat(Primitive::Box.to_string().as_str()).concat(Primitive::By.to_string().as_str()).concat(Primitive::Ne.to_string().as_str()),
            ImplPrimitive::SplitBy => Primitive::Partition.to_string().concat(Primitive::Box.to_string().as_str()).concat(Primitive::Not.to_string().as_str()).concat(Primitive::By.to_string().as_str()).concat(Primitive::Mask.to_string().as_str()),
            ImplPrimitive::SplitByKeepEmpty => Primitive::Un.to_string().concat(Primitive::Reduce.to_string().as_str()).concat("$\"_…_\""),
            ImplPrimitive::MatrixDiv => Primitive::Anti.to_string().concat(Primitive::Under.to_string().as_str()).concat(Primitive::Transpose.to_string().as_str()).concat("(").concat(Primitive::Reduce.to_string().as_str()).concat(Primitive::Add.to_string().as_str()).concat(Primitive::Mul.to_string().as_str()).concat(")"),
            ImplPrimitive::RepeatWithInverse => Primitive::Repeat.to_string(),
            ImplPrimitive::RepeatCountConvergence => Primitive::Un.to_string().concat(Primitive::Repeat.to_string().as_str()),
            ImplPrimitive::ValidateType => Primitive::Un.to_string().concat("…").concat(Primitive::Type.to_string().as_str()).concat(Primitive::Dup.to_string().as_str()),
            ImplPrimitive::ValidateTypeConsume => Primitive::Un.to_string().concat("…").concat(Primitive::Type.to_string().as_str()),
            ImplPrimitive::TestAssert => Primitive::Assert.to_string(),
            ImplPrimitive::ValidateNonBoxedVariant => String::from_str("|…[…]"),
            ImplPrimitive::ValidateVariant => String::from_str("|…°[…]"),
            ImplPrimitive::TagVariant => String::from_str("<tag variant>"),
            ImplPrimitive::UndoReverse { n, .. } => Primitive::Under.to_string().concat(
                Primitive::Reverse.to_string().as_str(),
            ).concat("(").concat(decimal_string(n).as_str()).concat(")"),
            ImplPrimitive::UndoTransposeN(n, _) => Primitive::Under.to_string().concat(
                Primitive::Transpose.to_string().as_str(),
            ).concat("(").concat(decimal_string(n).as_str()).concat(")"),
            ImplPrimitive::UndoRotate(n) => Primitive::Under.to_string().concat(
                Primitive::Rotate.to_string().as_str(),
            ).concat("(").concat(decimal_string(n).as_str()).concat(")"),
            ImplPrimitive::UndoDeshape(_) => Primitive::Under.to_string().concat(
                Primitive::Deshape.to_string().as_str(),
            ),
            ImplPrimitive::MaxRowCount(n) => String::from_str("MaxRowCount(").concat(
                decimal_string(n).as_str(),
            ).concat(")"),
            ImplPrimitive::ReduceDepth(n) => {
                let s = repeat_text(Primitive::Rows, n as u64);
                s.concat(Primitive::Reduce.to_string().as_str()).concat("(…)")
            },
            ImplPrimitive::TransposeN(n) => transpose_n_text(n),
            ImplPrimitive::StackN { n, inverse } => {
                let s = if inverse {
                    Primitive::Un.to_string()
                } else {
                    String::new()
                };
                s.concat(Primitive::Stack.to_string().as_str()).concat(subscript_number_string(n).as_str())
            },
        }
    }
}

/// Write a primitive a number of times
fn repeat_text(p: Primitive, n: u64) -> (s: String)
    ensures
        s@ == repeated_text(p, n as nat),
{
    let mut s = String::new();
    let mut i: u64 = 0;
    proof {
        reveal_strlit("");
    }
    while i < n
        invariant
            i <= n,
            s@ == repeated_text(p, i as nat),
        decreases n - i,
    {
        s.append(p.to_string().as_str());
        i += 1;
    }
    s
}

/// Write transpose a number of times, as the inverse of transposing where negative
fn transpose_n_text(n: i32) -> (s: String)
    ensures
        s@ == ImplPrimitive::TransposeN(n).spec_text(),
{
    proof {
        reveal_strlit("");
    }
    let mut s = String::new();
    if n < 0 {
        s.append(Primitive::Un.to_string().as_str());
        if n < -1 {
            s.append("(");
        }
    }
    let count: u64 = if n < 0 {
        (-(n as i64)) as u64
    } else {
        n as u64
    };
    s.append(repeat_text(Primitive::Transpose, count).as_str());
    if n < -1 {
        s.append(")");
    }
    s
}

/// Write a number in subscript digits, most significant first
fn subscript_number_string(n: usize) -> (s: String)
    ensures
        s@ == subscript_number(n as nat),
{
    let d = decimal_string(n);
    let ghost dv = d@;
    let mut s = String::new();
    let mut i: usize = 0;
    let len = d.as_str().unicode_len();
    assert(dv.map_values(|c: char| subscript_digit((c as u32 - 48) as int)).take(0) =~= s@);
    while i < len
        invariant
            len == dv.len(),
            dv == d@,
            dv == decimal(n as nat),
            i <= len,
            s@ == dv.map_values(|c: char| subscript_digit((c as u32 - 48) as int)).take(i as int),
        decreases len - i,
    {
        let c = d.as_str().get_char(i);
        proof {
            crate::text::lemma_decimal_digits(n as nat, i as int);
        }
        let digit = subscript_of_digit(c);
        s.append(crate::text::char_string(digit).as_str());
        i += 1;
        assert(s@ =~= dv.map_values(|c: char| subscript_digit((c as u32 - 48) as int)).take(
            i as int,
        ));
    }
    assert(dv.map_values(|c: char| subscript_digit((c as u32 - 48) as int)).take(len as int)
        =~= dv.map_values(|c: char| subscript_digit((c as u32 - 48) as int)));
    s
}

/// The subscript form of a decimal digit character
fn subscript_of_digit(c: char) -> (r: char)
    requires
        '0' <= c <= '9',
    ensures
        r == subscript_digit((c as u32 - 48) as int),
{
    if c == '0' { '₀' }
    else if c == '1' { '₁' }
    else if c == '2' { '₂' }
    else if c == '3' { '₃' }
    else if c == '4' { '₄' }
    else if c == '5' { '₅' }
    else if c == '6' { '₆' }
    else if c == '7' { '₇' }
    else if c == '8' { '₈' }
    else { '₉' }
}


/// The largest of some row counts other than 1, if any is not 1
pub open spec fn max_other_than_one(counts: Seq<usize>) -> Option<usize>
    decreases counts.len(),
{
    if counts.len() == 0 {
        None
    } else {
        let before = max_other_than_one(counts.drop_last());
        let c = counts.last();
        if c == 1 {
            before
        } else {
            match before {
                Some(m) => Some(if m >= c { m } else { c }),
                None => Some(c),
            }
        }
    }
}

/// The row count that `MaxRowCount` gives for the row counts of the values it looks at: the
/// largest that is not 1, else 1
pub open spec fn spec_max_row_count(counts: Seq<usize>) -> usize {
    match max_other_than_one(counts) {
        Some(m) => m,
        None => 1,
    }
}

/// Find the largest of some row counts that is not 1, or 1 where all are 1 or there are none
pub fn max_row_count(counts: &Vec<usize>) -> (r: usize)
    ensures
        r == spec_max_row_count(counts@),
{
    let mut max_len: Option<usize> = None;
    let mut i: usize = 0;
    while i < counts.len()
        invariant
            i <= counts@.len(),
            max_len == max_other_than_one(counts@.take(i as int)),
        decreases counts@.len() - i,
    {
        let c = counts[i];
        assert(counts@.take(i + 1).drop_last() =~= counts@.take(i as int));
        if c != 1 {
            max_len = Some(match max_len {
                Some(m) => if m >= c { m } else { c },
                None => c,
            });
        }
        i += 1;
    }
    assert(counts@.take(counts@.len() as int) =~= counts@);
    match max_len {
        Some(m) => m,
        None => 1,
    }
}


/// The largest row count other than 1 bounds every such count and is one of them, where there
/// is one; counts of 1 never count
proof fn lemma_max_other_than_one(counts: Seq<usize>)
    ensures
        match max_other_than_one(counts) {
            Some(m) => m != 1 && (exists|i: int| 0 <= i < counts.len() && counts[i] == m) && forall|i: int|
                0 <= i < counts.len() && counts[i] != 1 ==> counts[i] <= m,
            None => forall|i: int| 0 <= i < counts.len() ==> counts[i] == 1,
        },
    decreases counts.len(),
{
    if counts.len() > 0 {
        let rest = counts.drop_last();
        lemma_max_other_than_one(rest);
        assert forall|i: int| 0 <= i < rest.len() implies rest[i] == counts[i] by {}
        match max_other_than_one(rest) {
            Some(m) => {
                let j = choose|j: int| 0 <= j < rest.len() && rest[j] == m;
                assert(counts[j] == m);
            },
            None => {},
        }
    }
}

/// `MaxRowCount` gives the largest row count that is not 1, where some count is not 1: it is
/// one of the counts and no count other than 1 is larger; it gives 1 exactly where every count
/// is 1 or there are none
pub proof fn lemma_max_row_count(counts: Seq<usize>)
    ensures
        (exists|i: int| 0 <= i < counts.len() && counts[i] != 1) ==> {
            &&& spec_max_row_count(counts) != 1
            &&& exists|i: int| 0 <= i < counts.len() && counts[i] == spec_max_row_count(counts)
            &&& forall|i: int| 0 <= i < counts.len() && counts[i] != 1 ==> counts[i] <= spec_max_row_count(counts)
        },
        (forall|i: int| 0 <= i < counts.len() ==> counts[i] == 1) ==> spec_max_row_count(counts) == 1,
{
    lemma_max_other_than_one(counts);
}

} // verus!
