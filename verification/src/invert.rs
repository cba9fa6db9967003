//! Why a function could not be inverted
use vstd::prelude::*;

use crate::assembly::Function;
use crate::primitive::Primitive;
use crate::{FunctionId, Signature};

verus! {

/// What lowercasing a text gives (`str::to_lowercase`)
pub uninterp spec fn lowercase_chars(s: Seq<char>) -> Seq<char>;

/// The lowercase form of an ASCII character
pub open spec fn ascii_lower(c: char) -> char {
    if 'A' <= c && c <= 'Z' {
        ((c as u32) + 32) as char
    } else {
        c
    }
}

/// Lowercase a text (`str::to_lowercase`, which maps each character by the Unicode lowercase
/// mapping). Of an ASCII text it is stated that it lowercases each letter and keeps the rest.
#[verifier::external_body]
pub(crate) fn to_lowercase(s: &str) -> (r: String)
    ensures
        r@ == lowercase_chars(s@),
        (forall|i: int| 0 <= i < s@.len() ==> (#[trigger] s@[i] as u32) < 128) ==> r@ == s@.map_values(
            |c: char| ascii_lower(c),
        ),
{
    s.to_lowercase()
}

/// A function whose signature could not be checked, by the checker's message
pub struct SigCheckError {
    /// What the signature checker says
    pub message: String,
}

/// An equation that could not be solved, by the solver's message
pub struct AlgebraError {
    /// What the solver says
    pub message: String,
}

/// Why a function could not be inverted
pub enum InversionError {
    /// No inverse was found
    Generic,
    /// The function has too many instructions
    TooManyNodeuctions,
    /// The function's signature is invalid
    Signature(SigCheckError),
    /// Inverting the named functions, innermost first, failed for the inner reason
    InnerFunc(Vec<FunctionId>, Box<InversionError>),
    /// The second function of an under has an asymmetric signature
    AsymmetricUnderSig(Signature),
    /// An under is itself too complex to invert
    ComplexInvertedUnder,
    /// Inverting under is experimental
    UnderExperimental,
    /// An equation could not be solved
    AlgebraError(AlgebraError),
    /// Un-under is experimental
    UnUnderExperimental,
    /// The first function of an un-under does not have a net-zero signature
    UnUnderSignature(Signature),
    /// A format function that cannot be inverted
    ReduceFormat,
}

/// The functions of an inversion error, each as the reason it could not be inverted
pub open spec fn cannot_invert_text(ids: Seq<FunctionId>) -> Seq<char>
    decreases ids.len(),
{
    if ids.len() == 0 {
        ""@
    } else {
        cannot_invert_text(ids.drop_last()) + " cannot invert "@ + ids.last().spec_text()
            + " because"@
    }
}

/// The end of the messages of experimental inversions
pub open spec fn experimental_note() -> Seq<char> {
    " is experimental. To enable it, add `# Experimental!` to the top of the file."@
}

impl InversionError {
    /// The message of the error; an error in an inner function names each function, and gives
    /// the inner message in lowercase
    pub open spec fn spec_message(&self) -> Seq<char>
        decreases *self,
    {
        match *self {
            InversionError::Generic => "No inverse found"@,
            InversionError::TooManyNodeuctions => "Function has too many instructions to invert"@,
            InversionError::Signature(e) => "Cannot invert invalid signature: "@ + e.message@,
            InversionError::InnerFunc(ids, inner) => "Inversion failed:"@ + cannot_invert_text(ids@)
                + " "@ + lowercase_chars(inner.spec_message()),
            InversionError::AsymmetricUnderSig(sig) => "Cannot invert under with asymmetric second function signature "@
                + sig.spec_text(),
            InversionError::ComplexInvertedUnder => "This under itself is too complex to invert"@,
            InversionError::UnderExperimental => "Inversion of "@
                + Primitive::Under.spec_format_text() + experimental_note(),
            InversionError::AlgebraError(e) => e.message@,
            InversionError::UnUnderExperimental => Primitive::Un.spec_format_text() + " "@
                + Primitive::Under.spec_format_text() + experimental_note(),
            InversionError::UnUnderSignature(sig) => Primitive::Un.spec_format_text() + " "@
                + Primitive::Under.spec_format_text()
                + "'s first function must have a net-zero signature, but its signature is "@
                + sig.spec_text(),
            InversionError::ReduceFormat => "Only format functions with 2 arguments and text only between them can be inverted"@,
        }
    }

    /// Write the message of the error
    pub fn to_string(&self) -> (s: String)
        ensures
            s@ == self.spec_message(),
        decreases self,
    {
        match self {
            InversionError::Generic => String::from_str("No inverse found"),
            InversionError::TooManyNodeuctions => String::from_str(
                "Function has too many instructions to invert",
            ),
            InversionError::Signature(e) => String::from_str(
                "Cannot invert invalid signature: ",
            ).concat(e.message.as_str()),
            InversionError::InnerFunc(ids, inner) => {
                let mut s = String::from_str("Inversion failed:");
                let ghost start = s@;
                let mut i: usize = 0;
                proof {
                    reveal_strlit("");
                }
                assert(ids@.take(0) =~= Seq::<FunctionId>::empty());
                assert(s@ =~= start + cannot_invert_text(ids@.take(0)));
                while i < ids.len()
                    invariant
                        i <= ids@.len(),
                        s@ == start + cannot_invert_text(ids@.take(i as int)),
                    decreases ids@.len() - i,
                {
                    s.append(" cannot invert ");
                    s.append(ids[i].to_string().as_str());
                    s.append(" because");
                    assert(ids@.take(i + 1).drop_last() =~= ids@.take(i as int));
                    i += 1;
                    assert(s@ =~= start + cannot_invert_text(ids@.take(i as int)));
                }
                assert(ids@.take(ids@.len() as int) =~= ids@);
                let inner_text = inner.to_string();
                let lower = to_lowercase(inner_text.as_str());
                s.append(" ");
                s.append(lower.as_str());
                s
            },
            InversionError::AsymmetricUnderSig(sig) => String::from_str(
                "Cannot invert under with asymmetric second function signature ",
            ).concat(sig.to_string().as_str()),
            InversionError::ComplexInvertedUnder => String::from_str(
                "This under itself is too complex to invert",
            ),
            InversionError::UnderExperimental => String::from_str("Inversion of ").concat(
                Primitive::Under.format().to_string().as_str(),
            ).concat(
                " is experimental. To enable it, add `# Experimental!` to the top of the file.",
            ),
            InversionError::AlgebraError(e) => e.message.clone(),
            InversionError::UnUnderExperimental => Primitive::Un.format().to_string().concat(
                " ",
            ).concat(Primitive::Under.format().to_string().as_str()).concat(
                " is experimental. To enable it, add `# Experimental!` to the top of the file.",
            ),
            InversionError::UnUnderSignature(sig) => Primitive::Un.format().to_string().concat(
                " ",
            ).concat(Primitive::Under.format().to_string().as_str()).concat(
                "'s first function must have a net-zero signature, but its signature is ",
            ).concat(sig.to_string().as_str()),
            InversionError::ReduceFormat => String::from_str(
                "Only format functions with 2 arguments and text only between them can be inverted",
            ),
        }
    }

    /// Say that the error happened while inverting a function: an error in inner functions gets
    /// the function's id added to its list, and any other error becomes the inner error of the
    /// function
    pub fn func(self, f: &Function) -> (r: Self)
        ensures
            match self {
                InversionError::InnerFunc(ids, inner) => r matches InversionError::InnerFunc(
                    new_ids,
                    new_inner,
                ) && new_ids@ == ids@.push(f.id) && new_inner == inner,
                e => r matches InversionError::InnerFunc(new_ids, new_inner) && new_ids@ == seq![
                    f.id,
                ] && *new_inner == e,
            },
    {
        match self {
            InversionError::InnerFunc(mut ids, inner) => {
                ids.push(f.id.clone());
                InversionError::InnerFunc(ids, inner)
            },
            e => {
                let mut ids: Vec<FunctionId> = Vec::new();
                ids.push(f.id.clone());
                InversionError::InnerFunc(ids, Box::new(e))
            },
        }
    }
}

impl Default for InversionError {
    fn default() -> (e: Self)
        ensures
            e is Generic,
    {
        InversionError::Generic
    }
}

impl From<SigCheckError> for InversionError {
    fn from(e: SigCheckError) -> (r: Self) {
        InversionError::Signature(e)
    }
}

impl vstd::std_specs::convert::FromSpecImpl<SigCheckError> for InversionError {
    open spec fn obeys_from_spec() -> bool {
        true
    }

    open spec fn from_spec(e: SigCheckError) -> InversionError {
        InversionError::Signature(e)
    }
}

impl From<()> for InversionError {
    fn from(e: ()) -> (r: Self) {
        InversionError::Generic
    }
}

impl vstd::std_specs::convert::FromSpecImpl<()> for InversionError {
    open spec fn obeys_from_spec() -> bool {
        true
    }

    open spec fn from_spec(e: ()) -> InversionError {
        InversionError::Generic
    }
}

/// A generic inversion error
pub fn generic<T>() -> (r: Result<T, InversionError>)
    ensures
        r matches Err(e) && e is Generic,
{
    Err(InversionError::Generic)
}

} // verus!
