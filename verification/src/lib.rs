//! Core definitions of the Uiua array language: primitives, system functions,
//! bindings, documentation comments and the tabling algorithms.
use vstd::prelude::*;

use text::{decimal, decimal_string};

pub mod assembly;
pub mod ast;
pub mod constant;
pub mod doc_sig;
pub mod doc_sig_laws;
pub mod eco;
pub mod inputs;
pub mod invert;
pub mod lsp;
pub mod path;
pub mod primitive;
pub mod scan;
pub mod text;
pub mod value;
pub mod spans;
pub mod sys;
pub mod table;
pub mod table_laws;
pub mod utf8;

verus! {

/// The number of arguments and outputs of a function
#[derive(Debug, Clone, Copy, PartialEq, Eq, Structural)]
pub struct Signature {
    /// The number of arguments the function pops off the stack
    pub args: usize,
    /// The number of values the function pushes onto the stack
    pub outputs: usize,
}

impl Signature {
    /// Create a new signature
    pub fn new(args: usize, outputs: usize) -> (s: Self)
        ensures
            s.args == args,
            s.outputs == outputs,
    {
        Signature { args, outputs }
    }

    /// The text of a signature: a bar and the argument count, then a dot and the output count
    /// unless there is exactly one output
    pub open spec fn spec_text(self) -> Seq<char> {
        if self.outputs == 1 {
            "|"@ + decimal(self.args as nat)
        } else {
            "|"@ + decimal(self.args as nat) + "."@ + decimal(self.outputs as nat)
        }
    }

    /// Display the signature
    pub fn to_string(&self) -> (s: String)
        ensures
            s@ == self.spec_text(),
    {
        if self.outputs == 1 {
            String::from_str("|").concat(decimal_string(self.args).as_str())
        } else {
            String::from_str("|").concat(decimal_string(self.args).as_str()).concat(".").concat(
                decimal_string(self.outputs).as_str(),
            )
        }
    }
}

impl FunctionId {
    /// Whether two function ids are the same: the same kind of id, with the same text
    pub open spec fn spec_same(&self, other: &FunctionId) -> bool {
        match *self {
            FunctionId::Named(a) => (*other matches FunctionId::Named(b) && b@ == a@),
            FunctionId::Anonymous(a) => (*other matches FunctionId::Anonymous(b) && b@ == a@),
            FunctionId::Main => *other is Main,
            FunctionId::Unnamed => *other is Unnamed,
        }
    }

    /// How a function id is written: a name as it is, an anonymous function by where it was
    /// written, and `main` or `unnamed` for the others
    pub open spec fn spec_text(&self) -> Seq<char> {
        match *self {
            FunctionId::Named(name) => name@,
            FunctionId::Anonymous(place) => "fn from "@ + place@,
            FunctionId::Main => "main"@,
            FunctionId::Unnamed => "unnamed"@,
        }
    }

    /// Write the function id
    pub fn to_string(&self) -> (s: String)
        ensures
            s@ == self.spec_text(),
    {
        match self {
            FunctionId::Named(name) => name.clone(),
            FunctionId::Anonymous(place) => String::from_str("fn from ").concat(place.as_str()),
            FunctionId::Main => String::from_str("main"),
            FunctionId::Unnamed => String::from_str("unnamed"),
        }
    }

    /// Check whether two function ids are the same
    pub fn same(&self, other: &FunctionId) -> (r: bool)
        ensures
            r == self.spec_same(other),
    {
        match self {
            FunctionId::Named(a) => match other {
                FunctionId::Named(b) => text::str_eq(a.as_str(), b.as_str()),
                _ => false,
            },
            FunctionId::Anonymous(a) => match other {
                FunctionId::Anonymous(b) => text::str_eq(a.as_str(), b.as_str()),
                _ => false,
            },
            FunctionId::Main => match other {
                FunctionId::Main => true,
                _ => false,
            },
            FunctionId::Unnamed => match other {
                FunctionId::Unnamed => true,
                _ => false,
            },
        }
    }
}

/// The identity of a function
#[derive(Debug)]
pub enum FunctionId {
    /// A named function
    Named(String),
    /// An anonymous function, by where it was written
    Anonymous(String),
    /// The top-level code of a program
    Main,
    /// A function without a name or a place
    Unnamed,
}

impl Clone for FunctionId {
    fn clone(&self) -> (r: Self)
        ensures
            r == *self,
    {
        match self {
            FunctionId::Named(name) => FunctionId::Named(name.clone()),
            FunctionId::Anonymous(place) => FunctionId::Anonymous(place.clone()),
            FunctionId::Main => FunctionId::Main,
            FunctionId::Unnamed => FunctionId::Unnamed,
        }
    }
}

/// How pure a function is
#[derive(Debug, Clone, Copy, PartialEq, Eq, Structural)]
pub enum Purity {
    /// The function changes the state of the world
    Mutating,
    /// The function reads the state of the world
    Impure,
    /// The function has no side effects
    Pure,
}

} // verus!
