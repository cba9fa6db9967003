//! Shadowable constants: their classes and values
use vstd::prelude::*;

use crate::value::Value;

verus! {

/// Kinds of shadowable constants
#[derive(Debug, Clone, Copy, PartialEq, Eq, Structural)]
pub enum ConstClass {
    /// Mathematical constants
    Math,
    /// Colors
    Color,
    /// Offsets of neighbors in space
    Spatial,
}

/// The value of a shadowable constant
pub enum ConstantValue {
    /// A static value that is always the same
    Static(Value),
}

impl ConstantValue {
    /// The value that the constant stands for
    pub open spec fn spec_value(self) -> Value {
        match self {
            ConstantValue::Static(v) => v,
        }
    }

    /// Resolve the constant to a value, given the path of the current file; a static value is
    /// the same wherever it is used
    pub fn resolve(self, current_file_path: Option<&str>) -> (v: Value)
        ensures
            v == self.spec_value(),
    {
        match self {
            ConstantValue::Static(val) => val,
        }
    }
}

impl From<Value> for ConstantValue {
    fn from(val: Value) -> (c: Self) {
        ConstantValue::Static(val)
    }
}

impl vstd::std_specs::convert::FromSpecImpl<Value> for ConstantValue {
    open spec fn obeys_from_spec() -> bool {
        true
    }

    open spec fn from_spec(val: Value) -> ConstantValue {
        ConstantValue::Static(val)
    }
}

} // verus!
