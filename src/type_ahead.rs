//! The options offered by a type-ahead field.
use vstd::prelude::*;

verus! {

/// One suggestion: the value it stands for and the label shown for it.
#[derive(Debug, Clone, PartialEq, Eq, Default)]
pub struct TypeAheadOption {
    pub value: String,
    pub label: String,
}

impl TypeAheadOption {
    pub fn new(value: String, label: String) -> (r: Self)
        ensures
            r.value == value,
            r.label == label,
    {
        TypeAheadOption { value, label }
    }
}

} // verus!
