//! The built-in validators gathered by the value type they judge, so that one
//! control can hold several kinds of them.
use crate::forms::validator::{ControlValidator, ControlValidatorResult};
use crate::forms::validators::min::Min;
use crate::forms::validators::min_length::MinLength;
use crate::forms::validators::required::Required;
use vstd::prelude::*;

verus! {

/// A built-in validator of integers.
pub enum IntValidator {
    Required(Required),
    Min(Min),
}

impl ControlValidator<i32> for IntValidator {
    open spec fn failure(&self, value: Option<i32>) -> Option<Map<Seq<char>, i32>> {
        match self {
            IntValidator::Required(v) => ControlValidator::<i32>::failure(v, value),
            IntValidator::Min(v) => v.failure(value),
        }
    }

    open spec fn name(&self) -> Seq<char> {
        match self {
            IntValidator::Required(v) => ControlValidator::<i32>::name(v),
            IntValidator::Min(v) => v.name(),
        }
    }

    fn validate(&self, value: &Option<i32>) -> (r: ControlValidatorResult) {
        match self {
            IntValidator::Required(v) => v.validate(value),
            IntValidator::Min(v) => v.validate(value),
        }
    }
}

/// A built-in validator of texts.
pub enum TextValidator {
    Required(Required),
    MinLength(MinLength),
}

impl ControlValidator<String> for TextValidator {
    open spec fn failure(&self, value: Option<String>) -> Option<Map<Seq<char>, i32>> {
        match self {
            TextValidator::Required(v) => ControlValidator::<String>::failure(v, value),
            TextValidator::MinLength(v) => v.failure(value),
        }
    }

    open spec fn name(&self) -> Seq<char> {
        match self {
            TextValidator::Required(v) => ControlValidator::<String>::name(v),
            TextValidator::MinLength(v) => v.name(),
        }
    }

    fn validate(&self, value: &Option<String>) -> (r: ControlValidatorResult) {
        match self {
            TextValidator::Required(v) => v.validate(value),
            TextValidator::MinLength(v) => v.validate(value),
        }
    }
}

} // verus!
