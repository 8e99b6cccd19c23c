//! The validator that asks for a value to be present.
use crate::forms::validator::{ControlValidator, ControlValidatorResult, ValidatorMetadata};
use vstd::prelude::*;

verus! {

/// The name of the failure reported for an absent value.
pub const REQUIRED_NAME: &'static str = "REQUIRED";

/// Fails on an absent value, whatever its type; any present value passes.
pub struct Required;

impl Required {
    pub fn new() -> (r: Self) {
        Required
    }
}

impl<V> ControlValidator<V> for Required {
    open spec fn failure(&self, value: Option<V>) -> Option<Map<Seq<char>, i32>> {
        if value is None {
            Some(Map::empty())
        } else {
            None
        }
    }

    open spec fn name(&self) -> Seq<char> {
        REQUIRED_NAME@
    }

    fn validate(&self, value: &Option<V>) -> (r: ControlValidatorResult) {
        if value.is_none() {
            Err((REQUIRED_NAME.to_owned(), ValidatorMetadata::new()))
        } else {
            Ok(())
        }
    }
}

} // verus!
