//! The validator that asks for an integer no smaller than a bound.
use crate::forms::validator::{ControlValidator, ControlValidatorResult, ValidatorMetadata};
use vstd::prelude::*;

verus! {

/// The name of the failure reported for a value under the bound.
pub const MIN_NAME: &'static str = "MIN";

/// Fails on a present value smaller than the bound; an absent value passes.
pub struct Min {
    min_value: i32,
}

impl Min {
    /// The smallest value that passes.
    pub closed spec fn threshold(&self) -> i32 {
        self.min_value
    }

    pub fn new(min_value: i32) -> (r: Self)
        ensures
            r.threshold() == min_value,
    {
        Min { min_value }
    }
}

impl ControlValidator<i32> for Min {
    open spec fn failure(&self, value: Option<i32>) -> Option<Map<Seq<char>, i32>> {
        match value {
            Some(v) => if v < self.threshold() {
                Some(map!["min_val"@ => self.threshold(), "actual_value"@ => v])
            } else {
                None
            },
            None => None,
        }
    }

    open spec fn name(&self) -> Seq<char> {
        MIN_NAME@
    }

    fn validate(&self, value: &Option<i32>) -> (r: ControlValidatorResult) {
        if let Some(val) = value {
            if *val < self.min_value {
                let mut meta = ValidatorMetadata::new();
                meta.add("min_val".to_owned(), self.min_value);
                meta.add("actual_value".to_owned(), *val);
                proof {
                    assert(meta@ =~= map!["min_val"@ => self.threshold(), "actual_value"@ => *val]);
                }
                return Err((MIN_NAME.to_owned(), meta));
            }
        }
        Ok(())
    }
}

} // verus!
