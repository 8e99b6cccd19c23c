//! The validator that asks for a text of at least a given trimmed length.
use crate::forms::validator::{ControlValidator, ControlValidatorResult, ValidatorMetadata};
use vstd::prelude::*;
use vstd::utf8::encode_utf8;

verus! {

/// The name of the failure reported for a text that is too short.
pub const MIN_LENGTH_NAME: &'static str = "MIN_LENGTH";

/// Whether `c` has the Unicode `White_Space` property.
pub open spec fn is_white_space(c: char) -> bool {
    let u = c as u32;
    (0x9 <= u <= 0xd) || u == 0x20 || u == 0x85 || u == 0xa0 || u == 0x1680 || (0x2000 <= u
        <= 0x200a) || u == 0x2028 || u == 0x2029 || u == 0x202f || u == 0x205f || u == 0x3000
}

/// `s` without its leading white space.
pub open spec fn trim_start(s: Seq<char>) -> Seq<char>
    decreases s.len(),
{
    if s.len() > 0 && is_white_space(s[0]) {
        trim_start(s.drop_first())
    } else {
        s
    }
}

/// `s` without its trailing white space.
pub open spec fn trim_end(s: Seq<char>) -> Seq<char>
    decreases s.len(),
{
    if s.len() > 0 && is_white_space(s.last()) {
        trim_end(s.drop_last())
    } else {
        s
    }
}

/// `s` without its leading and trailing white space.
pub open spec fn trimmed(s: Seq<char>) -> Seq<char> {
    trim_end(trim_start(s))
}

/// Relies on `str::trim`: the text without the leading and trailing
/// characters that have the Unicode `White_Space` property.
#[verifier::external_body]
fn trim(s: &String) -> (r: &str)
    ensures
        r@ == trimmed(s@),
{
    s.trim()
}

/// The length of `s` as `str::len` reports it: its number of UTF-8 bytes.
pub open spec fn byte_length(s: Seq<char>) -> int {
    (encode_utf8(s).len() as usize) as int
}

/// Fails on a present text whose trimmed length is under the bound; an absent
/// value passes.
pub struct MinLength {
    min_length: i32,
}

impl MinLength {
    /// The smallest trimmed length that passes.
    pub closed spec fn threshold(&self) -> i32 {
        self.min_length
    }

    pub fn new(min_length: i32) -> (r: Self)
        ensures
            r.threshold() == min_length,
    {
        MinLength { min_length }
    }
}

impl MinLength {
    /// The failure reported for a text whose trimmed form is `text`, or `None`
    /// when it is long enough.
    pub open spec fn shortfall(&self, text: Seq<char>) -> Option<Map<Seq<char>, i32>> {
        if byte_length(text) < self.threshold() {
            Some(
                map![
                    "min_length"@ => self.threshold(),
                    "actual_length"@ => byte_length(text) as i32,
                ],
            )
        } else {
            None
        }
    }

    /// Judges a text that has already been trimmed.
    pub fn judge_trimmed(&self, text: &str) -> (r: ControlValidatorResult)
        ensures
            match r {
                Ok(()) => self.shortfall(text@) is None,
                Err(e) => e.0@ == MIN_LENGTH_NAME@ && self.shortfall(text@) == Some(e.1@),
            },
    {
        let val_len = text.len();
        if self.min_length > 0 && val_len < self.min_length as usize {
            let actual = val_len as i32;
            let mut meta = ValidatorMetadata::new();
            meta.add("min_length".to_owned(), self.min_length);
            meta.add("actual_length".to_owned(), actual);
            proof {
                assert(meta@ =~= map![
                    "min_length"@ => self.threshold(),
                    "actual_length"@ => actual,
                ]);
            }
            return Err((MIN_LENGTH_NAME.to_owned(), meta));
        }
        Ok(())
    }
}

impl ControlValidator<String> for MinLength {
    open spec fn failure(&self, value: Option<String>) -> Option<Map<Seq<char>, i32>> {
        match value {
            Some(s) => self.shortfall(trimmed(s@)),
            None => None,
        }
    }

    open spec fn name(&self) -> Seq<char> {
        MIN_LENGTH_NAME@
    }

    fn validate(&self, value: &Option<String>) -> (r: ControlValidatorResult) {
        match value {
            Some(val) => self.judge_trimmed(trim(val)),
            None => Ok(()),
        }
    }
}

} // verus!
