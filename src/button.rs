//! The visual styles a button can take.
use vstd::prelude::*;

verus! {

/// How a button is drawn.
#[derive(Debug, Clone, Copy, PartialEq, Eq, Structural)]
pub enum ButtonStyle {
    Primary,
    Secondary,
}

impl Default for ButtonStyle {
    fn default() -> (r: Self)
        ensures
            r == ButtonStyle::Secondary,
    {
        ButtonStyle::Secondary
    }
}

} // verus!
