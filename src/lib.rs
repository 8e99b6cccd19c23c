//! Typed form controls whose error set is recomputed from an ordered list of
//! validators every time the value changes, with the plain types of the
//! widgets around them.
pub mod button;
pub mod forms;
pub mod keyed;
pub mod type_ahead;
