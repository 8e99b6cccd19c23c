//! The built-in validators.
pub mod min;
pub mod min_length;
pub mod required;
pub mod sets;
