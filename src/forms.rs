//! Form controls and the validators that judge their values.
pub mod control;
pub mod validator;
pub mod validators;
