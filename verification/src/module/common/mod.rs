//! Helpers shared by the resource screens.
pub mod scope_validator;
