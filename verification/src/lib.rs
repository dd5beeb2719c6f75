//! Named, shape-checked and kind-checked wrappers for multi-dimensional arrays.

pub mod array;
pub mod error;
pub mod explicit;
pub mod global;
pub mod kind;
pub mod laws;
pub mod parameter;
pub mod text;
pub mod typed_array;
pub mod validator;
