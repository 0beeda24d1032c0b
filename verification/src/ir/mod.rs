//! The IR that the context emits: types, values, instructions and the module that holds them.

pub mod builder;
pub mod instruction;
pub mod module;
pub mod target;
pub mod types;
pub mod value;
