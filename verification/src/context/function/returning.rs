//! The way a function hands back its result.

use vstd::prelude::*;

use crate::ir::value::PointerValue;

verus! {

/// Where a function keeps the value that it returns.
#[derive(Debug, Clone, Copy, PartialEq, Eq, Structural, Hash)]
pub enum Return {
    /// The function returns nothing.
    Void,
    /// The function returns one word, kept at `pointer`.
    Primitive { pointer: PointerValue },
    /// The function returns `size` words through the structure at `pointer`.
    Compound { pointer: PointerValue, size: usize },
}

impl Return {
    /// The return of one word.
    pub fn primitive(pointer: PointerValue) -> (result: Return)
        ensures
            result == (Return::Primitive { pointer }),
    {
        Return::Primitive { pointer }
    }

    /// The return of several words.
    pub fn compound(pointer: PointerValue, size: usize) -> (result: Return)
        ensures
            result == (Return::Compound { pointer, size }),
    {
        Return::Compound { pointer, size }
    }

    /// The pointer to the returned value, unless the function returns nothing.
    pub fn return_pointer(&self) -> (result: Option<PointerValue>)
        ensures
            result == match *self {
                Return::Void => None,
                Return::Primitive { pointer } => Some(pointer),
                Return::Compound { pointer, .. } => Some(pointer),
            },
    {
        match self {
            Return::Void => None,
            Return::Primitive { pointer } => Some(*pointer),
            Return::Compound { pointer, .. } => Some(*pointer),
        }
    }

    /// The number of words returned.
    pub fn return_data_size(&self) -> (result: usize)
        ensures
            result == match *self {
                Return::Void => 0usize,
                Return::Primitive { .. } => 1usize,
                Return::Compound { size, .. } => size,
            },
    {
        match self {
            Return::Void => 0,
            Return::Primitive { .. } => 1,
            Return::Compound { size, .. } => *size,
        }
    }
}

} // verus!
