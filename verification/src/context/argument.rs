//! The operand of an instruction being lowered.

use vstd::prelude::*;

use crate::ir::value::BasicValueEnum;

verus! {

/// An operand: the value, and the literal it was written as, where the lowering needs it.
#[derive(Debug, Clone, PartialEq, Eq)]
pub struct Argument {
    /// The value of the operand.
    pub value: BasicValueEnum,
    /// The literal that the operand was written as.
    pub original: Option<String>,
}

impl Argument {
    /// An operand without a literal.
    pub fn new(value: BasicValueEnum) -> (result: Argument)
        ensures
            result.value == value,
            result.original is None,
    {
        Argument { value, original: None }
    }

    /// An operand with its literal.
    pub fn new_with_original(value: BasicValueEnum, original: String) -> (result: Argument)
        ensures
            result.value == value,
            result.original == Some(original),
    {
        Argument { value, original: Some(original) }
    }
}

} // verus!
