//! The values of the IR: constants and the results of instructions.

use vstd::prelude::*;

use crate::context::function::intrinsic::Intrinsic;
use crate::ir::types::BasicTypeEnum;
use crate::ir::types::IntType;
use crate::ir::types::PointerType;
use crate::ir::types::StructType;
use crate::word::Word;

verus! {

/// A basic block, named by its function's place in the module and its own place in the
/// function.
#[derive(Debug, Clone, Copy, PartialEq, Eq, Structural, Hash)]
pub struct BasicBlock {
    /// The place of the function in the module.
    pub function: usize,
    /// The place of the block in the function.
    pub index: usize,
}

/// Where a value comes from.
#[derive(Debug, Clone, Copy, PartialEq, Eq, Structural, Hash)]
pub enum Source {
    /// An integer constant.
    Constant(Word),
    /// The null pointer.
    Null,
    /// The result of the instruction at place `index` of `block`.
    Instruction { block: BasicBlock, index: usize },
}

/// An integer value.
#[derive(Debug, Clone, Copy, PartialEq, Eq, Structural, Hash)]
pub struct IntValue {
    /// The type of the value.
    pub ty: IntType,
    /// Where the value comes from.
    pub source: Source,
}

/// A pointer value.
#[derive(Debug, Clone, Copy, PartialEq, Eq, Structural, Hash)]
pub struct PointerValue {
    /// The type of the value.
    pub ty: PointerType,
    /// Where the value comes from.
    pub source: Source,
}

/// A structure value.
#[derive(Debug, Clone, Copy, PartialEq, Eq, Structural, Hash)]
pub struct StructValue {
    /// The type of the value.
    pub ty: StructType,
    /// Where the value comes from.
    pub source: Source,
}

/// A value of any type that a value can have.
#[derive(Debug, Clone, Copy, PartialEq, Eq, Structural, Hash)]
pub enum BasicValueEnum {
    /// An integer value.
    IntValue(IntValue),
    /// A pointer value.
    PointerValue(PointerValue),
    /// A structure value.
    StructValue(StructValue),
}

/// A function that can be called.
#[derive(Debug, Clone, Copy, PartialEq, Eq, Structural, Hash)]
pub enum FunctionValue {
    /// The function at place `index` of the module.
    Declared { index: usize },
    /// An operation of the target machine.
    Intrinsic(Intrinsic),
}

impl IntValue {
    /// The value as a value of any type.
    pub fn as_basic_value_enum(self) -> (result: BasicValueEnum)
        ensures
            result == BasicValueEnum::IntValue(self),
    {
        BasicValueEnum::IntValue(self)
    }
}

impl PointerValue {
    /// The value as a value of any type.
    pub fn as_basic_value_enum(self) -> (result: BasicValueEnum)
        ensures
            result == BasicValueEnum::PointerValue(self),
    {
        BasicValueEnum::PointerValue(self)
    }

    /// The type of the pointer.
    pub fn get_type(self) -> (result: PointerType)
        ensures
            result == self.ty,
    {
        self.ty
    }
}

impl BasicValueEnum {
    /// The value that the instruction at place `index` of `block` gives, when its result has
    /// type `ty`.
    pub open spec fn spec_of_instruction(
        ty: BasicTypeEnum,
        block: BasicBlock,
        index: usize,
    ) -> BasicValueEnum {
        let source = Source::Instruction { block, index };
        match ty {
            BasicTypeEnum::IntType(ty) => BasicValueEnum::IntValue(IntValue { ty, source }),
            BasicTypeEnum::PointerType(ty) => BasicValueEnum::PointerValue(
                PointerValue { ty, source },
            ),
            BasicTypeEnum::StructType(ty) => BasicValueEnum::StructValue(
                StructValue { ty, source },
            ),
        }
    }

    /// The value that the instruction at place `index` of `block` gives, when its result has
    /// type `ty`.
    #[verifier::when_used_as_spec(spec_of_instruction)]
    pub fn of_instruction(ty: BasicTypeEnum, block: BasicBlock, index: usize) -> (result:
        BasicValueEnum)
        ensures
            result == BasicValueEnum::spec_of_instruction(ty, block, index),
    {
        let source = Source::Instruction { block, index };
        match ty {
            BasicTypeEnum::IntType(ty) => BasicValueEnum::IntValue(IntValue { ty, source }),
            BasicTypeEnum::PointerType(ty) => BasicValueEnum::PointerValue(
                PointerValue { ty, source },
            ),
            BasicTypeEnum::StructType(ty) => BasicValueEnum::StructValue(
                StructValue { ty, source },
            ),
        }
    }

    /// Whether the value is an integer.
    pub open spec fn spec_is_int_value(self) -> bool {
        self is IntValue
    }

    /// Whether the value is an integer.
    #[verifier::when_used_as_spec(spec_is_int_value)]
    pub fn is_int_value(self) -> (result: bool)
        ensures
            result == self.spec_is_int_value(),
    {
        match self {
            BasicValueEnum::IntValue(_) => true,
            _ => false,
        }
    }

    /// Whether the value is a pointer.
    pub open spec fn spec_is_pointer_value(self) -> bool {
        self is PointerValue
    }

    /// Whether the value is a pointer.
    #[verifier::when_used_as_spec(spec_is_pointer_value)]
    pub fn is_pointer_value(self) -> (result: bool)
        ensures
            result == self.spec_is_pointer_value(),
    {
        match self {
            BasicValueEnum::PointerValue(_) => true,
            _ => false,
        }
    }

    /// The integer that the value is.
    pub open spec fn spec_into_int_value(self) -> IntValue
        recommends
            self is IntValue,
    {
        self->IntValue_0
    }

    /// The integer that the value is.
    #[verifier::when_used_as_spec(spec_into_int_value)]
    pub fn into_int_value(self) -> (result: IntValue)
        requires
            self is IntValue,
        ensures
            result == self.spec_into_int_value(),
    {
        match self {
            BasicValueEnum::IntValue(value) => value,
            _ => vstd::pervasive::unreached(),
        }
    }

    /// The pointer that the value is.
    pub open spec fn spec_into_pointer_value(self) -> PointerValue
        recommends
            self is PointerValue,
    {
        self->PointerValue_0
    }

    /// The pointer that the value is.
    #[verifier::when_used_as_spec(spec_into_pointer_value)]
    pub fn into_pointer_value(self) -> (result: PointerValue)
        requires
            self is PointerValue,
        ensures
            result == self.spec_into_pointer_value(),
    {
        match self {
            BasicValueEnum::PointerValue(value) => value,
            _ => vstd::pervasive::unreached(),
        }
    }

    /// The type of the value.
    pub open spec fn spec_get_type(self) -> BasicTypeEnum {
        match self {
            BasicValueEnum::IntValue(value) => BasicTypeEnum::IntType(value.ty),
            BasicValueEnum::PointerValue(value) => BasicTypeEnum::PointerType(value.ty),
            BasicValueEnum::StructValue(value) => BasicTypeEnum::StructType(value.ty),
        }
    }

    /// The type of the value.
    #[verifier::when_used_as_spec(spec_get_type)]
    pub fn get_type(self) -> (result: BasicTypeEnum)
        ensures
            result == self.spec_get_type(),
    {
        match self {
            BasicValueEnum::IntValue(value) => BasicTypeEnum::IntType(value.ty),
            BasicValueEnum::PointerValue(value) => BasicTypeEnum::PointerType(value.ty),
            BasicValueEnum::StructValue(value) => BasicTypeEnum::StructType(value.ty),
        }
    }
}

} // verus!
