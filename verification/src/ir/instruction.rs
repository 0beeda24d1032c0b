//! The instructions of the IR.

use vstd::prelude::*;

use crate::abi::BITLENGTH_BOOLEAN;
use crate::abi::BITLENGTH_FIELD;
use crate::abi::SIZE_FIELD;
use crate::context::address_space::AddressSpace;
use crate::context::function::intrinsic::Intrinsic;
use crate::ir::types::BasicTypeEnum;
use crate::ir::types::IntType;
use crate::ir::types::Pointee;
use crate::ir::types::PointerType;
use crate::ir::types::StructType;
use crate::ir::value::BasicBlock;
use crate::ir::value::BasicValueEnum;
use crate::ir::value::FunctionValue;
use crate::ir::value::IntValue;
use crate::ir::value::PointerValue;
use crate::ir::value::Source;
use crate::word::Word;

verus! {

/// An operation on two integers.
#[derive(Debug, Clone, Copy, PartialEq, Eq, Structural, Hash)]
pub enum BinaryOperation {
    /// The sum.
    Add,
    /// The difference.
    Sub,
    /// The product.
    Mul,
    /// The bitwise conjunction.
    And,
    /// The bitwise disjunction.
    Or,
    /// The shift to the left.
    ShiftLeft,
}

/// A comparison of two integers.
#[derive(Debug, Clone, Copy, PartialEq, Eq, Structural, Hash)]
pub enum IntPredicate {
    /// Equal.
    EQ,
    /// Not equal.
    NE,
    /// Unsigned greater than.
    UGT,
    /// Unsigned greater than or equal.
    UGE,
    /// Unsigned less than.
    ULT,
    /// Unsigned less than or equal.
    ULE,
    /// Signed greater than.
    SGT,
    /// Signed greater than or equal.
    SGE,
    /// Signed less than.
    SLT,
    /// Signed less than or equal.
    SLE,
}

/// The kind of an instruction.
#[derive(Debug, Clone, Copy, PartialEq, Eq, Structural, Hash)]
pub enum InstructionOpcode {
    /// A stack allocation.
    Alloca,
    /// A store.
    Store,
    /// A load.
    Load,
    /// A conversion of an integer to a pointer.
    IntToPtr,
    /// An addition.
    Add,
    /// A subtraction.
    Sub,
    /// A multiplication.
    Mul,
    /// A bitwise conjunction.
    And,
    /// A bitwise disjunction.
    Or,
    /// A shift to the left.
    Shl,
    /// An integer comparison.
    ICmp,
    /// A call.
    Call,
    /// A call with an exceptional edge.
    Invoke,
    /// A landing pad.
    LandingPad,
    /// A branch, conditional or not.
    Br,
    /// A switch.
    Switch,
    /// A return.
    Return,
    /// An unreachable.
    Unreachable,
}

/// An instruction. One that gives a value is referred to by its place in its block.
#[allow(inconsistent_fields)]
#[derive(Debug, Clone, PartialEq, Eq)]
pub enum Instruction {
    /// Allocates a value of type `ty` on the stack.
    Alloca { ty: Pointee, alignment: u32, name: String },
    /// Stores `value` at `pointer`.
    Store { pointer: PointerValue, value: BasicValueEnum, alignment: u32 },
    /// Loads the value at `pointer`.
    Load { pointer: PointerValue, alignment: u32, name: String },
    /// Converts the integer `value` to a pointer of type `ty`.
    IntToPtr { value: IntValue, ty: PointerType, name: String },
    /// Applies `operation` to `left` and `right`.
    Binary { operation: BinaryOperation, left: IntValue, right: IntValue, name: String },
    /// Compares `left` and `right`.
    Compare { predicate: IntPredicate, left: IntValue, right: IntValue, name: String },
    /// Calls `function`. An alignment is attached to a parameter where the entry at its place
    /// holds one, and to the result where `return_alignment` holds one.
    Call {
        function: FunctionValue,
        arguments: Vec<BasicValueEnum>,
        parameter_alignments: Vec<Option<u32>>,
        return_alignment: Option<u32>,
        name: String,
    },
    /// Calls `function`, and goes on in `then_block`, or in `catch_block` if the call raises.
    Invoke {
        function: FunctionValue,
        arguments: Vec<BasicValueEnum>,
        then_block: BasicBlock,
        catch_block: BasicBlock,
        parameter_alignments: Vec<Option<u32>>,
        return_alignment: Option<u32>,
        name: String,
    },
    /// Receives what a call has raised.
    LandingPad {
        ty: StructType,
        personality: FunctionValue,
        clauses: Vec<BasicValueEnum>,
        name: String,
    },
    /// Goes on in `destination`.
    Branch { destination: BasicBlock },
    /// Goes on in `then_block` if `comparison` holds, and in `else_block` otherwise.
    ConditionalBranch { comparison: IntValue, then_block: BasicBlock, else_block: BasicBlock },
    /// Goes on in the block of the case that `value` equals, or in `else_block`.
    Switch { value: IntValue, else_block: BasicBlock, cases: Vec<(IntValue, BasicBlock)> },
    /// Returns from the function.
    Return { value: Option<BasicValueEnum> },
    /// Marks a place that control never reaches.
    Unreachable,
}

/// An instruction as a mathematical value.
#[allow(inconsistent_fields)]
pub enum InstructionView {
    /// Allocates a value of type `ty` on the stack.
    Alloca { ty: Pointee, alignment: u32, name: Seq<char> },
    /// Stores `value` at `pointer`.
    Store { pointer: PointerValue, value: BasicValueEnum, alignment: u32 },
    /// Loads the value at `pointer`.
    Load { pointer: PointerValue, alignment: u32, name: Seq<char> },
    /// Converts the integer `value` to a pointer of type `ty`.
    IntToPtr { value: IntValue, ty: PointerType, name: Seq<char> },
    /// Applies `operation` to `left` and `right`.
    Binary { operation: BinaryOperation, left: IntValue, right: IntValue, name: Seq<char> },
    /// Compares `left` and `right`.
    Compare { predicate: IntPredicate, left: IntValue, right: IntValue, name: Seq<char> },
    /// Calls `function`.
    Call {
        function: FunctionValue,
        arguments: Seq<BasicValueEnum>,
        parameter_alignments: Seq<Option<u32>>,
        return_alignment: Option<u32>,
        name: Seq<char>,
    },
    /// Calls `function`, and goes on in `then_block`, or in `catch_block` if the call raises.
    Invoke {
        function: FunctionValue,
        arguments: Seq<BasicValueEnum>,
        then_block: BasicBlock,
        catch_block: BasicBlock,
        parameter_alignments: Seq<Option<u32>>,
        return_alignment: Option<u32>,
        name: Seq<char>,
    },
    /// Receives what a call has raised.
    LandingPad {
        ty: StructType,
        personality: FunctionValue,
        clauses: Seq<BasicValueEnum>,
        name: Seq<char>,
    },
    /// Goes on in `destination`.
    Branch { destination: BasicBlock },
    /// Goes on in `then_block` if `comparison` holds, and in `else_block` otherwise.
    ConditionalBranch { comparison: IntValue, then_block: BasicBlock, else_block: BasicBlock },
    /// Goes on in the block of the case that `value` equals, or in `else_block`.
    Switch { value: IntValue, else_block: BasicBlock, cases: Seq<(IntValue, BasicBlock)> },
    /// Returns from the function.
    Return { value: Option<BasicValueEnum> },
    /// Marks a place that control never reaches.
    Unreachable,
}

impl View for Instruction {
    type V = InstructionView;

    open spec fn view(&self) -> InstructionView {
        match *self {
            Instruction::Alloca { ty, alignment, name } => InstructionView::Alloca {
                ty,
                alignment,
                name: name@,
            },
            Instruction::Store { pointer, value, alignment } => InstructionView::Store {
                pointer,
                value,
                alignment,
            },
            Instruction::Load { pointer, alignment, name } => InstructionView::Load {
                pointer,
                alignment,
                name: name@,
            },
            Instruction::IntToPtr { value, ty, name } => InstructionView::IntToPtr {
                value,
                ty,
                name: name@,
            },
            Instruction::Binary { operation, left, right, name } => InstructionView::Binary {
                operation,
                left,
                right,
                name: name@,
            },
            Instruction::Compare { predicate, left, right, name } => InstructionView::Compare {
                predicate,
                left,
                right,
                name: name@,
            },
            Instruction::Call {
                function,
                arguments,
                parameter_alignments,
                return_alignment,
                name,
            } => InstructionView::Call {
                function,
                arguments: arguments@,
                parameter_alignments: parameter_alignments@,
                return_alignment,
                name: name@,
            },
            Instruction::Invoke {
                function,
                arguments,
                then_block,
                catch_block,
                parameter_alignments,
                return_alignment,
                name,
            } => InstructionView::Invoke {
                function,
                arguments: arguments@,
                then_block,
                catch_block,
                parameter_alignments: parameter_alignments@,
                return_alignment,
                name: name@,
            },
            Instruction::LandingPad { ty, personality, clauses, name } => InstructionView::LandingPad {
                ty,
                personality,
                clauses: clauses@,
                name: name@,
            },
            Instruction::Branch { destination } => InstructionView::Branch { destination },
            Instruction::ConditionalBranch {
                comparison,
                then_block,
                else_block,
            } => InstructionView::ConditionalBranch { comparison, then_block, else_block },
            Instruction::Switch { value, else_block, cases } => InstructionView::Switch {
                value,
                else_block,
                cases: cases@,
            },
            Instruction::Return { value } => InstructionView::Return { value },
            Instruction::Unreachable => InstructionView::Unreachable,
        }
    }
}

impl BinaryOperation {
    /// The kind of the instruction that applies the operation.
    pub open spec fn spec_opcode(self) -> InstructionOpcode {
        match self {
            BinaryOperation::Add => InstructionOpcode::Add,
            BinaryOperation::Sub => InstructionOpcode::Sub,
            BinaryOperation::Mul => InstructionOpcode::Mul,
            BinaryOperation::And => InstructionOpcode::And,
            BinaryOperation::Or => InstructionOpcode::Or,
            BinaryOperation::ShiftLeft => InstructionOpcode::Shl,
        }
    }

    /// The kind of the instruction that applies the operation.
    #[verifier::when_used_as_spec(spec_opcode)]
    pub fn opcode(self) -> (result: InstructionOpcode)
        ensures
            result == self.spec_opcode(),
    {
        match self {
            BinaryOperation::Add => InstructionOpcode::Add,
            BinaryOperation::Sub => InstructionOpcode::Sub,
            BinaryOperation::Mul => InstructionOpcode::Mul,
            BinaryOperation::And => InstructionOpcode::And,
            BinaryOperation::Or => InstructionOpcode::Or,
            BinaryOperation::ShiftLeft => InstructionOpcode::Shl,
        }
    }
}

impl InstructionOpcode {
    /// Whether an instruction of this kind ends a block.
    pub open spec fn spec_is_terminator(self) -> bool {
        self is Invoke || self is Br || self is Switch || self is Return || self is Unreachable
    }

    /// Whether an instruction of this kind ends a block.
    #[verifier::when_used_as_spec(spec_is_terminator)]
    pub fn is_terminator(self) -> (result: bool)
        ensures
            result == self.spec_is_terminator(),
    {
        match self {
            InstructionOpcode::Invoke
            | InstructionOpcode::Br
            | InstructionOpcode::Switch
            | InstructionOpcode::Return
            | InstructionOpcode::Unreachable => true,
            _ => false,
        }
    }
}

impl InstructionView {
    /// The kind of the instruction.
    pub open spec fn opcode(self) -> InstructionOpcode {
        match self {
            InstructionView::Alloca { .. } => InstructionOpcode::Alloca,
            InstructionView::Store { .. } => InstructionOpcode::Store,
            InstructionView::Load { .. } => InstructionOpcode::Load,
            InstructionView::IntToPtr { .. } => InstructionOpcode::IntToPtr,
            InstructionView::Binary { operation, .. } => operation.spec_opcode(),
            InstructionView::Compare { .. } => InstructionOpcode::ICmp,
            InstructionView::Call { .. } => InstructionOpcode::Call,
            InstructionView::Invoke { .. } => InstructionOpcode::Invoke,
            InstructionView::LandingPad { .. } => InstructionOpcode::LandingPad,
            InstructionView::Branch { .. } => InstructionOpcode::Br,
            InstructionView::ConditionalBranch { .. } => InstructionOpcode::Br,
            InstructionView::Switch { .. } => InstructionOpcode::Switch,
            InstructionView::Return { .. } => InstructionOpcode::Return,
            InstructionView::Unreachable => InstructionOpcode::Unreachable,
        }
    }

    /// Whether the instruction ends a block.
    pub open spec fn is_terminator(self) -> bool {
        self.opcode().spec_is_terminator()
    }
}

impl Instruction {
    /// The kind of the instruction.
    pub fn get_opcode(&self) -> (result: InstructionOpcode)
        ensures
            result == self@.opcode(),
    {
        match self {
            Instruction::Alloca { .. } => InstructionOpcode::Alloca,
            Instruction::Store { .. } => InstructionOpcode::Store,
            Instruction::Load { .. } => InstructionOpcode::Load,
            Instruction::IntToPtr { .. } => InstructionOpcode::IntToPtr,
            Instruction::Binary { operation, .. } => operation.opcode(),
            Instruction::Compare { .. } => InstructionOpcode::ICmp,
            Instruction::Call { .. } => InstructionOpcode::Call,
            Instruction::Invoke { .. } => InstructionOpcode::Invoke,
            Instruction::LandingPad { .. } => InstructionOpcode::LandingPad,
            Instruction::Branch { .. } => InstructionOpcode::Br,
            Instruction::ConditionalBranch { .. } => InstructionOpcode::Br,
            Instruction::Switch { .. } => InstructionOpcode::Switch,
            Instruction::Return { .. } => InstructionOpcode::Return,
            Instruction::Unreachable => InstructionOpcode::Unreachable,
        }
    }

    /// Whether the instruction ends a block.
    pub fn is_terminator(&self) -> (result: bool)
        ensures
            result == self@.is_terminator(),
    {
        self.get_opcode().is_terminator()
    }
}

/// The integer that the instruction at place `index` of `block` gives.
pub open spec fn int_result(ty: IntType, block: BasicBlock, index: int) -> IntValue {
    IntValue { ty, source: Source::Instruction { block, index: index as usize } }
}

/// The pointer that the instruction at place `index` of `block` gives.
pub open spec fn pointer_result(ty: PointerType, block: BasicBlock, index: int) -> PointerValue {
    PointerValue { ty, source: Source::Instruction { block, index: index as usize } }
}

/// The type of the pointers to machine words in the given address space.
pub open spec fn field_pointer_type(address_space: AddressSpace) -> PointerType {
    PointerType { pointee: Pointee::Int(IntType { bit_length: BITLENGTH_FIELD }), address_space }
}

/// The alignments that a call attaches to its parameters: the size of the word for each
/// parameter of a pointer type, and none for the others.
pub open spec fn pointer_alignments(parameter_types: Seq<BasicTypeEnum>) -> Seq<Option<u32>> {
    Seq::new(
        parameter_types.len(),
        |i: int|
            if parameter_types[i] is PointerType {
                Some(SIZE_FIELD as u32)
            } else {
                None
            },
    )
}

/// The alignment that a call attaches to its result: the size of the word for a pointer, and
/// none otherwise.
pub open spec fn result_alignment(return_type: Option<BasicTypeEnum>) -> Option<u32> {
    match return_type {
        Some(BasicTypeEnum::PointerType(_)) => Some(SIZE_FIELD as u32),
        _ => None,
    }
}

impl InstructionView {
    /// The stack allocation of a value of type `ty`, aligned to the word.
    pub open spec fn alloca(ty: Pointee, name: Seq<char>) -> InstructionView {
        InstructionView::Alloca { ty, alignment: SIZE_FIELD as u32, name }
    }

    /// The store of `value` at `pointer`, with the alignment of the pointer's address space.
    pub open spec fn store(pointer: PointerValue, value: BasicValueEnum) -> InstructionView {
        InstructionView::Store {
            pointer,
            value,
            alignment: pointer.ty.address_space.spec_alignment(),
        }
    }

    /// The load of the value at `pointer`, with the alignment of the pointer's address space.
    pub open spec fn load(pointer: PointerValue, name: Seq<char>) -> InstructionView {
        InstructionView::Load {
            pointer,
            alignment: pointer.ty.address_space.spec_alignment(),
            name,
        }
    }

    /// The conversion of `offset` to a pointer to a machine word in the given address space.
    pub open spec fn access(
        offset: IntValue,
        address_space: AddressSpace,
        name: Seq<char>,
    ) -> InstructionView {
        InstructionView::IntToPtr { value: offset, ty: field_pointer_type(address_space), name }
    }

    /// The call of a function with the given parameter and return types, as `build_call`
    /// emits it: an alignment is attached to every pointer that crosses the call, unless the
    /// function called is the throw primitive, `cxa_throw`.
    pub open spec fn call(
        parameter_types: Seq<BasicTypeEnum>,
        return_type: Option<BasicTypeEnum>,
        function: FunctionValue,
        arguments: Seq<BasicValueEnum>,
        name: Seq<char>,
        cxa_throw: FunctionValue,
    ) -> InstructionView {
        if function == cxa_throw {
            InstructionView::Call {
                function,
                arguments,
                parameter_alignments: seq![],
                return_alignment: None,
                name,
            }
        } else {
            InstructionView::Call {
                function,
                arguments,
                parameter_alignments: pointer_alignments(parameter_types),
                return_alignment: result_alignment(return_type),
                name,
            }
        }
    }

    /// The call of an operation of the target machine, as `build_call` emits it: an
    /// alignment is attached to every pointer that crosses the call.
    pub open spec fn call_intrinsic(
        intrinsic: Intrinsic,
        arguments: Seq<BasicValueEnum>,
        name: Seq<char>,
    ) -> InstructionView {
        InstructionView::Call {
            function: FunctionValue::Intrinsic(intrinsic),
            arguments,
            parameter_alignments: pointer_alignments(intrinsic.spec_parameter_types()),
            return_alignment: result_alignment(intrinsic.spec_return_type()),
            name,
        }
    }

    /// The invoke of a function with the given parameter and return types: an alignment is
    /// attached to every pointer that crosses the call.
    pub open spec fn invoke(
        parameter_types: Seq<BasicTypeEnum>,
        return_type: Option<BasicTypeEnum>,
        function: FunctionValue,
        arguments: Seq<BasicValueEnum>,
        then_block: BasicBlock,
        catch_block: BasicBlock,
        name: Seq<char>,
    ) -> InstructionView {
        InstructionView::Invoke {
            function,
            arguments,
            then_block,
            catch_block,
            parameter_alignments: pointer_alignments(parameter_types),
            return_alignment: result_alignment(return_type),
            name,
        }
    }

    /// The call of a memory copy: the pointers are aligned to one byte, and the copy is not
    /// volatile.
    pub open spec fn memcpy(
        intrinsic: Intrinsic,
        destination: PointerValue,
        source: PointerValue,
        size: IntValue,
        name: Seq<char>,
    ) -> InstructionView {
        InstructionView::Call {
            function: FunctionValue::Intrinsic(intrinsic),
            arguments: seq![
                BasicValueEnum::PointerValue(destination),
                BasicValueEnum::PointerValue(source),
                BasicValueEnum::IntValue(size),
                BasicValueEnum::IntValue(
                    IntValue {
                        ty: IntType { bit_length: BITLENGTH_BOOLEAN },
                        source: Source::Constant(Word { limb3: 0, limb2: 0, limb1: 0, limb0: 0 }),
                    },
                ),
            ],
            parameter_alignments: seq![Some(1u32), Some(1u32)],
            return_alignment: None,
            name,
        }
    }

    /// Whether the instruction has the alignment that its kind asks for: a load or a store
    /// that of the address space of its pointer, a stack allocation that of the word.
    pub open spec fn is_aligned(self) -> bool {
        match self {
            InstructionView::Alloca { alignment, .. } => alignment == SIZE_FIELD as u32,
            InstructionView::Store { pointer, alignment, .. } => alignment
                == pointer.ty.address_space.spec_alignment(),
            InstructionView::Load { pointer, alignment, .. } => alignment
                == pointer.ty.address_space.spec_alignment(),
            _ => true,
        }
    }
}

} // verus!
