//! The emission of instructions at the insertion point.

use vstd::prelude::*;

use crate::Dependency;
use crate::abi::ABI_MEMORY_OFFSET_DATA;
use crate::abi::ABI_MEMORY_OFFSET_HEADER;
use crate::abi::BITLENGTH_BOOLEAN;
use crate::abi::BITLENGTH_BYTE;
use crate::abi::BITLENGTH_X32;
use crate::abi::LLVM_FUNCTION_CXA_THROW;
use crate::abi::SIZE_FIELD;
use crate::abi::SIZE_X32;
use crate::context::Context;
use crate::context::ContextView;
use crate::context::address_space::AddressSpace;
use crate::context::function::intrinsic::Intrinsic as IntrinsicFunction;
use crate::context::literal::data_offset;
use crate::context::literal::field_const;
use crate::context::literal::field_type;
use crate::context::literal::header_offset;
use crate::context::literal::long_return_offset;
use crate::context::view::lemma_emit;
use crate::context::view::lemma_emit_emit;
use crate::error::Error;
use crate::ir::instruction::BinaryOperation;
use crate::ir::instruction::Instruction;
use crate::ir::instruction::InstructionView;
use crate::ir::instruction::IntPredicate;
use crate::ir::instruction::field_pointer_type;
use crate::ir::instruction::int_result;
use crate::ir::instruction::pointer_result;
use crate::ir::types::BasicTypeEnum;
use crate::ir::types::IntType;
use crate::ir::types::Pointee;
use crate::ir::types::PointerType;
use crate::ir::types::StructType;
use crate::ir::value::BasicBlock;
use crate::ir::value::BasicValueEnum;
use crate::ir::value::FunctionValue;
use crate::ir::value::IntValue;
use crate::ir::value::PointerValue;
use crate::ir::value::Source;

verus! {

/// The null pointer to a byte on the stack.
pub open spec fn null_byte_pointer() -> BasicValueEnum {
    BasicValueEnum::PointerValue(
        PointerValue { ty: crate::context::function::runtime::byte_pointer(), source: Source::Null },
    )
}

/// The instructions that read the header of a foreign memory, when they are emitted at place
/// `next` of `block`.
pub open spec fn read_header_code(
    block: BasicBlock,
    next: int,
    address_space: AddressSpace,
) -> Seq<InstructionView> {
    seq![
        InstructionView::access(header_offset(), address_space, "header_pointer"@),
        InstructionView::load(
            pointer_result(field_pointer_type(address_space), block, next),
            "header_value"@,
        ),
    ]
}

/// The instructions that write the header of a foreign memory, when they are emitted at
/// place `next` of `block`.
pub open spec fn write_header_code(
    block: BasicBlock,
    next: int,
    header: IntValue,
    address_space: AddressSpace,
) -> Seq<InstructionView> {
    seq![
        InstructionView::access(header_offset(), address_space, "header_pointer"@),
        InstructionView::store(
            pointer_result(field_pointer_type(address_space), block, next),
            BasicValueEnum::IntValue(header),
        ),
    ]
}

/// The code of an error: the first four bytes of the hash of its message, as a number.
pub open spec fn error_code(message: Seq<char>) -> IntValue {
    field_const(crate::hash::keccak256_selector(vstd::utf8::encode_utf8(message)) as u64)
}

/// The instructions that report an error to the caller, when they are emitted at place
/// `next` of `block`: the header of the parent memory takes the length of an error code, and
/// the data of the parent memory takes the code, shifted into the high bytes of a word.
pub open spec fn write_error_code(block: BasicBlock, next: int, message: Seq<char>) -> Seq<
    InstructionView,
> {
    write_header_code(block, next, field_const(SIZE_X32 as u64), AddressSpace::Parent) + seq![
        InstructionView::Binary {
            operation: BinaryOperation::ShiftLeft,
            left: error_code(message),
            right: field_const((BITLENGTH_BYTE * (SIZE_FIELD - SIZE_X32)) as u64),
            name: "error_code_shifted"@,
        },
        InstructionView::access(
            data_offset(),
            AddressSpace::Parent,
            "parent_error_code_pointer"@,
        ),
        InstructionView::store(
            pointer_result(field_pointer_type(AddressSpace::Parent), block, next + 3),
            BasicValueEnum::IntValue(int_result(field_type(), block, next + 2)),
        ),
    ]
}

/// The instructions that test the long return flag, when they are emitted at place `next` of
/// `block`: they go on in `return_block` if the flag is set, and in `else_block` otherwise.
pub open spec fn long_return_check_code(
    block: BasicBlock,
    next: int,
    return_block: BasicBlock,
    else_block: BasicBlock,
) -> Seq<InstructionView> {
    seq![
        InstructionView::access(
            long_return_offset(),
            AddressSpace::Heap,
            "long_return_flag_pointer"@,
        ),
        InstructionView::load(
            pointer_result(field_pointer_type(AddressSpace::Heap), block, next),
            "long_return_flag"@,
        ),
        InstructionView::Compare {
            predicate: IntPredicate::EQ,
            left: int_result(field_type(), block, next + 1),
            right: field_const(1),
            name: "is_long_return_flag_set"@,
        },
        InstructionView::ConditionalBranch {
            comparison: int_result(IntType { bit_length: BITLENGTH_BOOLEAN }, block, next + 2),
            then_block: return_block,
            else_block,
        },
    ]
}

/// The instructions that raise again: a call of the throw primitive without arguments of
/// substance, and an unreachable.
pub open spec fn rethrow_code(cxa_throw: FunctionValue) -> Seq<InstructionView> {
    seq![
        InstructionView::Call {
            function: cxa_throw,
            arguments: seq![null_byte_pointer(), null_byte_pointer(), null_byte_pointer()],
            parameter_alignments: seq![],
            return_alignment: None,
            name: LLVM_FUNCTION_CXA_THROW@,
        },
        InstructionView::Unreachable,
    ]
}

/// The landing pad that opens a catch block.
pub open spec fn landing_pad(ty: StructType, personality: FunctionValue) -> InstructionView {
    InstructionView::LandingPad {
        ty,
        personality,
        clauses: seq![null_byte_pointer()],
        name: "landing"@,
    }
}

/// The fields of the structure that a landing pad gives: a pointer to a byte and a 32-bit
/// number.
pub open spec fn landing_pad_fields() -> Seq<BasicTypeEnum> {
    seq![
        BasicTypeEnum::PointerType(crate::context::function::runtime::byte_pointer()),
        BasicTypeEnum::IntType(IntType { bit_length: BITLENGTH_X32 }),
    ]
}

impl<D> ContextView<D> {
    /// The context after the test of the long return flag has been emitted at the insertion
    /// point: the current function has one more block, for the case that the flag is not
    /// set, and the insertion point is there.
    pub open spec fn long_return_check(self) -> Self
        recommends
            self.function is Some,
            self.position is Some,
    {
        self.with_block("no_long_return_block"@).emit(
            long_return_check_code(
                self.here(),
                self.next(),
                self.function->0.return_block,
                self.new_block(),
            ),
        ).at(self.new_block())
    }

    /// The context after the throw block of the current function has been built.
    pub open spec fn throw_block(self, is_upper_level: bool) -> Self
        recommends
            self.function is Some,
    {
        let start = self.at(self.function->0.throw_block);
        let checked = if is_upper_level {
            start.long_return_check()
        } else {
            start
        };
        checked.emit(rethrow_code(self.runtime.cxa_throw))
    }

    /// The context after the catch block of the current function has been built.
    pub open spec fn catch_block(self, handles_long_return: bool) -> Self
        recommends
            self.function is Some,
    {
        let start = self.at(self.function->0.catch_block).with_structure(landing_pad_fields()).emit(
            seq![
                landing_pad(
                    StructType { index: self.module.structures.len() as usize },
                    self.runtime.personality,
                ),
            ],
        );
        let checked = if handles_long_return {
            start.long_return_check()
        } else {
            start
        };
        checked.emit(rethrow_code(self.runtime.cxa_throw))
    }

    /// The context after an invoke has been emitted at the insertion point: the current
    /// function has one more block, where the invoke goes on unless the call raises, and the
    /// insertion point is there.
    pub open spec fn invoke(
        self,
        function: FunctionValue,
        arguments: Seq<BasicValueEnum>,
        name: Seq<char>,
    ) -> Self
        recommends
            self.function is Some,
            self.position is Some,
    {
        self.with_block("join"@).emit(
            seq![
                InstructionView::invoke(
                    self.module.parameter_types(function),
                    self.module.return_type(function),
                    function,
                    arguments,
                    self.new_block(),
                    self.function->0.catch_block,
                    name,
                ),
            ],
        ).at(self.new_block())
    }
}

impl<D: Dependency> Context<D> {
    /// Emits an instruction at the insertion point, and returns its place in the block.
    fn emit(&mut self, instruction: Instruction) -> (index: usize)
        requires
            old(self)@.wf(),
            old(self)@.position is Some,
            instruction@.is_aligned(),
        ensures
            final(self)@ == old(self)@.emit(seq![instruction@]),
            final(self)@.wf(),
            index == old(self)@.next(),
    {
        let block = self.basic_block();
        let index = self.module.block_length(block);
        self.module.push(block, instruction);
        proof {
            lemma_emit(old(self)@, seq![instruction@]);
        }
        index
    }

    /// Builds a stack allocation instruction.
    ///
    /// Sets the alignment to that of the word, 32 bytes.
    pub fn build_alloca(&mut self, ty: Pointee, name: &str) -> (result: PointerValue)
        requires
            old(self)@.wf(),
            old(self)@.position is Some,
        ensures
            final(self)@ == old(self)@.emit(seq![InstructionView::alloca(ty, name@)]),
            final(self)@.wf(),
            result == pointer_result(
                PointerType { pointee: ty, address_space: AddressSpace::Stack },
                old(self)@.here(),
                old(self)@.next(),
            ),
    {
        let block = self.basic_block();
        let index = self.emit(
            Instruction::Alloca { ty, alignment: SIZE_FIELD as u32, name: name.to_owned() },
        );
        PointerValue {
            ty: PointerType { pointee: ty, address_space: AddressSpace::Stack },
            source: Source::Instruction { block, index },
        }
    }

    /// Builds a store instruction.
    ///
    /// Sets the alignment to that of the word for the stack, and to 1 byte for the heap and
    /// the memories shared with the caller and the callee.
    pub fn build_store(&mut self, pointer: PointerValue, value: BasicValueEnum)
        requires
            old(self)@.wf(),
            old(self)@.position is Some,
        ensures
            final(self)@ == old(self)@.emit(seq![InstructionView::store(pointer, value)]),
            final(self)@.wf(),
    {
        let alignment = pointer.get_type().address_space.alignment();
        let _ = self.emit(Instruction::Store { pointer, value, alignment });
    }

    /// Builds a load instruction.
    ///
    /// Sets the alignment to that of the word for the stack, and to 1 byte for the heap and
    /// the memories shared with the caller and the callee.
    pub fn build_load(&mut self, pointer: PointerValue, name: &str) -> (result: BasicValueEnum)
        requires
            old(self)@.wf(),
            old(self)@.position is Some,
        ensures
            final(self)@ == old(self)@.emit(seq![InstructionView::load(pointer, name@)]),
            final(self)@.wf(),
            result == BasicValueEnum::spec_of_instruction(
                pointer.ty.spec_element_type(),
                old(self)@.here(),
                old(self)@.next() as usize,
            ),
    {
        let block = self.basic_block();
        let alignment = pointer.get_type().address_space.alignment();
        let index = self.emit(Instruction::Load { pointer, alignment, name: name.to_owned() });
        BasicValueEnum::of_instruction(pointer.get_type().element_type(), block, index)
    }

    /// Returns the memory pointer to `address_space` at `offset` bytes.
    pub fn access_memory(&mut self, offset: IntValue, address_space: AddressSpace, name: &str) -> (result:
        PointerValue)
        requires
            old(self)@.wf(),
            old(self)@.position is Some,
        ensures
            final(self)@ == old(self)@.emit(
                seq![InstructionView::access(offset, address_space, name@)],
            ),
            final(self)@.wf(),
            result == pointer_result(
                field_pointer_type(address_space),
                old(self)@.here(),
                old(self)@.next(),
            ),
    {
        let block = self.basic_block();
        let ty = self.field_type().ptr_type(address_space);
        let index = self.emit(Instruction::IntToPtr { value: offset, ty, name: name.to_owned() });
        PointerValue { ty, source: Source::Instruction { block, index } }
    }

    /// Builds an operation on two integers.
    pub fn build_binary(
        &mut self,
        operation: BinaryOperation,
        left: IntValue,
        right: IntValue,
        name: &str,
    ) -> (result: IntValue)
        requires
            old(self)@.wf(),
            old(self)@.position is Some,
        ensures
            final(self)@ == old(self)@.emit(
                seq![InstructionView::Binary { operation, left, right, name: name@ }],
            ),
            final(self)@.wf(),
            result == int_result(left.ty, old(self)@.here(), old(self)@.next()),
    {
        let block = self.basic_block();
        let index = self.emit(
            Instruction::Binary { operation, left, right, name: name.to_owned() },
        );
        IntValue { ty: left.ty, source: Source::Instruction { block, index } }
    }

    /// Builds an integer comparison.
    pub fn build_int_compare(
        &mut self,
        predicate: IntPredicate,
        left: IntValue,
        right: IntValue,
        name: &str,
    ) -> (result: IntValue)
        requires
            old(self)@.wf(),
            old(self)@.position is Some,
        ensures
            final(self)@ == old(self)@.emit(
                seq![InstructionView::Compare { predicate, left, right, name: name@ }],
            ),
            final(self)@.wf(),
            result == int_result(
                IntType { bit_length: BITLENGTH_BOOLEAN },
                old(self)@.here(),
                old(self)@.next(),
            ),
    {
        let block = self.basic_block();
        let index = self.emit(
            Instruction::Compare { predicate, left, right, name: name.to_owned() },
        );
        IntValue {
            ty: IntType { bit_length: BITLENGTH_BOOLEAN },
            source: Source::Instruction { block, index },
        }
    }

    /// Emits a terminator at the insertion point, unless the block there has one at its end.
    fn terminate(&mut self, instruction: Instruction)
        requires
            old(self)@.wf(),
            old(self)@.position is Some,
            instruction@.is_aligned(),
        ensures
            final(self)@ == old(self)@.terminate(instruction@),
            final(self)@.wf(),
    {
        if self.module.is_terminated(self.basic_block()) {
            return ;
        }
        let _ = self.emit(instruction);
    }

    /// Builds a conditional branch.
    ///
    /// Checks if there are no other terminators in the block.
    pub fn build_conditional_branch(
        &mut self,
        comparison: IntValue,
        then_block: BasicBlock,
        else_block: BasicBlock,
    )
        requires
            old(self)@.wf(),
            old(self)@.position is Some,
        ensures
            final(self)@ == old(self)@.terminate(
                InstructionView::ConditionalBranch { comparison, then_block, else_block },
            ),
            final(self)@.wf(),
    {
        self.terminate(Instruction::ConditionalBranch { comparison, then_block, else_block });
    }

    /// Builds an unconditional branch.
    ///
    /// Checks if there are no other terminators in the block.
    pub fn build_unconditional_branch(&mut self, destination_block: BasicBlock)
        requires
            old(self)@.wf(),
            old(self)@.position is Some,
        ensures
            final(self)@ == old(self)@.terminate(
                InstructionView::Branch { destination: destination_block },
            ),
            final(self)@.wf(),
    {
        self.terminate(Instruction::Branch { destination: destination_block });
    }

    /// Builds a return.
    ///
    /// Checks if there are no other terminators in the block.
    pub fn build_return(&mut self, value: Option<BasicValueEnum>)
        requires
            old(self)@.wf(),
            old(self)@.position is Some,
        ensures
            final(self)@ == old(self)@.terminate(InstructionView::Return { value }),
            final(self)@.wf(),
    {
        self.terminate(Instruction::Return { value });
    }

    /// Builds an unreachable.
    ///
    /// Checks if there are no other terminators in the block.
    pub fn build_unreachable(&mut self)
        requires
            old(self)@.wf(),
            old(self)@.position is Some,
        ensures
            final(self)@ == old(self)@.terminate(InstructionView::Unreachable),
            final(self)@.wf(),
    {
        self.terminate(Instruction::Unreachable);
    }

    /// The alignments that a call of the function attaches to its parameters.
    fn pointer_alignments(&self, function: FunctionValue) -> (result: Vec<Option<u32>>)
        requires
            self@.module.has_callee(function),
        ensures
            result@ == crate::ir::instruction::pointer_alignments(
                self@.module.parameter_types(function),
            ),
    {
        let types = self.module.get_parameter_types(function);
        let mut result: Vec<Option<u32>> = Vec::new();
        let mut index: usize = 0;
        while index < types.len()
            invariant
                index <= types@.len(),
                result@ == crate::ir::instruction::pointer_alignments(types@.take(index as int)),
            decreases types@.len() - index,
        {
            if types[index].is_pointer_type() {
                result.push(Some(SIZE_FIELD as u32));
            } else {
                result.push(None);
            }
            index += 1;
            assert(result@ =~= crate::ir::instruction::pointer_alignments(
                types@.take(index as int),
            ));
        }
        assert(types@.take(index as int) =~= types@);
        result
    }

    /// The alignment that a call of the function attaches to its result.
    fn result_alignment(&self, function: FunctionValue) -> (result: Option<u32>)
        requires
            self@.module.has_callee(function),
        ensures
            result == crate::ir::instruction::result_alignment(self@.module.return_type(function)),
    {
        match self.module.get_return_type(function) {
            Some(BasicTypeEnum::PointerType(_)) => Some(SIZE_FIELD as u32),
            _ => None,
        }
    }

    /// Builds a call.
    ///
    /// Attaches the alignment of the stack to every pointer that crosses the call, unless the
    /// function called is the throw primitive.
    pub fn build_call(&mut self, function: FunctionValue, args: &[BasicValueEnum], name: &str) -> (result:
        Option<BasicValueEnum>)
        requires
            old(self)@.wf(),
            old(self)@.position is Some,
            old(self)@.module.has_callee(function),
        ensures
            final(self)@ == old(self)@.emit(
                seq![
                    InstructionView::call(
                        old(self)@.module.parameter_types(function),
                        old(self)@.module.return_type(function),
                        function,
                        args@,
                        name@,
                        old(self)@.runtime.cxa_throw,
                    ),
                ],
            ),
            function matches FunctionValue::Intrinsic(intrinsic) ==> final(self)@ == old(self)@.emit(
                seq![InstructionView::call_intrinsic(intrinsic, args@, name@)],
            ),
            final(self)@.wf(),
            result == match old(self)@.module.return_type(function) {
                Some(ty) => Some(
                    BasicValueEnum::spec_of_instruction(
                        ty,
                        old(self)@.here(),
                        old(self)@.next() as usize,
                    ),
                ),
                None => None,
            },
    {
        let block = self.basic_block();
        let return_type = self.module.get_return_type(function);
        let arguments = vstd::slice::slice_to_vec(args);
        let instruction = if function == self.runtime.cxa_throw {
            Instruction::Call {
                function,
                arguments,
                parameter_alignments: Vec::new(),
                return_alignment: None,
                name: name.to_owned(),
            }
        } else {
            Instruction::Call {
                function,
                arguments,
                parameter_alignments: self.pointer_alignments(function),
                return_alignment: self.result_alignment(function),
                name: name.to_owned(),
            }
        };
        assert(instruction@ =~= InstructionView::call(
            self@.module.parameter_types(function),
            self@.module.return_type(function),
            function,
            args@,
            name@,
            self@.runtime.cxa_throw,
        )) by {
            assert(Seq::<Option<u32>>::empty() =~= seq![]);
        }
        let index = self.emit(instruction);
        match return_type {
            Some(ty) => Some(BasicValueEnum::of_instruction(ty, block, index)),
            None => None,
        }
    }

    /// Builds a memory copy call.
    ///
    /// Sets the alignment of both pointers to 1 byte.
    pub fn build_memcpy(
        &mut self,
        intrinsic: IntrinsicFunction,
        destination: PointerValue,
        source: PointerValue,
        size: IntValue,
        name: &str,
    )
        requires
            old(self)@.wf(),
            old(self)@.position is Some,
        ensures
            final(self)@ == old(self)@.emit(
                seq![InstructionView::memcpy(intrinsic, destination, source, size, name@)],
            ),
            final(self)@.wf(),
    {
        let function = self.get_intrinsic_function(intrinsic);
        let arguments = vec![
            destination.as_basic_value_enum(),
            source.as_basic_value_enum(),
            size.as_basic_value_enum(),
            self.integer_type(BITLENGTH_BOOLEAN).const_zero().as_basic_value_enum(),
        ];
        let parameter_alignments = vec![Some(1u32), Some(1u32)];
        let instruction = Instruction::Call {
            function,
            arguments,
            parameter_alignments,
            return_alignment: None,
            name: name.to_owned(),
        };
        assert(instruction@ =~= InstructionView::memcpy(
            intrinsic,
            destination,
            source,
            size,
            name@,
        )) by {
            assert(instruction@->Call_arguments =~= InstructionView::memcpy(
                intrinsic,
                destination,
                source,
                size,
                name@,
            )->Call_arguments);
            assert(instruction@->Call_parameter_alignments =~= seq![Some(1u32), Some(1u32)]);
        }
        let _ = self.emit(instruction);
    }

    /// Reads the data size from the specified memory.
    pub fn read_header(&mut self, address_space: AddressSpace) -> (result: IntValue)
        requires
            old(self)@.wf(),
            old(self)@.position is Some,
        ensures
            final(self)@ == old(self)@.emit(
                read_header_code(old(self)@.here(), old(self)@.next(), address_space),
            ),
            final(self)@.wf(),
            result == int_result(field_type(), old(self)@.here(), old(self)@.next() + 1),
    {
        let offset = self.field_const((ABI_MEMORY_OFFSET_HEADER * SIZE_FIELD) as u64);
        let header_pointer = self.access_memory(offset, address_space, "header_pointer");
        let value = self.build_load(header_pointer, "header_value");
        proof {
            let code = read_header_code(old(self)@.here(), old(self)@.next(), address_space);
            lemma_emit(old(self)@, seq![code[0]]);
            lemma_emit_emit(old(self)@, seq![code[0]], seq![code[1]]);
            assert(seq![code[0]] + seq![code[1]] =~= code);
        }
        value.into_int_value()
    }

    /// Writes the data size to the specified memory.
    pub fn write_header(&mut self, header: IntValue, address_space: AddressSpace)
        requires
            old(self)@.wf(),
            old(self)@.position is Some,
        ensures
            final(self)@ == old(self)@.emit(
                write_header_code(old(self)@.here(), old(self)@.next(), header, address_space),
            ),
            final(self)@.wf(),
    {
        let offset = self.field_const((ABI_MEMORY_OFFSET_HEADER * SIZE_FIELD) as u64);
        let header_pointer = self.access_memory(offset, address_space, "header_pointer");
        self.build_store(header_pointer, header.as_basic_value_enum());
        proof {
            let code = write_header_code(
                old(self)@.here(),
                old(self)@.next(),
                header,
                address_space,
            );
            lemma_emit(old(self)@, seq![code[0]]);
            lemma_emit_emit(old(self)@, seq![code[0]], seq![code[1]]);
            assert(seq![code[0]] + seq![code[1]] =~= code);
        }
    }

    /// Writes the error data to the parent memory.
    #[verifier::rlimit(40)]
    pub fn write_error(&mut self, message: &'static str)
        requires
            old(self)@.wf(),
            old(self)@.position is Some,
        ensures
            final(self)@ == old(self)@.emit(
                write_error_code(old(self)@.here(), old(self)@.next(), message@),
            ),
            final(self)@.wf(),
    {
        let ghost block = self@.here();
        let ghost next = self@.next();
        let ghost code = write_error_code(block, next, message@);
        let length = self.field_const(SIZE_X32 as u64);
        self.write_header(length, AddressSpace::Parent);
        let ghost first = self@;

        let error_code = self.field_const(
            crate::hash::keccak256_first_bytes(message.as_bytes()) as u64,
        );
        let shift = self.field_const((BITLENGTH_BYTE * (SIZE_FIELD - SIZE_X32)) as u64);
        let error_code_shifted = self.build_binary(
            BinaryOperation::ShiftLeft,
            error_code,
            shift,
            "error_code_shifted",
        );
        let ghost second = self@;
        let offset = self.field_const((ABI_MEMORY_OFFSET_DATA * SIZE_FIELD) as u64);
        let parent_error_code_pointer = self.access_memory(
            offset,
            AddressSpace::Parent,
            "parent_error_code_pointer",
        );
        self.build_store(parent_error_code_pointer, error_code_shifted.as_basic_value_enum());
        proof {
            let header = write_header_code(block, next, field_const(SIZE_X32 as u64), AddressSpace::Parent);
            lemma_emit(old(self)@, header);
            lemma_emit(first, seq![code[2]]);
            lemma_emit(second, seq![code[3]]);
            lemma_emit_emit(old(self)@, header, seq![code[2]]);
            lemma_emit_emit(old(self)@, header + seq![code[2]], seq![code[3]]);
            lemma_emit_emit(old(self)@, header + seq![code[2]] + seq![code[3]], seq![code[4]]);
            assert(header + seq![code[2]] + seq![code[3]] + seq![code[4]] =~= code);
        }
    }

    /// Builds an invoke.
    ///
    /// The call goes on in a new block of the current function, where the insertion point is
    /// afterwards, and in the catch block of the current function if it raises.
    pub fn build_invoke(&mut self, function: FunctionValue, args: &[BasicValueEnum], name: &str) -> (result:
        Option<BasicValueEnum>)
        requires
            old(self)@.wf(),
            old(self)@.position is Some,
            old(self)@.function is Some,
            old(self)@.module.has_callee(function),
        ensures
            final(self)@ == old(self)@.invoke(function, args@, name@),
            final(self)@.wf(),
            result == match old(self)@.module.return_type(function) {
                Some(ty) => Some(
                    BasicValueEnum::spec_of_instruction(
                        ty,
                        old(self)@.here(),
                        old(self)@.next() as usize,
                    ),
                ),
                None => None,
            },
    {
        let block = self.basic_block();
        let join_block = self.append_basic_block("join");
        let return_type = self.module.get_return_type(function);
        let instruction = Instruction::Invoke {
            function,
            arguments: vstd::slice::slice_to_vec(args),
            then_block: join_block,
            catch_block: self.function().catch_block,
            parameter_alignments: self.pointer_alignments(function),
            return_alignment: self.result_alignment(function),
            name: name.to_owned(),
        };
        let index = self.emit(instruction);
        self.set_basic_block(join_block);
        match return_type {
            Some(ty) => Some(BasicValueEnum::of_instruction(ty, block, index)),
            None => None,
        }
    }

    /// Builds the test of the long return flag: the current function gets one more block,
    /// for the case that the flag is not set, and the insertion point goes there.
    #[verifier::rlimit(40)]
    fn build_long_return_check(&mut self)
        requires
            old(self)@.wf(),
            old(self)@.position is Some,
            old(self)@.function is Some,
        ensures
            final(self)@ == old(self)@.long_return_check(),
            final(self)@.wf(),
            final(self)@.position == Some(old(self)@.new_block()),
            final(self)@.function == old(self)@.function,
            final(self)@.runtime == old(self)@.runtime,
            old(self)@.has_room(1),
    {
        let ghost before = self@;
        let ghost block = self@.here();
        let ghost next = self@.next();
        let no_long_return_block = self.append_basic_block("no_long_return_block");
        let ghost start = self@;
        let ghost code = long_return_check_code(
            block,
            next,
            before.function->0.return_block,
            no_long_return_block,
        );
        let offset = self.long_return_offset();
        let long_return_flag_pointer = self.access_memory(
            offset,
            AddressSpace::Heap,
            "long_return_flag_pointer",
        );
        let ghost first = self@;
        let long_return_flag = self.build_load(long_return_flag_pointer, "long_return_flag");
        let ghost second = self@;
        let one = self.field_const(1);
        let is_long_return_flag_set = self.build_int_compare(
            IntPredicate::EQ,
            long_return_flag.into_int_value(),
            one,
            "is_long_return_flag_set",
        );
        let ghost third = self@;
        let return_block = self.function().return_block;
        self.build_conditional_branch(is_long_return_flag_set, return_block, no_long_return_block);
        proof {
            lemma_emit(start, seq![code[0]]);
            lemma_emit(first, seq![code[1]]);
            lemma_emit(second, seq![code[2]]);
            assert(third.module.instructions(block).last() == code[2]);
            assert(!third.is_terminated());
            lemma_emit_emit(start, seq![code[0]], seq![code[1]]);
            lemma_emit_emit(start, seq![code[0]] + seq![code[1]], seq![code[2]]);
            lemma_emit_emit(start, seq![code[0]] + seq![code[1]] + seq![code[2]], seq![code[3]]);
            assert(seq![code[0]] + seq![code[1]] + seq![code[2]] + seq![code[3]] =~= code);
            lemma_emit(start, code);
        }
        self.set_basic_block(no_long_return_block);
    }

    /// Builds the instructions that raise again, at the insertion point.
    fn build_rethrow(&mut self)
        requires
            old(self)@.wf(),
            old(self)@.position is Some,
        ensures
            final(self)@ == old(self)@.emit(rethrow_code(old(self)@.runtime.cxa_throw)),
            final(self)@.wf(),
    {
        let ghost code = rethrow_code(self@.runtime.cxa_throw);
        let null = self.integer_type(BITLENGTH_BYTE).ptr_type(
            AddressSpace::Stack,
        ).const_null().as_basic_value_enum();
        let arguments = vec![null, null, null];
        let cxa_throw = self.runtime.cxa_throw;
        let _ = self.build_call(cxa_throw, arguments.as_slice(), LLVM_FUNCTION_CXA_THROW);
        let ghost first = self@;
        proof {
            assert(arguments@ =~= seq![
                null_byte_pointer(),
                null_byte_pointer(),
                null_byte_pointer(),
            ]);
            lemma_emit(old(self)@, seq![code[0]]);
            assert(first.module.instructions(first.here()).last() == code[0]);
            assert(!first.is_terminated());
        }
        self.build_unreachable();
        proof {
            lemma_emit_emit(old(self)@, seq![code[0]], seq![code[1]]);
            assert(seq![code[0]] + seq![code[1]] =~= code);
        }
    }

    /// Builds an error throwing block sequence: in the throw block of the current function,
    /// the instructions that raise again; before them, if `is_upper_level` is set, the test of
    /// the long return flag, which goes to the return block if the flag is set.
    pub fn build_throw_block(&mut self, is_upper_level: bool)
        requires
            old(self)@.wf(),
            old(self)@.function is Some,
        ensures
            final(self)@ == old(self)@.throw_block(is_upper_level),
            final(self)@.wf(),
            is_upper_level ==> old(self)@.has_room(1),
    {
        let throw_block = self.function().throw_block;
        self.set_basic_block(throw_block);
        if is_upper_level {
            self.build_long_return_check();
        }
        self.build_rethrow();
    }

    /// Builds an exception catching block sequence: in the catch block of the current
    /// function, a landing pad and the instructions that raise again; between them, if
    /// `handles_long_return` is set, the test of the long return flag, which goes to the return
    /// block if the flag is set.
    pub fn build_catch_block(&mut self, handles_long_return: bool)
        requires
            old(self)@.wf(),
            old(self)@.function is Some,
        ensures
            final(self)@ == old(self)@.catch_block(handles_long_return),
            final(self)@.wf(),
            handles_long_return ==> old(self)@.has_room(1),
    {
        let catch_block = self.function().catch_block;
        self.set_basic_block(catch_block);

        let byte_pointer = self.integer_type(BITLENGTH_BYTE).ptr_type(AddressSpace::Stack);
        let fields = vec![
            byte_pointer.as_basic_type_enum(),
            self.integer_type(BITLENGTH_X32).as_basic_type_enum(),
        ];
        assert(fields@ =~= landing_pad_fields());
        let landing_pad_type = self.structure_type(fields);
        let clauses = vec![byte_pointer.const_zero().as_basic_value_enum()];
        assert(clauses@ =~= seq![null_byte_pointer()]);
        let _ = self.emit(
            Instruction::LandingPad {
                ty: landing_pad_type,
                personality: self.runtime.personality,
                clauses,
                name: "landing".to_owned(),
            },
        );

        if handles_long_return {
            self.build_long_return_check();
        }
        self.build_rethrow();
    }

    /// Returns a contract context value.
    pub fn access_context(&mut self, context_value: crate::abi::ContextValue) -> (result: Result<
        BasicValueEnum,
        Error,
    >)
        requires
            old(self)@.wf(),
            old(self)@.position is Some,
        ensures
            final(self)@ == old(self)@.emit(
                seq![
                    InstructionView::call_intrinsic(
                        IntrinsicFunction::GetFromContext,
                        seq![BasicValueEnum::IntValue(field_const(context_value.spec_number()))],
                        "context_get_call"@,
                    ),
                ],
            ),
            final(self)@.wf(),
            result == Ok::<BasicValueEnum, Error>(
                BasicValueEnum::IntValue(
                    int_result(field_type(), old(self)@.here(), old(self)@.next()),
                ),
            ),
    {
        let intrinsic = self.get_intrinsic_function(IntrinsicFunction::GetFromContext);
        let arguments = vec![self.field_const(context_value.number()).as_basic_value_enum()];
        assert(arguments@ =~= seq![
            BasicValueEnum::IntValue(field_const(context_value.spec_number())),
        ]);
        match self.build_call(intrinsic, arguments.as_slice(), "context_get_call") {
            Some(value) => Ok(value),
            None => vstd::pervasive::unreached(),
        }
    }
}

} // verus!
