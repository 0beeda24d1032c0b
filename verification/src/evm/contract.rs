//! Translates a contract call.

use vstd::prelude::*;

use crate::abi::ABI_ADDRESS_IDENTITY;
use crate::abi::ABI_MEMORY_OFFSET_DATA;
use crate::abi::ABI_MEMORY_OFFSET_HEADER;
use crate::abi::BITLENGTH_BOOLEAN;
use crate::abi::BITLENGTH_X32;
use crate::abi::SIZE_FIELD;
use crate::context::address_space::AddressSpace;
use crate::context::argument::Argument;
use crate::context::literal::data_offset;
use crate::context::literal::field_const;
use crate::context::literal::field_type;
use crate::context::literal::field_word;
use crate::context::literal::reads_answer;
use crate::context::literal::reads_answer_value;
use crate::context::function::intrinsic::Intrinsic as IntrinsicFunction;
use crate::context::view::lemma_emit_prefix;
use crate::context::literal::header_offset;
use crate::context::view::lemma_emit;
use crate::context::view::lemma_with_block;
use crate::context::unwinding::lemma_at_other;
use crate::context::unwinding::lemma_emit_other;
use crate::context::unwinding::lemma_with_block_other;
use crate::evm::lemma_value_checked;
use crate::evm::value_abort_code;
use crate::evm::value_non_zero_block;
use crate::evm::value_test_code;
use crate::evm::value_zero_block;
use crate::context::Context;
use crate::context::ContextView;
use crate::error::Error;
use crate::error::ErrorView;
use crate::evm::value_checked;
use crate::ir::instruction::field_pointer_type;
use crate::ir::instruction::int_result;
use crate::ir::instruction::pointer_result;
use crate::ir::instruction::BinaryOperation;
use crate::ir::instruction::InstructionView;
use crate::ir::instruction::IntPredicate;
use crate::ir::types::IntType;
use crate::ir::types::Pointee;
use crate::ir::value::BasicBlock;
use crate::ir::value::BasicValueEnum;
use crate::ir::value::IntValue;
use crate::ir::value::PointerValue;
use crate::word::numeral_value;
use crate::Dependency;

verus! {

/// The number of instructions of an ordinary contract call.
pub open spec fn ordinary_length() -> int {
    11
}

/// The instructions of an ordinary contract call, when they are emitted at place `next` of
/// `block`: the context is switched, the header of the child memory takes the size of the
/// input, the input is copied from the heap to the data of the child memory, the call is made
/// with the address in the high bits of its definition, and the output is copied from the
/// data of the child memory to the heap.
pub open spec fn ordinary_code(
    block: BasicBlock,
    next: int,
    call_type: IntrinsicFunction,
    address: IntValue,
    input_offset: IntValue,
    input_size: IntValue,
    output_offset: IntValue,
    output_size: IntValue,
) -> Seq<InstructionView> {
    seq![
        InstructionView::call_intrinsic(
            IntrinsicFunction::SwitchContext,
            seq![],
            "contract_call_switch_context"@,
        ),
        InstructionView::access(
            header_offset(),
            AddressSpace::Child,
            "contract_call_child_pointer_header"@,
        ),
        InstructionView::store(
            pointer_result(field_pointer_type(AddressSpace::Child), block, next + 1),
            BasicValueEnum::IntValue(input_size),
        ),
        InstructionView::access(
            data_offset(),
            AddressSpace::Child,
            "contract_call_child_input_destination"@,
        ),
        InstructionView::access(
            input_offset,
            AddressSpace::Heap,
            "contract_call_child_input_source"@,
        ),
        InstructionView::memcpy(
            IntrinsicFunction::MemoryCopyToChild,
            pointer_result(field_pointer_type(AddressSpace::Child), block, next + 3),
            pointer_result(field_pointer_type(AddressSpace::Heap), block, next + 4),
            input_size,
            "contract_call_memcpy_to_child"@,
        ),
        InstructionView::Binary {
            operation: BinaryOperation::ShiftLeft,
            left: address,
            right: field_const(BITLENGTH_X32 as u64),
            name: ""@,
        },
        InstructionView::call_intrinsic(
            call_type,
            seq![BasicValueEnum::IntValue(int_result(address.ty, block, next + 6))],
            "contract_call_external"@,
        ),
        InstructionView::access(
            data_offset(),
            AddressSpace::Child,
            "contract_call_output_source"@,
        ),
        InstructionView::access(
            output_offset,
            AddressSpace::Heap,
            "contract_call_output_pointer"@,
        ),
        InstructionView::memcpy(
            IntrinsicFunction::MemoryCopyFromChild,
            pointer_result(field_pointer_type(AddressSpace::Heap), block, next + 9),
            pointer_result(field_pointer_type(AddressSpace::Child), block, next + 8),
            output_size,
            "contract_call_memcpy_from_child"@,
        ),
    ]
}

/// The flag that an ordinary contract call gives, when its instructions are emitted at place
/// `next` of `block`: the result of the call.
pub open spec fn ordinary_result(
    block: BasicBlock,
    next: int,
    call_type: IntrinsicFunction,
) -> BasicValueEnum
    recommends
        call_type.spec_return_type() is Some,
{
    BasicValueEnum::spec_of_instruction(
        call_type.spec_return_type()->0,
        block,
        (next + 7) as usize,
    )
}

/// The instructions of a call of the identity precompile, when they are emitted at place
/// `next` of `block`: a copy within the heap.
pub open spec fn identity_code(
    block: BasicBlock,
    next: int,
    destination: IntValue,
    source: IntValue,
    size: IntValue,
) -> Seq<InstructionView> {
    seq![
        InstructionView::access(
            destination,
            AddressSpace::Heap,
            "contract_call_identity_destination"@,
        ),
        InstructionView::access(source, AddressSpace::Heap, "contract_call_identity_source"@),
        InstructionView::memcpy(
            IntrinsicFunction::MemoryCopy,
            pointer_result(field_pointer_type(AddressSpace::Heap), block, next),
            pointer_result(field_pointer_type(AddressSpace::Heap), block, next + 1),
            size,
            "contract_call_memcpy_to_child"@,
        ),
    ]
}

/// The address of the identity precompile, as a constant.
pub open spec fn identity_address() -> IntValue {
    field_word(numeral_value(ABI_ADDRESS_IDENTITY@, 16))
}

/// The pointer to the result of a contract call whose instructions are emitted at place
/// `next` of `block`.
pub open spec fn result_pointer(block: BasicBlock, next: int) -> PointerValue {
    pointer_result(field_pointer_type(AddressSpace::Stack), block, next)
}

/// The instructions that open a contract call, when they are emitted at place `next` of
/// `block`: the result is allocated and set to zero, and the address is compared with that of
/// the identity precompile.
pub open spec fn dispatch_code(
    block: BasicBlock,
    next: int,
    address: IntValue,
    identity_block: BasicBlock,
    ordinary_block: BasicBlock,
) -> Seq<InstructionView> {
    seq![
        InstructionView::alloca(Pointee::Int(field_type()), "contract_call_result_pointer"@),
        InstructionView::store(
            result_pointer(block, next),
            BasicValueEnum::IntValue(field_const(0)),
        ),
        InstructionView::Compare {
            predicate: IntPredicate::EQ,
            left: address,
            right: identity_address(),
            name: "contract_call_is_address_identity"@,
        },
        InstructionView::ConditionalBranch {
            comparison: int_result(IntType { bit_length: BITLENGTH_BOOLEAN }, block, next + 2),
            then_block: identity_block,
            else_block: ordinary_block,
        },
    ]
}

/// The instructions that close a branch of a contract call: the result of the branch is
/// stored, and the branch joins the other.
pub open spec fn join_code(
    pointer: PointerValue,
    result: BasicValueEnum,
    join_block: BasicBlock,
) -> Seq<InstructionView> {
    seq![
        InstructionView::store(pointer, result),
        InstructionView::Branch { destination: join_block },
    ]
}

/// The block of a contract call that calls the identity precompile.
pub open spec fn identity_block<D>(context: ContextView<D>) -> BasicBlock {
    context.new_block()
}

/// The block of a contract call that makes an ordinary call.
pub open spec fn ordinary_block<D>(context: ContextView<D>) -> BasicBlock {
    context.with_block("contract_call_identity_block"@).new_block()
}

/// The block of a contract call in which the two branches join.
pub open spec fn join_block<D>(context: ContextView<D>) -> BasicBlock {
    context.with_block("contract_call_identity_block"@).with_block(
        "contract_call_ordinary_block"@,
    ).new_block()
}

/// The context after a contract call has been opened: the current function has three more
/// blocks, and the block of the insertion point compares the address with that of the
/// identity precompile.
pub open spec fn opened<D>(context: ContextView<D>, address: IntValue) -> ContextView<D>
    recommends
        context.function is Some,
        context.position is Some,
{
    context.with_block("contract_call_identity_block"@).with_block(
        "contract_call_ordinary_block"@,
    ).with_block("contract_call_join_block"@).emit(
        dispatch_code(
            context.here(),
            context.next(),
            address,
            identity_block(context),
            ordinary_block(context),
        ),
    )
}

/// The context after a contract call without a value has been emitted: the current function
/// has three more blocks; the block of the insertion point compares the address with that of
/// the identity precompile; the first new block copies within the heap, the second makes the
/// call; both store their result and join in the third, where the result is loaded and the
/// insertion point is.
pub open spec fn dispatched<D>(
    context: ContextView<D>,
    call_type: IntrinsicFunction,
    address: IntValue,
    input_offset: IntValue,
    input_size: IntValue,
    output_offset: IntValue,
    output_size: IntValue,
) -> ContextView<D>
    recommends
        context.function is Some,
        context.position is Some,
{
    let identity_block = identity_block(context);
    let ordinary_block = ordinary_block(context);
    let join_block = join_block(context);
    let pointer = result_pointer(context.here(), context.next());
    opened(context, address).at(identity_block).emit(
        identity_code(identity_block, 0, output_offset, input_offset, output_size) + join_code(
            pointer,
            BasicValueEnum::IntValue(field_const(1)),
            join_block,
        ),
    ).at(ordinary_block).emit(
        ordinary_code(
            ordinary_block,
            0,
            call_type,
            address,
            input_offset,
            input_size,
            output_offset,
            output_size,
        ) + join_code(pointer, ordinary_result(ordinary_block, 0, call_type), join_block),
    ).at(join_block).emit(seq![InstructionView::load(pointer, "contract_call_result"@)])
}

/// The context after a contract call has been emitted: where the call has a value, the check
/// that the value is zero comes first, and the call itself goes where that check goes if the
/// value is zero.
pub open spec fn called<D>(
    context: ContextView<D>,
    call_type: IntrinsicFunction,
    address: IntValue,
    value: Option<IntValue>,
    input_offset: IntValue,
    input_size: IntValue,
    output_offset: IntValue,
    output_size: IntValue,
) -> ContextView<D>
    recommends
        context.function is Some,
        context.position is Some,
{
    dispatched(
        match value {
            Some(value) => value_checked(context, value),
            None => context,
        },
        call_type,
        address,
        input_offset,
        input_size,
        output_offset,
        output_size,
    )
}

/// Opens a contract call: appends the three blocks of the call, allocates the result, and
/// compares the address with that of the identity precompile.
#[verifier::rlimit(40)]
fn open_call<D>(context: &mut Context<D>, address: IntValue) -> (result: (
    BasicBlock,
    BasicBlock,
    BasicBlock,
    PointerValue,
)) where D: Dependency
    requires
        old(context)@.wf(),
        old(context)@.position is Some,
        old(context)@.function is Some,
    ensures
        final(context)@ == opened(old(context)@, address),
        final(context)@.wf(),
        result.0 == identity_block(old(context)@),
        result.1 == ordinary_block(old(context)@),
        result.2 == join_block(old(context)@),
        result.3 == result_pointer(old(context)@.here(), old(context)@.next()),
        final(context)@.module.has_block(result.0),
        final(context)@.module.has_block(result.1),
        final(context)@.module.has_block(result.2),
        final(context)@.module.length(result.0) == 0,
        final(context)@.module.length(result.1) == 0,
        final(context)@.module.length(result.2) == 0,
        result.0 != result.1,
        result.0 != result.2,
        result.1 != result.2,
        old(context)@.has_room(3),
{
    let ghost start = context@;
    let ghost block = context@.here();
    let ghost next = context@.next();

    let identity_block = context.append_basic_block("contract_call_identity_block");
    let ghost first = context@;
    let ordinary_block = context.append_basic_block("contract_call_ordinary_block");
    let ghost second = context@;
    let join_block = context.append_basic_block("contract_call_join_block");
    let ghost third = context@;
    proof {
        lemma_with_block(start, "contract_call_identity_block"@);
        lemma_with_block(first, "contract_call_ordinary_block"@);
        lemma_with_block(second, "contract_call_join_block"@);
        assert(third.module.instructions(block) == start.module.instructions(block));
        assert(third.module.length(identity_block) == 0);
        assert(third.module.length(ordinary_block) == 0);
        assert(third.module.length(join_block) == 0);
    }
    let ghost code = dispatch_code(block, next, address, identity_block, ordinary_block);

    let result_pointer = context.build_alloca(
        Pointee::Int(context.field_type()),
        "contract_call_result_pointer",
    );
    let zero = context.field_const(0);
    context.build_store(result_pointer, zero.as_basic_value_enum());

    proof {
        crate::abi::lemma_literals();
    }
    let identity = context.field_const_str(ABI_ADDRESS_IDENTITY);
    let is_address_identity = context.build_int_compare(
        IntPredicate::EQ,
        address,
        identity,
        "contract_call_is_address_identity",
    );
    proof {
        lemma_emit_prefix(third, code, 0);
        lemma_emit_prefix(third, code, 1);
        lemma_emit_prefix(third, code, 2);
        assert(context@ == third.emit(code.take(3)));
        assert(!context@.is_terminated());
    }
    context.build_conditional_branch(is_address_identity, identity_block, ordinary_block);
    proof {
        lemma_emit_prefix(third, code, 3);
        lemma_emit(third, code);
    }
    (identity_block, ordinary_block, join_block, result_pointer)
}

/// Closes a branch of a contract call: stores the result of the branch, and joins the other
/// branch.
fn close_branch<D>(
    context: &mut Context<D>,
    pointer: PointerValue,
    result: BasicValueEnum,
    join_block: BasicBlock,
) where D: Dependency
    requires
        old(context)@.wf(),
        old(context)@.position is Some,
    ensures
        final(context)@ == old(context)@.emit(join_code(pointer, result, join_block)),
        final(context)@.wf(),
{
    let ghost code = join_code(pointer, result, join_block);
    context.build_store(pointer, result);
    proof {
        lemma_emit_prefix(old(context)@, code, 0);
        assert(!context@.is_terminated());
    }
    context.build_unconditional_branch(join_block);
    proof {
        lemma_emit_prefix(old(context)@, code, 1);
    }
}

/// Emits the branch of a contract call that calls the identity precompile, into its block,
/// which is empty.
fn identity_branch<D>(
    context: &mut Context<D>,
    identity_block: BasicBlock,
    join_block: BasicBlock,
    pointer: PointerValue,
    destination: IntValue,
    source: IntValue,
    size: IntValue,
) where D: Dependency
    requires
        old(context)@.wf(),
        old(context)@.module.has_block(identity_block),
        old(context)@.module.length(identity_block) == 0,
    ensures
        final(context)@ == old(context)@.at(identity_block).emit(
            identity_code(identity_block, 0, destination, source, size) + join_code(
                pointer,
                BasicValueEnum::IntValue(field_const(1)),
                join_block,
            ),
        ),
        final(context)@.wf(),
{
    context.set_basic_block(identity_block);
    let ghost start = context@;
    let result = call_identity(context, destination, source, size);
    close_branch(context, pointer, result, join_block);
    proof {
        crate::context::view::lemma_emit_emit(
            start,
            identity_code(identity_block, 0, destination, source, size),
            join_code(pointer, result, join_block),
        );
    }
}

/// Emits the branch of a contract call that makes an ordinary call, into its block, which is
/// empty.
fn ordinary_branch<D>(
    context: &mut Context<D>,
    ordinary_block: BasicBlock,
    join_block: BasicBlock,
    pointer: PointerValue,
    call_type: IntrinsicFunction,
    address: IntValue,
    input_offset: IntValue,
    input_size: IntValue,
    output_offset: IntValue,
    output_size: IntValue,
) where D: Dependency
    requires
        old(context)@.wf(),
        old(context)@.module.has_block(ordinary_block),
        old(context)@.module.length(ordinary_block) == 0,
        call_type.spec_return_type() is Some,
    ensures
        final(context)@ == old(context)@.at(ordinary_block).emit(
            ordinary_code(
                ordinary_block,
                0,
                call_type,
                address,
                input_offset,
                input_size,
                output_offset,
                output_size,
            ) + join_code(pointer, ordinary_result(ordinary_block, 0, call_type), join_block),
        ),
        final(context)@.wf(),
{
    context.set_basic_block(ordinary_block);
    let ghost start = context@;
    let result = call_ordinary(
        context,
        call_type,
        address,
        input_offset,
        input_size,
        output_offset,
        output_size,
    );
    close_branch(context, pointer, result, join_block);
    proof {
        crate::context::view::lemma_emit_emit(
            start,
            ordinary_code(
                ordinary_block,
                0,
                call_type,
                address,
                input_offset,
                input_size,
                output_offset,
                output_size,
            ),
            join_code(pointer, result, join_block),
        );
    }
}

/// Translates a contract call.
#[allow(clippy::too_many_arguments)]
#[verifier::rlimit(40)]
pub fn call<D>(
    context: &mut Context<D>,
    call_type: IntrinsicFunction,
    address: IntValue,
    value: Option<IntValue>,
    input_offset: IntValue,
    input_size: IntValue,
    output_offset: IntValue,
    output_size: IntValue,
) -> (result: Result<Option<BasicValueEnum>, Error>) where D: Dependency
    requires
        old(context)@.wf(),
        old(context)@.position is Some,
        old(context)@.function is Some,
        call_type.spec_return_type() is Some,
    ensures
        final(context)@ == called(
            old(context)@,
            call_type,
            address,
            value,
            input_offset,
            input_size,
            output_offset,
            output_size,
        ),
        final(context)@.wf(),
        final(context)@.position is Some,
        result == Ok::<Option<BasicValueEnum>, Error>(
            Some(BasicValueEnum::IntValue(int_result(field_type(), final(context)@.here(), 0))),
        ),
        value is Some ==> is_guarded(old(context)@, value->0, address, final(context)@.module),
{
    if let Some(value) = value {
        crate::evm::check_value_zero(context, value);
        proof {
            lemma_value_checked(old(context)@, value, old(context)@.here());
        }
    }
    let (identity_block, ordinary_block, join_block, result_pointer) = open_call(context, address);
    proof {
        if value is Some {
            lemma_value_guard(
                old(context)@,
                call_type,
                address,
                value->0,
                input_offset,
                input_size,
                output_offset,
                output_size,
            );
        }
    }
    let ghost first = context@;

    identity_branch(
        context,
        identity_block,
        join_block,
        result_pointer,
        output_offset,
        input_offset,
        output_size,
    );
    let ghost second = context@;
    proof {
        lemma_emit(
            first.at(identity_block),
            identity_code(identity_block, 0, output_offset, input_offset, output_size) + join_code(
                result_pointer,
                BasicValueEnum::IntValue(field_const(1)),
                join_block,
            ),
        );
        assert(second.module.instructions(ordinary_block) == first.module.instructions(
            ordinary_block,
        ));
        assert(second.module.instructions(join_block) == first.module.instructions(join_block));
    }

    ordinary_branch(
        context,
        ordinary_block,
        join_block,
        result_pointer,
        call_type,
        address,
        input_offset,
        input_size,
        output_offset,
        output_size,
    );
    let ghost third = context@;
    proof {
        lemma_emit(
            second.at(ordinary_block),
            ordinary_code(
                ordinary_block,
                0,
                call_type,
                address,
                input_offset,
                input_size,
                output_offset,
                output_size,
            ) + join_code(
                result_pointer,
                ordinary_result(ordinary_block, 0, call_type),
                join_block,
            ),
        );
        assert(third.module.instructions(join_block) == second.module.instructions(join_block));
    }

    context.set_basic_block(join_block);
    let result = context.build_load(result_pointer, "contract_call_result");

    Ok(Some(result))
}

/// Translates a linker symbol: the address of the library whose path is the literal of the
/// operand, as the dependency manager resolves it and the context reads it.
pub fn linker_symbol<D>(context: &mut Context<D>, arguments: [Argument; 1]) -> (result: Result<
    Option<BasicValueEnum>,
    Error,
>) where D: Dependency
    ensures
        final(context)@ == old(context)@,
        arguments[0].original is None ==> (result matches Err(error) && error@
            == ErrorView::LinkerSymbolMissing),
        arguments[0].original is Some && old(context)@.dependency_manager is None ==> (
        result matches Err(error) && error@ == ErrorView::DependencyManagerUnset),
        arguments[0].original is Some && old(context)@.dependency_manager is Some ==> exists|
            answer: Result<String, Error>,
        | #[trigger]
            old(context)@.dependency_manager->0.resolves(arguments[0].original->0@, answer)
                && reads_answer_value(answer, result),
{
    match &arguments[0].original {
        Some(path) => {
            let address = context.resolve_library(path.as_str());
            proof {
                if context@.dependency_manager is Some {
                    let manager = context@.dependency_manager->0;
                    let answer = choose|answer: Result<String, Error>| #[trigger]
                        manager.resolves(path@, answer) && reads_answer(answer, address);
                    assert(manager.resolves(path@, answer));
                }
            }
            match address {
                Ok(address) => Ok(Some(address.as_basic_value_enum())),
                Err(error) => Err(error),
            }
        },
        None => Err(Error::LinkerSymbolMissing),
    }
}

/// Generates an ordinary contract call
#[verifier::rlimit(40)]
pub fn call_ordinary<D>(
    context: &mut Context<D>,
    call_type: IntrinsicFunction,
    address: IntValue,
    input_offset: IntValue,
    input_size: IntValue,
    output_offset: IntValue,
    output_size: IntValue,
) -> (result: BasicValueEnum) where D: Dependency
    requires
        old(context)@.wf(),
        old(context)@.position is Some,
        call_type.spec_return_type() is Some,
    ensures
        final(context)@ == old(context)@.emit(
            ordinary_code(
                old(context)@.here(),
                old(context)@.next(),
                call_type,
                address,
                input_offset,
                input_size,
                output_offset,
                output_size,
            ),
        ),
        final(context)@.wf(),
        result == ordinary_result(old(context)@.here(), old(context)@.next(), call_type),
{
    let ghost code = ordinary_code(
        context@.here(),
        context@.next(),
        call_type,
        address,
        input_offset,
        input_size,
        output_offset,
        output_size,
    );
    let intrinsic = context.get_intrinsic_function(IntrinsicFunction::SwitchContext);
    let nothing: Vec<BasicValueEnum> = Vec::new();
    assert(nothing@ =~= seq![]);
    let _ = context.build_call(intrinsic, nothing.as_slice(), "contract_call_switch_context");

    let offset = context.field_const((ABI_MEMORY_OFFSET_HEADER * SIZE_FIELD) as u64);
    let child_pointer_header = context.access_memory(
        offset,
        AddressSpace::Child,
        "contract_call_child_pointer_header",
    );
    context.build_store(child_pointer_header, input_size.as_basic_value_enum());

    let offset = context.field_const((ABI_MEMORY_OFFSET_DATA * SIZE_FIELD) as u64);
    let destination = context.access_memory(
        offset,
        AddressSpace::Child,
        "contract_call_child_input_destination",
    );
    let source = context.access_memory(
        input_offset,
        AddressSpace::Heap,
        "contract_call_child_input_source",
    );

    context.build_memcpy(
        IntrinsicFunction::MemoryCopyToChild,
        destination,
        source,
        input_size,
        "contract_call_memcpy_to_child",
    );

    let intrinsic = context.get_intrinsic_function(call_type);
    let shift = context.field_const(BITLENGTH_X32 as u64);
    let call_definition = context.build_binary(BinaryOperation::ShiftLeft, address, shift, "");
    let operands = vec![call_definition.as_basic_value_enum()];
    assert(operands@ =~= seq![BasicValueEnum::IntValue(call_definition)]);
    let is_call_successful = match context.build_call(
        intrinsic,
        operands.as_slice(),
        "contract_call_external",
    ) {
        Some(value) => value,
        None => vstd::pervasive::unreached(),
    };

    let offset = context.field_const((ABI_MEMORY_OFFSET_DATA * SIZE_FIELD) as u64);
    let source = context.access_memory(offset, AddressSpace::Child, "contract_call_output_source");
    let destination = context.access_memory(
        output_offset,
        AddressSpace::Heap,
        "contract_call_output_pointer",
    );

    context.build_memcpy(
        IntrinsicFunction::MemoryCopyFromChild,
        destination,
        source,
        output_size,
        "contract_call_memcpy_from_child",
    );
    proof {
        lemma_emit_prefix(old(context)@, code, 0);
        lemma_emit_prefix(old(context)@, code, 1);
        lemma_emit_prefix(old(context)@, code, 2);
        lemma_emit_prefix(old(context)@, code, 3);
        lemma_emit_prefix(old(context)@, code, 4);
        lemma_emit_prefix(old(context)@, code, 5);
        lemma_emit_prefix(old(context)@, code, 6);
        lemma_emit_prefix(old(context)@, code, 7);
        lemma_emit_prefix(old(context)@, code, 8);
        lemma_emit_prefix(old(context)@, code, 9);
        lemma_emit_prefix(old(context)@, code, 10);
    }

    is_call_successful
}

/// Generates a memcopy call for the Identity precompile.
pub fn call_identity<D>(
    context: &mut Context<D>,
    destination: IntValue,
    source: IntValue,
    size: IntValue,
) -> (result: BasicValueEnum) where D: Dependency
    requires
        old(context)@.wf(),
        old(context)@.position is Some,
    ensures
        final(context)@ == old(context)@.emit(
            identity_code(old(context)@.here(), old(context)@.next(), destination, source, size),
        ),
        final(context)@.wf(),
        result == BasicValueEnum::IntValue(field_const(1)),
{
    let ghost code = identity_code(context@.here(), context@.next(), destination, source, size);
    let destination = context.access_memory(
        destination,
        AddressSpace::Heap,
        "contract_call_identity_destination",
    );
    let source = context.access_memory(source, AddressSpace::Heap, "contract_call_identity_source");

    context.build_memcpy(
        IntrinsicFunction::MemoryCopy,
        destination,
        source,
        size,
        "contract_call_memcpy_to_child",
    );
    proof {
        lemma_emit_prefix(old(context)@, code, 0);
        lemma_emit_prefix(old(context)@, code, 1);
        lemma_emit_prefix(old(context)@, code, 2);
    }

    context.field_const(1).as_basic_value_enum()
}

/// What a contract call without a value leaves in the blocks that were there before: the
/// block of the insertion point has the comparison of the address with that of the identity
/// precompile at its end, and no other block has changed.
#[verifier::rlimit(40)]
pub proof fn lemma_dispatched<D>(
    context: ContextView<D>,
    call_type: IntrinsicFunction,
    address: IntValue,
    input_offset: IntValue,
    input_size: IntValue,
    output_offset: IntValue,
    output_size: IntValue,
    block: BasicBlock,
)
    requires
        context.is_positioned(),
        context.has_room(3),
        context.module.has_block(block),
    ensures
        dispatched(
            context,
            call_type,
            address,
            input_offset,
            input_size,
            output_offset,
            output_size,
        ).module.has_block(block),
        block != context.here() ==> dispatched(
            context,
            call_type,
            address,
            input_offset,
            input_size,
            output_offset,
            output_size,
        ).module.instructions(block) == context.module.instructions(block),
        dispatched(
            context,
            call_type,
            address,
            input_offset,
            input_size,
            output_offset,
            output_size,
        ).module.instructions(context.here()) == context.module.instructions(context.here())
            + dispatch_code(
            context.here(),
            context.next(),
            address,
            identity_block(context),
            ordinary_block(context),
        ),
{
    let here = context.here();
    let identity = identity_block(context);
    let ordinary = ordinary_block(context);
    let join = join_block(context);
    let pointer = result_pointer(here, context.next());
    let first = context.with_block("contract_call_identity_block"@);
    let second = first.with_block("contract_call_ordinary_block"@);
    let third = second.with_block("contract_call_join_block"@);
    lemma_with_block_other(context, "contract_call_identity_block"@, block);
    lemma_with_block_other(context, "contract_call_identity_block"@, here);
    lemma_with_block_other(first, "contract_call_ordinary_block"@, block);
    lemma_with_block_other(first, "contract_call_ordinary_block"@, here);
    lemma_with_block_other(first, "contract_call_ordinary_block"@, identity);
    lemma_with_block_other(second, "contract_call_join_block"@, block);
    lemma_with_block_other(second, "contract_call_join_block"@, here);
    lemma_with_block_other(second, "contract_call_join_block"@, identity);
    lemma_with_block_other(second, "contract_call_join_block"@, ordinary);
    let code = dispatch_code(here, context.next(), address, identity, ordinary);
    let fourth = third.emit(code);
    lemma_emit_other(third, code, block);
    lemma_emit_other(third, code, here);
    lemma_emit_other(third, code, identity);
    lemma_emit_other(third, code, ordinary);
    lemma_emit_other(third, code, join);
    let fifth = fourth.at(identity);
    lemma_at_other(fourth, identity, block);
    let copy = identity_code(identity, 0, output_offset, input_offset, output_size) + join_code(
        pointer,
        BasicValueEnum::IntValue(field_const(1)),
        join,
    );
    let sixth = fifth.emit(copy);
    lemma_emit_other(fifth, copy, block);
    lemma_emit_other(fifth, copy, here);
    lemma_emit_other(fifth, copy, ordinary);
    lemma_emit_other(fifth, copy, join);
    let seventh = sixth.at(ordinary);
    lemma_at_other(sixth, ordinary, block);
    let far = ordinary_code(
        ordinary,
        0,
        call_type,
        address,
        input_offset,
        input_size,
        output_offset,
        output_size,
    ) + join_code(pointer, ordinary_result(ordinary, 0, call_type), join);
    let eighth = seventh.emit(far);
    lemma_emit_other(seventh, far, block);
    lemma_emit_other(seventh, far, here);
    lemma_emit_other(seventh, far, join);
    let ninth = eighth.at(join);
    lemma_at_other(eighth, join, block);
    let load = seq![InstructionView::load(pointer, "contract_call_result"@)];
    lemma_emit_other(ninth, load, block);
    lemma_emit_other(ninth, load, here);
}

/// Whether, in `module`, a contract call with the value `value`, emitted at the insertion
/// point of `context`, is guarded: the block in which the call is emitted ends in the test
/// whether the value is zero; the block that the test goes to if the value is not zero reports
/// the error to the caller and aborts the call through the throw block; the block that the
/// test goes to if the value is zero holds the beginning of the call itself, the comparison
/// of the address with that of the identity precompile.
pub open spec fn is_guarded<D>(
    context: ContextView<D>,
    value: IntValue,
    address: IntValue,
    module: crate::ir::module::ModuleView,
) -> bool {
    &&& module.instructions(context.here()) == context.module.instructions(context.here())
        + value_test_code(
        context.here(),
        context.next(),
        value,
        value_zero_block(context),
        value_non_zero_block(context),
    )
    &&& module.instructions(value_non_zero_block(context)) == value_abort_code(
        value_non_zero_block(context),
        context.function->0.throw_block,
    )
    &&& module.instructions(value_zero_block(context)) == dispatch_code(
        value_zero_block(context),
        0,
        address,
        identity_block(value_checked(context, value)),
        ordinary_block(value_checked(context, value)),
    )
}

/// A contract call with a value is guarded: the block in which the call is emitted ends in
/// the test whether the value is zero; if it is not, the test goes to a block that reports
/// the error to the caller and aborts the call through the throw block; the call itself,
/// which begins with the comparison of the address with that of the identity precompile,
/// stands in the block that the test goes to if the value is zero, and nowhere before the
/// test.
#[verifier::rlimit(40)]
pub proof fn lemma_value_guard<D>(
    context: ContextView<D>,
    call_type: IntrinsicFunction,
    address: IntValue,
    value: IntValue,
    input_offset: IntValue,
    input_size: IntValue,
    output_offset: IntValue,
    output_size: IntValue,
)
    requires
        context.is_positioned(),
        context.has_room(5),
    ensures
        is_guarded(
            context,
            value,
            address,
            called(
                context,
                call_type,
                address,
                Some(value),
                input_offset,
                input_size,
                output_offset,
                output_size,
            ).module,
        ),
        value_zero_block(context) != context.here(),
        value_non_zero_block(context) != context.here(),
        value_zero_block(context) != value_non_zero_block(context),
{
    let checked = value_checked(context, value);
    let zero = value_zero_block(context);
    let non_zero = value_non_zero_block(context);
    lemma_value_checked(context, value, context.here());
    lemma_dispatched(
        checked,
        call_type,
        address,
        input_offset,
        input_size,
        output_offset,
        output_size,
        context.here(),
    );
    lemma_dispatched(
        checked,
        call_type,
        address,
        input_offset,
        input_size,
        output_offset,
        output_size,
        non_zero,
    );
    lemma_dispatched(
        checked,
        call_type,
        address,
        input_offset,
        input_size,
        output_offset,
        output_size,
        zero,
    );
    let code = dispatch_code(
        zero,
        0,
        address,
        identity_block(checked),
        ordinary_block(checked),
    );
    assert(Seq::<InstructionView>::empty() + code =~= code);
}

} // verus!
