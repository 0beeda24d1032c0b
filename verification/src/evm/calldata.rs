//! Translates the calldata instructions.

use vstd::prelude::*;

use crate::abi::ABI_MEMORY_OFFSET_DATA;
use crate::abi::SIZE_FIELD;
use crate::context::address_space::AddressSpace;
use crate::context::literal::data_offset;
use crate::context::literal::field_const;
use crate::context::literal::field_type;
use crate::context::function::intrinsic::Intrinsic as IntrinsicFunction;
use crate::context::view::group_emit;
use crate::context::emission::read_header_code;
use crate::context::Context;
use crate::error::Error;
use crate::ir::instruction::field_pointer_type;
use crate::ir::instruction::int_result;
use crate::ir::instruction::pointer_result;
use crate::ir::instruction::BinaryOperation;
use crate::ir::instruction::InstructionView;
use crate::ir::value::BasicBlock;
use crate::ir::value::BasicValueEnum;
use crate::ir::value::IntValue;
use crate::Dependency;

verus! {

broadcast use group_emit;

/// The instructions of a calldata load, when they are emitted at place `next` of `block`:
/// the offset is moved past the header of the parent memory, and the word there is loaded.
pub open spec fn load_code(block: BasicBlock, next: int, offset: IntValue) -> Seq<InstructionView> {
    seq![
        InstructionView::Binary {
            operation: BinaryOperation::Add,
            left: offset,
            right: data_offset(),
            name: "calldata_offset"@,
        },
        InstructionView::access(
            int_result(offset.ty, block, next),
            AddressSpace::Parent,
            "calldata_pointer"@,
        ),
        InstructionView::load(
            pointer_result(field_pointer_type(AddressSpace::Parent), block, next + 1),
            "calldata_value"@,
        ),
    ]
}

/// Translates the calldata load.
pub fn load<D>(context: &mut Context<D>, arguments: [BasicValueEnum; 1]) -> (result: Result<
    Option<BasicValueEnum>,
    Error,
>) where D: Dependency
    requires
        old(context)@.wf(),
        old(context)@.position is Some,
        arguments[0] is IntValue,
    ensures
        final(context)@ == old(context)@.emit(
            load_code(old(context)@.here(), old(context)@.next(), arguments[0]->IntValue_0),
        ),
        final(context)@.wf(),
        result == Ok::<Option<BasicValueEnum>, Error>(
            Some(
                BasicValueEnum::IntValue(
                    int_result(field_type(), old(context)@.here(), old(context)@.next() + 2),
                ),
            ),
        ),
{
    let ghost code = load_code(context@.here(), context@.next(), arguments[0]->IntValue_0);
    let offset_shift = ABI_MEMORY_OFFSET_DATA * SIZE_FIELD;
    let shift = context.field_const(offset_shift as u64);
    let offset = context.build_binary(
        BinaryOperation::Add,
        arguments[0].into_int_value(),
        shift,
        "calldata_offset",
    );

    let pointer = context.access_memory(offset, AddressSpace::Parent, "calldata_pointer");
    let value = context.build_load(pointer, "calldata_value");
    assert(seq![code[0]] + seq![code[1]] + seq![code[2]] =~= code);

    Ok(Some(value))
}

/// The instructions of a calldata size, when they are emitted at place `next` of `block`:
/// the header of the parent memory is read, and its low 32 bits are kept.
pub open spec fn size_code(block: BasicBlock, next: int) -> Seq<InstructionView> {
    read_header_code(block, next, AddressSpace::Parent) + seq![
        InstructionView::Binary {
            operation: BinaryOperation::And,
            left: int_result(field_type(), block, next + 1),
            right: field_const(0x00000000ffffffff),
            name: "calldata_size"@,
        },
    ]
}

/// Translates the calldata size.
pub fn size<D>(context: &mut Context<D>) -> (result: Result<Option<BasicValueEnum>, Error>) where
    D: Dependency,

    requires
        old(context)@.wf(),
        old(context)@.position is Some,
    ensures
        final(context)@ == old(context)@.emit(
            size_code(old(context)@.here(), old(context)@.next()),
        ),
        final(context)@.wf(),
        result == Ok::<Option<BasicValueEnum>, Error>(
            Some(
                BasicValueEnum::IntValue(
                    int_result(field_type(), old(context)@.here(), old(context)@.next() + 2),
                ),
            ),
        ),
{
    let header = context.read_header(AddressSpace::Parent);
    let mask = context.field_const(0x00000000ffffffff);
    let value = context.build_binary(BinaryOperation::And, header, mask, "calldata_size");

    Ok(Some(value.as_basic_value_enum()))
}

/// The instructions of a calldata copy, when they are emitted at place `next` of `block`:
/// the data of the parent memory, from the source offset on, is copied into the heap.
pub open spec fn copy_code(
    block: BasicBlock,
    next: int,
    destination_offset: IntValue,
    source_offset: IntValue,
    size: IntValue,
) -> Seq<InstructionView> {
    seq![
        InstructionView::access(
            destination_offset,
            AddressSpace::Heap,
            "calldata_copy_destination_pointer"@,
        ),
        InstructionView::Binary {
            operation: BinaryOperation::Add,
            left: source_offset,
            right: data_offset(),
            name: "calldata_copy_source_offset"@,
        },
        InstructionView::access(
            int_result(source_offset.ty, block, next + 1),
            AddressSpace::Parent,
            "calldata_copy_source_pointer"@,
        ),
        InstructionView::memcpy(
            IntrinsicFunction::MemoryCopyFromParent,
            pointer_result(field_pointer_type(AddressSpace::Heap), block, next),
            pointer_result(field_pointer_type(AddressSpace::Parent), block, next + 2),
            size,
            "calldata_copy_memcpy_from_child"@,
        ),
    ]
}

/// Translates the calldata copy.
pub fn copy<D>(context: &mut Context<D>, arguments: [BasicValueEnum; 3]) -> (result: Result<
    Option<BasicValueEnum>,
    Error,
>) where D: Dependency
    requires
        old(context)@.wf(),
        old(context)@.position is Some,
        arguments[0] is IntValue,
        arguments[1] is IntValue,
        arguments[2] is IntValue,
    ensures
        final(context)@ == old(context)@.emit(
            copy_code(
                old(context)@.here(),
                old(context)@.next(),
                arguments[0]->IntValue_0,
                arguments[1]->IntValue_0,
                arguments[2]->IntValue_0,
            ),
        ),
        final(context)@.wf(),
        result == Ok::<Option<BasicValueEnum>, Error>(None),
{
    let ghost code = copy_code(
        context@.here(),
        context@.next(),
        arguments[0]->IntValue_0,
        arguments[1]->IntValue_0,
        arguments[2]->IntValue_0,
    );
    let destination = context.access_memory(
        arguments[0].into_int_value(),
        AddressSpace::Heap,
        "calldata_copy_destination_pointer",
    );

    let source_offset_shift = ABI_MEMORY_OFFSET_DATA * SIZE_FIELD;
    let shift = context.field_const(source_offset_shift as u64);
    let source_offset = context.build_binary(
        BinaryOperation::Add,
        arguments[1].into_int_value(),
        shift,
        "calldata_copy_source_offset",
    );
    let source = context.access_memory(
        source_offset,
        AddressSpace::Parent,
        "calldata_copy_source_pointer",
    );

    let size = arguments[2].into_int_value();

    context.build_memcpy(
        IntrinsicFunction::MemoryCopyFromParent,
        destination,
        source,
        size,
        "calldata_copy_memcpy_from_child",
    );
    assert(seq![code[0]] + seq![code[1]] + seq![code[2]] + seq![code[3]] =~= code);

    Ok(None)
}

} // verus!
