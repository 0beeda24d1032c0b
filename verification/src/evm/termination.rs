//! Translates the transaction return operations.

use vstd::prelude::*;

use crate::abi::ABI_MEMORY_OFFSET_DATA;
use crate::abi::LLVM_FUNCTION_CONSTRUCTOR;
use crate::abi::LLVM_FUNCTION_ENTRY;
use crate::abi::LLVM_FUNCTION_SELECTOR;
use crate::abi::SIZE_FIELD;
use crate::context::address_space::AddressSpace;
use crate::context::literal::data_offset;
use crate::context::literal::field_const;
use crate::context::function::intrinsic::Intrinsic as IntrinsicFunction;
use crate::context::function::Function;
use crate::context::function::FunctionView;
use crate::context::view::group_emit;
use crate::context::unwinding::exit;
use crate::context::unwinding::lemma_emit_other;
use crate::context::unwinding::Exit;
use crate::ir::value::FunctionValue;
use crate::context::literal::long_return_offset;
use crate::context::emission::write_header_code;
use crate::context::Context;
use crate::context::ContextView;
use crate::error::Error;
use crate::ir::instruction::field_pointer_type;
use crate::ir::instruction::pointer_result;
use crate::ir::instruction::InstructionView;
use crate::ir::value::BasicBlock;
use crate::ir::value::BasicValueEnum;
use crate::ir::value::IntValue;
use crate::Dependency;

verus! {

broadcast use group_emit;

/// Whether a function of this name is one of the outermost functions of a contract: the
/// entry, the constructor or the selector.
pub open spec fn is_outermost(name: Seq<char>) -> bool {
    name == LLVM_FUNCTION_ENTRY@ || name == LLVM_FUNCTION_CONSTRUCTOR@ || name
        == LLVM_FUNCTION_SELECTOR@
}

/// The instructions that hand data of the heap to the caller, when they are emitted at place
/// `next` of `block`: the header of the parent memory takes the size, and the data is copied
/// to the data of the parent memory.
pub open spec fn data_code(
    block: BasicBlock,
    next: int,
    source_offset: IntValue,
    size: IntValue,
    source_name: Seq<char>,
    destination_name: Seq<char>,
    copy_name: Seq<char>,
) -> Seq<InstructionView> {
    seq![
        InstructionView::access(source_offset, AddressSpace::Heap, source_name),
        InstructionView::access(data_offset(), AddressSpace::Parent, destination_name),
    ] + write_header_code(block, next + 2, size, AddressSpace::Parent) + seq![
        InstructionView::memcpy(
            IntrinsicFunction::MemoryCopyToParent,
            pointer_result(field_pointer_type(AddressSpace::Parent), block, next + 1),
            pointer_result(field_pointer_type(AddressSpace::Heap), block, next),
            size,
            copy_name,
        ),
    ]
}

/// The instructions that set the long return flag, when they are emitted at place `next` of
/// `block`, and abort the call through `throw_block`.
pub open spec fn long_return_code(block: BasicBlock, next: int, throw_block: BasicBlock) -> Seq<
    InstructionView,
> {
    seq![
        InstructionView::access(
            long_return_offset(),
            AddressSpace::Heap,
            "long_return_flag_pointer"@,
        ),
        InstructionView::store(
            pointer_result(field_pointer_type(AddressSpace::Heap), block, next),
            BasicValueEnum::IntValue(field_const(1)),
        ),
        InstructionView::Branch { destination: throw_block },
    ]
}

/// The context after the long return sequence has been emitted: in an outermost function a
/// branch to the return block of `function`, unless the block at the insertion point ends in
/// a terminator already; in any other function the instructions that set the long return flag
/// and a branch to the throw block of `function`.
pub open spec fn long_returned<D>(context: ContextView<D>, function: FunctionView) -> ContextView<D>
    recommends
        context.function is Some,
        context.position is Some,
{
    if is_outermost(context.function->0.name) {
        context.terminate(InstructionView::Branch { destination: function.return_block })
    } else {
        context.emit(long_return_code(context.here(), context.next(), function.throw_block))
    }
}

/// Generates the long return sequence.
pub fn long_return<D>(context: &mut Context<D>, function: Function) -> (result: Result<
    (),
    Error,
>) where D: Dependency
    requires
        old(context)@.wf(),
        old(context)@.position is Some,
        old(context)@.function is Some,
    ensures
        final(context)@ == long_returned(old(context)@, function@),
        final(context)@.wf(),
        result is Ok,
{
    let outermost = crate::text::equal(context.function().name.as_str(), LLVM_FUNCTION_ENTRY)
        || crate::text::equal(context.function().name.as_str(), LLVM_FUNCTION_CONSTRUCTOR)
        || crate::text::equal(context.function().name.as_str(), LLVM_FUNCTION_SELECTOR);
    if outermost {
        context.build_unconditional_branch(function.return_block);
    } else {
        let ghost code = long_return_code(context@.here(), context@.next(), function@.throw_block);
        let offset = context.long_return_offset();
        let long_return_flag_pointer = context.access_memory(
            offset,
            AddressSpace::Heap,
            "long_return_flag_pointer",
        );
        let one = context.field_const(1);
        context.build_store(long_return_flag_pointer, one.as_basic_value_enum());
        proof {
            assert(context@.module.instructions(context@.here()).last() == code[1]);
            assert(!context@.is_terminated());
        }
        context.build_unconditional_branch(function.throw_block);
        assert(seq![code[0]] + seq![code[1]] + seq![code[2]] =~= code);
    }

    Ok(())
}

/// Emits the instructions that hand data of the heap to the caller.
fn write_data<D>(
    context: &mut Context<D>,
    source_offset: IntValue,
    size: IntValue,
    source_name: &str,
    destination_name: &str,
    copy_name: &str,
) where D: Dependency
    requires
        old(context)@.wf(),
        old(context)@.position is Some,
    ensures
        final(context)@ == old(context)@.emit(
            data_code(
                old(context)@.here(),
                old(context)@.next(),
                source_offset,
                size,
                source_name@,
                destination_name@,
                copy_name@,
            ),
        ),
        final(context)@.wf(),
        final(context)@.function == old(context)@.function,
        final(context)@.position == old(context)@.position,
        !final(context)@.is_terminated(),
{
    let ghost code = data_code(
        context@.here(),
        context@.next(),
        source_offset,
        size,
        source_name@,
        destination_name@,
        copy_name@,
    );
    let source = context.access_memory(source_offset, AddressSpace::Heap, source_name);

    let offset = context.field_const((ABI_MEMORY_OFFSET_DATA * SIZE_FIELD) as u64);
    let destination = context.access_memory(offset, AddressSpace::Parent, destination_name);

    context.write_header(size, AddressSpace::Parent);
    context.build_memcpy(
        IntrinsicFunction::MemoryCopyToParent,
        destination,
        source,
        size,
        copy_name,
    );
    proof {
        let header = write_header_code(
            old(context)@.here(),
            old(context)@.next() + 2,
            size,
            AddressSpace::Parent,
        );
        assert(seq![code[0]] + seq![code[1]] + header + seq![code[4]] =~= code);
        assert(context@.module.instructions(context@.here()).last() == code[4]);
    }
}

/// Translates the normal return: the data is handed to the caller, and the long return
/// sequence follows.
pub fn ret<D>(context: &mut Context<D>, arguments: [BasicValueEnum; 2]) -> (result: Result<
    Option<BasicValueEnum>,
    Error,
>) where D: Dependency
    requires
        old(context)@.wf(),
        old(context)@.position is Some,
        old(context)@.function is Some,
        arguments[0] is IntValue,
        arguments[1] is IntValue,
    ensures
        final(context)@ == long_returned(
            old(context)@.emit(
                data_code(
                    old(context)@.here(),
                    old(context)@.next(),
                    arguments[0]->IntValue_0,
                    arguments[1]->IntValue_0,
                    "return_source_pointer"@,
                    "return_destination_pointer"@,
                    "return_memcpy_to_parent"@,
                ),
            ),
            old(context)@.function->0,
        ),
        final(context)@.wf(),
        result == Ok::<Option<BasicValueEnum>, Error>(None),
{
    let function = context.function().clone();

    write_data(
        context,
        arguments[0].into_int_value(),
        arguments[1].into_int_value(),
        "return_source_pointer",
        "return_destination_pointer",
        "return_memcpy_to_parent",
    );
    let _ = long_return(context, function);

    Ok(None)
}

/// Translates the revert: the data is handed to the caller, and the call is aborted through
/// the throw block.
pub fn revert<D>(context: &mut Context<D>, arguments: [BasicValueEnum; 2]) -> (result: Result<
    Option<BasicValueEnum>,
    Error,
>) where D: Dependency
    requires
        old(context)@.wf(),
        old(context)@.position is Some,
        old(context)@.function is Some,
        arguments[0] is IntValue,
        arguments[1] is IntValue,
    ensures
        final(context)@ == old(context)@.emit(
            data_code(
                old(context)@.here(),
                old(context)@.next(),
                arguments[0]->IntValue_0,
                arguments[1]->IntValue_0,
                "revert_source_pointer"@,
                "revert_destination_pointer"@,
                "revert_memcpy_to_parent"@,
            ) + seq![
                InstructionView::Branch { destination: old(context)@.function->0.throw_block },
            ],
        ),
        final(context)@.wf(),
        result == Ok::<Option<BasicValueEnum>, Error>(None),
{
    let function = context.function().clone();

    write_data(
        context,
        arguments[0].into_int_value(),
        arguments[1].into_int_value(),
        "revert_source_pointer",
        "revert_destination_pointer",
        "revert_memcpy_to_parent",
    );

    context.build_unconditional_branch(function.throw_block);
    Ok(None)
}

/// Translates the stop: the caller is handed no data, and the long return sequence follows.
pub fn stop<D>(context: &mut Context<D>) -> (result: Result<Option<BasicValueEnum>, Error>) where
    D: Dependency,

    requires
        old(context)@.wf(),
        old(context)@.position is Some,
        old(context)@.function is Some,
    ensures
        final(context)@ == long_returned(
            old(context)@.emit(
                write_header_code(
                    old(context)@.here(),
                    old(context)@.next(),
                    field_const(0),
                    AddressSpace::Parent,
                ),
            ),
            old(context)@.function->0,
        ),
        final(context)@.wf(),
        result == Ok::<Option<BasicValueEnum>, Error>(None),
{
    let function = context.function().clone();

    let zero = context.field_const(0);
    context.write_header(zero, AddressSpace::Parent);
    let _ = long_return(context, function);

    Ok(None)
}

/// Translates the invalid: the caller is handed no data, and the call is aborted through the
/// throw block.
pub fn invalid<D>(context: &mut Context<D>) -> (result: Result<Option<BasicValueEnum>, Error>) where
    D: Dependency,

    requires
        old(context)@.wf(),
        old(context)@.position is Some,
        old(context)@.function is Some,
    ensures
        final(context)@ == old(context)@.emit(
            write_header_code(
                old(context)@.here(),
                old(context)@.next(),
                field_const(0),
                AddressSpace::Parent,
            ) + seq![
                InstructionView::Branch { destination: old(context)@.function->0.throw_block },
            ],
        ),
        final(context)@.wf(),
        result == Ok::<Option<BasicValueEnum>, Error>(None),
{
    let function = context.function().clone();

    let zero = context.field_const(0);
    context.write_header(zero, AddressSpace::Parent);
    proof {
        let code = write_header_code(
            old(context)@.here(),
            old(context)@.next(),
            field_const(0),
            AddressSpace::Parent,
        );
        assert(context@.module.instructions(context@.here()).last() == code[1]);
    }

    context.build_unconditional_branch(function.throw_block);
    Ok(None)
}

/// Where the long return sequence leads: emitted into a block that does not end in a
/// terminator, it goes to the return block of the function in an outermost function; in any
/// other function it sets the long return flag and goes to the throw block of the function.
pub proof fn lemma_long_returned<D>(
    context: ContextView<D>,
    function: FunctionView,
    flag_set: bool,
    cxa_throw: FunctionValue,
)
    requires
        context.is_positioned(),
        context.function is Some,
        !context.is_terminated(),
    ensures
        exit(
            long_returned(context, function).module.instructions(context.here()),
            context.here(),
            flag_set,
            cxa_throw,
        ) == Exit::Goes(
            if is_outermost(context.function->0.name) {
                function.return_block
            } else {
                function.throw_block
            },
        ),
        !is_outermost(context.function->0.name) ==> long_returned(
            context,
            function,
        ).module.instructions(context.here()) == context.module.instructions(context.here())
            + long_return_code(context.here(), context.next(), function.throw_block),
{
    if is_outermost(context.function->0.name) {
        lemma_emit_other(
            context,
            seq![InstructionView::Branch { destination: function.return_block }],
            context.here(),
        );
    } else {
        lemma_emit_other(
            context,
            long_return_code(context.here(), context.next(), function.throw_block),
            context.here(),
        );
    }
}

} // verus!
