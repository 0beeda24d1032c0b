//! The translators of the instructions of the stack machine.

pub mod calldata;
pub mod contract;
pub mod create;
pub mod immutable;
pub mod storage;
pub mod termination;

use vstd::prelude::*;

use crate::abi::ABI_ERROR_FORBIDDEN_SEND_TRANSFER;
use crate::abi::BITLENGTH_BOOLEAN;
use crate::context::literal::field_const;
use crate::context::view::group_emit;
use crate::context::view::lemma_emit;
use crate::context::view::lemma_with_block;
use crate::context::unwinding::lemma_at_other;
use crate::context::unwinding::lemma_emit_other;
use crate::context::unwinding::lemma_with_block_other;
use crate::context::emission::write_error_code;
use crate::context::Context;
use crate::context::ContextView;
use crate::ir::instruction::int_result;
use crate::ir::instruction::InstructionView;
use crate::ir::instruction::IntPredicate;
use crate::ir::types::IntType;
use crate::ir::value::BasicBlock;
use crate::ir::value::IntValue;
use crate::Dependency;

verus! {

broadcast use group_emit;

/// The instructions that test whether `value` is zero, when they are emitted at place `next`
/// of `block`: they go on in `zero_block` if it is, and in `non_zero_block` otherwise.
pub open spec fn value_test_code(
    block: BasicBlock,
    next: int,
    value: IntValue,
    zero_block: BasicBlock,
    non_zero_block: BasicBlock,
) -> Seq<InstructionView> {
    seq![
        InstructionView::Compare {
            predicate: IntPredicate::EQ,
            left: value,
            right: field_const(0),
            name: "contract_call_is_value_zero"@,
        },
        InstructionView::ConditionalBranch {
            comparison: int_result(IntType { bit_length: BITLENGTH_BOOLEAN }, block, next),
            then_block: zero_block,
            else_block: non_zero_block,
        },
    ]
}

/// The instructions of the block that rejects a transfer of value, a new block: the error is
/// reported to the caller, and the call is aborted through `throw_block`.
pub open spec fn value_abort_code(block: BasicBlock, throw_block: BasicBlock) -> Seq<
    InstructionView,
> {
    write_error_code(block, 0, ABI_ERROR_FORBIDDEN_SEND_TRANSFER@) + seq![
        InstructionView::Branch { destination: throw_block },
    ]
}

/// The block in which the emission goes on after the check that a value is zero.
pub open spec fn value_zero_block<D>(context: ContextView<D>) -> BasicBlock
    recommends
        context.function is Some,
{
    context.new_block()
}

/// The block that rejects a transfer of value.
pub open spec fn value_non_zero_block<D>(context: ContextView<D>) -> BasicBlock
    recommends
        context.function is Some,
{
    context.with_block("contract_call_value_zero_block"@).new_block()
}

/// The context after the check that a value is zero has been emitted: the current function
/// has two more blocks; the block of the insertion point tests the value; the second new
/// block, where the test goes if the value is not zero, reports the error and aborts the
/// call; the first new block, where the test goes if the value is zero, is empty, and the
/// insertion point is there.
pub open spec fn value_checked<D>(context: ContextView<D>, value: IntValue) -> ContextView<D>
    recommends
        context.function is Some,
        context.position is Some,
{
    let zero_block = value_zero_block(context);
    let non_zero_block = value_non_zero_block(context);
    context.with_block("contract_call_value_zero_block"@).with_block(
        "contract_call_value_non_zero_block"@,
    ).emit(value_test_code(context.here(), context.next(), value, zero_block, non_zero_block)).at(
        non_zero_block,
    ).emit(value_abort_code(non_zero_block, context.function->0.throw_block)).at(zero_block)
}

/// Emits the check that a value is zero: a call that transfers value reports an error to its
/// caller and is aborted.
#[verifier::rlimit(40)]
pub fn check_value_zero<D>(context: &mut Context<D>, value: IntValue) where D: Dependency
    requires
        old(context)@.wf(),
        old(context)@.position is Some,
        old(context)@.function is Some,
    ensures
        final(context)@ == value_checked(old(context)@, value),
        final(context)@.wf(),
        final(context)@.position == Some(value_zero_block(old(context)@)),
        final(context)@.function == old(context)@.function,
        final(context)@.next() == 0,
        old(context)@.has_room(2),
{
    let ghost before = context@;
    let value_zero_block = context.append_basic_block("contract_call_value_zero_block");
    let ghost first = context@;
    let value_non_zero_block = context.append_basic_block("contract_call_value_non_zero_block");
    let ghost second = context@;
    let ghost test = value_test_code(
        before.here(),
        before.next(),
        value,
        value_zero_block,
        value_non_zero_block,
    );
    proof {
        lemma_with_block(before, "contract_call_value_zero_block"@);
        lemma_with_block(first, "contract_call_value_non_zero_block"@);
    }

    let zero = context.field_const(0);
    let is_value_zero = context.build_int_compare(
        IntPredicate::EQ,
        value,
        zero,
        "contract_call_is_value_zero",
    );
    let ghost third = context@;
    proof {
        lemma_emit(second, seq![test[0]]);
        assert(third.module.instructions(before.here()).last() == test[0]);
        assert(!third.is_terminated());
    }
    context.build_conditional_branch(is_value_zero, value_zero_block, value_non_zero_block);
    let ghost fourth = context@;
    proof {
        assert(seq![test[0]] + seq![test[1]] =~= test);
        lemma_emit(second, test);
        assert(fourth == second.emit(test));
    }

    context.set_basic_block(value_non_zero_block);
    let ghost fifth = context@;
    assert(fifth.next() == 0);
    context.write_error(ABI_ERROR_FORBIDDEN_SEND_TRANSFER);
    let ghost sixth = context@;
    let throw_block = context.function().throw_block;
    proof {
        let error = write_error_code(value_non_zero_block, 0, ABI_ERROR_FORBIDDEN_SEND_TRANSFER@);
        lemma_emit(fifth, error);
        assert(sixth.module.instructions(value_non_zero_block).last() == error[4]);
        assert(!sixth.is_terminated());
    }
    context.build_unconditional_branch(throw_block);
    proof {
        lemma_emit(fifth, value_abort_code(value_non_zero_block, throw_block));
    }

    context.set_basic_block(value_zero_block);
}

/// What the check that a value is zero leaves, block by block: the block of the insertion
/// point has the test at its end; the block that the test goes to if the value is not zero
/// reports the error and aborts the call through the throw block; the block that the test
/// goes to if the value is zero is empty, and the insertion point is there; no other block
/// has changed.
#[verifier::rlimit(40)]
pub proof fn lemma_value_checked<D>(context: ContextView<D>, value: IntValue, block: BasicBlock)
    requires
        context.is_positioned(),
        context.has_room(2),
        context.module.has_block(block),
    ensures
        value_checked(context, value).module.has_block(block),
        block != context.here() ==> value_checked(context, value).module.instructions(block)
            == context.module.instructions(block),
        value_checked(context, value).module.instructions(context.here())
            == context.module.instructions(context.here()) + value_test_code(
            context.here(),
            context.next(),
            value,
            value_zero_block(context),
            value_non_zero_block(context),
        ),
        value_checked(context, value).module.has_block(value_non_zero_block(context)),
        value_checked(context, value).module.instructions(value_non_zero_block(context))
            == value_abort_code(value_non_zero_block(context), context.function->0.throw_block),
        value_checked(context, value).is_positioned(),
        value_checked(context, value).here() == value_zero_block(context),
        value_checked(context, value).next() == 0,
        value_checked(context, value).function == context.function,
        value_checked(context, value).has_room(0),
        value_checked(context, value).module.functions[context.function->0.index()].blocks.len()
            == context.module.functions[context.function->0.index()].blocks.len() + 2,
        !context.module.has_block(value_zero_block(context)),
        !context.module.has_block(value_non_zero_block(context)),
        value_zero_block(context) != value_non_zero_block(context),
{
    let zero = value_zero_block(context);
    let non_zero = value_non_zero_block(context);
    let here = context.here();
    let first = context.with_block("contract_call_value_zero_block"@);
    let second = first.with_block("contract_call_value_non_zero_block"@);
    let test = value_test_code(here, context.next(), value, zero, non_zero);
    let abort = value_abort_code(non_zero, context.function->0.throw_block);
    lemma_with_block_other(context, "contract_call_value_zero_block"@, block);
    lemma_with_block_other(context, "contract_call_value_zero_block"@, here);
    lemma_with_block_other(first, "contract_call_value_non_zero_block"@, block);
    lemma_with_block_other(first, "contract_call_value_non_zero_block"@, here);
    lemma_with_block_other(first, "contract_call_value_non_zero_block"@, zero);
    let third = second.emit(test);
    lemma_emit_other(second, test, block);
    lemma_emit_other(second, test, here);
    lemma_emit_other(second, test, zero);
    lemma_emit_other(second, test, non_zero);
    let fourth = third.at(non_zero);
    lemma_at_other(third, non_zero, block);
    let fifth = fourth.emit(abort);
    lemma_emit_other(fourth, abort, block);
    lemma_emit_other(fourth, abort, here);
    lemma_emit_other(fourth, abort, zero);
    lemma_emit_other(fourth, abort, non_zero);
    lemma_at_other(fifth, zero, block);
    assert(Seq::<InstructionView>::empty() + abort =~= abort);
}

} // verus!
