//! Translates the contract storage operations.

use vstd::prelude::*;

use crate::context::literal::field_const;
use crate::context::literal::field_type;
use crate::context::function::intrinsic::Intrinsic as IntrinsicFunction;
use crate::context::Context;
use crate::error::Error;
use crate::ir::instruction::int_result;
use crate::ir::instruction::InstructionView;
use crate::ir::value::BasicValueEnum;
use crate::Dependency;

verus! {

/// The call that loads the word at `position` of the storage of the contract itself.
pub open spec fn load_code(position: BasicValueEnum) -> InstructionView {
    InstructionView::call_intrinsic(
        IntrinsicFunction::StorageLoad,
        seq![position, BasicValueEnum::IntValue(field_const(0))],
        "storage_load"@,
    )
}

/// The call that stores `value` at `position` of the storage of the contract itself.
pub open spec fn store_code(position: BasicValueEnum, value: BasicValueEnum) -> InstructionView {
    InstructionView::call_intrinsic(
        IntrinsicFunction::StorageStore,
        seq![value, position, BasicValueEnum::IntValue(field_const(0))],
        "storage_store"@,
    )
}

/// Translates the contract storage load.
pub fn load<D>(context: &mut Context<D>, arguments: [BasicValueEnum; 1]) -> (result: Result<
    Option<BasicValueEnum>,
    Error,
>) where D: Dependency
    requires
        old(context)@.wf(),
        old(context)@.position is Some,
    ensures
        final(context)@ == old(context)@.emit(seq![load_code(arguments[0])]),
        final(context)@.wf(),
        result == Ok::<Option<BasicValueEnum>, Error>(
            Some(
                BasicValueEnum::IntValue(
                    int_result(field_type(), old(context)@.here(), old(context)@.next()),
                ),
            ),
        ),
{
    let intrinsic = context.get_intrinsic_function(IntrinsicFunction::StorageLoad);

    let position = arguments[0];
    let is_external_storage = context.field_const(0);
    let operands = vec![position, is_external_storage.as_basic_value_enum()];
    assert(operands@ =~= seq![position, BasicValueEnum::IntValue(field_const(0))]);
    match context.build_call(intrinsic, operands.as_slice(), "storage_load") {
        Some(value) => Ok(Some(value)),
        None => vstd::pervasive::unreached(),
    }
}

/// Translates the contract storage store.
pub fn store<D>(context: &mut Context<D>, arguments: [BasicValueEnum; 2]) -> (result: Result<
    Option<BasicValueEnum>,
    Error,
>) where D: Dependency
    requires
        old(context)@.wf(),
        old(context)@.position is Some,
    ensures
        final(context)@ == old(context)@.emit(seq![store_code(arguments[0], arguments[1])]),
        final(context)@.wf(),
        result == Ok::<Option<BasicValueEnum>, Error>(None),
{
    let intrinsic = context.get_intrinsic_function(IntrinsicFunction::StorageStore);

    let position = arguments[0];
    let value = arguments[1];
    let is_external_storage = context.field_const(0);
    let operands = vec![value, position, is_external_storage.as_basic_value_enum()];
    assert(operands@ =~= seq![value, position, BasicValueEnum::IntValue(field_const(0))]);
    let _ = context.build_call(intrinsic, operands.as_slice(), "storage_store");
    Ok(None)
}

} // verus!
