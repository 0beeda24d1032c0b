//! Translates the contract immutable operations.

use vstd::prelude::*;

use crate::context::literal::field_const;
use crate::context::literal::field_type;
use crate::context::function::intrinsic::Intrinsic as IntrinsicFunction;
use crate::context::literal::hash_constant;
use crate::context::Context;
use crate::error::Error;
use crate::ir::instruction::int_result;
use crate::ir::instruction::InstructionView;
use crate::ir::value::BasicValueEnum;
use crate::ir::value::IntValue;
use crate::Dependency;

verus! {

/// The storage position of the immutable of the given name: the hash of the name.
pub open spec fn position(key: Seq<char>) -> BasicValueEnum {
    BasicValueEnum::IntValue(hash_constant(vstd::utf8::encode_utf8(key)))
}

/// The call that loads the immutable of the given name.
pub open spec fn load_code(key: Seq<char>) -> InstructionView {
    InstructionView::call_intrinsic(
        IntrinsicFunction::StorageLoad,
        seq![position(key), BasicValueEnum::IntValue(field_const(0))],
        "immutable_load"@,
    )
}

/// The call that stores `value` in the immutable of the given name.
pub open spec fn store_code(key: Seq<char>, value: IntValue) -> InstructionView {
    InstructionView::call_intrinsic(
        IntrinsicFunction::StorageStore,
        seq![
            BasicValueEnum::IntValue(value),
            position(key),
            BasicValueEnum::IntValue(field_const(0)),
        ],
        "immutable_store"@,
    )
}

/// Translates the contract immutable load.
pub fn load<D>(context: &mut Context<D>, key: String) -> (result: Result<
    Option<BasicValueEnum>,
    Error,
>) where D: Dependency
    requires
        old(context)@.wf(),
        old(context)@.position is Some,
    ensures
        final(context)@ == old(context)@.emit(seq![load_code(key@)]),
        final(context)@.wf(),
        result == Ok::<Option<BasicValueEnum>, Error>(
            Some(
                BasicValueEnum::IntValue(
                    int_result(field_type(), old(context)@.here(), old(context)@.next()),
                ),
            ),
        ),
{
    let intrinsic = context.get_intrinsic_function(IntrinsicFunction::StorageLoad);

    let hash = crate::hash::keccak256(key.as_str().as_bytes());
    let position = context.field_const_str(hash.as_str());
    let is_external_storage = context.field_const(0);
    let operands = vec![
        position.as_basic_value_enum(),
        is_external_storage.as_basic_value_enum(),
    ];
    assert(operands@ =~= seq![self::position(key@), BasicValueEnum::IntValue(field_const(0))]);
    match context.build_call(intrinsic, operands.as_slice(), "immutable_load") {
        Some(value) => Ok(Some(value)),
        None => vstd::pervasive::unreached(),
    }
}

/// Translates the contract immutable store.
pub fn store<D>(context: &mut Context<D>, key: String, value: IntValue) -> (result: Result<
    Option<BasicValueEnum>,
    Error,
>) where D: Dependency
    requires
        old(context)@.wf(),
        old(context)@.position is Some,
    ensures
        final(context)@ == old(context)@.emit(seq![store_code(key@, value)]),
        final(context)@.wf(),
        result == Ok::<Option<BasicValueEnum>, Error>(None),
{
    let intrinsic = context.get_intrinsic_function(IntrinsicFunction::StorageStore);

    let hash = crate::hash::keccak256(key.as_str().as_bytes());
    let position = context.field_const_str(hash.as_str());
    let is_external_storage = context.field_const(0);
    let operands = vec![
        value.as_basic_value_enum(),
        position.as_basic_value_enum(),
        is_external_storage.as_basic_value_enum(),
    ];
    assert(operands@ =~= seq![
        BasicValueEnum::IntValue(value),
        self::position(key@),
        BasicValueEnum::IntValue(field_const(0)),
    ]);
    let _ = context.build_call(intrinsic, operands.as_slice(), "immutable_store");
    Ok(None)
}

} // verus!
