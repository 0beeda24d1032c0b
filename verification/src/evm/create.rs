//! Translates the contract creation instructions.

use vstd::prelude::*;

use crate::abi::ABI_ADDRESS_CREATE;
use crate::abi::ABI_ADDRESS_KECCAK256;
use crate::abi::ABI_HEADER_CONSTRUCTOR_FLAG;
use crate::abi::ABI_MEMORY_OFFSET_DATA;
use crate::abi::ABI_MEMORY_OFFSET_HEADER;
use crate::abi::ABI_STORAGE_DEPLOYED_CONTRACTS_COUNTER;
use crate::abi::BITLENGTH_X32;
use crate::abi::SIZE_FIELD;
use crate::context::address_space::AddressSpace;
use crate::context::literal::data_offset;
use crate::context::literal::field_const;
use crate::context::literal::field_type;
use crate::context::literal::field_word;
use crate::context::literal::reads_answer_value;
use crate::context::function::intrinsic::Intrinsic as IntrinsicFunction;
use crate::context::literal::hash_constant;
use crate::context::literal::header_offset;
use crate::context::view::lemma_emit;
use crate::context::view::lemma_emit_emit;
use crate::context::view::lemma_emit_next;
use crate::context::view::lemma_emit_prefix;
use crate::context::Context;
use crate::context::ContextView;
use crate::error::Error;
use crate::error::ErrorView;
use crate::evm::value_checked;
use crate::evm::value_zero_block;
use crate::ir::instruction::field_pointer_type;
use crate::ir::instruction::int_result;
use crate::ir::instruction::pointer_result;
use crate::ir::instruction::BinaryOperation;
use crate::ir::instruction::InstructionView;
use crate::ir::value::BasicBlock;
use crate::ir::value::BasicValueEnum;
use crate::ir::value::IntValue;
use crate::ir::value::PointerValue;
use crate::ir::value::Source;
use crate::text::has_suffix;
use crate::word::numeral_value;
use crate::Dependency;

verus! {

/// The call that switches to the context of the callee.
pub open spec fn switch_context(name: Seq<char>) -> InstructionView {
    InstructionView::call_intrinsic(IntrinsicFunction::SwitchContext, seq![], name)
}

/// The definition of a call of the contract at the address that `literal` denotes: the
/// address, shifted into the high bits.
pub open spec fn call_definition(address: IntValue) -> InstructionView {
    InstructionView::Binary {
        operation: BinaryOperation::ShiftLeft,
        left: address,
        right: field_const(BITLENGTH_X32 as u64),
        name: ""@,
    }
}

/// The sum of `left` and the size of a word.
pub open spec fn plus_word(left: IntValue, name: Seq<char>) -> InstructionView {
    InstructionView::Binary {
        operation: BinaryOperation::Add,
        left,
        right: field_const(SIZE_FIELD as u64),
        name,
    }
}

/// The instructions that compute the size of what is hashed to the salt, when they are
/// emitted at place `next` of `block`: after the switch of the context, the size of the
/// constructor arguments grows by a word for the counter, and by another if there is a salt.
pub open spec fn salt_size_code(
    block: BasicBlock,
    next: int,
    constructor_input_size: IntValue,
    salt: Option<IntValue>,
) -> Seq<InstructionView> {
    let counted = seq![
        switch_context("salt_keccak256_switch_context"@),
        plus_word(constructor_input_size, "salt_keccak256_input_size_with_counter"@),
    ];
    match salt {
        Some(_) => counted + seq![
            plus_word(
                int_result(constructor_input_size.ty, block, next + 1),
                "salt_keccak256_input_size_with_salt"@,
            ),
        ],
        None => counted,
    }
}

/// The instructions that lay out what is hashed to the salt, up to the counter, when they
/// are emitted at place `next` of `block`: the header of the child memory takes
/// `input_size`; the constructor arguments are copied from the heap to the data of the child
/// memory; the counter is stored behind them.
pub open spec fn salt_layout_code(
    block: BasicBlock,
    next: int,
    input_size: IntValue,
    constructor_input_offset: IntValue,
    constructor_input_size: IntValue,
    counter_value: IntValue,
) -> Seq<InstructionView> {
    seq![
        InstructionView::access(
            header_offset(),
            AddressSpace::Child,
            "salt_keccak256_child_pointer_header"@,
        ),
        InstructionView::store(
            pointer_result(field_pointer_type(AddressSpace::Child), block, next),
            BasicValueEnum::IntValue(input_size),
        ),
        InstructionView::access(
            data_offset(),
            AddressSpace::Child,
            "salt_keccak256_child_pointer_data"@,
        ),
        InstructionView::access(
            constructor_input_offset,
            AddressSpace::Heap,
            "salt_keccak256_heap_pointer_constructor_data"@,
        ),
        InstructionView::memcpy(
            IntrinsicFunction::MemoryCopyToChild,
            pointer_result(field_pointer_type(AddressSpace::Child), block, next + 2),
            pointer_result(field_pointer_type(AddressSpace::Heap), block, next + 3),
            constructor_input_size,
            "salt_keccak256_memcpy_to_child"@,
        ),
        InstructionView::Binary {
            operation: BinaryOperation::Add,
            left: data_offset(),
            right: constructor_input_size,
            name: "salt_keccak256_child_offset_counter"@,
        },
        InstructionView::access(
            int_result(field_type(), block, next + 5),
            AddressSpace::Child,
            "salt_keccak256_child_pointer_counter"@,
        ),
        InstructionView::store(
            pointer_result(field_pointer_type(AddressSpace::Child), block, next + 6),
            BasicValueEnum::IntValue(counter_value),
        ),
    ]
}

/// The instructions that store the salt given by the caller a word behind the counter, whose
/// offset is `counter_offset`, when they are emitted at place `next` of `block`.
pub open spec fn salt_store_code(
    block: BasicBlock,
    next: int,
    counter_offset: IntValue,
    salt: IntValue,
) -> Seq<InstructionView> {
    seq![
        plus_word(counter_offset, "salt_keccak256_child_offset_salt"@),
        InstructionView::access(
            int_result(counter_offset.ty, block, next),
            AddressSpace::Child,
            "salt_keccak256_child_pointer_salt"@,
        ),
        InstructionView::store(
            pointer_result(field_pointer_type(AddressSpace::Child), block, next + 1),
            BasicValueEnum::IntValue(salt),
        ),
    ]
}

/// The address of the `keccak256` precompile, as a constant.
pub open spec fn keccak256_address() -> IntValue {
    field_word(numeral_value(ABI_ADDRESS_KECCAK256@, 16))
}

/// The address of the precompile that computes the address of a contract to deploy, as a
/// constant.
pub open spec fn create_address() -> IntValue {
    field_word(numeral_value(ABI_ADDRESS_CREATE@, 16))
}

/// The flag that a constructor call carries in the header of the child memory, as a
/// constant.
pub open spec fn constructor_flag() -> IntValue {
    field_word(numeral_value(ABI_HEADER_CONSTRUCTOR_FLAG@, 16))
}

/// The instructions that hash what was laid out, when they are emitted at place `next` of
/// `block`, and load the hash from the data of the child memory, the pointer to which the
/// instruction at place `data` of the block gives.
pub open spec fn salt_hash_code(block: BasicBlock, next: int, data: int) -> Seq<InstructionView> {
    seq![
        call_definition(keccak256_address()),
        InstructionView::call_intrinsic(
            IntrinsicFunction::StaticCall,
            seq![BasicValueEnum::IntValue(int_result(field_type(), block, next))],
            "salt_keccak256_call_external"@,
        ),
        InstructionView::load(
            pointer_result(field_pointer_type(AddressSpace::Child), block, data),
            "salt_keccak256_result"@,
        ),
    ]
}

/// The number of instructions that compute the size of what is hashed to the salt.
pub open spec fn salt_size_length(salt: Option<IntValue>) -> int {
    if salt is Some {
        3
    } else {
        2
    }
}

/// The number of instructions that hash the salt.
pub open spec fn salt_length(salt: Option<IntValue>) -> int {
    if salt is Some {
        17
    } else {
        13
    }
}

/// The instructions that hash the salt, when they are emitted at place `next` of `block`:
/// what is hashed is the constructor arguments, then the counter of the contracts deployed,
/// then the salt given by the caller, if there is one.
pub open spec fn salt_code(
    block: BasicBlock,
    next: int,
    constructor_input_offset: IntValue,
    constructor_input_size: IntValue,
    counter_value: IntValue,
    salt: Option<IntValue>,
) -> Seq<InstructionView> {
    let layout = next + salt_size_length(salt);
    let sized = salt_size_code(block, next, constructor_input_size, salt) + salt_layout_code(
        block,
        layout,
        int_result(constructor_input_size.ty, block, layout - 1),
        constructor_input_offset,
        constructor_input_size,
        counter_value,
    );
    match salt {
        Some(salt) => sized + salt_store_code(
            block,
            layout + 8,
            int_result(field_type(), block, layout + 5),
            salt,
        ) + salt_hash_code(block, layout + 11, layout + 2),
        None => sized + salt_hash_code(block, layout + 8, layout + 2),
    }
}

/// The hash that the instructions of `salt_code` give.
pub open spec fn salt_result(block: BasicBlock, next: int, salt: Option<IntValue>) -> BasicValueEnum {
    BasicValueEnum::IntValue(int_result(field_type(), block, next + salt_length(salt) - 1))
}

/// Emits the instructions that compute the size of what is hashed to the salt, and returns
/// the size.
fn salt_size<D>(
    context: &mut Context<D>,
    constructor_input_size: IntValue,
    salt: Option<IntValue>,
) -> (result: IntValue) where D: Dependency
    requires
        old(context)@.wf(),
        old(context)@.position is Some,
    ensures
        final(context)@ == old(context)@.emit(
            salt_size_code(
                old(context)@.here(),
                old(context)@.next(),
                constructor_input_size,
                salt,
            ),
        ),
        final(context)@.wf(),
        result == int_result(
            constructor_input_size.ty,
            old(context)@.here(),
            old(context)@.next() + salt_size_length(salt) - 1,
        ),
{
    let ghost start = context@;
    let ghost code = salt_size_code(context@.here(), context@.next(), constructor_input_size, salt);
    let intrinsic = context.get_intrinsic_function(IntrinsicFunction::SwitchContext);
    let nothing: Vec<BasicValueEnum> = Vec::new();
    assert(nothing@ =~= seq![]);
    let _ = context.build_call(intrinsic, nothing.as_slice(), "salt_keccak256_switch_context");

    let word = context.field_const(SIZE_FIELD as u64);
    let mut input_size = context.build_binary(
        BinaryOperation::Add,
        constructor_input_size,
        word,
        "salt_keccak256_input_size_with_counter",
    );
    proof {
        lemma_emit_prefix(start, code, 0);
        lemma_emit_prefix(start, code, 1);
    }
    if salt.is_some() {
        input_size = context.build_binary(
            BinaryOperation::Add,
            input_size,
            word,
            "salt_keccak256_input_size_with_salt",
        );
        proof {
            lemma_emit_prefix(start, code, 2);
        }
    }
    proof {
        lemma_emit(start, code);
    }
    input_size
}

/// Emits the instructions that lay out what is hashed to the salt, up to the counter, and
/// returns the pointer to the data of the child memory and the offset of the counter.
#[verifier::rlimit(40)]
fn salt_layout<D>(
    context: &mut Context<D>,
    input_size: IntValue,
    constructor_input_offset: IntValue,
    constructor_input_size: IntValue,
    counter_value: IntValue,
) -> (result: (PointerValue, IntValue)) where D: Dependency
    requires
        old(context)@.wf(),
        old(context)@.position is Some,
    ensures
        final(context)@ == old(context)@.emit(
            salt_layout_code(
                old(context)@.here(),
                old(context)@.next(),
                input_size,
                constructor_input_offset,
                constructor_input_size,
                counter_value,
            ),
        ),
        final(context)@.wf(),
        result.0 == pointer_result(
            field_pointer_type(AddressSpace::Child),
            old(context)@.here(),
            old(context)@.next() + 2,
        ),
        result.1 == int_result(field_type(), old(context)@.here(), old(context)@.next() + 5),
{
    let ghost start = context@;
    let ghost code = salt_layout_code(
        context@.here(),
        context@.next(),
        input_size,
        constructor_input_offset,
        constructor_input_size,
        counter_value,
    );
    let offset = context.field_const((ABI_MEMORY_OFFSET_HEADER * SIZE_FIELD) as u64);
    let child_pointer_header = context.access_memory(
        offset,
        AddressSpace::Child,
        "salt_keccak256_child_pointer_header",
    );
    context.build_store(child_pointer_header, input_size.as_basic_value_enum());

    let child_offset_data = context.field_const((ABI_MEMORY_OFFSET_DATA * SIZE_FIELD) as u64);
    let child_pointer_data = context.access_memory(
        child_offset_data,
        AddressSpace::Child,
        "salt_keccak256_child_pointer_data",
    );
    let child_offset_constructor_data = child_offset_data;
    let child_pointer_constructor_data = child_pointer_data;
    let constructor_input_pointer = context.access_memory(
        constructor_input_offset,
        AddressSpace::Heap,
        "salt_keccak256_heap_pointer_constructor_data",
    );
    proof {
        lemma_emit_prefix(start, code, 0);
        lemma_emit_prefix(start, code, 1);
        lemma_emit_prefix(start, code, 2);
        lemma_emit_prefix(start, code, 3);
        assert(context@ == start.emit(code.take(4)));
    }
    context.build_memcpy(
        IntrinsicFunction::MemoryCopyToChild,
        child_pointer_constructor_data,
        constructor_input_pointer,
        constructor_input_size,
        "salt_keccak256_memcpy_to_child",
    );

    let child_offset_counter = context.build_binary(
        BinaryOperation::Add,
        child_offset_constructor_data,
        constructor_input_size,
        "salt_keccak256_child_offset_counter",
    );
    let child_pointer_counter = context.access_memory(
        child_offset_counter,
        AddressSpace::Child,
        "salt_keccak256_child_pointer_counter",
    );
    context.build_store(child_pointer_counter, counter_value.as_basic_value_enum());
    proof {
        lemma_emit_prefix(start, code, 4);
        lemma_emit_prefix(start, code, 5);
        lemma_emit_prefix(start, code, 6);
        lemma_emit_prefix(start, code, 7);
    }
    (child_pointer_data, child_offset_counter)
}

/// Emits the instructions that store the salt given by the caller a word behind the counter.
fn salt_store<D>(context: &mut Context<D>, child_offset_counter: IntValue, salt: IntValue) where
    D: Dependency,

    requires
        old(context)@.wf(),
        old(context)@.position is Some,
    ensures
        final(context)@ == old(context)@.emit(
            salt_store_code(
                old(context)@.here(),
                old(context)@.next(),
                child_offset_counter,
                salt,
            ),
        ),
        final(context)@.wf(),
{
    let ghost start = context@;
    let ghost code = salt_store_code(context@.here(), context@.next(), child_offset_counter, salt);
    let word = context.field_const(SIZE_FIELD as u64);
    let child_offset_salt = context.build_binary(
        BinaryOperation::Add,
        child_offset_counter,
        word,
        "salt_keccak256_child_offset_salt",
    );
    let child_pointer_salt = context.access_memory(
        child_offset_salt,
        AddressSpace::Child,
        "salt_keccak256_child_pointer_salt",
    );
    context.build_store(child_pointer_salt, salt.as_basic_value_enum());
    proof {
        lemma_emit_prefix(start, code, 0);
        lemma_emit_prefix(start, code, 1);
        lemma_emit_prefix(start, code, 2);
    }
}

/// Emits the instructions that hash what was laid out, and returns the hash, which is loaded
/// through `child_pointer_data`.
fn salt_hash<D>(context: &mut Context<D>, child_pointer_data: PointerValue) -> (result:
    BasicValueEnum) where D: Dependency
    requires
        old(context)@.wf(),
        old(context)@.position is Some,
        child_pointer_data.ty == field_pointer_type(AddressSpace::Child),
        child_pointer_data.source matches Source::Instruction { block, index } && block
            == old(context)@.here(),
    ensures
        final(context)@ == old(context)@.emit(
            salt_hash_code(
                old(context)@.here(),
                old(context)@.next(),
                child_pointer_data.source->index as int,
            ),
        ),
        final(context)@.wf(),
        result == BasicValueEnum::IntValue(
            int_result(field_type(), old(context)@.here(), old(context)@.next() + 2),
        ),
{
    let ghost start = context@;
    let ghost code = salt_hash_code(
        context@.here(),
        context@.next(),
        child_pointer_data.source->index as int,
    );
    let intrinsic = context.get_intrinsic_function(IntrinsicFunction::StaticCall);
    proof {
        crate::abi::lemma_literals();
    }
    let address = context.field_const_str(ABI_ADDRESS_KECCAK256);
    let shift = context.field_const(BITLENGTH_X32 as u64);
    let call_definition = context.build_binary(BinaryOperation::ShiftLeft, address, shift, "");
    let operands = vec![call_definition.as_basic_value_enum()];
    assert(operands@ =~= seq![BasicValueEnum::IntValue(call_definition)]);
    let _ = context.build_call(intrinsic, operands.as_slice(), "salt_keccak256_call_external");

    let result = context.build_load(child_pointer_data, "salt_keccak256_result");
    proof {
        lemma_emit_prefix(start, code, 0);
        lemma_emit_prefix(start, code, 1);
        lemma_emit_prefix(start, code, 2);
    }
    result
}

/// Gets the `keccak256` of the salt, which consists of the constructor arguments, nonce, and the
/// salt provided by Yul.
#[verifier::rlimit(40)]
pub fn call_keccak256_salt<D>(
    context: &mut Context<D>,
    constructor_input_offset: IntValue,
    constructor_input_size: IntValue,
    counter_value: IntValue,
    salt: Option<IntValue>,
) -> (result: BasicValueEnum) where D: Dependency
    requires
        old(context)@.wf(),
        old(context)@.position is Some,
    ensures
        final(context)@ == old(context)@.emit(
            salt_code(
                old(context)@.here(),
                old(context)@.next(),
                constructor_input_offset,
                constructor_input_size,
                counter_value,
                salt,
            ),
        ),
        final(context)@.wf(),
        result == salt_result(old(context)@.here(), old(context)@.next(), salt),
{
    let ghost start = context@;
    let ghost block = context@.here();
    let ghost next = context@.next();
    let ghost layout = next + salt_size_length(salt);
    let ghost size_code = salt_size_code(block, next, constructor_input_size, salt);

    let input_size = salt_size(context, constructor_input_size, salt);
    proof {
        lemma_emit_next(start, size_code);
    }
    let ghost layout_code = salt_layout_code(
        block,
        layout,
        input_size,
        constructor_input_offset,
        constructor_input_size,
        counter_value,
    );
    let (child_pointer_data, child_offset_counter) = salt_layout(
        context,
        input_size,
        constructor_input_offset,
        constructor_input_size,
        counter_value,
    );
    proof {
        lemma_emit_emit(start, size_code, layout_code);
        lemma_emit_next(start, size_code + layout_code);
    }
    let ghost laid = size_code + layout_code;

    match salt {
        Some(salt) => {
            let ghost store_code = salt_store_code(block, layout + 8, child_offset_counter, salt);
            salt_store(context, child_offset_counter, salt);
            proof {
                lemma_emit_emit(start, laid, store_code);
                lemma_emit_next(start, laid + store_code);
            }
            let result = salt_hash(context, child_pointer_data);
            proof {
                lemma_emit_emit(
                    start,
                    laid + store_code,
                    salt_hash_code(block, layout + 11, layout + 2),
                );
            }
            result
        },
        None => {
            let result = salt_hash(context, child_pointer_data);
            proof {
                lemma_emit_emit(start, laid, salt_hash_code(block, layout + 8, layout + 2));
            }
            result
        },
    }
}

/// The number of instructions that call the precompile which computes the address of a
/// contract to deploy.
pub open spec fn address_length() -> int {
    11
}

/// The instructions that get the address of the contract to deploy, when they are emitted at
/// place `next` of `block`: the data of the child memory takes the hash of the code and the
/// salt, two words, and the precompile is called, which leaves the address there.
pub open spec fn address_code(
    block: BasicBlock,
    next: int,
    hash: IntValue,
    salt: IntValue,
) -> Seq<InstructionView> {
    seq![
        switch_context("create_precompile_switch_context"@),
        InstructionView::access(
            header_offset(),
            AddressSpace::Child,
            "create_precompile_child_pointer_header"@,
        ),
        InstructionView::store(
            pointer_result(field_pointer_type(AddressSpace::Child), block, next + 1),
            BasicValueEnum::IntValue(field_const((SIZE_FIELD * 2) as u64)),
        ),
        InstructionView::access(
            data_offset(),
            AddressSpace::Child,
            "create_precompile_child_pointer_hash"@,
        ),
        InstructionView::store(
            pointer_result(field_pointer_type(AddressSpace::Child), block, next + 3),
            BasicValueEnum::IntValue(hash),
        ),
        plus_word(data_offset(), "create_precompile_child_offset_salt"@),
        InstructionView::access(
            int_result(field_type(), block, next + 5),
            AddressSpace::Child,
            "create_precompile_child_pointer_salt"@,
        ),
        InstructionView::store(
            pointer_result(field_pointer_type(AddressSpace::Child), block, next + 6),
            BasicValueEnum::IntValue(salt),
        ),
        call_definition(create_address()),
        InstructionView::call_intrinsic(
            IntrinsicFunction::FarCall,
            seq![BasicValueEnum::IntValue(int_result(field_type(), block, next + 8))],
            "create_precompile_call_external"@,
        ),
        InstructionView::load(
            pointer_result(field_pointer_type(AddressSpace::Child), block, next + 3),
            "create_precompile_result"@,
        ),
    ]
}

/// Calls the `create` precompile, which returns the newly deployed contract address.
#[verifier::rlimit(40)]
pub fn call_address_precompile<D>(context: &mut Context<D>, hash: IntValue, salt: IntValue) -> (result:
    BasicValueEnum) where D: Dependency
    requires
        old(context)@.wf(),
        old(context)@.position is Some,
    ensures
        final(context)@ == old(context)@.emit(
            address_code(old(context)@.here(), old(context)@.next(), hash, salt),
        ),
        final(context)@.wf(),
        result == BasicValueEnum::IntValue(
            int_result(field_type(), old(context)@.here(), old(context)@.next() + 10),
        ),
{
    let ghost start = context@;
    let ghost code = address_code(context@.here(), context@.next(), hash, salt);
    let intrinsic = context.get_intrinsic_function(IntrinsicFunction::SwitchContext);
    let nothing: Vec<BasicValueEnum> = Vec::new();
    assert(nothing@ =~= seq![]);
    let _ = context.build_call(intrinsic, nothing.as_slice(), "create_precompile_switch_context");

    let offset = context.field_const((ABI_MEMORY_OFFSET_HEADER * SIZE_FIELD) as u64);
    let child_pointer_header = context.access_memory(
        offset,
        AddressSpace::Child,
        "create_precompile_child_pointer_header",
    );
    let input_size = context.field_const((SIZE_FIELD * 2) as u64);
    context.build_store(child_pointer_header, input_size.as_basic_value_enum());

    let child_offset_data = context.field_const((ABI_MEMORY_OFFSET_DATA * SIZE_FIELD) as u64);
    let child_pointer_data = context.access_memory(
        child_offset_data,
        AddressSpace::Child,
        "create_precompile_child_pointer_hash",
    );
    let child_pointer_hash = child_pointer_data;
    context.build_store(child_pointer_hash, hash.as_basic_value_enum());
    proof {
        lemma_emit_prefix(start, code, 0);
        lemma_emit_prefix(start, code, 1);
        lemma_emit_prefix(start, code, 2);
        lemma_emit_prefix(start, code, 3);
        lemma_emit_prefix(start, code, 4);
        assert(context@ == start.emit(code.take(5)));
    }

    let word = context.field_const(SIZE_FIELD as u64);
    let child_offset_salt = context.build_binary(
        BinaryOperation::Add,
        child_offset_data,
        word,
        "create_precompile_child_offset_salt",
    );
    let child_pointer_salt = context.access_memory(
        child_offset_salt,
        AddressSpace::Child,
        "create_precompile_child_pointer_salt",
    );
    context.build_store(child_pointer_salt, salt.as_basic_value_enum());

    let intrinsic = context.get_intrinsic_function(IntrinsicFunction::FarCall);
    proof {
        crate::abi::lemma_literals();
    }
    let address = context.field_const_str(ABI_ADDRESS_CREATE);
    let shift = context.field_const(BITLENGTH_X32 as u64);
    let call_definition = context.build_binary(BinaryOperation::ShiftLeft, address, shift, "");
    let operands = vec![call_definition.as_basic_value_enum()];
    assert(operands@ =~= seq![BasicValueEnum::IntValue(call_definition)]);
    let _ = context.build_call(intrinsic, operands.as_slice(), "create_precompile_call_external");

    let result = context.build_load(child_pointer_data, "create_precompile_result");
    proof {
        lemma_emit_prefix(start, code, 5);
        lemma_emit_prefix(start, code, 6);
        lemma_emit_prefix(start, code, 7);
        lemma_emit_prefix(start, code, 8);
        lemma_emit_prefix(start, code, 9);
        lemma_emit_prefix(start, code, 10);
    }

    result
}

/// The number of instructions that call the constructor of a deployed contract.
pub open spec fn constructor_length() -> int {
    9
}

/// The instructions that call the constructor of the contract at `address`, when they are
/// emitted at place `next` of `block`: the header of the child memory takes the size of the
/// constructor arguments, marked as the input of a constructor; the arguments are copied
/// from the heap to the data of the child memory; the call is made.
pub open spec fn constructor_code(
    block: BasicBlock,
    next: int,
    address: IntValue,
    constructor_input_offset: IntValue,
    constructor_input_size: IntValue,
) -> Seq<InstructionView> {
    seq![
        switch_context("create_switch_context"@),
        InstructionView::Binary {
            operation: BinaryOperation::Or,
            left: constructor_input_size,
            right: constructor_flag(),
            name: "child_header_data"@,
        },
        InstructionView::access(
            header_offset(),
            AddressSpace::Child,
            "create_child_pointer_header"@,
        ),
        InstructionView::store(
            pointer_result(field_pointer_type(AddressSpace::Child), block, next + 2),
            BasicValueEnum::IntValue(int_result(constructor_input_size.ty, block, next + 1)),
        ),
        InstructionView::access(
            data_offset(),
            AddressSpace::Child,
            "create_child_input_destination"@,
        ),
        InstructionView::access(
            constructor_input_offset,
            AddressSpace::Heap,
            "create_child_input_source"@,
        ),
        InstructionView::memcpy(
            IntrinsicFunction::MemoryCopyToChild,
            pointer_result(field_pointer_type(AddressSpace::Child), block, next + 4),
            pointer_result(field_pointer_type(AddressSpace::Heap), block, next + 5),
            constructor_input_size,
            "create_memcpy_to_child"@,
        ),
        call_definition(address),
        InstructionView::call_intrinsic(
            IntrinsicFunction::FarCall,
            seq![BasicValueEnum::IntValue(int_result(address.ty, block, next + 7))],
            "create_call"@,
        ),
    ]
}

/// Calls the constructor of the newly deployed contract.
#[verifier::rlimit(40)]
pub fn call_constructor<D>(
    context: &mut Context<D>,
    address: IntValue,
    constructor_input_offset: IntValue,
    constructor_input_size: IntValue,
) -> (result: BasicValueEnum) where D: Dependency
    requires
        old(context)@.wf(),
        old(context)@.position is Some,
    ensures
        final(context)@ == old(context)@.emit(
            constructor_code(
                old(context)@.here(),
                old(context)@.next(),
                address,
                constructor_input_offset,
                constructor_input_size,
            ),
        ),
        final(context)@.wf(),
        result == BasicValueEnum::IntValue(
            int_result(field_type(), old(context)@.here(), old(context)@.next() + 8),
        ),
{
    let ghost start = context@;
    let ghost code = constructor_code(
        context@.here(),
        context@.next(),
        address,
        constructor_input_offset,
        constructor_input_size,
    );
    let intrinsic = context.get_intrinsic_function(IntrinsicFunction::SwitchContext);
    let nothing: Vec<BasicValueEnum> = Vec::new();
    assert(nothing@ =~= seq![]);
    let _ = context.build_call(intrinsic, nothing.as_slice(), "create_switch_context");

    proof {
        crate::abi::lemma_literals();
    }
    let flag = context.field_const_str(ABI_HEADER_CONSTRUCTOR_FLAG);
    let child_header_data = context.build_binary(
        BinaryOperation::Or,
        constructor_input_size,
        flag,
        "child_header_data",
    );

    let offset = context.field_const((ABI_MEMORY_OFFSET_HEADER * SIZE_FIELD) as u64);
    let child_pointer_header = context.access_memory(
        offset,
        AddressSpace::Child,
        "create_child_pointer_header",
    );
    context.build_store(child_pointer_header, child_header_data.as_basic_value_enum());
    proof {
        lemma_emit_prefix(start, code, 0);
        lemma_emit_prefix(start, code, 1);
        lemma_emit_prefix(start, code, 2);
        lemma_emit_prefix(start, code, 3);
        assert(context@ == start.emit(code.take(4)));
    }

    let offset = context.field_const((ABI_MEMORY_OFFSET_DATA * SIZE_FIELD) as u64);
    let destination = context.access_memory(
        offset,
        AddressSpace::Child,
        "create_child_input_destination",
    );
    let source = context.access_memory(
        constructor_input_offset,
        AddressSpace::Heap,
        "create_child_input_source",
    );

    context.build_memcpy(
        IntrinsicFunction::MemoryCopyToChild,
        destination,
        source,
        constructor_input_size,
        "create_memcpy_to_child",
    );

    let intrinsic = context.get_intrinsic_function(IntrinsicFunction::FarCall);
    let shift = context.field_const(BITLENGTH_X32 as u64);
    let call_definition = context.build_binary(BinaryOperation::ShiftLeft, address, shift, "");
    let operands = vec![call_definition.as_basic_value_enum()];
    assert(operands@ =~= seq![BasicValueEnum::IntValue(call_definition)]);
    let is_call_successful = match context.build_call(
        intrinsic,
        operands.as_slice(),
        "create_call",
    ) {
        Some(value) => value,
        None => vstd::pervasive::unreached(),
    };
    proof {
        lemma_emit_prefix(start, code, 4);
        lemma_emit_prefix(start, code, 5);
        lemma_emit_prefix(start, code, 6);
        lemma_emit_prefix(start, code, 7);
        lemma_emit_prefix(start, code, 8);
    }

    is_call_successful
}

/// The storage position of the counter of the contracts deployed: the hash of its name.
pub open spec fn counter_key() -> BasicValueEnum {
    BasicValueEnum::IntValue(
        hash_constant(vstd::utf8::encode_utf8(ABI_STORAGE_DEPLOYED_CONTRACTS_COUNTER@)),
    )
}

/// The instructions that open a creation, when they are emitted at place `next` of `block`:
/// the hash of the code is loaded from the head of the input; the offset and the size of the
/// constructor arguments, which follow the hash, are computed; the counter of the contracts
/// deployed is loaded from storage.
pub open spec fn create_open_code(
    block: BasicBlock,
    next: int,
    input_offset: IntValue,
    input_size: IntValue,
) -> Seq<InstructionView> {
    seq![
        InstructionView::access(input_offset, AddressSpace::Heap, "create_hash_pointer"@),
        InstructionView::load(
            pointer_result(field_pointer_type(AddressSpace::Heap), block, next),
            "create_hash_value"@,
        ),
        plus_word(input_offset, "create_input_offset"@),
        InstructionView::Binary {
            operation: BinaryOperation::Sub,
            left: input_size,
            right: field_const(SIZE_FIELD as u64),
            name: "create_input_size"@,
        },
        InstructionView::call_intrinsic(
            IntrinsicFunction::StorageLoad,
            seq![counter_key(), BasicValueEnum::IntValue(field_const(0))],
            "create_counter_load"@,
        ),
    ]
}

/// The instructions that close a creation: the counter of the contracts deployed is stored
/// one higher, whether the constructor has succeeded or not, and the address is multiplied
/// by the flag of success, which leaves the address or zero.
pub open spec fn create_close_code(
    block: BasicBlock,
    next: int,
    counter_value: IntValue,
    address: IntValue,
    is_call_successful: IntValue,
) -> Seq<InstructionView> {
    seq![
        InstructionView::Binary {
            operation: BinaryOperation::Add,
            left: counter_value,
            right: field_const(1),
            name: "create_counter_value_incremented"@,
        },
        InstructionView::call_intrinsic(
            IntrinsicFunction::StorageStore,
            seq![
                BasicValueEnum::IntValue(int_result(counter_value.ty, block, next)),
                counter_key(),
                BasicValueEnum::IntValue(field_const(0)),
            ],
            "create_counter_store"@,
        ),
        InstructionView::Binary {
            operation: BinaryOperation::Mul,
            left: address,
            right: is_call_successful,
            name: "create_address_validated"@,
        },
    ]
}

/// The number of instructions of a creation.
pub open spec fn create_length(salt: Option<IntValue>) -> int {
    5 + salt_length(salt) + address_length() + constructor_length() + 3
}

/// The instructions of a creation, when they are emitted at place `next` of `block`: the
/// salt is hashed from the constructor arguments, the counter of the contracts deployed and
/// the salt of the caller; the address is computed from the hash of the code and the salt;
/// the constructor is called at the address; the counter is incremented; the address is
/// returned, or zero if the constructor has failed.
pub open spec fn create_code(
    block: BasicBlock,
    next: int,
    input_offset: IntValue,
    input_size: IntValue,
    salt: Option<IntValue>,
) -> Seq<InstructionView> {
    let hash = int_result(field_type(), block, next + 1);
    let constructor_input_offset = int_result(input_offset.ty, block, next + 2);
    let constructor_input_size = int_result(input_size.ty, block, next + 3);
    let counter_value = int_result(field_type(), block, next + 4);
    let salt_next = next + 5;
    let address_next = salt_next + salt_length(salt);
    let constructor_next = address_next + address_length();
    let close_next = constructor_next + constructor_length();
    let address = int_result(field_type(), block, constructor_next - 1);
    create_open_code(block, next, input_offset, input_size) + salt_code(
        block,
        salt_next,
        constructor_input_offset,
        constructor_input_size,
        counter_value,
        salt,
    ) + address_code(block, address_next, hash, int_result(field_type(), block, address_next - 1))
        + constructor_code(
        block,
        constructor_next,
        address,
        constructor_input_offset,
        constructor_input_size,
    ) + create_close_code(
        block,
        close_next,
        counter_value,
        address,
        int_result(field_type(), block, close_next - 1),
    )
}

/// The context after a creation has been emitted: the check that the value is zero comes
/// first, and the creation itself goes where that check goes if the value is zero.
pub open spec fn created<D>(
    context: ContextView<D>,
    value: IntValue,
    input_offset: IntValue,
    input_size: IntValue,
    salt: Option<IntValue>,
) -> ContextView<D>
    recommends
        context.function is Some,
        context.position is Some,
{
    value_checked(context, value).emit(
        create_code(value_zero_block(context), 0, input_offset, input_size, salt),
    )
}

/// Emits the instructions that open a creation, and returns the hash of the code, the offset
/// and the size of the constructor arguments, and the counter of the contracts deployed.
fn open_create<D>(context: &mut Context<D>, input_offset: IntValue, input_size: IntValue) -> (result:
    (IntValue, IntValue, IntValue, IntValue)) where D: Dependency
    requires
        old(context)@.wf(),
        old(context)@.position is Some,
    ensures
        final(context)@ == old(context)@.emit(
            create_open_code(old(context)@.here(), old(context)@.next(), input_offset, input_size),
        ),
        final(context)@.wf(),
        result.0 == int_result(field_type(), old(context)@.here(), old(context)@.next() + 1),
        result.1 == int_result(input_offset.ty, old(context)@.here(), old(context)@.next() + 2),
        result.2 == int_result(input_size.ty, old(context)@.here(), old(context)@.next() + 3),
        result.3 == int_result(field_type(), old(context)@.here(), old(context)@.next() + 4),
{
    let ghost start = context@;
    let ghost code = create_open_code(context@.here(), context@.next(), input_offset, input_size);
    let hash_pointer = context.access_memory(input_offset, AddressSpace::Heap, "create_hash_pointer");
    let hash = context.build_load(hash_pointer, "create_hash_value");

    let word = context.field_const(SIZE_FIELD as u64);
    let constructor_input_offset = context.build_binary(
        BinaryOperation::Add,
        input_offset,
        word,
        "create_input_offset",
    );
    let constructor_input_size = context.build_binary(
        BinaryOperation::Sub,
        input_size,
        word,
        "create_input_size",
    );
    let counter_value_key = context.field_const_str(
        crate::hash::keccak256(ABI_STORAGE_DEPLOYED_CONTRACTS_COUNTER.as_bytes()).as_str(),
    );
    let intrinsic = context.get_intrinsic_function(IntrinsicFunction::StorageLoad);
    let operands = vec![
        counter_value_key.as_basic_value_enum(),
        context.field_const(0).as_basic_value_enum(),
    ];
    assert(operands@ =~= seq![counter_key(), BasicValueEnum::IntValue(field_const(0))]);
    let counter_value = match context.build_call(
        intrinsic,
        operands.as_slice(),
        "create_counter_load",
    ) {
        Some(value) => value.into_int_value(),
        None => vstd::pervasive::unreached(),
    };
    proof {
        lemma_emit_prefix(start, code, 0);
        lemma_emit_prefix(start, code, 1);
        lemma_emit_prefix(start, code, 2);
        lemma_emit_prefix(start, code, 3);
        lemma_emit_prefix(start, code, 4);
    }
    (hash.into_int_value(), constructor_input_offset, constructor_input_size, counter_value)
}

/// Emits the instructions that close a creation, and returns the address, or zero.
fn close_create<D>(
    context: &mut Context<D>,
    counter_value: IntValue,
    address: IntValue,
    is_call_successful: IntValue,
) -> (result: IntValue) where D: Dependency
    requires
        old(context)@.wf(),
        old(context)@.position is Some,
    ensures
        final(context)@ == old(context)@.emit(
            create_close_code(
                old(context)@.here(),
                old(context)@.next(),
                counter_value,
                address,
                is_call_successful,
            ),
        ),
        final(context)@.wf(),
        result == int_result(address.ty, old(context)@.here(), old(context)@.next() + 2),
{
    let ghost start = context@;
    let ghost code = create_close_code(
        context@.here(),
        context@.next(),
        counter_value,
        address,
        is_call_successful,
    );
    let one = context.field_const(1);
    let counter_value_incremented = context.build_binary(
        BinaryOperation::Add,
        counter_value,
        one,
        "create_counter_value_incremented",
    );
    let counter_value_key = context.field_const_str(
        crate::hash::keccak256(ABI_STORAGE_DEPLOYED_CONTRACTS_COUNTER.as_bytes()).as_str(),
    );
    let intrinsic = context.get_intrinsic_function(IntrinsicFunction::StorageStore);
    let operands = vec![
        counter_value_incremented.as_basic_value_enum(),
        counter_value_key.as_basic_value_enum(),
        context.field_const(0).as_basic_value_enum(),
    ];
    assert(operands@ =~= seq![
        BasicValueEnum::IntValue(counter_value_incremented),
        counter_key(),
        BasicValueEnum::IntValue(field_const(0)),
    ]);
    let _ = context.build_call(intrinsic, operands.as_slice(), "create_counter_store");

    let address = context.build_binary(
        BinaryOperation::Mul,
        address,
        is_call_successful,
        "create_address_validated",
    );
    proof {
        lemma_emit_prefix(start, code, 0);
        lemma_emit_prefix(start, code, 1);
        lemma_emit_prefix(start, code, 2);
    }
    address
}

/// Translates the contract `create` instruction.
pub fn create<D>(
    context: &mut Context<D>,
    value: IntValue,
    input_offset: IntValue,
    input_size: IntValue,
) -> (result: Result<Option<BasicValueEnum>, Error>) where D: Dependency
    requires
        old(context)@.wf(),
        old(context)@.position is Some,
        old(context)@.function is Some,
    ensures
        final(context)@ == created(old(context)@, value, input_offset, input_size, None),
        final(context)@.wf(),
        result == Ok::<Option<BasicValueEnum>, Error>(
            Some(
                BasicValueEnum::IntValue(
                    int_result(
                        field_type(),
                        value_zero_block(old(context)@),
                        create_length(None) - 1,
                    ),
                ),
            ),
        ),
{
    create2(context, value, input_offset, input_size, None)
}

/// Translates the contract `create2` instruction.
#[verifier::rlimit(40)]
pub fn create2<D>(
    context: &mut Context<D>,
    value: IntValue,
    input_offset: IntValue,
    input_size: IntValue,
    salt: Option<IntValue>,
) -> (result: Result<Option<BasicValueEnum>, Error>) where D: Dependency
    requires
        old(context)@.wf(),
        old(context)@.position is Some,
        old(context)@.function is Some,
    ensures
        final(context)@ == created(old(context)@, value, input_offset, input_size, salt),
        final(context)@.wf(),
        result == Ok::<Option<BasicValueEnum>, Error>(
            Some(
                BasicValueEnum::IntValue(
                    int_result(
                        field_type(),
                        value_zero_block(old(context)@),
                        create_length(salt) - 1,
                    ),
                ),
            ),
        ),
{
    crate::evm::check_value_zero(context, value);
    let ghost start = context@;
    let ghost block = context@.here();

    let (hash, constructor_input_offset, constructor_input_size, counter_value) = open_create(
        context,
        input_offset,
        input_size,
    );
    let ghost open_code = create_open_code(block, 0, input_offset, input_size);
    proof {
        lemma_emit(start, open_code);
    }

    let salt_value = call_keccak256_salt(
        context,
        constructor_input_offset,
        constructor_input_size,
        counter_value,
        salt,
    );
    let ghost salted_code = salt_code(
        block,
        5,
        constructor_input_offset,
        constructor_input_size,
        counter_value,
        salt,
    );
    proof {
        lemma_emit_emit(start, open_code, salted_code);
        lemma_emit_next(start, open_code + salted_code);
        assert((open_code + salted_code).len() == 5 + salt_length(salt));
    }

    let address = call_address_precompile(context, hash, salt_value.into_int_value());
    let ghost addressed_code = address_code(
        block,
        5 + salt_length(salt),
        hash,
        salt_value.into_int_value(),
    );
    proof {
        lemma_emit_emit(start, open_code + salted_code, addressed_code);
        lemma_emit_next(start, open_code + salted_code + addressed_code);
    }

    let is_call_successful = call_constructor(
        context,
        address.into_int_value(),
        constructor_input_offset,
        constructor_input_size,
    );
    let ghost constructed_code = constructor_code(
        block,
        5 + salt_length(salt) + address_length(),
        address.into_int_value(),
        constructor_input_offset,
        constructor_input_size,
    );
    proof {
        lemma_emit_emit(start, open_code + salted_code + addressed_code, constructed_code);
        lemma_emit_next(start, open_code + salted_code + addressed_code + constructed_code);
    }

    let address = close_create(
        context,
        counter_value,
        address.into_int_value(),
        is_call_successful.into_int_value(),
    );
    proof {
        let closed_code = create_close_code(
            block,
            5 + salt_length(salt) + address_length() + constructor_length(),
            counter_value,
            int_result(field_type(), block, 5 + salt_length(salt) + address_length() - 1),
            is_call_successful.into_int_value(),
        );
        lemma_emit_emit(
            start,
            open_code + salted_code + addressed_code + constructed_code,
            closed_code,
        );
    }

    Ok(Some(address.as_basic_value_enum()))
}

/// The constant that stands for the hash of the contract itself, and for the size of that
/// hash: zero.
pub open spec fn is_own_code(identifier: Seq<char>, parent: Seq<char>) -> bool {
    has_suffix(identifier, "_deployed"@) || identifier == parent
}

/// Translates the contract hash instruction, which is actually used to set the hash of the contract
/// being created, or other related auxiliary data.
///
/// `dataoffset` in Yul, `PUSH [$]` in legacy assembly.
///
/// The hash of the contract itself is zero. That of another contract is the constant that the
/// hash which the dependency manager gives is the literal of.
pub fn contract_hash<D>(context: &mut Context<D>, identifier: String) -> (result: Result<
    Option<BasicValueEnum>,
    Error,
>) where D: Dependency
    ensures
        final(context)@ == (ContextView {
            dependency_manager: final(context)@.dependency_manager,
            ..old(context)@
        }),
        old(context)@.wf() ==> final(context)@.wf(),
        is_own_code(identifier@, old(context)@.module.name) ==> final(context)@ == old(context)@
            && result == Ok::<Option<BasicValueEnum>, Error>(
            Some(BasicValueEnum::IntValue(field_const(0))),
        ),
        !is_own_code(identifier@, old(context)@.module.name)
            && old(context)@.dependency_manager is None ==> final(context)@ == old(context)@ && (
        result matches Err(error) && error@ == ErrorView::DependencyManagerUnset),
        !is_own_code(identifier@, old(context)@.module.name)
            && old(context)@.dependency_manager is Some ==> final(context)@.dependency_manager
            is Some && exists|answer: Result<String, Error>| #[trigger]
            old(context)@.dependency_manager->0.compiles(
                final(context)@.dependency_manager->0,
                identifier@,
                old(context)@.module.name,
                old(context)@.optimizer.level_middle,
                old(context)@.optimizer.level_back,
                old(context)@.dump_flags,
                answer,
            ) && reads_answer_value(answer, result),
{
    let own = crate::text::ends_with(identifier.as_str(), "_deployed") || crate::text::equal(
        identifier.as_str(),
        context.module().get_name(),
    );
    if own {
        return Ok(Some(context.field_const(0).as_basic_value_enum()));
    }
    let answer = context.compile_dependency(identifier.as_str());
    let ghost given = answer;
    let result = context.field_const_answer_value(answer);
    proof {
        if old(context)@.dependency_manager is Some {
            assert(old(context)@.dependency_manager->0.compiles(
                context@.dependency_manager->0,
                identifier@,
                old(context)@.module.name,
                old(context)@.optimizer.level_middle,
                old(context)@.optimizer.level_back,
                old(context)@.dump_flags,
                given,
            ));
        }
    }
    result
}

/// Translates the contract hash size instruction, which is actually used to set the hash of the
/// contract being created, or other related auxiliary data.
///
/// `datasize` in Yul, `PUSH #[$]` in legacy assembly.
///
/// The size of the hash of the contract itself is zero, and that of another contract is the
/// size of a word.
pub fn contract_hash_size<D>(context: &mut Context<D>, identifier: String) -> (result: Result<
    Option<BasicValueEnum>,
    Error,
>) where D: Dependency
    ensures
        final(context)@ == old(context)@,
        result == Ok::<Option<BasicValueEnum>, Error>(
            Some(
                BasicValueEnum::IntValue(
                    if is_own_code(identifier@, old(context)@.module.name) {
                        field_const(0)
                    } else {
                        field_const(SIZE_FIELD as u64)
                    },
                ),
            ),
        ),
{
    let own = crate::text::ends_with(identifier.as_str(), "_deployed") || crate::text::equal(
        identifier.as_str(),
        context.module().get_name(),
    );
    if own {
        return Ok(Some(context.field_const(0).as_basic_value_enum()));
    }
    Ok(Some(context.field_const(SIZE_FIELD as u64).as_basic_value_enum()))
}

/// The bytes that are hashed to the salt of a deployment, as the instructions of `salt_code`
/// lay them out in the data of the child memory: the constructor arguments, then the word of
/// the counter of the contracts deployed, then the word of the salt given by the caller, if
/// there is one.
pub open spec fn salt_preimage(
    arguments: Seq<u8>,
    counter: Seq<u8>,
    salt: Option<Seq<u8>>,
) -> Seq<u8> {
    arguments + counter + match salt {
        Some(salt) => salt,
        None => seq![],
    }
}

/// Two deployments with the same constructor arguments and the same salt hash different
/// bytes to their salts, if their counters, a word each, differ.
pub proof fn lemma_salt_preimage_differs(
    arguments: Seq<u8>,
    first_counter: Seq<u8>,
    second_counter: Seq<u8>,
    salt: Option<Seq<u8>>,
)
    requires
        first_counter.len() == SIZE_FIELD,
        second_counter.len() == SIZE_FIELD,
        first_counter != second_counter,
    ensures
        salt_preimage(arguments, first_counter, salt) != salt_preimage(
            arguments,
            second_counter,
            salt,
        ),
{
    let first = salt_preimage(arguments, first_counter, salt);
    let second = salt_preimage(arguments, second_counter, salt);
    if first == second {
        assert forall|i: int| 0 <= i < SIZE_FIELD implies first_counter[i] == second_counter[i] by {
            assert(first[arguments.len() + i] == first_counter[i]);
            assert(second[arguments.len() + i] == second_counter[i]);
        }
        assert(first_counter =~= second_counter);
    }
}

/// Two deployments with the same constructor arguments, the same counter and the same salt
/// hash the same bytes to their salts, and so have the same salt.
pub proof fn lemma_salt_preimage_agrees(
    arguments: Seq<u8>,
    counter: Seq<u8>,
    salt: Option<Seq<u8>>,
    other_arguments: Seq<u8>,
    other_counter: Seq<u8>,
    other_salt: Option<Seq<u8>>,
)
    requires
        arguments == other_arguments,
        counter == other_counter,
        salt == other_salt,
    ensures
        crate::hash::keccak256_digest(salt_preimage(arguments, counter, salt))
            == crate::hash::keccak256_digest(
            salt_preimage(other_arguments, other_counter, other_salt),
        ),
{
}

} // verus!
