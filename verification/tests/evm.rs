use compiler_llvm_context::calldata;
use compiler_llvm_context::contract;
use compiler_llvm_context::create;
use compiler_llvm_context::evm::check_value_zero;
use compiler_llvm_context::hash::keccak256;
use compiler_llvm_context::immutable;
use compiler_llvm_context::ir::instruction::BinaryOperation;
use compiler_llvm_context::ir::instruction::Instruction;
use compiler_llvm_context::ir::instruction::IntPredicate;
use compiler_llvm_context::ir::module::Linkage;
use compiler_llvm_context::ir::target::TargetMachine;
use compiler_llvm_context::ir::types::IntType;
use compiler_llvm_context::ir::types::Pointee;
use compiler_llvm_context::ir::types::PointerType;
use compiler_llvm_context::ir::value::BasicBlock;
use compiler_llvm_context::ir::value::BasicValueEnum;
use compiler_llvm_context::ir::value::FunctionValue;
use compiler_llvm_context::ir::value::IntValue;
use compiler_llvm_context::ir::value::PointerValue;
use compiler_llvm_context::ir::value::Source;
use compiler_llvm_context::storage;
use compiler_llvm_context::termination;
use compiler_llvm_context::word::Word;
use compiler_llvm_context::AddressSpace;
use compiler_llvm_context::Argument;
use compiler_llvm_context::Context;
use compiler_llvm_context::Dependency;
use compiler_llvm_context::DumpFlag;
use compiler_llvm_context::Error;
use compiler_llvm_context::IntrinsicFunction;
use compiler_llvm_context::OptimizationLevel;

struct Manager {
    hash: Result<String, Error>,
    address: Result<String, Error>,
}

impl Dependency for Manager {
    fn compile(
        &mut self,
        _name: &str,
        _parent_name: &str,
        _optimization_level_middle: OptimizationLevel,
        _optimization_level_back: OptimizationLevel,
        _dump_flags: Vec<DumpFlag>,
    ) -> Result<String, Error> {
        self.hash.clone()
    }

    fn resolve_library(&self, _path: &str) -> Result<String, Error> {
        self.address.clone()
    }
}

fn context(manager: Option<Manager>) -> Context<Manager> {
    let machine = TargetMachine::new("syncvm".to_owned(), "E".to_owned());
    Context::new(
        &machine,
        OptimizationLevel::Default,
        OptimizationLevel::Default,
        "Test",
        manager,
        vec![],
    )
}

/// A context with one function of the given name, and the insertion point in its entry
/// block.
fn started(name: &str) -> Context<Manager> {
    let mut context = context(None);
    let function_type = context.function_type(0, vec![]);
    context.add_function(name, function_type, Some(Linkage::Private));
    let function = context.get_function(name).expect("Always exists");
    let entry_block = function.entry_block;
    context.set_function(function);
    context.set_basic_block(entry_block);
    context
}

fn instructions(context: &Context<Manager>, block: BasicBlock) -> &Vec<Instruction> {
    &context.module().functions[block.function].blocks[block.index].instructions
}

fn block(index: usize) -> BasicBlock {
    BasicBlock { function: 2, index }
}

fn field() -> IntType {
    IntType { bit_length: 256 }
}

fn constant(value: u64) -> IntValue {
    IntValue { ty: field(), source: Source::Constant(Word::from_u64(value)) }
}

fn hash(name: &str) -> Word {
    Word::from_hex(&keccak256(name.as_bytes())).expect("Always valid")
}

fn hashed(name: &str) -> IntValue {
    IntValue { ty: field(), source: Source::Constant(hash(name)) }
}

fn operand(name: u64) -> IntValue {
    IntValue {
        ty: field(),
        source: Source::Instruction { block: BasicBlock { function: 9, index: 9 }, index: name as usize },
    }
}

fn int_at(block: BasicBlock, index: usize) -> IntValue {
    IntValue { ty: field(), source: Source::Instruction { block, index } }
}

fn bool_at(block: BasicBlock, index: usize) -> IntValue {
    IntValue { ty: IntType { bit_length: 1 }, source: Source::Instruction { block, index } }
}

fn pointer_type(address_space: AddressSpace) -> PointerType {
    PointerType { pointee: Pointee::Int(field()), address_space }
}

fn pointer_at(address_space: AddressSpace, block: BasicBlock, index: usize) -> PointerValue {
    PointerValue { ty: pointer_type(address_space), source: Source::Instruction { block, index } }
}

fn integer(value: IntValue) -> BasicValueEnum {
    BasicValueEnum::IntValue(value)
}

fn access(value: IntValue, address_space: AddressSpace, name: &str) -> Instruction {
    Instruction::IntToPtr { value, ty: pointer_type(address_space), name: name.to_owned() }
}

fn store(pointer: PointerValue, value: IntValue) -> Instruction {
    let alignment = if pointer.ty.address_space == AddressSpace::Stack { 32 } else { 1 };
    Instruction::Store { pointer, value: integer(value), alignment }
}

fn load(pointer: PointerValue, name: &str) -> Instruction {
    let alignment = if pointer.ty.address_space == AddressSpace::Stack { 32 } else { 1 };
    Instruction::Load { pointer, alignment, name: name.to_owned() }
}

fn binary(operation: BinaryOperation, left: IntValue, right: IntValue, name: &str) -> Instruction {
    Instruction::Binary { operation, left, right, name: name.to_owned() }
}

fn intrinsic(function: IntrinsicFunction, arguments: Vec<IntValue>, name: &str) -> Instruction {
    Instruction::Call {
        function: FunctionValue::Intrinsic(function),
        parameter_alignments: vec![None; arguments.len()],
        arguments: arguments.into_iter().map(integer).collect(),
        return_alignment: None,
        name: name.to_owned(),
    }
}

fn memcpy(
    function: IntrinsicFunction,
    destination: PointerValue,
    source: PointerValue,
    size: IntValue,
    name: &str,
) -> Instruction {
    Instruction::Call {
        function: FunctionValue::Intrinsic(function),
        arguments: vec![
            BasicValueEnum::PointerValue(destination),
            BasicValueEnum::PointerValue(source),
            integer(size),
            integer(IntValue {
                ty: IntType { bit_length: 1 },
                source: Source::Constant(Word::from_u64(0)),
            }),
        ],
        parameter_alignments: vec![Some(1), Some(1)],
        return_alignment: None,
        name: name.to_owned(),
    }
}

fn write_header(block: BasicBlock, next: usize, header: IntValue) -> Vec<Instruction> {
    vec![
        access(constant(0), AddressSpace::Parent, "header_pointer"),
        store(pointer_at(AddressSpace::Parent, block, next), header),
    ]
}

fn set_long_return_flag(block: BasicBlock, next: usize) -> Vec<Instruction> {
    vec![
        access(constant(64), AddressSpace::Heap, "long_return_flag_pointer"),
        store(pointer_at(AddressSpace::Heap, block, next), constant(1)),
    ]
}

fn value_abort(block: BasicBlock, throw_block: BasicBlock) -> Vec<Instruction> {
    let mut expected = write_header(block, 0, constant(4));
    expected.extend(vec![
        binary(
            BinaryOperation::ShiftLeft,
            constant(hash("Forbidden: send/transfer").high_u32() as u64),
            constant(224),
            "error_code_shifted",
        ),
        access(constant(32), AddressSpace::Parent, "parent_error_code_pointer"),
        store(pointer_at(AddressSpace::Parent, block, 3), int_at(block, 2)),
        Instruction::Branch { destination: throw_block },
    ]);
    expected
}

/// The value that the instructions of `block` leave in the register `result`, when the word
/// at offset 0 of the parent memory is `header`: enough of the machine to run a calldata
/// size.
fn run(instructions: &[Instruction], block: BasicBlock, header: Word, result: IntValue) -> Word {
    let mut registers: Vec<Option<Word>> = vec![None; instructions.len()];
    let value = |registers: &Vec<Option<Word>>, value: &IntValue| match value.source {
        Source::Constant(word) => word,
        Source::Instruction { block: source, index } if source == block => {
            registers[index].expect("Always computed")
        }
        _ => panic!("Unknown value"),
    };
    for (index, instruction) in instructions.iter().enumerate() {
        registers[index] = match instruction {
            Instruction::IntToPtr { value: offset, .. } => Some(value(&registers, offset)),
            Instruction::Load { pointer, .. } => {
                assert_eq!(pointer.ty.address_space, AddressSpace::Parent);
                let offset = match pointer.source {
                    Source::Instruction { index, .. } => registers[index].expect("Always computed"),
                    _ => panic!("Unknown pointer"),
                };
                assert_eq!(offset, Word::from_u64(0));
                Some(header)
            }
            Instruction::Binary { operation: BinaryOperation::And, left, right, .. } => {
                let left = value(&registers, left);
                let right = value(&registers, right);
                Some(Word {
                    limb3: left.limb3 & right.limb3,
                    limb2: left.limb2 & right.limb2,
                    limb1: left.limb1 & right.limb1,
                    limb0: left.limb0 & right.limb0,
                })
            }
            _ => panic!("Unknown instruction"),
        };
    }
    value(&registers, &result)
}

#[test]
fn calldata_load_reads_behind_the_header() {
    let mut context = started("main");
    let result = calldata::load(&mut context, [integer(operand(0))]);
    assert_eq!(result, Ok(Some(integer(int_at(block(0), 2)))));
    assert_eq!(
        *instructions(&context, block(0)),
        vec![
            binary(BinaryOperation::Add, operand(0), constant(32), "calldata_offset"),
            access(int_at(block(0), 0), AddressSpace::Parent, "calldata_pointer"),
            load(pointer_at(AddressSpace::Parent, block(0), 1), "calldata_value"),
        ]
    );
}

#[test]
fn calldata_size_masks_the_header() {
    let mut context = started("main");
    let result = calldata::size(&mut context);
    assert_eq!(result, Ok(Some(integer(int_at(block(0), 2)))));
    assert_eq!(
        *instructions(&context, block(0)),
        vec![
            access(constant(0), AddressSpace::Parent, "header_pointer"),
            load(pointer_at(AddressSpace::Parent, block(0), 0), "header_value"),
            binary(
                BinaryOperation::And,
                int_at(block(0), 1),
                constant(0x00000000ffffffff),
                "calldata_size"
            ),
        ]
    );
}

#[test]
fn calldata_size_of_a_header_of_five_is_five() {
    let mut context = started("main");
    let result = match calldata::size(&mut context) {
        Ok(Some(BasicValueEnum::IntValue(result))) => result,
        _ => panic!("Always an integer"),
    };
    let code = instructions(&context, block(0));

    let header = Word::from_hex("0x00000000000000000000000000000005").expect("Always valid");
    assert_eq!(run(code, block(0), header, result), Word::from_u64(5));

    let header = Word { limb3: 7, limb2: 7, limb1: 7, limb0: 0xffff_fff0_0000_0005 };
    assert_eq!(run(code, block(0), header, result), Word::from_u64(5));

    let header = Word::from_u64(0x1_ffff_ffff);
    assert_eq!(run(code, block(0), header, result), Word::from_u64(0xffff_ffff));
}

#[test]
fn calldata_copy_copies_from_the_parent_into_the_heap() {
    let mut context = started("main");
    let result = calldata::copy(&mut context, [integer(operand(0)), integer(operand(1)), integer(operand(2))]);
    assert_eq!(result, Ok(None));
    assert_eq!(
        *instructions(&context, block(0)),
        vec![
            access(operand(0), AddressSpace::Heap, "calldata_copy_destination_pointer"),
            binary(BinaryOperation::Add, operand(1), constant(32), "calldata_copy_source_offset"),
            access(int_at(block(0), 1), AddressSpace::Parent, "calldata_copy_source_pointer"),
            memcpy(
                IntrinsicFunction::MemoryCopyFromParent,
                pointer_at(AddressSpace::Heap, block(0), 0),
                pointer_at(AddressSpace::Parent, block(0), 2),
                operand(2),
                "calldata_copy_memcpy_from_child"
            ),
        ]
    );
}

#[test]
fn storage_store_and_load_share_the_key() {
    let mut context = started("main");
    let key = constant(0x4b);
    let value = constant(0x56);
    assert_eq!(storage::store(&mut context, [integer(key), integer(value)]), Ok(None));
    assert_eq!(storage::load(&mut context, [integer(key)]), Ok(Some(integer(int_at(block(0), 1)))));
    assert_eq!(
        *instructions(&context, block(0)),
        vec![
            intrinsic(
                IntrinsicFunction::StorageStore,
                vec![value, key, constant(0)],
                "storage_store"
            ),
            intrinsic(IntrinsicFunction::StorageLoad, vec![key, constant(0)], "storage_load"),
        ]
    );
}

#[test]
fn immutables_live_at_the_hash_of_their_name() {
    let mut context = started("main");
    assert_eq!(immutable::store(&mut context, "owner".to_owned(), operand(0)), Ok(None));
    assert_eq!(
        immutable::load(&mut context, "owner".to_owned()),
        Ok(Some(integer(int_at(block(0), 1))))
    );
    assert_eq!(
        *instructions(&context, block(0)),
        vec![
            intrinsic(
                IntrinsicFunction::StorageStore,
                vec![operand(0), hashed("owner"), constant(0)],
                "immutable_store"
            ),
            intrinsic(
                IntrinsicFunction::StorageLoad,
                vec![hashed("owner"), constant(0)],
                "immutable_load"
            ),
        ]
    );
    assert_ne!(hashed("owner"), hashed("Owner"));
}

fn data(block: BasicBlock, prefix: &str) -> Vec<Instruction> {
    vec![
        access(operand(0), AddressSpace::Heap, &format!("{}_source_pointer", prefix)),
        access(constant(32), AddressSpace::Parent, &format!("{}_destination_pointer", prefix)),
        access(constant(0), AddressSpace::Parent, "header_pointer"),
        store(pointer_at(AddressSpace::Parent, block, 2), operand(1)),
        memcpy(
            IntrinsicFunction::MemoryCopyToParent,
            pointer_at(AddressSpace::Parent, block, 1),
            pointer_at(AddressSpace::Heap, block, 0),
            operand(1),
            &format!("{}_memcpy_to_parent", prefix),
        ),
    ]
}

#[test]
fn return_in_an_outermost_function_goes_to_the_return_block() {
    for name in ["__entry", "__constructor", "__selector"] {
        let mut context = started(name);
        let result = termination::ret(&mut context, [integer(operand(0)), integer(operand(1))]);
        assert_eq!(result, Ok(None));
        let mut expected = data(block(0), "return");
        expected.push(Instruction::Branch { destination: block(3) });
        assert_eq!(*instructions(&context, block(0)), expected);
    }
}

#[test]
fn return_in_an_inner_function_sets_the_flag_and_goes_to_the_throw_block() {
    let mut context = started("inner");
    let result = termination::ret(&mut context, [integer(operand(0)), integer(operand(1))]);
    assert_eq!(result, Ok(None));
    let mut expected = data(block(0), "return");
    expected.extend(set_long_return_flag(block(0), 5));
    expected.push(Instruction::Branch { destination: block(1) });
    assert_eq!(*instructions(&context, block(0)), expected);
}

#[test]
fn stop_hands_no_data_to_the_caller() {
    let mut context = started("__selector");
    assert_eq!(termination::stop(&mut context), Ok(None));
    let mut expected = write_header(block(0), 0, constant(0));
    expected.push(Instruction::Branch { destination: block(3) });
    assert_eq!(*instructions(&context, block(0)), expected);

    let mut context = started("inner");
    assert_eq!(termination::stop(&mut context), Ok(None));
    let mut expected = write_header(block(0), 0, constant(0));
    expected.extend(set_long_return_flag(block(0), 2));
    expected.push(Instruction::Branch { destination: block(1) });
    assert_eq!(*instructions(&context, block(0)), expected);
}

#[test]
fn revert_and_invalid_go_to_the_throw_block_everywhere() {
    for name in ["__selector", "inner"] {
        let mut context = started(name);
        let result = termination::revert(&mut context, [integer(operand(0)), integer(operand(1))]);
        assert_eq!(result, Ok(None));
        let mut expected = data(block(0), "revert");
        expected.push(Instruction::Branch { destination: block(1) });
        assert_eq!(*instructions(&context, block(0)), expected);

        let mut context = started(name);
        assert_eq!(termination::invalid(&mut context), Ok(None));
        let mut expected = write_header(block(0), 0, constant(0));
        expected.push(Instruction::Branch { destination: block(1) });
        assert_eq!(*instructions(&context, block(0)), expected);
    }
}

#[test]
fn long_return_leaves_a_terminated_block_of_an_outermost_function_alone() {
    let mut context = started("__entry");
    context.build_unreachable();
    let function = context.function().clone();
    assert_eq!(termination::long_return(&mut context, function), Ok(()));
    assert_eq!(*instructions(&context, block(0)), vec![Instruction::Unreachable]);
}

#[test]
fn a_long_return_unwinds_to_the_first_frame_that_handles_it() {
    let mut context = context(None);
    for name in ["inner", "middle", "__selector"] {
        let function_type = context.function_type(0, vec![]);
        context.add_function(name, function_type, Some(Linkage::Private));
    }
    let frames: Vec<_> = ["inner", "middle", "__selector"]
        .iter()
        .map(|name| context.get_function(name).expect("Always exists"))
        .collect();

    let inner = frames[0].clone();
    context.set_function(inner.clone());
    context.set_basic_block(inner.entry_block);
    assert_eq!(termination::stop(&mut context), Ok(None));
    for (frame, is_outermost) in frames.iter().zip([false, false, true]) {
        context.set_function(frame.clone());
        context.build_throw_block(is_outermost);
        context.build_catch_block(is_outermost);
    }

    // The stop sets the flag and goes to the throw block of the inner function.
    let entry = instructions(&context, inner.entry_block);
    assert_eq!(entry[entry.len() - 1], Instruction::Branch { destination: inner.throw_block });
    assert_eq!(entry[entry.len() - 2], set_long_return_flag(inner.entry_block, 2)[1]);

    // With the flag set, every frame raises again but the outermost, which returns.
    let mut returned = Vec::new();
    for frame in frames.iter() {
        let caught = instructions(&context, frame.catch_block);
        match caught.last() {
            Some(Instruction::ConditionalBranch { then_block, .. }) => {
                returned.push(*then_block);
                break;
            }
            Some(Instruction::Unreachable) => {
                assert!(matches!(caught[caught.len() - 2], Instruction::Call { .. }));
            }
            _ => panic!("Always one of the two"),
        }
    }
    assert_eq!(returned, vec![frames[2].return_block]);
    assert_eq!(
        *instructions(&context, inner.throw_block).last().expect("Always exists"),
        Instruction::Unreachable
    );
}

fn dispatch(
    block: BasicBlock,
    next: usize,
    address: IntValue,
    identity_block: BasicBlock,
    ordinary_block: BasicBlock,
) -> Vec<Instruction> {
    let pointer = pointer_at(AddressSpace::Stack, block, next);
    vec![
        Instruction::Alloca {
            ty: Pointee::Int(field()),
            alignment: 32,
            name: "contract_call_result_pointer".to_owned(),
        },
        store(pointer, constant(0)),
        Instruction::Compare {
            predicate: IntPredicate::EQ,
            left: address,
            right: constant(4),
            name: "contract_call_is_address_identity".to_owned(),
        },
        Instruction::ConditionalBranch {
            comparison: bool_at(block, next + 2),
            then_block: identity_block,
            else_block: ordinary_block,
        },
    ]
}

fn ordinary(block: BasicBlock, call_type: IntrinsicFunction) -> Vec<Instruction> {
    vec![
        intrinsic(IntrinsicFunction::SwitchContext, vec![], "contract_call_switch_context"),
        access(constant(0), AddressSpace::Child, "contract_call_child_pointer_header"),
        store(pointer_at(AddressSpace::Child, block, 1), operand(2)),
        access(constant(32), AddressSpace::Child, "contract_call_child_input_destination"),
        access(operand(1), AddressSpace::Heap, "contract_call_child_input_source"),
        memcpy(
            IntrinsicFunction::MemoryCopyToChild,
            pointer_at(AddressSpace::Child, block, 3),
            pointer_at(AddressSpace::Heap, block, 4),
            operand(2),
            "contract_call_memcpy_to_child",
        ),
        binary(BinaryOperation::ShiftLeft, operand(0), constant(32), ""),
        intrinsic(call_type, vec![int_at(block, 6)], "contract_call_external"),
        access(constant(32), AddressSpace::Child, "contract_call_output_source"),
        access(operand(3), AddressSpace::Heap, "contract_call_output_pointer"),
        memcpy(
            IntrinsicFunction::MemoryCopyFromChild,
            pointer_at(AddressSpace::Heap, block, 9),
            pointer_at(AddressSpace::Child, block, 8),
            operand(4),
            "contract_call_memcpy_from_child",
        ),
    ]
}

#[test]
fn contract_call_without_a_value_branches_on_the_address() {
    let mut context = started("main");
    let result = contract::call(
        &mut context,
        IntrinsicFunction::StaticCall,
        operand(0),
        None,
        operand(1),
        operand(2),
        operand(3),
        operand(4),
    );
    assert_eq!(result, Ok(Some(integer(int_at(block(6), 0)))));
    assert_eq!(context.basic_block(), block(6));
    let names: Vec<&str> =
        context.module().functions[2].blocks.iter().map(|block| block.name.as_str()).collect();
    assert_eq!(
        names,
        vec![
            "entry",
            "throw",
            "catch",
            "return",
            "contract_call_identity_block",
            "contract_call_ordinary_block",
            "contract_call_join_block",
        ]
    );
    assert_eq!(
        *instructions(&context, block(0)),
        dispatch(block(0), 0, operand(0), block(4), block(5))
    );
    let pointer = pointer_at(AddressSpace::Stack, block(0), 0);
    assert_eq!(
        *instructions(&context, block(4)),
        vec![
            access(operand(3), AddressSpace::Heap, "contract_call_identity_destination"),
            access(operand(1), AddressSpace::Heap, "contract_call_identity_source"),
            memcpy(
                IntrinsicFunction::MemoryCopy,
                pointer_at(AddressSpace::Heap, block(4), 0),
                pointer_at(AddressSpace::Heap, block(4), 1),
                operand(4),
                "contract_call_memcpy_to_child"
            ),
            store(pointer, constant(1)),
            Instruction::Branch { destination: block(6) },
        ]
    );
    let mut expected = ordinary(block(5), IntrinsicFunction::StaticCall);
    expected.push(store(pointer, int_at(block(5), 7)));
    expected.push(Instruction::Branch { destination: block(6) });
    assert_eq!(*instructions(&context, block(5)), expected);
    assert_eq!(*instructions(&context, block(6)), vec![load(pointer, "contract_call_result")]);
}

#[test]
fn contract_call_with_a_value_aborts_unless_the_value_is_zero() {
    let mut context = started("main");
    let _ = context.build_binary(BinaryOperation::Add, constant(1), constant(2), "before");
    let result = contract::call(
        &mut context,
        IntrinsicFunction::FarCall,
        operand(0),
        Some(operand(5)),
        operand(1),
        operand(2),
        operand(3),
        operand(4),
    );
    assert_eq!(result, Ok(Some(integer(int_at(block(8), 0)))));
    let names: Vec<&str> = context.module().functions[2].blocks[4..]
        .iter()
        .map(|block| block.name.as_str())
        .collect();
    assert_eq!(
        names,
        vec![
            "contract_call_value_zero_block",
            "contract_call_value_non_zero_block",
            "contract_call_identity_block",
            "contract_call_ordinary_block",
            "contract_call_join_block",
        ]
    );
    // The test of the value ends the block of the call: nothing of the call stands before.
    assert_eq!(
        *instructions(&context, block(0)),
        vec![
            binary(BinaryOperation::Add, constant(1), constant(2), "before"),
            Instruction::Compare {
                predicate: IntPredicate::EQ,
                left: operand(5),
                right: constant(0),
                name: "contract_call_is_value_zero".to_owned(),
            },
            Instruction::ConditionalBranch {
                comparison: bool_at(block(0), 1),
                then_block: block(4),
                else_block: block(5),
            },
        ]
    );
    // The block of a value that is not zero reports the error and goes to the throw block.
    assert_eq!(*instructions(&context, block(5)), value_abort(block(5), block(1)));
    // The call itself stands where the test goes if the value is zero.
    assert_eq!(
        *instructions(&context, block(4)),
        dispatch(block(4), 0, operand(0), block(6), block(7))
    );
    assert_eq!(instructions(&context, block(7))[..11], ordinary(block(7), IntrinsicFunction::FarCall));
}

#[test]
fn check_value_zero_goes_on_in_the_zero_block() {
    let mut context = started("main");
    check_value_zero(&mut context, operand(5));
    assert_eq!(context.basic_block(), block(4));
    assert!(instructions(&context, block(4)).is_empty());
    assert_eq!(*instructions(&context, block(5)), value_abort(block(5), block(1)));
    assert_eq!(instructions(&context, block(0)).len(), 2);
}

#[test]
fn linker_symbol_wants_the_literal_and_the_manager() {
    let mut context = started("main");
    let without = Argument::new(integer(constant(0)));
    assert_eq!(contract::linker_symbol(&mut context, [without]), Err(Error::LinkerSymbolMissing));
    assert_eq!(Error::LinkerSymbolMissing.message(), "Linker symbol literal is missing");

    let with = Argument::new_with_original(integer(constant(0)), "lib.sol:Lib".to_owned());
    assert_eq!(
        contract::linker_symbol(&mut context, [with.clone()]),
        Err(Error::DependencyManagerUnset)
    );

    let manager = Manager { hash: Ok("0".to_owned()), address: Ok("0xabc".to_owned()) };
    let mut context = self::context(Some(manager));
    assert_eq!(contract::linker_symbol(&mut context, [with]), Ok(Some(integer(constant(0xabc)))));
}

fn salt(block: BasicBlock, next: usize, salt: Option<IntValue>) -> Vec<Instruction> {
    let size = int_at(block, 3);
    let mut expected = vec![
        intrinsic(IntrinsicFunction::SwitchContext, vec![], "salt_keccak256_switch_context"),
        binary(BinaryOperation::Add, size, constant(32), "salt_keccak256_input_size_with_counter"),
    ];
    if salt.is_some() {
        expected.push(binary(
            BinaryOperation::Add,
            int_at(block, next + 1),
            constant(32),
            "salt_keccak256_input_size_with_salt",
        ));
    }
    let layout = next + expected.len();
    expected.extend(vec![
        access(constant(0), AddressSpace::Child, "salt_keccak256_child_pointer_header"),
        store(pointer_at(AddressSpace::Child, block, layout), int_at(block, layout - 1)),
        access(constant(32), AddressSpace::Child, "salt_keccak256_child_pointer_data"),
        access(int_at(block, 2), AddressSpace::Heap, "salt_keccak256_heap_pointer_constructor_data"),
        memcpy(
            IntrinsicFunction::MemoryCopyToChild,
            pointer_at(AddressSpace::Child, block, layout + 2),
            pointer_at(AddressSpace::Heap, block, layout + 3),
            size,
            "salt_keccak256_memcpy_to_child",
        ),
        binary(BinaryOperation::Add, constant(32), size, "salt_keccak256_child_offset_counter"),
        access(int_at(block, layout + 5), AddressSpace::Child, "salt_keccak256_child_pointer_counter"),
        store(pointer_at(AddressSpace::Child, block, layout + 6), int_at(block, 4)),
    ]);
    if let Some(salt) = salt {
        expected.extend(vec![
            binary(
                BinaryOperation::Add,
                int_at(block, layout + 5),
                constant(32),
                "salt_keccak256_child_offset_salt",
            ),
            access(int_at(block, layout + 8), AddressSpace::Child, "salt_keccak256_child_pointer_salt"),
            store(pointer_at(AddressSpace::Child, block, layout + 9), salt),
        ]);
    }
    let hash = next + expected.len();
    expected.extend(vec![
        binary(BinaryOperation::ShiftLeft, constant(0x8010), constant(32), ""),
        intrinsic(IntrinsicFunction::StaticCall, vec![int_at(block, hash)], "salt_keccak256_call_external"),
        load(pointer_at(AddressSpace::Child, block, layout + 2), "salt_keccak256_result"),
    ]);
    expected
}

fn creation(block: BasicBlock, caller_salt: Option<IntValue>) -> Vec<Instruction> {
    let key = hashed("DEPLOYED_CONTRACTS_COUNTER");
    let mut expected = vec![
        access(operand(1), AddressSpace::Heap, "create_hash_pointer"),
        load(pointer_at(AddressSpace::Heap, block, 0), "create_hash_value"),
        binary(BinaryOperation::Add, operand(1), constant(32), "create_input_offset"),
        binary(BinaryOperation::Sub, operand(2), constant(32), "create_input_size"),
        intrinsic(IntrinsicFunction::StorageLoad, vec![key, constant(0)], "create_counter_load"),
    ];
    expected.extend(salt(block, 5, caller_salt));
    let next = expected.len();
    expected.extend(vec![
        intrinsic(IntrinsicFunction::SwitchContext, vec![], "create_precompile_switch_context"),
        access(constant(0), AddressSpace::Child, "create_precompile_child_pointer_header"),
        store(pointer_at(AddressSpace::Child, block, next + 1), constant(64)),
        access(constant(32), AddressSpace::Child, "create_precompile_child_pointer_hash"),
        store(pointer_at(AddressSpace::Child, block, next + 3), int_at(block, 1)),
        binary(BinaryOperation::Add, constant(32), constant(32), "create_precompile_child_offset_salt"),
        access(int_at(block, next + 5), AddressSpace::Child, "create_precompile_child_pointer_salt"),
        store(pointer_at(AddressSpace::Child, block, next + 6), int_at(block, next - 1)),
        binary(BinaryOperation::ShiftLeft, constant(0x8006), constant(32), ""),
        intrinsic(IntrinsicFunction::FarCall, vec![int_at(block, next + 8)], "create_precompile_call_external"),
        load(pointer_at(AddressSpace::Child, block, next + 3), "create_precompile_result"),
    ]);
    let address = int_at(block, next + 10);
    let next = expected.len();
    let flag = IntValue {
        ty: field(),
        source: Source::Constant(Word { limb3: 0, limb2: 0, limb1: 1, limb0: 0 }),
    };
    expected.extend(vec![
        intrinsic(IntrinsicFunction::SwitchContext, vec![], "create_switch_context"),
        binary(BinaryOperation::Or, int_at(block, 3), flag, "child_header_data"),
        access(constant(0), AddressSpace::Child, "create_child_pointer_header"),
        store(pointer_at(AddressSpace::Child, block, next + 2), int_at(block, next + 1)),
        access(constant(32), AddressSpace::Child, "create_child_input_destination"),
        access(int_at(block, 2), AddressSpace::Heap, "create_child_input_source"),
        memcpy(
            IntrinsicFunction::MemoryCopyToChild,
            pointer_at(AddressSpace::Child, block, next + 4),
            pointer_at(AddressSpace::Heap, block, next + 5),
            int_at(block, 3),
            "create_memcpy_to_child",
        ),
        binary(BinaryOperation::ShiftLeft, address, constant(32), ""),
        intrinsic(IntrinsicFunction::FarCall, vec![int_at(block, next + 7)], "create_call"),
    ]);
    let success = int_at(block, next + 8);
    let next = expected.len();
    expected.extend(vec![
        binary(BinaryOperation::Add, int_at(block, 4), constant(1), "create_counter_value_incremented"),
        intrinsic(
            IntrinsicFunction::StorageStore,
            vec![int_at(block, next), key, constant(0)],
            "create_counter_store",
        ),
        binary(BinaryOperation::Mul, address, success, "create_address_validated"),
    ]);
    expected
}

#[test]
fn create_hashes_the_arguments_and_the_counter_to_the_salt() {
    let mut context = started("main");
    let result = create::create(&mut context, operand(0), operand(1), operand(2));
    assert_eq!(result, Ok(Some(integer(int_at(block(4), 40)))));
    assert_eq!(context.basic_block(), block(4));
    assert_eq!(*instructions(&context, block(4)), creation(block(4), None));
    assert_eq!(instructions(&context, block(4)).len(), 41);
    assert_eq!(*instructions(&context, block(5)), value_abort(block(5), block(1)));
    assert_eq!(instructions(&context, block(0)).len(), 2);
}

#[test]
fn create2_hashes_the_salt_of_the_caller_too() {
    let mut context = started("main");
    let result =
        create::create2(&mut context, operand(0), operand(1), operand(2), Some(operand(3)));
    assert_eq!(result, Ok(Some(integer(int_at(block(4), 44)))));
    assert_eq!(*instructions(&context, block(4)), creation(block(4), Some(operand(3))));
    assert_eq!(instructions(&context, block(4)).len(), 45);
}

#[test]
fn create2_stores_the_counter_behind_the_arguments_and_before_the_salt() {
    let mut context = started("main");
    let _ = create::create2(&mut context, operand(0), operand(1), operand(2), Some(operand(3)));
    let code = instructions(&context, block(4));
    let counter = int_at(block(4), 4);
    let size = int_at(block(4), 3);
    // The counter is what the storage holds at the hash of its name.
    assert_eq!(
        code[4],
        intrinsic(
            IntrinsicFunction::StorageLoad,
            vec![hashed("DEPLOYED_CONTRACTS_COUNTER"), constant(0)],
            "create_counter_load"
        )
    );
    // It is stored at the offset of the data plus the size of the arguments.
    assert_eq!(
        code[13],
        binary(BinaryOperation::Add, constant(32), size, "salt_keccak256_child_offset_counter")
    );
    assert_eq!(
        code[14],
        access(int_at(block(4), 13), AddressSpace::Child, "salt_keccak256_child_pointer_counter")
    );
    assert_eq!(code[15], store(pointer_at(AddressSpace::Child, block(4), 14), counter));
    // The salt of the caller follows a word behind.
    assert_eq!(
        code[16],
        binary(
            BinaryOperation::Add,
            int_at(block(4), 13),
            constant(32),
            "salt_keccak256_child_offset_salt"
        )
    );
    assert_eq!(code[18], store(pointer_at(AddressSpace::Child, block(4), 17), operand(3)));
    // The counter is stored one higher after the constructor has been called.
    assert_eq!(
        code[42],
        binary(BinaryOperation::Add, counter, constant(1), "create_counter_value_incremented")
    );
    assert!(matches!(
        &code[43],
        Instruction::Call { function: FunctionValue::Intrinsic(IntrinsicFunction::StorageStore), .. }
    ));
}

#[test]
fn call_keccak256_salt_without_and_with_a_salt() {
    for (caller_salt, length) in [(None, 13), (Some(operand(3)), 17)] {
        let mut context = started("main");
        let result =
            create::call_keccak256_salt(&mut context, operand(0), operand(1), operand(2), caller_salt);
        assert_eq!(result, integer(int_at(block(0), length - 1)));
        assert_eq!(instructions(&context, block(0)).len(), length);
    }
}

#[test]
fn call_address_precompile_and_constructor_give_their_results() {
    let mut context = started("main");
    let address = create::call_address_precompile(&mut context, operand(0), operand(1));
    assert_eq!(address, integer(int_at(block(0), 10)));
    let success = create::call_constructor(&mut context, operand(0), operand(1), operand(2));
    assert_eq!(success, integer(int_at(block(0), 19)));
    assert_eq!(instructions(&context, block(0)).len(), 20);
}

#[test]
fn contract_hash_of_the_contract_itself_is_zero() {
    let mut context = started("main");
    assert_eq!(
        create::contract_hash(&mut context, "Test_deployed".to_owned()),
        Ok(Some(integer(constant(0))))
    );
    assert_eq!(create::contract_hash(&mut context, "Test".to_owned()), Ok(Some(integer(constant(0)))));
    assert_eq!(
        create::contract_hash_size(&mut context, "Test_deployed".to_owned()),
        Ok(Some(integer(constant(0))))
    );
    assert_eq!(
        create::contract_hash_size(&mut context, "Test".to_owned()),
        Ok(Some(integer(constant(0))))
    );
    assert_eq!(
        create::contract_hash_size(&mut context, "Other".to_owned()),
        Ok(Some(integer(constant(32))))
    );
    assert!(instructions(&context, block(0)).is_empty());
}

#[test]
fn contract_hash_of_another_contract_comes_from_the_manager() {
    let mut context = started("main");
    assert_eq!(
        create::contract_hash(&mut context, "Other".to_owned()),
        Err(Error::DependencyManagerUnset)
    );

    let manager = Manager { hash: Ok(keccak256(b"Other")), address: Ok("0".to_owned()) };
    let mut context = self::context(Some(manager));
    assert_eq!(
        create::contract_hash(&mut context, "Other".to_owned()),
        Ok(Some(integer(hashed("Other"))))
    );

    let manager = Manager { hash: Ok("not a hash".to_owned()), address: Ok("0".to_owned()) };
    let mut context = self::context(Some(manager));
    assert_eq!(
        create::contract_hash(&mut context, "Other".to_owned()),
        Err(Error::InvalidConstant("not a hash".to_owned()))
    );

    let manager =
        Manager { hash: Err(Error::Other("no such contract".to_owned())), address: Ok("0".to_owned()) };
    let mut context = self::context(Some(manager));
    assert_eq!(
        create::contract_hash(&mut context, "Other".to_owned()),
        Err(Error::Other("no such contract".to_owned()))
    );
}
