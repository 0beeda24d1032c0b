use compiler_llvm_context::abi::ContextValue;
use compiler_llvm_context::ir::instruction::BinaryOperation;
use compiler_llvm_context::ir::instruction::Instruction;
use compiler_llvm_context::ir::instruction::IntPredicate;
use compiler_llvm_context::ir::module::Linkage;
use compiler_llvm_context::ir::target::TargetMachine;
use compiler_llvm_context::ir::types::BasicTypeEnum;
use compiler_llvm_context::ir::types::FunctionType;
use compiler_llvm_context::ir::types::IntType;
use compiler_llvm_context::ir::types::Pointee;
use compiler_llvm_context::ir::types::PointerType;
use compiler_llvm_context::ir::types::StructType;
use compiler_llvm_context::ir::value::BasicBlock;
use compiler_llvm_context::ir::value::BasicValueEnum;
use compiler_llvm_context::ir::value::FunctionValue;
use compiler_llvm_context::ir::value::IntValue;
use compiler_llvm_context::ir::value::PointerValue;
use compiler_llvm_context::ir::value::Source;
use compiler_llvm_context::word::Word;
use compiler_llvm_context::AddressSpace;
use compiler_llvm_context::CodeType;
use compiler_llvm_context::Context;
use compiler_llvm_context::Dependency;
use compiler_llvm_context::DumpFlag;
use compiler_llvm_context::Error;
use compiler_llvm_context::FunctionReturn;
use compiler_llvm_context::IntrinsicFunction;
use compiler_llvm_context::Loop;
use compiler_llvm_context::OptimizationLevel;

struct Manager {
    compiled: Vec<(String, String, OptimizationLevel, OptimizationLevel, Vec<DumpFlag>)>,
    address: Result<String, Error>,
}

impl Manager {
    fn new(address: Result<String, Error>) -> Self {
        Self { compiled: Vec::new(), address }
    }
}

impl Dependency for Manager {
    fn compile(
        &mut self,
        name: &str,
        parent_name: &str,
        optimization_level_middle: OptimizationLevel,
        optimization_level_back: OptimizationLevel,
        dump_flags: Vec<DumpFlag>,
    ) -> Result<String, Error> {
        self.compiled.push((
            name.to_owned(),
            parent_name.to_owned(),
            optimization_level_middle,
            optimization_level_back,
            dump_flags,
        ));
        Ok(format!("{:064x}", self.compiled.len()))
    }

    fn resolve_library(&self, _path: &str) -> Result<String, Error> {
        self.address.clone()
    }
}

/// A manager that answers with what it was handed.
struct Echo;

impl Dependency for Echo {
    fn compile(
        &mut self,
        name: &str,
        parent_name: &str,
        optimization_level_middle: OptimizationLevel,
        optimization_level_back: OptimizationLevel,
        dump_flags: Vec<DumpFlag>,
    ) -> Result<String, Error> {
        Ok(format!(
            "{} {} {:?} {:?} {:?}",
            name, parent_name, optimization_level_middle, optimization_level_back, dump_flags
        ))
    }

    fn resolve_library(&self, path: &str) -> Result<String, Error> {
        Err(Error::Other(path.to_owned()))
    }
}

fn machine() -> TargetMachine {
    TargetMachine::new("syncvm-unknown-unknown".to_owned(), "E-p:256:256".to_owned())
}

fn context(manager: Option<Manager>) -> Context<Manager> {
    Context::new(
        &machine(),
        OptimizationLevel::Default,
        OptimizationLevel::Aggressive,
        "test",
        manager,
        vec![DumpFlag::Yul, DumpFlag::LLVM],
    )
}

/// A context with one function, `main`, and the insertion point in its entry block.
fn started() -> Context<Manager> {
    let mut context = context(None);
    let function_type = context.function_type(0, vec![]);
    context.add_function("main", function_type, Some(Linkage::Private));
    let function = context.get_function("main").expect("Always exists");
    let entry_block = function.entry_block;
    context.set_function(function);
    context.set_basic_block(entry_block);
    context
}

fn instructions(context: &Context<Manager>, block: BasicBlock) -> &Vec<Instruction> {
    &context.module().functions[block.function].blocks[block.index].instructions
}

fn field() -> IntType {
    IntType { bit_length: 256 }
}

fn constant(value: u64) -> IntValue {
    IntValue { ty: field(), source: Source::Constant(Word::from_u64(value)) }
}

fn int_at(block: BasicBlock, index: usize) -> IntValue {
    IntValue { ty: field(), source: Source::Instruction { block, index } }
}

fn pointer_at(address_space: AddressSpace, block: BasicBlock, index: usize) -> PointerValue {
    PointerValue {
        ty: PointerType { pointee: Pointee::Int(field()), address_space },
        source: Source::Instruction { block, index },
    }
}

fn byte_pointer() -> PointerType {
    PointerType {
        pointee: Pointee::Int(IntType { bit_length: 8 }),
        address_space: AddressSpace::Stack,
    }
}

fn null() -> BasicValueEnum {
    BasicValueEnum::PointerValue(PointerValue { ty: byte_pointer(), source: Source::Null })
}

fn rethrow() -> Vec<Instruction> {
    vec![
        Instruction::Call {
            function: FunctionValue::Declared { index: 1 },
            arguments: vec![null(), null(), null()],
            parameter_alignments: vec![],
            return_alignment: None,
            name: "__cxa_throw".to_owned(),
        },
        Instruction::Unreachable,
    ]
}

fn long_return_check(
    block: BasicBlock,
    next: usize,
    return_block: BasicBlock,
    else_block: BasicBlock,
) -> Vec<Instruction> {
    vec![
        Instruction::IntToPtr {
            value: constant(64),
            ty: PointerType { pointee: Pointee::Int(field()), address_space: AddressSpace::Heap },
            name: "long_return_flag_pointer".to_owned(),
        },
        Instruction::Load {
            pointer: pointer_at(AddressSpace::Heap, block, next),
            alignment: 1,
            name: "long_return_flag".to_owned(),
        },
        Instruction::Compare {
            predicate: IntPredicate::EQ,
            left: int_at(block, next + 1),
            right: constant(1),
            name: "is_long_return_flag_set".to_owned(),
        },
        Instruction::ConditionalBranch {
            comparison: IntValue {
                ty: IntType { bit_length: 1 },
                source: Source::Instruction { block, index: next + 2 },
            },
            then_block: return_block,
            else_block,
        },
    ]
}

#[test]
fn new_context_declares_the_runtime_functions() {
    let context = context(None);
    let module = context.module();
    assert_eq!(module.name, "test");
    assert_eq!(module.triple, "syncvm-unknown-unknown");
    assert_eq!(module.data_layout, "E-p:256:256");
    assert_eq!(module.functions.len(), 2);
    assert_eq!(module.functions[0].name, "__personality");
    assert_eq!(
        module.functions[0].ty,
        FunctionType {
            return_type: Some(BasicTypeEnum::IntType(IntType { bit_length: 32 })),
            parameter_types: vec![],
        }
    );
    assert_eq!(module.functions[1].name, "__cxa_throw");
    assert_eq!(module.functions[1].linkage, Some(Linkage::External));
    assert_eq!(
        module.functions[1].ty.parameter_types,
        vec![BasicTypeEnum::PointerType(byte_pointer()); 3]
    );
    assert_eq!(context.runtime().personality, FunctionValue::Declared { index: 0 });
    assert_eq!(context.runtime().cxa_throw, FunctionValue::Declared { index: 1 });
    assert_eq!(context.code_type(), None);
    assert_eq!(context.builder().get_insert_block(), None);
    assert_eq!(context.optimizer().level_middle(), OptimizationLevel::Default);
    assert_eq!(context.optimizer().level_back(), OptimizationLevel::Aggressive);
    assert_eq!(context.verify(), Ok(()));
}

#[test]
fn new_evm_context_keeps_its_data() {
    let mut context: Context<Manager> = Context::new_evm(
        &machine(),
        OptimizationLevel::Off,
        OptimizationLevel::Less,
        "test",
        None,
        vec![],
        compiler_llvm_context::context::evm_data::EVMData::new(1024),
    );
    assert_eq!(context.evm().stack_size, 1024);
    context.evm_mut().stack_size = 16;
    assert_eq!(context.evm().stack_size, 16);
    assert_eq!(context.module().functions.len(), 2);
}

#[test]
fn has_dump_flag_tells_the_flags_given() {
    let context = context(None);
    assert!(context.has_dump_flag(DumpFlag::Yul));
    assert!(context.has_dump_flag(DumpFlag::LLVM));
    assert!(!context.has_dump_flag(DumpFlag::EVM));
    assert!(!context.has_dump_flag(DumpFlag::Assembly));
}

#[test]
fn add_function_builds_the_four_blocks() {
    let mut context = context(None);
    let pointer = BasicTypeEnum::PointerType(PointerType {
        pointee: Pointee::Int(field()),
        address_space: AddressSpace::Stack,
    });
    let function_type = context.function_type(1, vec![BasicTypeEnum::IntType(field()), pointer]);
    context.add_function("f", function_type, None);

    let function = &context.module().functions[2];
    assert_eq!(function.name, "f");
    assert_eq!(function.linkage, None);
    assert_eq!(function.parameter_alignments, vec![None, Some(32)]);
    assert_eq!(function.personality, Some(FunctionValue::Declared { index: 0 }));
    let names: Vec<&str> = function.blocks.iter().map(|block| block.name.as_str()).collect();
    assert_eq!(names, vec!["entry", "throw", "catch", "return"]);
    assert!(function.blocks.iter().all(|block| block.instructions.is_empty()));

    let record = context.get_function("f").expect("Always exists");
    assert_eq!(record.name, "f");
    assert_eq!(record.value, FunctionValue::Declared { index: 2 });
    assert_eq!(record.entry_block, BasicBlock { function: 2, index: 0 });
    assert_eq!(record.throw_block, BasicBlock { function: 2, index: 1 });
    assert_eq!(record.catch_block, BasicBlock { function: 2, index: 2 });
    assert_eq!(record.return_block, BasicBlock { function: 2, index: 3 });
    assert_eq!(record.return_entity, None);
    assert_eq!(record.evm_data, None);
    assert!(context.get_function("g").is_none());
}

#[test]
fn add_function_replaces_the_record_of_the_same_name() {
    let mut context = context(None);
    let function_type = context.function_type(0, vec![]);
    context.add_function("f", function_type, None);
    let function_type = context.function_type(0, vec![]);
    context.add_function("g", function_type, None);
    let function_type = context.function_type(1, vec![]);
    context.add_function("f", function_type, None);

    assert_eq!(context.module().functions.len(), 5);
    let record = context.get_function("f").expect("Always exists");
    assert_eq!(record.value, FunctionValue::Declared { index: 4 });
    let record = context.get_function("g").expect("Always exists");
    assert_eq!(record.value, FunctionValue::Declared { index: 3 });
}

#[test]
fn add_function_evm_keeps_the_data_in_the_record() {
    let mut context = context(None);
    let function_type = context.function_type(0, vec![]);
    let data = compiler_llvm_context::context::function::evm_data::EVMData::new(7);
    context.add_function_evm("f", function_type, Some(Linkage::Private), data);
    let record = context.get_function("f").expect("Always exists");
    assert_eq!(record.evm_data, Some(data));
    assert_eq!(record.entry_block, BasicBlock { function: 2, index: 0 });
    assert_eq!(context.module().functions[2].blocks.len(), 4);
}

#[test]
fn set_function_return_reaches_the_record_and_the_current_function() {
    let mut context = started();
    let pointer = context.build_alloca(Pointee::Int(field()), "result");
    context.set_function_return(FunctionReturn::primitive(pointer));
    assert_eq!(context.function().return_entity, Some(FunctionReturn::Primitive { pointer }));
    assert_eq!(context.function().return_pointer(), Some(pointer));
    let record = context.get_function("main").expect("Always exists");
    assert_eq!(record.return_entity, Some(FunctionReturn::Primitive { pointer }));
}

#[test]
fn function_mut_changes_the_current_function_only() {
    let mut context = started();
    let pointer = context.build_alloca(Pointee::Int(field()), "result");
    context.function_mut().set_return(FunctionReturn::compound(pointer, 3));
    assert_eq!(
        context.function().return_entity,
        Some(FunctionReturn::Compound { pointer, size: 3 })
    );
    assert_eq!(context.get_function("main").expect("Always exists").return_entity, None);
    assert_eq!(FunctionReturn::compound(pointer, 3).return_data_size(), 3);
    assert_eq!(FunctionReturn::primitive(pointer).return_data_size(), 1);
    assert_eq!(FunctionReturn::Void.return_data_size(), 0);
    assert_eq!(FunctionReturn::Void.return_pointer(), None);
}

#[test]
fn function_type_follows_the_number_of_return_values() {
    let mut context = context(None);
    let argument = BasicTypeEnum::IntType(field());
    assert_eq!(
        context.function_type(0, vec![argument]),
        FunctionType { return_type: None, parameter_types: vec![argument] }
    );
    assert_eq!(
        context.function_type(1, vec![argument]),
        FunctionType { return_type: Some(argument), parameter_types: vec![argument] }
    );
    assert!(context.module().structures.is_empty());

    let pointer = BasicTypeEnum::PointerType(PointerType {
        pointee: Pointee::Struct(StructType { index: 0 }),
        address_space: AddressSpace::Stack,
    });
    assert_eq!(
        context.function_type(3, vec![argument]),
        FunctionType { return_type: Some(pointer), parameter_types: vec![pointer, argument] }
    );
    assert_eq!(context.module().structures, vec![vec![argument; 3]]);
}

#[test]
fn types_are_what_they_are_named() {
    let mut context = context(None);
    assert_eq!(context.field_type(), IntType { bit_length: 256 });
    assert_eq!(context.integer_type(8), IntType { bit_length: 8 });
    let _ = context.void_type();
    let fields = vec![BasicTypeEnum::IntType(field()), BasicTypeEnum::PointerType(byte_pointer())];
    assert_eq!(context.structure_type(fields.clone()), StructType { index: 0 });
    assert_eq!(context.structure_type(vec![]), StructType { index: 1 });
    assert_eq!(context.module().structures, vec![fields, vec![]]);
}

#[test]
fn field_constants_from_numbers_and_strings() {
    let context = context(None);
    assert_eq!(context.field_const(5), constant(5));
    assert_eq!(context.field_const_str("ff"), constant(255));
    assert_eq!(context.field_const_str("0xff"), constant(255));
    assert_eq!(context.field_const_str_hex("0x10"), constant(16));
    assert_eq!(context.field_const_str_hex("10"), constant(16));
    assert_eq!(context.field_const_str_dec("10"), constant(10));
    assert_eq!(
        context.field_const_str("0000000000000000000000000000000000000004"),
        constant(4)
    );
    assert_eq!(
        context.field_const_str("00000000000000010000000000000000"),
        IntValue {
            ty: field(),
            source: Source::Constant(Word { limb3: 0, limb2: 0, limb1: 1, limb0: 0 }),
        }
    );
    assert_eq!(context.long_return_offset(), constant(64));
}

#[test]
fn field_const_str_checked_names_the_string_it_refuses() {
    let context = context(None);
    assert_eq!(context.field_const_str_checked("0x2a"), Ok(constant(42)));
    assert_eq!(
        context.field_const_str_checked("0x2g"),
        Err(Error::InvalidConstant("0x2g".to_owned()))
    );
    assert_eq!(context.field_const_str_checked(""), Err(Error::InvalidConstant("".to_owned())));
    assert_eq!(
        context.field_const_str_checked("0x0xff"),
        Err(Error::InvalidConstant("0x0xff".to_owned()))
    );
    assert_eq!(
        context.field_const_str_checked("0x0x0x1"),
        Err(Error::InvalidConstant("0x0x0x1".to_owned()))
    );
    assert_eq!(
        Error::InvalidConstant("0x2g".to_owned()).message(),
        "Invalid string constant `0x2g`"
    );
}

#[test]
fn loops_are_a_stack() {
    let mut context = started();
    let first = context.append_basic_block("first");
    let second = context.append_basic_block("second");
    let third = context.append_basic_block("third");
    assert_eq!(first, BasicBlock { function: 2, index: 4 });
    assert_eq!(third, BasicBlock { function: 2, index: 6 });
    context.push_loop(first, second, third);
    context.push_loop(third, second, first);
    assert_eq!(
        *context.current_loop(),
        Loop { body_block: third, continue_block: second, join_block: first }
    );
    context.pop_loop();
    assert_eq!(*context.current_loop(), Loop::new(first, second, third));
    context.pop_loop();
    context.pop_loop();
}

#[test]
fn stores_and_loads_take_the_alignment_of_the_address_space() {
    let mut context = started();
    let entry = context.basic_block();
    let spaces =
        [AddressSpace::Stack, AddressSpace::Heap, AddressSpace::Parent, AddressSpace::Child];
    let expected = [32, 1, 1, 1];
    for (index, address_space) in spaces.iter().enumerate() {
        let pointer = context.access_memory(constant(0), *address_space, "pointer");
        assert_eq!(pointer, pointer_at(*address_space, entry, index * 3));
        context.build_store(pointer, constant(7).as_basic_value_enum());
        let value = context.build_load(pointer, "value");
        assert_eq!(value, BasicValueEnum::IntValue(int_at(entry, index * 3 + 2)));
        let block = instructions(&context, entry);
        assert_eq!(
            block[index * 3 + 1],
            Instruction::Store {
                pointer,
                value: BasicValueEnum::IntValue(constant(7)),
                alignment: expected[index],
            }
        );
        assert_eq!(
            block[index * 3 + 2],
            Instruction::Load { pointer, alignment: expected[index], name: "value".to_owned() }
        );
        assert_eq!(address_space.alignment(), expected[index]);
    }
    assert_eq!(AddressSpace::Stack.number(), 0);
    assert_eq!(AddressSpace::Heap.number(), 1);
    assert_eq!(AddressSpace::Parent.number(), 2);
    assert_eq!(AddressSpace::Child.number(), 3);
}

#[test]
fn alloca_is_aligned_to_the_word() {
    let mut context = started();
    let entry = context.basic_block();
    let pointer = context.build_alloca(Pointee::Int(IntType { bit_length: 8 }), "byte");
    assert_eq!(
        pointer,
        PointerValue {
            ty: PointerType {
                pointee: Pointee::Int(IntType { bit_length: 8 }),
                address_space: AddressSpace::Stack,
            },
            source: Source::Instruction { block: entry, index: 0 },
        }
    );
    assert_eq!(
        instructions(&context, entry)[0],
        Instruction::Alloca {
            ty: Pointee::Int(IntType { bit_length: 8 }),
            alignment: 32,
            name: "byte".to_owned(),
        }
    );
    let value = context.build_load(pointer, "value");
    assert_eq!(
        value,
        BasicValueEnum::IntValue(IntValue {
            ty: IntType { bit_length: 8 },
            source: Source::Instruction { block: entry, index: 1 },
        })
    );
}

#[test]
fn a_block_keeps_its_first_terminator() {
    let mut context = started();
    let entry = context.basic_block();
    let function = context.function().clone();
    context.build_unconditional_branch(function.return_block);
    let first = instructions(&context, entry).clone();
    assert_eq!(first, vec![Instruction::Branch { destination: function.return_block }]);

    context.build_unconditional_branch(function.throw_block);
    context.build_return(None);
    context.build_unreachable();
    context.build_conditional_branch(constant(1), function.throw_block, function.catch_block);
    assert_eq!(*instructions(&context, entry), first);

    context.set_basic_block(function.return_block);
    context.build_return(Some(constant(1).as_basic_value_enum()));
    context.build_unreachable();
    assert_eq!(
        *instructions(&context, function.return_block),
        vec![Instruction::Return { value: Some(BasicValueEnum::IntValue(constant(1))) }]
    );

    context.set_basic_block(function.throw_block);
    context.build_unreachable();
    context.build_return(None);
    assert_eq!(*instructions(&context, function.throw_block), vec![Instruction::Unreachable]);

    context.set_basic_block(function.catch_block);
    context.build_conditional_branch(constant(1), function.throw_block, function.return_block);
    context.build_unconditional_branch(function.return_block);
    assert_eq!(
        *instructions(&context, function.catch_block),
        vec![Instruction::ConditionalBranch {
            comparison: constant(1),
            then_block: function.throw_block,
            else_block: function.return_block,
        }]
    );
    assert_eq!(context.verify(), Ok(()));
}

#[test]
fn a_terminator_follows_what_is_no_terminator() {
    let mut context = started();
    let entry = context.basic_block();
    let sum = context.build_binary(BinaryOperation::Add, constant(1), constant(2), "sum");
    assert_eq!(sum, int_at(entry, 0));
    context.build_return(Some(sum.as_basic_value_enum()));
    let _ = context.build_binary(BinaryOperation::Mul, sum, sum, "late");
    context.build_unreachable();
    let block = instructions(&context, entry);
    assert_eq!(block.len(), 4);
    assert_eq!(block[1], Instruction::Return { value: Some(BasicValueEnum::IntValue(sum)) });
    assert_eq!(block[3], Instruction::Unreachable);
    assert_eq!(context.verify(), Err(Error::Verification("main".to_owned())));
}

#[test]
fn verify_wants_every_block_closed() {
    let mut context = started();
    assert_eq!(context.verify(), Err(Error::Verification("main".to_owned())));
    let function = context.function().clone();
    for block in [
        function.entry_block,
        function.throw_block,
        function.catch_block,
        function.return_block,
    ] {
        context.set_basic_block(block);
        context.build_unreachable();
    }
    assert_eq!(context.verify(), Ok(()));
    assert_eq!(
        Error::Verification("main".to_owned()).message(),
        "Malformed block in function `main`"
    );
}

#[test]
fn compare_gives_a_boolean() {
    let mut context = started();
    let entry = context.basic_block();
    let result = context.build_int_compare(IntPredicate::ULT, constant(1), constant(2), "less");
    assert_eq!(
        result,
        IntValue {
            ty: IntType { bit_length: 1 },
            source: Source::Instruction { block: entry, index: 0 },
        }
    );
    assert_eq!(
        instructions(&context, entry)[0],
        Instruction::Compare {
            predicate: IntPredicate::ULT,
            left: constant(1),
            right: constant(2),
            name: "less".to_owned(),
        }
    );
}

#[test]
fn call_attaches_the_alignment_to_pointers() {
    let mut context = started();
    let entry = context.basic_block();
    let pointer_type = PointerType { pointee: Pointee::Int(field()), address_space: AddressSpace::Heap };
    let pointer = BasicTypeEnum::PointerType(pointer_type);
    let function_type = FunctionType {
        return_type: Some(pointer),
        parameter_types: vec![BasicTypeEnum::IntType(field()), pointer, pointer],
    };
    context.add_function("callee", function_type, None);
    let callee = context.get_function("callee").expect("Always exists").value;
    let argument = context.access_memory(constant(0), AddressSpace::Heap, "argument");
    let arguments = [
        constant(1).as_basic_value_enum(),
        argument.as_basic_value_enum(),
        argument.as_basic_value_enum(),
    ];
    let result = context.build_call(callee, &arguments, "call");
    assert_eq!(
        result,
        Some(BasicValueEnum::PointerValue(PointerValue {
            ty: pointer_type,
            source: Source::Instruction { block: entry, index: 1 },
        }))
    );
    assert_eq!(
        instructions(&context, entry)[1],
        Instruction::Call {
            function: callee,
            arguments: arguments.to_vec(),
            parameter_alignments: vec![None, Some(32), Some(32)],
            return_alignment: Some(32),
            name: "call".to_owned(),
        }
    );
}

#[test]
fn call_of_the_throw_primitive_attaches_nothing() {
    let mut context = started();
    let entry = context.basic_block();
    let cxa_throw = context.runtime().cxa_throw;
    let result = context.build_call(cxa_throw, &[null(), null(), null()], "__cxa_throw");
    assert_eq!(result, None);
    let result = context.build_call(cxa_throw, &[null(), null(), null()], "other");
    assert_eq!(result, None);
    let block = instructions(&context, entry);
    assert_eq!(block[0], rethrow()[0]);
    assert_eq!(
        block[1],
        Instruction::Call {
            function: cxa_throw,
            arguments: vec![null(), null(), null()],
            parameter_alignments: vec![],
            return_alignment: None,
            name: "other".to_owned(),
        }
    );
}

#[test]
fn call_under_the_name_of_the_throw_primitive_attaches_the_alignment() {
    let mut context = started();
    let entry = context.basic_block();
    let function_type = FunctionType {
        return_type: None,
        parameter_types: vec![BasicTypeEnum::PointerType(byte_pointer())],
    };
    context.add_function("callee", function_type, None);
    let callee = context.get_function("callee").expect("Always exists").value;
    let result = context.build_call(callee, &[null()], "__cxa_throw");
    assert_eq!(result, None);
    assert_eq!(
        instructions(&context, entry)[0],
        Instruction::Call {
            function: callee,
            arguments: vec![null()],
            parameter_alignments: vec![Some(32)],
            return_alignment: None,
            name: "__cxa_throw".to_owned(),
        }
    );
}

#[test]
fn call_of_an_intrinsic_goes_by_its_signature() {
    let mut context = started();
    let entry = context.basic_block();
    let intrinsic = context.get_intrinsic_function(IntrinsicFunction::StorageLoad);
    assert_eq!(intrinsic, FunctionValue::Intrinsic(IntrinsicFunction::StorageLoad));
    let arguments = [constant(1).as_basic_value_enum(), constant(0).as_basic_value_enum()];
    let result = context.build_call(intrinsic, &arguments, "load");
    assert_eq!(result, Some(BasicValueEnum::IntValue(int_at(entry, 0))));
    let switch = context.get_intrinsic_function(IntrinsicFunction::SwitchContext);
    assert_eq!(context.build_call(switch, &[], "switch"), None);
    assert_eq!(
        *instructions(&context, entry),
        vec![
            Instruction::Call {
                function: intrinsic,
                arguments: arguments.to_vec(),
                parameter_alignments: vec![None, None],
                return_alignment: None,
                name: "load".to_owned(),
            },
            Instruction::Call {
                function: switch,
                arguments: vec![],
                parameter_alignments: vec![],
                return_alignment: None,
                name: "switch".to_owned(),
            },
        ]
    );
}

#[test]
fn intrinsics_have_names_and_signatures() {
    let word = BasicTypeEnum::IntType(field());
    let pointer = |address_space| {
        BasicTypeEnum::PointerType(PointerType { pointee: Pointee::Int(field()), address_space })
    };
    assert_eq!(IntrinsicFunction::StorageLoad.name(), "llvm.syncvm.sload");
    assert_eq!(IntrinsicFunction::StorageStore.name(), "llvm.syncvm.sstore");
    assert_eq!(IntrinsicFunction::FarCall.name(), "llvm.syncvm.farcall");
    assert_eq!(IntrinsicFunction::StaticCall.name(), "llvm.syncvm.staticcall");
    assert_eq!(IntrinsicFunction::SwitchContext.name(), "llvm.syncvm.switchcontext");
    assert_eq!(IntrinsicFunction::GetFromContext.name(), "llvm.syncvm.getfromcontext");
    assert_eq!(IntrinsicFunction::MemoryCopy.name(), "llvm.memcpy");
    assert_eq!(IntrinsicFunction::MemoryCopyToChild.name(), "llvm.memcpy");
    assert_eq!(IntrinsicFunction::StorageLoad.argument_types(), vec![]);
    assert_eq!(IntrinsicFunction::StorageLoad.parameter_types(), vec![word, word]);
    assert_eq!(IntrinsicFunction::StorageLoad.return_type(), Some(word));
    assert_eq!(IntrinsicFunction::StorageStore.parameter_types(), vec![word, word, word]);
    assert_eq!(IntrinsicFunction::StorageStore.return_type(), None);
    assert_eq!(
        IntrinsicFunction::MemoryCopyFromParent.argument_types(),
        vec![pointer(AddressSpace::Heap), pointer(AddressSpace::Parent), word]
    );
    assert_eq!(
        IntrinsicFunction::MemoryCopyToParent.argument_types(),
        vec![pointer(AddressSpace::Parent), pointer(AddressSpace::Heap), word]
    );
    assert_eq!(
        IntrinsicFunction::MemoryCopyFromChild.argument_types(),
        vec![pointer(AddressSpace::Heap), pointer(AddressSpace::Child), word]
    );
    assert_eq!(
        IntrinsicFunction::MemoryCopyToChild.parameter_types(),
        vec![
            pointer(AddressSpace::Child),
            pointer(AddressSpace::Heap),
            word,
            BasicTypeEnum::IntType(IntType { bit_length: 1 }),
        ]
    );
    assert_eq!(IntrinsicFunction::MemoryCopy.destination(), AddressSpace::Heap);
    assert_eq!(IntrinsicFunction::MemoryCopy.source(), AddressSpace::Heap);
}

#[test]
fn invoke_goes_on_in_a_new_block() {
    let mut context = started();
    let entry = context.basic_block();
    let function = context.function().clone();
    let intrinsic = context.get_intrinsic_function(IntrinsicFunction::FarCall);
    let arguments = [constant(1).as_basic_value_enum()];
    let result = context.build_invoke(intrinsic, &arguments, "invoke");
    let join_block = BasicBlock { function: 2, index: 4 };
    assert_eq!(result, Some(BasicValueEnum::IntValue(int_at(entry, 0))));
    assert_eq!(context.basic_block(), join_block);
    assert_eq!(context.module().functions[2].blocks[4].name, "join");
    assert!(instructions(&context, join_block).is_empty());
    assert_eq!(
        *instructions(&context, entry),
        vec![Instruction::Invoke {
            function: intrinsic,
            arguments: arguments.to_vec(),
            then_block: join_block,
            catch_block: function.catch_block,
            parameter_alignments: vec![None],
            return_alignment: None,
            name: "invoke".to_owned(),
        }]
    );
}

#[test]
fn memcpy_aligns_both_pointers_to_one_byte() {
    let mut context = started();
    let entry = context.basic_block();
    let destination = context.access_memory(constant(0), AddressSpace::Child, "destination");
    let source = context.access_memory(constant(32), AddressSpace::Heap, "source");
    context.build_memcpy(
        IntrinsicFunction::MemoryCopyToChild,
        destination,
        source,
        constant(64),
        "copy",
    );
    assert_eq!(
        instructions(&context, entry)[2],
        Instruction::Call {
            function: FunctionValue::Intrinsic(IntrinsicFunction::MemoryCopyToChild),
            arguments: vec![
                BasicValueEnum::PointerValue(destination),
                BasicValueEnum::PointerValue(source),
                BasicValueEnum::IntValue(constant(64)),
                BasicValueEnum::IntValue(IntValue {
                    ty: IntType { bit_length: 1 },
                    source: Source::Constant(Word::from_u64(0)),
                }),
            ],
            parameter_alignments: vec![Some(1), Some(1)],
            return_alignment: None,
            name: "copy".to_owned(),
        }
    );
}

#[test]
fn header_is_the_first_word_of_a_memory() {
    let mut context = started();
    let entry = context.basic_block();
    let header = context.read_header(AddressSpace::Child);
    assert_eq!(header, int_at(entry, 1));
    context.write_header(constant(96), AddressSpace::Parent);
    assert_eq!(
        *instructions(&context, entry),
        vec![
            Instruction::IntToPtr {
                value: constant(0),
                ty: PointerType {
                    pointee: Pointee::Int(field()),
                    address_space: AddressSpace::Child,
                },
                name: "header_pointer".to_owned(),
            },
            Instruction::Load {
                pointer: pointer_at(AddressSpace::Child, entry, 0),
                alignment: 1,
                name: "header_value".to_owned(),
            },
            Instruction::IntToPtr {
                value: constant(0),
                ty: PointerType {
                    pointee: Pointee::Int(field()),
                    address_space: AddressSpace::Parent,
                },
                name: "header_pointer".to_owned(),
            },
            Instruction::Store {
                pointer: pointer_at(AddressSpace::Parent, entry, 2),
                value: BasicValueEnum::IntValue(constant(96)),
                alignment: 1,
            },
        ]
    );
}

#[test]
fn write_error_hands_the_hash_of_the_message_to_the_caller() {
    let mut context = started();
    let entry = context.basic_block();
    context.write_error("transfer(address,uint256)");
    let code = constant(0xa9059cbb);
    assert_eq!(
        *instructions(&context, entry),
        vec![
            Instruction::IntToPtr {
                value: constant(0),
                ty: PointerType {
                    pointee: Pointee::Int(field()),
                    address_space: AddressSpace::Parent,
                },
                name: "header_pointer".to_owned(),
            },
            Instruction::Store {
                pointer: pointer_at(AddressSpace::Parent, entry, 0),
                value: BasicValueEnum::IntValue(constant(4)),
                alignment: 1,
            },
            Instruction::Binary {
                operation: BinaryOperation::ShiftLeft,
                left: code,
                right: constant(224),
                name: "error_code_shifted".to_owned(),
            },
            Instruction::IntToPtr {
                value: constant(32),
                ty: PointerType {
                    pointee: Pointee::Int(field()),
                    address_space: AddressSpace::Parent,
                },
                name: "parent_error_code_pointer".to_owned(),
            },
            Instruction::Store {
                pointer: pointer_at(AddressSpace::Parent, entry, 3),
                value: BasicValueEnum::IntValue(int_at(entry, 2)),
                alignment: 1,
            },
        ]
    );
}

#[test]
fn access_context_asks_for_the_value_by_its_number() {
    let mut context = started();
    let entry = context.basic_block();
    let value = context.access_context(ContextValue::BlockTimestamp);
    assert_eq!(value, Ok(BasicValueEnum::IntValue(int_at(entry, 0))));
    assert_eq!(
        *instructions(&context, entry),
        vec![Instruction::Call {
            function: FunctionValue::Intrinsic(IntrinsicFunction::GetFromContext),
            arguments: vec![BasicValueEnum::IntValue(constant(2))],
            parameter_alignments: vec![None],
            return_alignment: None,
            name: "context_get_call".to_owned(),
        }]
    );
}

#[test]
fn throw_block_of_an_inner_function_raises_again() {
    let mut context = started();
    let function = context.function().clone();
    context.build_throw_block(false);
    assert_eq!(*instructions(&context, function.throw_block), rethrow());
    assert_eq!(context.module().functions[2].blocks.len(), 4);
    assert_eq!(context.basic_block(), function.throw_block);
}

#[test]
fn throw_block_of_an_outermost_function_tests_the_long_return_flag() {
    let mut context = started();
    let function = context.function().clone();
    context.build_throw_block(true);
    let else_block = BasicBlock { function: 2, index: 4 };
    assert_eq!(
        *instructions(&context, function.throw_block),
        long_return_check(function.throw_block, 0, function.return_block, else_block)
    );
    assert_eq!(context.module().functions[2].blocks[4].name, "no_long_return_block");
    assert_eq!(*instructions(&context, else_block), rethrow());
    assert_eq!(context.basic_block(), else_block);
}

#[test]
fn catch_block_opens_with_a_landing_pad() {
    let mut context = started();
    let function = context.function().clone();
    context.build_catch_block(false);
    let landing = Instruction::LandingPad {
        ty: StructType { index: 0 },
        personality: FunctionValue::Declared { index: 0 },
        clauses: vec![null()],
        name: "landing".to_owned(),
    };
    let mut expected = vec![landing.clone()];
    expected.extend(rethrow());
    assert_eq!(*instructions(&context, function.catch_block), expected);
    assert_eq!(
        context.module().structures,
        vec![vec![
            BasicTypeEnum::PointerType(byte_pointer()),
            BasicTypeEnum::IntType(IntType { bit_length: 32 }),
        ]]
    );

    let mut context = started();
    context.build_catch_block(true);
    let else_block = BasicBlock { function: 2, index: 4 };
    let mut expected = vec![landing];
    expected.extend(long_return_check(
        function.catch_block,
        1,
        function.return_block,
        else_block,
    ));
    assert_eq!(*instructions(&context, function.catch_block), expected);
    assert_eq!(*instructions(&context, else_block), rethrow());
    assert!(instructions(&context, function.return_block).is_empty());
    assert!(instructions(&context, function.entry_block).is_empty());
}

#[test]
fn compile_dependency_wants_a_manager() {
    let mut context = context(None);
    assert_eq!(context.compile_dependency("Other"), Err(Error::DependencyManagerUnset));
    assert_eq!(Error::DependencyManagerUnset.message(), "The dependency manager is unset");
}

#[test]
fn compile_dependency_hands_the_answer_on() {
    let mut context = context(Some(Manager::new(Ok("10".to_owned()))));
    let expected = format!("{:064x}", 1);
    assert_eq!(context.compile_dependency("Other"), Ok(expected));
    let expected = format!("{:064x}", 2);
    assert_eq!(context.compile_dependency("Third"), Ok(expected));
}

#[test]
fn compile_dependency_hands_the_request_to_the_manager() {
    let mut context: Context<Echo> = Context::new(
        &machine(),
        OptimizationLevel::Less,
        OptimizationLevel::Aggressive,
        "parent",
        Some(Echo),
        vec![DumpFlag::EVM, DumpFlag::Assembly],
    );
    assert_eq!(
        context.compile_dependency("Other"),
        Ok("Other parent Less Aggressive [EVM, Assembly]".to_owned())
    );
    assert_eq!(
        context.resolve_library("lib.sol:Lib"),
        Err(Error::Other("lib.sol:Lib".to_owned()))
    );
}

#[test]
fn dependency_request_is_the_module_the_levels_and_the_flags() {
    let context = context(None);
    assert_eq!(
        context.dependency_request(),
        (
            "test".to_owned(),
            OptimizationLevel::Default,
            OptimizationLevel::Aggressive,
            vec![DumpFlag::Yul, DumpFlag::LLVM],
        )
    );
}

#[test]
fn field_const_answer_reads_a_literal_and_hands_a_failure_on() {
    let context = context(None);
    assert_eq!(context.field_const_answer(Ok("0x10".to_owned())), Ok(constant(16)));
    assert_eq!(
        context.field_const_answer(Ok("none".to_owned())),
        Err(Error::InvalidConstant("none".to_owned()))
    );
    assert_eq!(
        context.field_const_answer(Err(Error::Other("no answer".to_owned()))),
        Err(Error::Other("no answer".to_owned()))
    );
    assert_eq!(
        context.field_const_answer_value(Ok("10".to_owned())),
        Ok(Some(BasicValueEnum::IntValue(constant(16))))
    );
    assert_eq!(
        context.field_const_answer_value(Err(Error::DependencyManagerUnset)),
        Err(Error::DependencyManagerUnset)
    );
}

#[test]
fn resolve_library_reads_the_address_as_a_hexadecimal_literal() {
    let context = context(None);
    assert_eq!(context.resolve_library("lib.sol:Lib"), Err(Error::DependencyManagerUnset));

    let context = self::context(Some(Manager::new(Ok("0x10".to_owned()))));
    assert_eq!(context.resolve_library("lib.sol:Lib"), Ok(constant(16)));

    let context = self::context(Some(Manager::new(Ok("none".to_owned()))));
    assert_eq!(
        context.resolve_library("lib.sol:Lib"),
        Err(Error::InvalidConstant("none".to_owned()))
    );

    let context = self::context(Some(Manager::new(Err(Error::Other("not deployed".to_owned())))));
    assert_eq!(
        context.resolve_library("lib.sol:Lib"),
        Err(Error::Other("not deployed".to_owned()))
    );
    assert_eq!(Error::Other("not deployed".to_owned()).message(), "not deployed");
}

#[test]
fn code_type_is_set_once_known() {
    let mut context = context(None);
    context.set_code_type(CodeType::Runtime);
    assert_eq!(context.code_type(), Some(CodeType::Runtime));
    context.set_code_type(CodeType::Deploy);
    assert_eq!(context.code_type(), Some(CodeType::Deploy));
}
