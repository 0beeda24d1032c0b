use compiler_llvm_context::calldata;
use compiler_llvm_context::context::function::constructor;
use compiler_llvm_context::context::function::selector;
use compiler_llvm_context::hash::keccak256;
use compiler_llvm_context::ir::instruction::Instruction;
use compiler_llvm_context::ir::instruction::InstructionOpcode;
use compiler_llvm_context::ir::module::Linkage;
use compiler_llvm_context::ir::target::TargetMachine;
use compiler_llvm_context::ir::types::FunctionType;
use compiler_llvm_context::ir::types::IntType;
use compiler_llvm_context::ir::value::BasicBlock;
use compiler_llvm_context::ir::value::BasicValueEnum;
use compiler_llvm_context::ir::value::FunctionValue;
use compiler_llvm_context::ir::value::IntValue;
use compiler_llvm_context::ir::value::Source;
use compiler_llvm_context::termination;
use compiler_llvm_context::word::Word;
use compiler_llvm_context::CodeType;
use compiler_llvm_context::ConstructorFunction;
use compiler_llvm_context::Context;
use compiler_llvm_context::Dependency;
use compiler_llvm_context::DumpFlag;
use compiler_llvm_context::Error;
use compiler_llvm_context::IntrinsicFunction;
use compiler_llvm_context::OptimizationLevel;
use compiler_llvm_context::SelectorFunction;
use compiler_llvm_context::WriteLLVM;

struct Manager;

impl Dependency for Manager {
    fn compile(
        &mut self,
        _name: &str,
        _parent_name: &str,
        _optimization_level_middle: OptimizationLevel,
        _optimization_level_back: OptimizationLevel,
        _dump_flags: Vec<DumpFlag>,
    ) -> Result<String, Error> {
        Ok("0".to_owned())
    }

    fn resolve_library(&self, _path: &str) -> Result<String, Error> {
        Ok("0".to_owned())
    }
}

/// What a body does.
enum Body {
    /// Emits nothing.
    Empty,
    /// Reads the size of the calldata.
    Size,
    /// Stops.
    Stop,
    /// Fails.
    Fail,
}

impl WriteLLVM<Manager> for Body {
    fn into_llvm(self, context: &mut Context<Manager>) -> Result<(), Error> {
        match self {
            Body::Empty => Ok(()),
            Body::Size => calldata::size(context).map(|_| ()),
            Body::Stop => termination::stop(context).map(|_| ()),
            Body::Fail => Err(Error::Other("no body".to_owned())),
        }
    }
}

fn context() -> Context<Manager> {
    let machine = TargetMachine::new("syncvm".to_owned(), "E".to_owned());
    Context::new(
        &machine,
        OptimizationLevel::Default,
        OptimizationLevel::Default,
        "Test",
        None,
        vec![],
    )
}

fn instructions(context: &Context<Manager>, block: BasicBlock) -> &Vec<Instruction> {
    &context.module().functions[block.function].blocks[block.index].instructions
}

fn block(index: usize) -> BasicBlock {
    BasicBlock { function: 2, index }
}

fn constant(value: u64) -> BasicValueEnum {
    BasicValueEnum::IntValue(IntValue {
        ty: IntType { bit_length: 256 },
        source: Source::Constant(Word::from_u64(value)),
    })
}

fn opcodes(context: &Context<Manager>, block: BasicBlock) -> Vec<InstructionOpcode> {
    instructions(context, block).iter().map(|instruction| instruction.get_opcode()).collect()
}

fn is_closed(context: &Context<Manager>, block: BasicBlock) -> bool {
    let opcodes = opcodes(context, block);
    match opcodes.split_last() {
        Some((last, rest)) => {
            last.is_terminator() && rest.iter().all(|opcode| !opcode.is_terminator())
        }
        None => false,
    }
}

fn executed_flag() -> Instruction {
    let key = Word::from_hex(&keccak256(b"IS_CONSTRUCTOR_EXECUTED")).expect("Always valid");
    Instruction::Call {
        function: FunctionValue::Intrinsic(IntrinsicFunction::StorageStore),
        arguments: vec![
            constant(1),
            BasicValueEnum::IntValue(IntValue {
                ty: IntType { bit_length: 256 },
                source: Source::Constant(key),
            }),
            constant(0),
        ],
        parameter_alignments: vec![None, None, None],
        return_alignment: None,
        name: "is_executed_flag_store".to_owned(),
    }
}

#[test]
fn constructor_is_declared_private_and_without_parameters() {
    let mut context = context();
    let mut function = ConstructorFunction::new(Body::Empty);
    assert_eq!(function.declare(&mut context), Ok(()));
    let declared = &context.module().functions[2];
    assert_eq!(declared.name, "__constructor");
    assert_eq!(declared.linkage, Some(Linkage::Private));
    assert_eq!(declared.ty, FunctionType { return_type: None, parameter_types: vec![] });
    assert_eq!(declared.blocks.len(), 4);
    assert!(context.get_function("__constructor").is_some());
    assert!(context.get_function("__selector").is_none());
}

#[test]
fn selector_is_declared_private_and_without_parameters() {
    let mut context = context();
    let mut function = SelectorFunction::new(Body::Empty);
    assert_eq!(function.declare(&mut context), Ok(()));
    let declared = &context.module().functions[2];
    assert_eq!(declared.name, "__selector");
    assert_eq!(declared.linkage, Some(Linkage::Private));
    assert_eq!(declared.ty, FunctionType { return_type: None, parameter_types: vec![] });
    assert!(context.get_function("__selector").is_some());
}

#[test]
fn prepare_does_nothing_by_default() {
    let mut context = context();
    assert_eq!(<Body as WriteLLVM<Manager>>::prepare(&mut context), Ok(()));
    assert_eq!(
        <ConstructorFunction<Body, Manager> as WriteLLVM<Manager>>::prepare(&mut context),
        Ok(())
    );
    assert_eq!(context.module().functions.len(), 2);
    let mut body = Body::Empty;
    assert_eq!(body.declare(&mut context), Ok(()));
    assert_eq!(context.module().functions.len(), 2);
}

#[test]
fn constructor_that_is_not_declared_is_not_found() {
    let mut context = context();
    let function = ConstructorFunction::new(Body::Size);
    assert_eq!(function.into_llvm(&mut context), Err(Error::ConstructorNotFound));
    assert_eq!(context.module().functions.len(), 2);
    assert_eq!(Error::ConstructorNotFound.message(), "Contract constructor not found");

    selector::declare_function(&mut context);
    let function = ConstructorFunction::new(Body::Size);
    assert_eq!(function.into_llvm(&mut context), Err(Error::ConstructorNotFound));
}

#[test]
fn selector_that_is_not_declared_is_not_found() {
    let mut context = context();
    constructor::declare_function(&mut context);
    let function = SelectorFunction::new(Body::Size);
    assert_eq!(function.into_llvm(&mut context), Err(Error::SelectorNotFound));
    assert_eq!(Error::SelectorNotFound.message(), "Contract selector not found");
}

#[test]
fn constructor_hands_the_failure_of_its_body_on() {
    let mut context = context();
    constructor::declare_function(&mut context);
    let function = ConstructorFunction::new(Body::Fail);
    assert_eq!(function.into_llvm(&mut context), Err(Error::Other("no body".to_owned())));
    assert_eq!(context.code_type(), Some(CodeType::Deploy));
    assert!(instructions(&context, block(3)).is_empty());
}

#[test]
fn constructor_falls_through_and_writes_the_executed_flag() {
    let mut context = context();
    let mut function = ConstructorFunction::new(Body::Size);
    assert_eq!(function.declare(&mut context), Ok(()));
    assert_eq!(function.into_llvm(&mut context), Ok(()));

    assert_eq!(context.code_type(), Some(CodeType::Deploy));
    assert_eq!(context.function().name, "__constructor");
    assert_eq!(context.basic_block(), block(3));
    let entry = instructions(&context, block(0));
    assert_eq!(entry.len(), 4);
    assert_eq!(entry[3], Instruction::Branch { destination: block(3) });
    assert_eq!(
        *instructions(&context, block(3)),
        vec![executed_flag(), Instruction::Return { value: None }]
    );
    assert_eq!(
        opcodes(&context, block(1)),
        vec![
            InstructionOpcode::IntToPtr,
            InstructionOpcode::Load,
            InstructionOpcode::ICmp,
            InstructionOpcode::Br,
        ]
    );
    assert_eq!(
        opcodes(&context, block(2)),
        vec![
            InstructionOpcode::LandingPad,
            InstructionOpcode::IntToPtr,
            InstructionOpcode::Load,
            InstructionOpcode::ICmp,
            InstructionOpcode::Br,
        ]
    );
    assert_eq!(
        opcodes(&context, block(4)),
        vec![InstructionOpcode::Call, InstructionOpcode::Unreachable]
    );
    assert_eq!(opcodes(&context, block(5)), opcodes(&context, block(4)));
    for index in 0..6 {
        assert!(is_closed(&context, block(index)));
    }
    assert_eq!(context.verify(), Ok(()));
}

#[test]
fn selector_falls_through_and_returns() {
    let mut context = context();
    let mut function = SelectorFunction::new(Body::Empty);
    assert_eq!(function.declare(&mut context), Ok(()));
    assert_eq!(function.into_llvm(&mut context), Ok(()));

    assert_eq!(context.code_type(), Some(CodeType::Runtime));
    assert_eq!(context.function().name, "__selector");
    assert_eq!(
        *instructions(&context, block(0)),
        vec![Instruction::Branch { destination: block(3) }]
    );
    assert_eq!(*instructions(&context, block(3)), vec![Instruction::Return { value: None }]);
    for index in 0..6 {
        assert!(is_closed(&context, block(index)));
    }
    assert_eq!(context.verify(), Ok(()));
}

#[test]
fn body_that_ends_in_a_branch_gets_no_other() {
    let mut context = context();
    let mut function = SelectorFunction::new(Body::Stop);
    assert_eq!(function.declare(&mut context), Ok(()));
    assert_eq!(function.into_llvm(&mut context), Ok(()));
    let entry = instructions(&context, block(0));
    assert_eq!(entry.len(), 3);
    assert_eq!(entry[2], Instruction::Branch { destination: block(3) });
    assert_eq!(context.verify(), Ok(()));
}

#[test]
fn start_binds_the_function_and_bracket_closes_it() {
    let mut context = context();
    constructor::declare_function(&mut context);
    assert_eq!(constructor::start(&mut context), Ok(()));
    assert_eq!(context.basic_block(), block(0));
    assert_eq!(context.function().entry_block, block(0));
    constructor::bracket(&mut context);
    assert_eq!(context.basic_block(), block(3));
    assert!(instructions(&context, block(3)).is_empty());
    constructor::write_is_executed_flag(&mut context);
    assert_eq!(*instructions(&context, block(3)), vec![executed_flag()]);

    let mut context = self::context();
    selector::declare_function(&mut context);
    assert_eq!(selector::start(&mut context), Ok(()));
    selector::finish(&mut context);
    assert_eq!(*instructions(&context, block(3)), vec![Instruction::Return { value: None }]);
}

#[test]
fn constructor_around_a_constructor_finishes_the_same_function_twice() {
    let mut context = context();
    let mut function = ConstructorFunction::new(ConstructorFunction::new(Body::Empty));
    assert_eq!(function.declare(&mut context), Ok(()));
    assert_eq!(context.module().functions.len(), 4);
    assert_eq!(function.into_llvm(&mut context), Ok(()));
    assert_eq!(context.function().value, FunctionValue::Declared { index: 3 });
}
