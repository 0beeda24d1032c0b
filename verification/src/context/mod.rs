//! The generator context.

pub mod address_space;
pub mod argument;
pub mod code_type;
pub mod emission;
pub mod evm_data;
pub mod function;
pub mod literal;
pub mod loops;
pub mod optimizer;
pub mod unwinding;
pub mod view;

use vstd::prelude::*;

use crate::Dependency;
use crate::abi::SIZE_FIELD;
use crate::dump_flag::DumpFlag;
use crate::error::Error;
use crate::error::ErrorView;
use crate::ir::builder::Builder;
use crate::ir::module::Linkage;
use crate::ir::module::Module;
use crate::ir::module::ModuleFunctionView;
use crate::ir::module::ModuleView;
use crate::ir::target::TargetMachine;
use crate::ir::types::FunctionType;
use crate::ir::types::PointerType;
use crate::ir::value::BasicBlock;
use crate::ir::value::FunctionValue;
use crate::ir::value::IntValue;

use self::code_type::CodeType;
use self::evm_data::EVMData;
use self::function::Function;
use self::function::FunctionView;
use self::function::evm_data::EVMData as FunctionEVMData;
use self::function::intrinsic::Intrinsic as IntrinsicFunction;
use self::function::returning::Return as FunctionReturn;
use self::function::runtime::Runtime;
use self::literal::reads_answer;
use self::loops::Loop;
use self::optimizer::OptimizationLevel;
use self::optimizer::Optimizer;
use self::view::lemma_with_block;
use self::view::lemma_with_function;
use self::view::lemma_with_function_declared;
use self::view::scaffold_record;

verus! {

/// The generator context: the module being emitted and the bookkeeping of the emission.
pub struct Context<D: Dependency> {
    /// The builder, which holds the insertion point.
    builder: Builder,
    /// The settings of the optimizing tools.
    optimizer: Optimizer,
    /// The current module.
    module: Module,
    /// The current function.
    function: Option<Function>,
    /// The loop context stack.
    loop_stack: Vec<Loop>,
    /// The current contract code type, if known.
    code_type: Option<CodeType>,
    /// The runtime functions.
    runtime: Runtime,
    /// The declared functions, no two of them with the same name.
    functions: Vec<Function>,
    /// The project dependency manager.
    dependency_manager: Option<D>,
    /// Whether to dump the specified IRs.
    dump_flags: Vec<DumpFlag>,
    /// The data of a context that lowers stack-machine assembly.
    evm_data: Option<EVMData>,
}

/// The context as a mathematical value.
pub struct ContextView<D> {
    /// The current module.
    pub module: ModuleView,
    /// The insertion point: the block at whose end the next instruction goes.
    pub position: Option<BasicBlock>,
    /// The settings of the optimizing tools.
    pub optimizer: Optimizer,
    /// The current function.
    pub function: Option<FunctionView>,
    /// The loop context stack, the innermost loop last.
    pub loop_stack: Seq<Loop>,
    /// The current contract code type, if known.
    pub code_type: Option<CodeType>,
    /// The runtime functions.
    pub runtime: Runtime,
    /// The declared functions.
    pub functions: Seq<FunctionView>,
    /// The project dependency manager.
    pub dependency_manager: Option<D>,
    /// Whether to dump the specified IRs.
    pub dump_flags: Seq<DumpFlag>,
    /// The data of a context that lowers stack-machine assembly.
    pub evm_data: Option<EVMData>,
}

impl<D: Dependency> View for Context<D> {
    type V = ContextView<D>;

    closed spec fn view(&self) -> ContextView<D> {
        ContextView {
            module: self.module@,
            position: self.builder.position,
            optimizer: self.optimizer,
            function: match self.function {
                Some(function) => Some(function@),
                None => None,
            },
            loop_stack: self.loop_stack@,
            code_type: self.code_type,
            runtime: self.runtime,
            functions: self.functions@.map_values(|function: Function| function@),
            dependency_manager: self.dependency_manager,
            dump_flags: self.dump_flags@,
            evm_data: self.evm_data,
        }
    }
}

impl<D: Dependency> Context<D> {
    /// Initializes a new context, with an empty module that declares the runtime functions.
    pub fn new(
        machine: &TargetMachine,
        optimization_level_middle: OptimizationLevel,
        optimization_level_back: OptimizationLevel,
        module_name: &str,
        dependency_manager: Option<D>,
        dump_flags: Vec<DumpFlag>,
    ) -> (result: Self)
        ensures
            result@ == (ContextView {
                module: Runtime::declared(
                    ModuleView {
                        name: module_name@,
                        triple: machine.triple@,
                        data_layout: machine.data_layout@,
                        structures: seq![],
                        functions: seq![],
                    },
                ),
                position: None,
                optimizer: Optimizer {
                    level_middle: optimization_level_middle,
                    level_back: optimization_level_back,
                },
                function: None,
                loop_stack: seq![],
                code_type: None,
                runtime: Runtime {
                    personality: FunctionValue::Declared { index: 0 },
                    cxa_throw: FunctionValue::Declared { index: 1 },
                },
                functions: seq![],
                dependency_manager,
                dump_flags: dump_flags@,
                evm_data: None,
            }),
            result@.wf(),
    {
        let mut module = Module::new(
            module_name,
            machine.get_triple(),
            machine.get_data_layout(),
        );
        let optimizer = Optimizer::new(optimization_level_middle, optimization_level_back);
        let runtime = Runtime::new(&mut module);
        let result = Self {
            builder: Builder::new(),
            optimizer,
            module,
            function: None,
            loop_stack: Vec::new(),
            code_type: None,
            runtime,
            functions: Vec::new(),
            dependency_manager,
            dump_flags,
            evm_data: None,
        };
        assert(result@.functions =~= seq![]);
        assert(result@.loop_stack =~= seq![]);
        result
    }

    /// Initializes a new context that lowers stack-machine assembly.
    pub fn new_evm(
        machine: &TargetMachine,
        optimization_level_middle: OptimizationLevel,
        optimization_level_back: OptimizationLevel,
        module_name: &str,
        dependency_manager: Option<D>,
        dump_flags: Vec<DumpFlag>,
        evm_data: EVMData,
    ) -> (result: Self)
        ensures
            result@ == (ContextView {
                module: Runtime::declared(
                    ModuleView {
                        name: module_name@,
                        triple: machine.triple@,
                        data_layout: machine.data_layout@,
                        structures: seq![],
                        functions: seq![],
                    },
                ),
                position: None,
                optimizer: Optimizer {
                    level_middle: optimization_level_middle,
                    level_back: optimization_level_back,
                },
                function: None,
                loop_stack: seq![],
                code_type: None,
                runtime: Runtime {
                    personality: FunctionValue::Declared { index: 0 },
                    cxa_throw: FunctionValue::Declared { index: 1 },
                },
                functions: seq![],
                dependency_manager,
                dump_flags: dump_flags@,
                evm_data: Some(evm_data),
            }),
            result@.wf(),
    {
        let mut object = Self::new(
            machine,
            optimization_level_middle,
            optimization_level_back,
            module_name,
            dependency_manager,
            dump_flags,
        );
        object.evm_data = Some(evm_data);
        object
    }

    /// Returns the builder, which holds the insertion point.
    pub fn builder(&self) -> (result: &Builder)
        ensures
            result.position == self@.position,
    {
        &self.builder
    }

    /// Returns the current module reference.
    pub fn module(&self) -> (result: &Module)
        ensures
            result@ == self@.module,
    {
        &self.module
    }

    /// Returns the runtime functions.
    pub fn runtime(&self) -> (result: Runtime)
        ensures
            result == self@.runtime,
    {
        self.runtime
    }

    /// Returns the settings of the optimizing tools.
    pub fn optimizer(&self) -> (result: Optimizer)
        ensures
            result == self@.optimizer,
    {
        self.optimizer
    }

    /// Returns the current contract code type, if known.
    pub fn code_type(&self) -> (result: Option<CodeType>)
        ensures
            result == self@.code_type,
    {
        self.code_type
    }

    /// Sets the current contract code type.
    pub fn set_code_type(&mut self, code_type: CodeType)
        ensures
            final(self)@ == (ContextView { code_type: Some(code_type), ..old(self)@ }),
    {
        self.code_type = Some(code_type);
    }

    /// Checks whether the specified dump flag is set.
    pub fn has_dump_flag(&self, dump_flag: DumpFlag) -> (result: bool)
        ensures
            result == self@.dump_flags.contains(dump_flag),
    {
        let mut index: usize = 0;
        while index < self.dump_flags.len()
            invariant
                index <= self.dump_flags@.len(),
                forall|k: int| 0 <= k < index ==> self.dump_flags@[k] != dump_flag,
            decreases self.dump_flags@.len() - index,
        {
            if self.dump_flags[index] == dump_flag {
                return true;
            }
            index += 1;
        }
        false
    }

    /// The place in the table of the declared function of the given name, if there is one.
    fn find_function(&self, name: &str) -> (result: Option<usize>)
        ensures
            result is Some <==> self@.has_function(name@),
            result matches Some(index) ==> index < self@.functions.len()
                && self@.functions[index as int].name == name@,
    {
        let mut index: usize = 0;
        while index < self.functions.len()
            invariant
                index <= self.functions@.len(),
                forall|k: int| 0 <= k < index ==> (#[trigger] self@.functions[k]).name != name@,
            decreases self.functions@.len() - index,
        {
            if crate::text::equal(self.functions[index].name.as_str(), name) {
                return Some(index);
            }
            index += 1;
        }
        None
    }

    /// Returns the record of the declared function of the given name, if there is one.
    pub fn get_function(&self, name: &str) -> (result: Option<Function>)
        requires
            self@.wf(),
        ensures
            result is Some <==> self@.has_function(name@),
            result matches Some(function) ==> function@ == self@.function_named(name@)
                && function@.name == name@ && function@.is_in(self@.module),
    {
        match self.find_function(name) {
            Some(index) => {
                let function = self.functions[index].clone();
                proof {
                    let chosen = choose|i: int|
                        0 <= i < self@.functions.len() && (#[trigger] self@.functions[i]).name
                            == name@;
                    assert(chosen == index);
                }
                Some(function)
            },
            None => None,
        }
    }

    /// Returns the current function.
    pub fn function(&self) -> (result: &Function)
        requires
            self@.function is Some,
        ensures
            self@.function == Some(result@),
    {
        match &self.function {
            Some(function) => function,
            None => vstd::pervasive::unreached(),
        }
    }

    /// Sets the current function.
    pub fn set_function(&mut self, function: Function)
        requires
            old(self)@.wf(),
            function@.is_in(old(self)@.module),
            old(self)@.has_function(function@.name),
        ensures
            final(self)@ == (ContextView { function: Some(function@), ..old(self)@ }),
            final(self)@.wf(),
    {
        self.function = Some(function);
    }

    /// Returns the specified intrinsic function.
    pub fn get_intrinsic_function(&self, intrinsic: IntrinsicFunction) -> (result: FunctionValue)
        ensures
            result == FunctionValue::Intrinsic(intrinsic),
    {
        FunctionValue::Intrinsic(intrinsic)
    }

    /// Sets the current basic block.
    pub fn set_basic_block(&mut self, block: BasicBlock)
        requires
            old(self)@.wf(),
            old(self)@.module.has_block(block),
        ensures
            final(self)@ == old(self)@.at(block),
            final(self)@.wf(),
    {
        self.builder.position_at_end(block);
    }

    /// Returns the current basic block.
    pub fn basic_block(&self) -> (result: BasicBlock)
        requires
            self@.position is Some,
        ensures
            result == self@.here(),
    {
        match self.builder.get_insert_block() {
            Some(block) => block,
            None => vstd::pervasive::unreached(),
        }
    }

    /// Pushes a new loop context to the stack.
    pub fn push_loop(
        &mut self,
        body_block: BasicBlock,
        continue_block: BasicBlock,
        join_block: BasicBlock,
    )
        ensures
            final(self)@ == (ContextView {
                loop_stack: old(self)@.loop_stack.push(
                    Loop { body_block, continue_block, join_block },
                ),
                ..old(self)@
            }),
    {
        self.loop_stack.push(Loop::new(body_block, continue_block, join_block));
    }

    /// Pops the current loop context from the stack. Does nothing in an empty stack.
    pub fn pop_loop(&mut self)
        ensures
            final(self)@ == (ContextView {
                loop_stack: if old(self)@.loop_stack.len() == 0 {
                    old(self)@.loop_stack
                } else {
                    old(self)@.loop_stack.drop_last()
                },
                ..old(self)@
            }),
    {
        let _ = self.loop_stack.pop();
    }

    /// Returns the current loop context.
    pub fn current_loop(&self) -> (result: &Loop)
        requires
            self@.loop_stack.len() > 0,
        ensures
            *result == self@.loop_stack.last(),
    {
        &self.loop_stack[self.loop_stack.len() - 1]
    }

    /// Returns the data of a context that lowers stack-machine assembly.
    pub fn evm(&self) -> (result: &EVMData)
        requires
            self@.evm_data is Some,
        ensures
            self@.evm_data == Some(*result),
    {
        match &self.evm_data {
            Some(evm_data) => evm_data,
            None => vstd::pervasive::unreached(),
        }
    }

    /// Appends a new basic block to the current function.
    pub fn append_basic_block(&mut self, name: &str) -> (result: BasicBlock)
        requires
            old(self)@.wf(),
            old(self)@.function is Some,
        ensures
            final(self)@ == old(self)@.with_block(name@),
            final(self)@.wf(),
            result == old(self)@.new_block(),
            final(self)@.module.has_block(result),
            old(self)@.module.functions[old(self)@.function->0.index()].blocks.len() < usize::MAX,
    {
        let index = match self.function().value {
            FunctionValue::Declared { index } => index,
            FunctionValue::Intrinsic(_) => vstd::pervasive::unreached(),
        };
        let count = self.module.functions[index].blocks.len();
        proof {
            assert(self@.module.functions[index as int].blocks.len() == count);
            lemma_with_block(self@, name@);
        }
        let block = self.module.append_basic_block(index, name);
        let after = self.module.functions[index].blocks.len();
        proof {
            assert(self@.module.functions[index as int].blocks.len() == after);
        }
        block
    }

    /// Appends a function to the current module, with its four fixed blocks, and records it
    /// among the declared functions, in the place of the function of the same name if there
    /// is one.
    #[verifier::rlimit(40)]
    pub fn add_function(&mut self, name: &str, ty: FunctionType, linkage: Option<Linkage>)
        requires
            old(self)@.wf(),
        ensures
            final(self)@ == old(self)@.with_function(name@, ty@, linkage),
            final(self)@.wf(),
            final(self)@.has_function(name@),
            forall|other: Seq<char>|
                old(self)@.has_function(other) ==> #[trigger] final(self)@.has_function(other),
            old(self)@.module.functions.len() < usize::MAX,
    {
        let ghost ty_view = ty@;
        let ghost before = self@;
        let ghost types = ty@.parameter_types;
        let count = self.module.functions.len();
        assert(self@.module.functions.len() == count);
        let value = self.module.add_function(name, ty, linkage);
        let index = match value {
            FunctionValue::Declared { index } => index,
            FunctionValue::Intrinsic(_) => vstd::pervasive::unreached(),
        };
        let parameter_types = self.module.get_parameter_types(value);
        let length = parameter_types.len();
        let after = self.module.functions.len();
        assert(self.module@.functions.len() == after);
        let ghost declaration = ModuleFunctionView::declaration(name@, ty_view, linkage);
        let mut position: usize = 0;
        proof {
            let start = ModuleFunctionView {
                parameter_alignments: Seq::new(
                    types.len(),
                    |i: int|
                        if i < 0 && types[i] is PointerType {
                            Some(SIZE_FIELD as u32)
                        } else {
                            None
                        },
                ),
                ..declaration
            };
            assert(start.parameter_alignments =~= declaration.parameter_alignments);
        }
        while position < length
            invariant
                position <= length,
                index == before.module.functions.len(),
                length == types.len(),
                parameter_types@ == types,
                declaration == ModuleFunctionView::declaration(name@, ty_view, linkage),
                types == ty_view.parameter_types,
                self.module@ == before.module.with_function(
                    ModuleFunctionView {
                        parameter_alignments: Seq::new(
                            types.len(),
                            |i: int|
                                if i < position && types[i] is PointerType {
                                    Some(SIZE_FIELD as u32)
                                } else {
                                    None
                                },
                        ),
                        ..declaration
                    },
                ),
                self.builder == old(self).builder,
                self.function == old(self).function,
                self.functions == old(self).functions,
                self.runtime == old(self).runtime,
                self.optimizer == old(self).optimizer,
                self.loop_stack == old(self).loop_stack,
                self.code_type == old(self).code_type,
                self.dependency_manager == old(self).dependency_manager,
                self.dump_flags == old(self).dump_flags,
                self.evm_data == old(self).evm_data,
            decreases length - position,
        {
            let ghost module = self.module@;
            if parameter_types[position].is_pointer_type() {
                self.module.set_param_alignment(index, position, SIZE_FIELD as u32);
            }
            position += 1;
            proof {
                let target = before.module.with_function(
                    ModuleFunctionView {
                        parameter_alignments: Seq::new(
                            types.len(),
                            |i: int|
                                if i < position && types[i] is PointerType {
                                    Some(SIZE_FIELD as u32)
                                } else {
                                    None
                                },
                        ),
                        ..declaration
                    },
                );
                assert(self.module@.functions[index as int].parameter_alignments
                    =~= target.functions[index as int].parameter_alignments);
                assert(self.module@.functions =~= target.functions);
            }
        }
        self.module.set_personality_function(index, self.runtime.personality);
        let entry_block = self.module.append_basic_block(index, "entry");
        let throw_block = self.module.append_basic_block(index, "throw");
        let catch_block = self.module.append_basic_block(index, "catch");
        let return_block = self.module.append_basic_block(index, "return");
        proof {
            let target = before.with_function(name@, ty_view, linkage).module;
            assert(self.module@.functions[index as int].parameter_alignments
                =~= target.functions[index as int].parameter_alignments);
            assert(self.module@.functions[index as int].blocks
                =~= target.functions[index as int].blocks);
            assert(self.module@.functions =~= target.functions);
        }

        let function = Function::new(
            name.to_owned(),
            value,
            entry_block,
            throw_block,
            catch_block,
            return_block,
            None,
        );
        assert(function@ == scaffold_record(name@, index));
        match self.find_function(name) {
            Some(place) => {
                proof {
                    let chosen = choose|i: int|
                        0 <= i < before.functions.len() && before.functions[i].name == name@;
                    if chosen < place {
                        assert(before.functions[chosen].name != before.functions[place as int].name);
                    } else if place < chosen {
                        assert(before.functions[place as int].name != before.functions[chosen].name);
                    }
                }
                self.functions[place] = function;
                assert(self@.functions =~= before.functions.update(place as int, function@));
            },
            None => {
                self.functions.push(function);
                assert(self@.functions =~= before.functions.push(function@));
            },
        }
        proof {
            lemma_with_function(before, name@, ty_view, linkage);
            lemma_with_function_declared(before, name@, ty_view, linkage);
        }
    }

    /// Appends a function that holds lowered stack-machine assembly to the current module.
    #[verifier::rlimit(40)]
    pub fn add_function_evm(
        &mut self,
        name: &str,
        ty: FunctionType,
        linkage: Option<Linkage>,
        evm_data: FunctionEVMData,
    )
        requires
            old(self)@.wf(),
        ensures
            final(self)@ == (ContextView {
                functions: old(self)@.with_function(name@, ty@, linkage).functions.update(
                    old(self)@.with_function(name@, ty@, linkage).index_of(name@),
                    FunctionView {
                        evm_data: Some(evm_data),
                        ..scaffold_record(name@, old(self)@.module.functions.len() as usize)
                    },
                ),
                ..old(self)@.with_function(name@, ty@, linkage)
            }),
            final(self)@.wf(),
            final(self)@.has_function(name@),
    {
        let ghost ty_view = ty@;
        let ghost count = self.module.functions.len();
        self.add_function(name, ty, linkage);
        let ghost middle = self@;
        proof {
            lemma_with_function(old(self)@, name@, ty_view, linkage);
        }
        match self.find_function(name) {
            Some(place) => {
                proof {
                    let chosen = middle.index_of(name@);
                    if chosen < place {
                        assert(middle.functions[chosen].name != middle.functions[place as int].name);
                    } else if place < chosen {
                        assert(middle.functions[place as int].name != middle.functions[chosen].name);
                    }
                }
                self.functions[place].evm_data = Some(evm_data);
                proof {
                    let record = FunctionView {
                        evm_data: Some(evm_data),
                        ..scaffold_record(name@, count as usize)
                    };
                    assert(self@.functions =~= middle.functions.update(place as int, record));
                    assert forall|i: int| 0 <= i < self@.functions.len() implies (
                    #[trigger] self@.functions[i]).is_in(self@.module) by {
                        assert(middle.functions[i].is_in(middle.module));
                    }
                    assert forall|i: int, j: int| 0 <= i < j < self@.functions.len() implies (
                    #[trigger] self@.functions[i]).name != (#[trigger] self@.functions[j]).name by {
                        assert(middle.functions[i].name != middle.functions[j].name);
                    }
                    assert(self@.functions[place as int].name == name@);
                    if self@.function is Some {
                        let current = self@.function->0;
                        let witness = choose|i: int|
                            0 <= i < middle.functions.len() && (
                            #[trigger] middle.functions[i]).name == current.name;
                        assert(self@.functions[witness].name == current.name);
                    }
                }
            },
            None => {
                proof {
                    assert(false);
                }
            },
        }
    }

    /// Returns the current function as a mutable reference. What is changed through it is
    /// changed in the current function only, not in its record among the declared functions.
    pub fn function_mut(&mut self) -> (result: &mut Function)
        requires
            old(self)@.function is Some,
        ensures
            old(self)@.function == Some(result@),
            final(self)@ == (ContextView { function: Some(final(result)@), ..old(self)@ }),
    {
        match &mut self.function {
            Some(function) => function,
            None => vstd::pervasive::unreached(),
        }
    }

    /// Sets the return entity for the current function.
    #[verifier::rlimit(40)]
    pub fn set_function_return(&mut self, return_entity: FunctionReturn)
        requires
            old(self)@.wf(),
            old(self)@.function is Some,
        ensures
            final(self)@ == old(self)@.with_return(return_entity),
            final(self)@.wf(),
    {
        let ghost before = self@;
        let name = self.function().name.clone();
        match self.find_function(name.as_str()) {
            Some(place) => {
                proof {
                    let chosen = before.index_of(name@);
                    if chosen < place {
                        assert(before.functions[chosen].name != before.functions[place as int].name);
                    } else if place < chosen {
                        assert(before.functions[place as int].name != before.functions[chosen].name);
                    }
                }
                self.functions[place].return_entity = Some(return_entity);
            },
            None => {
                proof {
                    assert(false);
                }
            },
        }
        match &mut self.function {
            Some(function) => {
                function.return_entity = Some(return_entity);
            },
            None => {},
        }
        proof {
            let after = before.with_return(return_entity);
            assert(self@.functions =~= after.functions);
            assert forall|i: int| 0 <= i < after.functions.len() implies (
            #[trigger] after.functions[i]).is_in(after.module) by {
                assert(before.functions[i].is_in(before.module));
            }
            assert forall|i: int, j: int| 0 <= i < j < after.functions.len() implies (
            #[trigger] after.functions[i]).name != (#[trigger] after.functions[j]).name by {
                assert(before.functions[i].name != before.functions[j].name);
            }
            let witness = before.index_of(name@);
            assert(after.functions[witness].name == name@);
        }
    }

    /// Returns the data of a context that lowers stack-machine assembly, as a mutable
    /// reference.
    pub fn evm_mut(&mut self) -> (result: &mut EVMData)
        requires
            old(self)@.evm_data is Some,
        ensures
            old(self)@.evm_data == Some(*result),
            final(self)@ == (ContextView { evm_data: Some(*final(result)), ..old(self)@ }),
    {
        match &mut self.evm_data {
            Some(evm_data) => evm_data,
            None => vstd::pervasive::unreached(),
        }
    }

    /// What the dependency manager is handed with the name of a dependency to compile: the
    /// name of the current module, the optimization levels of the middle end and of the back
    /// end, and a copy of the dump flags.
    pub fn dependency_request(&self) -> (result: (
        String,
        OptimizationLevel,
        OptimizationLevel,
        Vec<DumpFlag>,
    ))
        ensures
            result.0@ == self@.module.name,
            result.1 == self@.optimizer.level_middle,
            result.2 == self@.optimizer.level_back,
            result.3@ == self@.dump_flags,
    {
        let mut dump_flags: Vec<DumpFlag> = Vec::new();
        let mut index: usize = 0;
        while index < self.dump_flags.len()
            invariant
                index <= self.dump_flags@.len(),
                dump_flags@ == self.dump_flags@.take(index as int),
            decreases self.dump_flags@.len() - index,
        {
            dump_flags.push(self.dump_flags[index]);
            index += 1;
            assert(dump_flags@ =~= self.dump_flags@.take(index as int));
        }
        assert(self.dump_flags@.take(index as int) =~= self.dump_flags@);
        (
            self.module.name.clone(),
            self.optimizer.level_middle(),
            self.optimizer.level_back(),
            dump_flags,
        )
    }

    /// Compiles a contract dependency, if the dependency manager is set: the manager is
    /// handed the name of the dependency and the request of the context, once, and its answer
    /// is handed on as it is.
    pub fn compile_dependency(&mut self, name: &str) -> (result: Result<String, Error>)
        ensures
            final(self)@ == (ContextView {
                dependency_manager: final(self)@.dependency_manager,
                ..old(self)@
            }),
            old(self)@.dependency_manager is None ==> final(self)@ == old(self)@ && (
            result matches Err(error) && error@ == ErrorView::DependencyManagerUnset),
            old(self)@.dependency_manager matches Some(manager) ==> final(self)@.dependency_manager
                is Some && manager.compiles(
                final(self)@.dependency_manager->0,
                name@,
                old(self)@.module.name,
                old(self)@.optimizer.level_middle,
                old(self)@.optimizer.level_back,
                old(self)@.dump_flags,
                result,
            ),
            old(self)@.wf() ==> final(self)@.wf(),
    {
        let (parent_name, optimization_level_middle, optimization_level_back, dump_flags) =
            self.dependency_request();
        match &mut self.dependency_manager {
            Some(manager) => manager.compile(
                name,
                parent_name.as_str(),
                optimization_level_middle,
                optimization_level_back,
                dump_flags,
            ),
            None => Err(Error::DependencyManagerUnset),
        }
    }

    /// Gets a deployed library address, if the dependency manager is set: the manager is
    /// asked for the address of the library at `path`, and its answer is read as a constant.
    pub fn resolve_library(&self, path: &str) -> (result: Result<IntValue, Error>)
        ensures
            self@.dependency_manager is None ==> (result matches Err(error) && error@
                == ErrorView::DependencyManagerUnset),
            self@.dependency_manager matches Some(manager) ==> exists|
                answer: Result<String, Error>,
            |
                #[trigger] manager.resolves(path@, answer) && reads_answer(answer, result),
    {
        match &self.dependency_manager {
            Some(manager) => {
                let answer = manager.resolve_library(path);
                let ghost given = answer;
                let result = self.field_const_answer(answer);
                assert(manager.resolves(path@, given) && reads_answer(given, result));
                result
            },
            None => Err(Error::DependencyManagerUnset),
        }
    }

    /// Verifies the current module: every block of every function must end in a terminator
    /// and hold no other. Fails with the name of the first function that has another block.
    pub fn verify(&self) -> (result: Result<(), Error>)
        ensures
            result is Ok <==> self@.module.is_closed(),
            result matches Err(error) ==> exists|index: int|
                self@.module.is_first_open(index) && error@ == ErrorView::Verification(
                    #[trigger] self@.module.functions[index].name,
                ),
    {
        match self.module.first_open() {
            Some(index) => {
                let name = self.module.function_name(index);
                assert(name@ == self@.module.functions[index as int].name);
                Err(Error::Verification(name))
            },
            None => Ok(()),
        }
    }
}

} // verus!
