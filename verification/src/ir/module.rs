//! The module: the functions emitted so far, block by block.

use vstd::prelude::*;

use crate::ir::instruction::Instruction;
use crate::ir::instruction::InstructionOpcode;
use crate::ir::instruction::InstructionView;
use crate::ir::types::BasicTypeEnum;
use crate::ir::types::FunctionType;
use crate::ir::types::FunctionTypeView;
use crate::ir::types::StructType;
use crate::ir::value::BasicBlock;
use crate::ir::value::FunctionValue;

verus! {

/// How a function is seen from outside its module.
#[derive(Debug, Clone, Copy, PartialEq, Eq, Structural, Hash)]
pub enum Linkage {
    /// Visible to other modules.
    External,
    /// Visible in this module only, and named in its symbol table.
    Internal,
    /// Visible in this module only.
    Private,
}

/// A basic block: a name and the instructions emitted into it, in order.
#[derive(Debug, Clone, PartialEq, Eq)]
pub struct Block {
    /// The name of the block.
    pub name: String,
    /// The instructions of the block.
    pub instructions: Vec<Instruction>,
}

/// A basic block as a mathematical value.
pub struct BlockView {
    /// The name of the block.
    pub name: Seq<char>,
    /// The instructions of the block.
    pub instructions: Seq<InstructionView>,
}

impl View for Block {
    type V = BlockView;

    open spec fn view(&self) -> BlockView {
        BlockView {
            name: self.name@,
            instructions: self.instructions@.map_values(|instruction: Instruction| instruction@),
        }
    }
}

/// A function of the module: its declaration and, where it has a body, its blocks.
#[derive(Debug, Clone, PartialEq, Eq)]
pub struct ModuleFunction {
    /// The name of the function.
    pub name: String,
    /// The type of the function.
    pub ty: FunctionType,
    /// The linkage of the function, where one was given.
    pub linkage: Option<Linkage>,
    /// The alignment in bytes of each parameter for which one was set.
    pub parameter_alignments: Vec<Option<u32>>,
    /// The personality function, where one was set.
    pub personality: Option<FunctionValue>,
    /// The blocks of the function, in the order in which they were appended.
    pub blocks: Vec<Block>,
}

/// A function of the module as a mathematical value.
pub struct ModuleFunctionView {
    /// The name of the function.
    pub name: Seq<char>,
    /// The type of the function.
    pub ty: FunctionTypeView,
    /// The linkage of the function, where one was given.
    pub linkage: Option<Linkage>,
    /// The alignment in bytes of each parameter for which one was set.
    pub parameter_alignments: Seq<Option<u32>>,
    /// The personality function, where one was set.
    pub personality: Option<FunctionValue>,
    /// The blocks of the function, in the order in which they were appended.
    pub blocks: Seq<BlockView>,
}

impl View for ModuleFunction {
    type V = ModuleFunctionView;

    open spec fn view(&self) -> ModuleFunctionView {
        ModuleFunctionView {
            name: self.name@,
            ty: self.ty@,
            linkage: self.linkage,
            parameter_alignments: self.parameter_alignments@,
            personality: self.personality,
            blocks: self.blocks@.map_values(|block: Block| block@),
        }
    }
}

/// The module: what has been emitted so far.
#[derive(Debug, Clone, PartialEq, Eq)]
pub struct Module {
    /// The name of the module.
    pub name: String,
    /// The target triple.
    pub triple: String,
    /// The data layout of the target.
    pub data_layout: String,
    /// The structure types, each the types of its fields.
    pub structures: Vec<Vec<BasicTypeEnum>>,
    /// The functions, in the order in which they were added.
    pub functions: Vec<ModuleFunction>,
}

/// The module as a mathematical value.
pub struct ModuleView {
    /// The name of the module.
    pub name: Seq<char>,
    /// The target triple.
    pub triple: Seq<char>,
    /// The data layout of the target.
    pub data_layout: Seq<char>,
    /// The structure types, each the types of its fields.
    pub structures: Seq<Seq<BasicTypeEnum>>,
    /// The functions, in the order in which they were added.
    pub functions: Seq<ModuleFunctionView>,
}

impl View for Module {
    type V = ModuleView;

    open spec fn view(&self) -> ModuleView {
        ModuleView {
            name: self.name@,
            triple: self.triple@,
            data_layout: self.data_layout@,
            structures: self.structures@.map_values(|fields: Vec<BasicTypeEnum>| fields@),
            functions: self.functions@.map_values(|function: ModuleFunction| function@),
        }
    }
}

impl BlockView {
    /// Whether the last instruction of the block is a terminator.
    pub open spec fn is_terminated(self) -> bool {
        self.instructions.len() > 0 && self.instructions.last().is_terminator()
    }

    /// Whether the block ends in a terminator and holds no other.
    pub open spec fn is_closed(self) -> bool {
        &&& self.is_terminated()
        &&& forall|i: int|
            0 <= i < self.instructions.len() - 1 ==> !(#[trigger] self.instructions[i]).is_terminator()
    }
}

impl ModuleFunctionView {
    /// Whether every block of the function ends in a terminator and holds no other.
    pub open spec fn is_closed(self) -> bool {
        forall|i: int| 0 <= i < self.blocks.len() ==> (#[trigger] self.blocks[i]).is_closed()
    }

    /// The declaration of a function without a body: no alignment and no personality is
    /// set.
    pub open spec fn declaration(
        name: Seq<char>,
        ty: FunctionTypeView,
        linkage: Option<Linkage>,
    ) -> ModuleFunctionView {
        ModuleFunctionView {
            name,
            ty,
            linkage,
            parameter_alignments: Seq::new(ty.parameter_types.len(), |i: int| None),
            personality: None,
            blocks: seq![],
        }
    }
}

impl ModuleView {
    /// Whether the module has a function at place `function`.
    pub open spec fn has_function(self, function: int) -> bool {
        0 <= function < self.functions.len()
    }

    /// Whether the module has the block.
    pub open spec fn has_block(self, block: BasicBlock) -> bool {
        &&& block.function < self.functions.len()
        &&& block.index < self.functions[block.function as int].blocks.len()
    }

    /// The block.
    pub open spec fn block(self, block: BasicBlock) -> BlockView
        recommends
            self.has_block(block),
    {
        self.functions[block.function as int].blocks[block.index as int]
    }

    /// The instructions of the block.
    pub open spec fn instructions(self, block: BasicBlock) -> Seq<InstructionView>
        recommends
            self.has_block(block),
    {
        self.block(block).instructions
    }

    /// The number of instructions of the block.
    pub open spec fn length(self, block: BasicBlock) -> nat
        recommends
            self.has_block(block),
    {
        self.block(block).instructions.len()
    }

    /// The module with `instructions` at the end of the block.
    pub open spec fn append(self, block: BasicBlock, instructions: Seq<InstructionView>) -> ModuleView
        recommends
            self.has_block(block),
    {
        let function = self.functions[block.function as int];
        let before = function.blocks[block.index as int];
        ModuleView {
            functions: self.functions.update(
                block.function as int,
                ModuleFunctionView {
                    blocks: function.blocks.update(
                        block.index as int,
                        BlockView { instructions: before.instructions + instructions, ..before },
                    ),
                    ..function
                },
            ),
            ..self
        }
    }

    /// The module with one more block, empty and named `name`, at the end of the function.
    pub open spec fn with_block(self, function: int, name: Seq<char>) -> ModuleView
        recommends
            self.has_function(function),
    {
        let before = self.functions[function];
        ModuleView {
            functions: self.functions.update(
                function,
                ModuleFunctionView {
                    blocks: before.blocks.push(BlockView { name, instructions: seq![] }),
                    ..before
                },
            ),
            ..self
        }
    }

    /// Whether every block of every function of the module ends in a terminator and holds
    /// no other.
    pub open spec fn is_closed(self) -> bool {
        forall|i: int| 0 <= i < self.functions.len() ==> (#[trigger] self.functions[i]).is_closed()
    }

    /// Whether the function at place `index` is the first function of the module that has
    /// a block which does not end in its one terminator.
    pub open spec fn is_first_open(self, index: int) -> bool {
        &&& 0 <= index < self.functions.len()
        &&& !self.functions[index].is_closed()
        &&& forall|j: int| 0 <= j < index ==> (#[trigger] self.functions[j]).is_closed()
    }

    /// Whether every load, store and stack allocation of the module has the alignment that
    /// its kind asks for.
    pub open spec fn is_aligned(self) -> bool {
        forall|block: BasicBlock, i: int|
            self.has_block(block) && 0 <= i < self.length(block) ==> (
            #[trigger] self.instructions(block)[i]).is_aligned()
    }

    /// Whether the function can be called: one of the module is in it.
    pub open spec fn has_callee(self, function: FunctionValue) -> bool {
        function matches FunctionValue::Declared { index } ==> self.has_function(index as int)
    }

    /// The types of the parameters of a function.
    pub open spec fn parameter_types(self, function: FunctionValue) -> Seq<BasicTypeEnum>
        recommends
            self.has_callee(function),
    {
        match function {
            FunctionValue::Declared { index } => self.functions[index as int].ty.parameter_types,
            FunctionValue::Intrinsic(intrinsic) => intrinsic.spec_parameter_types(),
        }
    }

    /// The type that a function returns, unless it returns nothing.
    pub open spec fn return_type(self, function: FunctionValue) -> Option<BasicTypeEnum>
        recommends
            self.has_callee(function),
    {
        match function {
            FunctionValue::Declared { index } => self.functions[index as int].ty.return_type,
            FunctionValue::Intrinsic(intrinsic) => intrinsic.spec_return_type(),
        }
    }

    /// The module with one more function at the end.
    pub open spec fn with_function(self, function: ModuleFunctionView) -> ModuleView {
        ModuleView { functions: self.functions.push(function), ..self }
    }

    /// The module with one more structure type at the end.
    pub open spec fn with_structure(self, fields: Seq<BasicTypeEnum>) -> ModuleView {
        ModuleView { structures: self.structures.push(fields), ..self }
    }

    /// The module with the alignment of one parameter of a function set.
    pub open spec fn with_parameter_alignment(
        self,
        function: int,
        index: int,
        alignment: u32,
    ) -> ModuleView
        recommends
            self.has_function(function),
    {
        let before = self.functions[function];
        ModuleView {
            functions: self.functions.update(
                function,
                ModuleFunctionView {
                    parameter_alignments: before.parameter_alignments.update(
                        index,
                        Some(alignment),
                    ),
                    ..before
                },
            ),
            ..self
        }
    }

    /// The module with the personality function of a function set.
    pub open spec fn with_personality(self, function: int, personality: FunctionValue) -> ModuleView
        recommends
            self.has_function(function),
    {
        let before = self.functions[function];
        ModuleView {
            functions: self.functions.update(
                function,
                ModuleFunctionView { personality: Some(personality), ..before },
            ),
            ..self
        }
    }
}

impl Module {
    /// A module without functions.
    pub fn new(name: &str, triple: &str, data_layout: &str) -> (result: Module)
        ensures
            result@ == (ModuleView {
                name: name@,
                triple: triple@,
                data_layout: data_layout@,
                structures: seq![],
                functions: seq![],
            }),
    {
        let result = Module {
            name: name.to_owned(),
            triple: triple.to_owned(),
            data_layout: data_layout.to_owned(),
            structures: Vec::new(),
            functions: Vec::new(),
        };
        assert(result@.structures =~= seq![]);
        assert(result@.functions =~= seq![]);
        result
    }

    /// The name of the module.
    pub fn get_name(&self) -> (result: &str)
        ensures
            result@ == self@.name,
    {
        self.name.as_str()
    }

    /// Adds a structure type with the given fields, and returns it.
    pub fn add_structure(&mut self, fields: Vec<BasicTypeEnum>) -> (result: StructType)
        ensures
            final(self)@ == old(self)@.with_structure(fields@),
            result.index == old(self)@.structures.len(),
    {
        let index = self.structures.len();
        self.structures.push(fields);
        assert(self@.structures =~= old(self)@.structures.push(fields@));
        StructType { index }
    }

    /// Declares a function, and returns it.
    pub fn add_function(&mut self, name: &str, ty: FunctionType, linkage: Option<Linkage>) -> (result:
        FunctionValue)
        ensures
            final(self)@ == old(self)@.with_function(
                ModuleFunctionView::declaration(name@, ty@, linkage),
            ),
            result == (FunctionValue::Declared { index: old(self)@.functions.len() as usize }),
    {
        let index = self.functions.len();
        let mut parameter_alignments: Vec<Option<u32>> = Vec::new();
        let mut count: usize = 0;
        while count < ty.parameter_types.len()
            invariant
                count <= ty.parameter_types@.len(),
                parameter_alignments@ == Seq::new(count as nat, |i: int| None::<u32>),
            decreases ty.parameter_types@.len() - count,
        {
            parameter_alignments.push(None);
            count += 1;
            assert(parameter_alignments@ =~= Seq::new(count as nat, |i: int| None::<u32>));
        }
        let function = ModuleFunction {
            name: name.to_owned(),
            ty,
            linkage,
            parameter_alignments,
            personality: None,
            blocks: Vec::new(),
        };
        assert(function@.blocks =~= seq![]);
        assert(function@ == ModuleFunctionView::declaration(name@, ty@, linkage));
        self.functions.push(function);
        assert(self@.functions =~= old(self)@.functions.push(function@));
        FunctionValue::Declared { index }
    }

    /// Sets the alignment of a parameter of a function.
    pub fn set_param_alignment(&mut self, function: usize, index: usize, alignment: u32)
        requires
            old(self)@.has_function(function as int),
            index < old(self)@.functions[function as int].parameter_alignments.len(),
        ensures
            final(self)@ == old(self)@.with_parameter_alignment(
                function as int,
                index as int,
                alignment,
            ),
    {
        self.functions[function].parameter_alignments[index] = Some(alignment);
        assert(self@.functions =~= old(self)@.with_parameter_alignment(
            function as int,
            index as int,
            alignment,
        ).functions);
    }

    /// Sets the personality function of a function.
    pub fn set_personality_function(&mut self, function: usize, personality: FunctionValue)
        requires
            old(self)@.has_function(function as int),
        ensures
            final(self)@ == old(self)@.with_personality(function as int, personality),
    {
        self.functions[function].personality = Some(personality);
        assert(self@.functions =~= old(self)@.with_personality(
            function as int,
            personality,
        ).functions);
    }

    /// Appends an empty block to a function, and returns it.
    pub fn append_basic_block(&mut self, function: usize, name: &str) -> (result: BasicBlock)
        requires
            old(self)@.has_function(function as int),
        ensures
            final(self)@ == old(self)@.with_block(function as int, name@),
            result == (BasicBlock {
                function,
                index: old(self)@.functions[function as int].blocks.len() as usize,
            }),
    {
        let index = self.functions[function].blocks.len();
        let block = Block { name: name.to_owned(), instructions: Vec::new() };
        assert(block@.instructions =~= seq![]);
        self.functions[function].blocks.push(block);
        assert(self@.functions[function as int].blocks =~= old(self)@.functions[function as int].blocks.push(
            block@,
        ));
        assert(self@.functions =~= old(self)@.with_block(function as int, name@).functions);
        BasicBlock { function, index }
    }

    /// Appends an instruction to a block.
    pub fn push(&mut self, block: BasicBlock, instruction: Instruction)
        requires
            old(self)@.has_block(block),
        ensures
            final(self)@ == old(self)@.append(block, seq![instruction@]),
    {
        self.functions[block.function].blocks[block.index].instructions.push(instruction);
        assert(self@.functions[block.function as int].blocks[block.index as int].instructions
            =~= old(self)@.instructions(block) + seq![instruction@]);
        assert(self@.functions[block.function as int].blocks =~= old(self)@.append(
            block,
            seq![instruction@],
        ).functions[block.function as int].blocks);
        assert(self@.functions =~= old(self)@.append(block, seq![instruction@]).functions);
    }

    /// The types of the parameters of a function.
    pub fn get_parameter_types(&self, function: FunctionValue) -> (result: Vec<BasicTypeEnum>)
        requires
            self@.has_callee(function),
        ensures
            result@ == self@.parameter_types(function),
    {
        match function {
            FunctionValue::Declared { index } => {
                let types = &self.functions[index].ty.parameter_types;
                let mut result: Vec<BasicTypeEnum> = Vec::new();
                let mut count: usize = 0;
                while count < types.len()
                    invariant
                        count <= types@.len(),
                        result@ == types@.take(count as int),
                    decreases types@.len() - count,
                {
                    result.push(types[count]);
                    count += 1;
                    assert(result@ =~= types@.take(count as int));
                }
                assert(types@.take(count as int) =~= types@);
                result
            },
            FunctionValue::Intrinsic(intrinsic) => intrinsic.parameter_types(),
        }
    }

    /// The type that a function returns, unless it returns nothing.
    pub fn get_return_type(&self, function: FunctionValue) -> (result: Option<BasicTypeEnum>)
        requires
            self@.has_callee(function),
        ensures
            result == self@.return_type(function),
    {
        match function {
            FunctionValue::Declared { index } => self.functions[index].ty.return_type,
            FunctionValue::Intrinsic(intrinsic) => intrinsic.return_type(),
        }
    }

    /// The number of instructions in a block.
    pub fn block_length(&self, block: BasicBlock) -> (result: usize)
        requires
            self@.has_block(block),
        ensures
            result == self@.length(block),
    {
        self.functions[block.function].blocks[block.index].instructions.len()
    }

    /// The kind of the last instruction of a block, if it has an instruction.
    pub fn last_opcode(&self, block: BasicBlock) -> (result: Option<InstructionOpcode>)
        requires
            self@.has_block(block),
        ensures
            result == if self@.length(block) == 0 {
                None
            } else {
                Some(self@.instructions(block).last().opcode())
            },
    {
        let instructions = &self.functions[block.function].blocks[block.index].instructions;
        if instructions.len() == 0 {
            None
        } else {
            Some(instructions[instructions.len() - 1].get_opcode())
        }
    }

    /// Whether the last instruction of a block is a terminator.
    pub fn is_terminated(&self, block: BasicBlock) -> (result: bool)
        requires
            self@.has_block(block),
        ensures
            result == self@.block(block).is_terminated(),
    {
        match self.last_opcode(block) {
            Some(opcode) => opcode.is_terminator(),
            None => false,
        }
    }
}

impl Block {
    /// Whether the block ends in a terminator and holds no other.
    pub fn is_closed(&self) -> (result: bool)
        ensures
            result == self@.is_closed(),
    {
        let length = self.instructions.len();
        if length == 0 {
            return false;
        }
        if !self.instructions[length - 1].is_terminator() {
            return false;
        }
        let mut index: usize = 0;
        while index < length - 1
            invariant
                length == self.instructions@.len(),
                length > 0,
                index <= length - 1,
                self@.is_terminated(),
                forall|k: int| 0 <= k < index ==> !(#[trigger] self@.instructions[k]).is_terminator(),
            decreases length - 1 - index,
        {
            if self.instructions[index].is_terminator() {
                assert(self@.instructions[index as int].is_terminator());
                return false;
            }
            index += 1;
        }
        true
    }
}

impl ModuleFunction {
    /// Whether every block of the function ends in a terminator and holds no other.
    pub fn is_closed(&self) -> (result: bool)
        ensures
            result == self@.is_closed(),
    {
        let mut index: usize = 0;
        while index < self.blocks.len()
            invariant
                index <= self.blocks@.len(),
                forall|k: int| 0 <= k < index ==> (#[trigger] self@.blocks[k]).is_closed(),
            decreases self.blocks@.len() - index,
        {
            if !self.blocks[index].is_closed() {
                assert(!self@.blocks[index as int].is_closed());
                return false;
            }
            index += 1;
        }
        true
    }
}

impl Module {
    /// The name of the function at place `index` of the module.
    pub fn function_name(&self, index: usize) -> (result: String)
        requires
            self@.has_function(index as int),
        ensures
            result@ == self@.functions[index as int].name,
    {
        self.functions[index].name.clone()
    }

    /// The place of the first function of the module that has a block which does not end in
    /// its one terminator, if there is such a function.
    pub fn first_open(&self) -> (result: Option<usize>)
        ensures
            result is None <==> self@.is_closed(),
            result matches Some(index) ==> self@.is_first_open(index as int),
    {
        let mut index: usize = 0;
        while index < self.functions.len()
            invariant
                index <= self.functions@.len(),
                forall|k: int| 0 <= k < index ==> (#[trigger] self@.functions[k]).is_closed(),
            decreases self.functions@.len() - index,
        {
            if !self.functions[index].is_closed() {
                assert(!self@.functions[index as int].is_closed());
                return Some(index);
            }
            index += 1;
        }
        None
    }
}

} // verus!
