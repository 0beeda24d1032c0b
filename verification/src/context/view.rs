//! The context as a mathematical value: what its functions do to it, and what they keep.

use vstd::prelude::*;

use crate::abi::SIZE_FIELD;
use crate::context::ContextView;
use crate::context::address_space::AddressSpace;
use crate::context::function::FunctionView;
use crate::context::function::returning::Return as FunctionReturn;
use crate::ir::instruction::InstructionView;
use crate::ir::module::BlockView;
use crate::ir::module::Linkage;
use crate::ir::module::ModuleFunctionView;
use crate::ir::types::BasicTypeEnum;
use crate::ir::types::FunctionTypeView;
use crate::ir::types::PointerType;
use crate::ir::value::BasicBlock;
use crate::ir::value::FunctionValue;

verus! {

/// The table of function records with `record` in it: in the place of the record of the same
/// name, if there is one, and at the end otherwise.
pub open spec fn with_record(functions: Seq<FunctionView>, record: FunctionView) -> Seq<
    FunctionView,
> {
    if exists|i: int| 0 <= i < functions.len() && functions[i].name == record.name {
        functions.update(
            choose|i: int| 0 <= i < functions.len() && functions[i].name == record.name,
            record,
        )
    } else {
        functions.push(record)
    }
}

/// The function of the module that `add_function` defines: every parameter of a pointer type
/// is aligned to the word, the personality function is set, and the four fixed blocks are
/// there, empty.
pub open spec fn scaffold(
    name: Seq<char>,
    ty: FunctionTypeView,
    linkage: Option<Linkage>,
    personality: FunctionValue,
) -> ModuleFunctionView {
    ModuleFunctionView {
        name,
        ty,
        linkage,
        parameter_alignments: Seq::new(
            ty.parameter_types.len(),
            |i: int|
                if ty.parameter_types[i] is PointerType {
                    Some(SIZE_FIELD as u32)
                } else {
                    None
                },
        ),
        personality: Some(personality),
        blocks: seq![
            BlockView { name: "entry"@, instructions: seq![] },
            BlockView { name: "throw"@, instructions: seq![] },
            BlockView { name: "catch"@, instructions: seq![] },
            BlockView { name: "return"@, instructions: seq![] },
        ],
    }
}

/// The record of the function that `add_function` defines at place `index` of the module.
pub open spec fn scaffold_record(name: Seq<char>, index: usize) -> FunctionView {
    FunctionView {
        name,
        value: FunctionValue::Declared { index },
        entry_block: BasicBlock { function: index, index: 0 },
        throw_block: BasicBlock { function: index, index: 1 },
        catch_block: BasicBlock { function: index, index: 2 },
        return_block: BasicBlock { function: index, index: 3 },
        return_entity: None,
        evm_data: None,
    }
}

impl<D> ContextView<D> {
    /// Whether the context is well formed: the insertion point is a block of the module,
    /// the current function and every declared function are functions of the module, no two
    /// declared functions have the same name, the current function's name is that of a declared
    /// function, every load, store and stack allocation of the module has the alignment that
    /// its kind asks for, and the runtime functions are functions of the module.
    pub open spec fn wf(self) -> bool {
        &&& self.position matches Some(block) ==> self.module.has_block(block)
        &&& self.function matches Some(function) ==> function.is_in(self.module)
            && self.has_function(function.name)
        &&& forall|i: int|
            0 <= i < self.functions.len() ==> (#[trigger] self.functions[i]).is_in(self.module)
        &&& forall|i: int, j: int|
            0 <= i < j < self.functions.len() ==> (#[trigger] self.functions[i]).name != (
            #[trigger] self.functions[j]).name
        &&& self.module.is_aligned()
        &&& self.runtime.personality is Declared
        &&& self.runtime.cxa_throw is Declared
        &&& self.module.has_function(self.runtime.personality->index as int)
        &&& self.module.has_function(self.runtime.cxa_throw->index as int)
    }

    /// Whether a function of the given name has been declared.
    pub open spec fn has_function(self, name: Seq<char>) -> bool {
        exists|i: int| 0 <= i < self.functions.len() && (#[trigger] self.functions[i]).name == name
    }

    /// The record of the declared function of the given name.
    pub open spec fn function_named(self, name: Seq<char>) -> FunctionView
        recommends
            self.has_function(name),
    {
        self.functions[choose|i: int|
            0 <= i < self.functions.len() && (#[trigger] self.functions[i]).name == name]
    }

    /// The block of the insertion point.
    pub open spec fn here(self) -> BasicBlock
        recommends
            self.position is Some,
    {
        self.position->0
    }

    /// The place that the next instruction emitted takes in its block.
    pub open spec fn next(self) -> int
        recommends
            self.position is Some,
    {
        self.module.length(self.here()) as int
    }

    /// Whether the block of the insertion point ends in a terminator.
    pub open spec fn is_terminated(self) -> bool
        recommends
            self.position is Some,
    {
        self.module.block(self.here()).is_terminated()
    }

    /// The context after `instructions` have been emitted at the insertion point.
    pub open spec fn emit(self, instructions: Seq<InstructionView>) -> Self
        recommends
            self.position is Some,
    {
        ContextView { module: self.module.append(self.here(), instructions), ..self }
    }

    /// The context after `instruction` has been emitted at the insertion point, unless the
    /// block there ends in a terminator already.
    pub open spec fn terminate(self, instruction: InstructionView) -> Self
        recommends
            self.position is Some,
    {
        if self.is_terminated() {
            self
        } else {
            self.emit(seq![instruction])
        }
    }

    /// The context with the insertion point at the end of `block`.
    pub open spec fn at(self, block: BasicBlock) -> Self {
        ContextView { position: Some(block), ..self }
    }

    /// The block that the next `append_basic_block` creates.
    pub open spec fn new_block(self) -> BasicBlock
        recommends
            self.function is Some,
    {
        let index = self.function->0.index();
        BasicBlock {
            function: index as usize,
            index: self.module.functions[index].blocks.len() as usize,
        }
    }

    /// The context with one more block, empty and named `name`, at the end of the current
    /// function.
    pub open spec fn with_block(self, name: Seq<char>) -> Self
        recommends
            self.function is Some,
    {
        ContextView { module: self.module.with_block(self.function->0.index(), name), ..self }
    }

    /// The context after a function has been added: the module has the function, with its
    /// four blocks, at its end, and the table of the declared functions has its record.
    pub open spec fn with_function(
        self,
        name: Seq<char>,
        ty: FunctionTypeView,
        linkage: Option<Linkage>,
    ) -> Self {
        ContextView {
            module: self.module.with_function(
                scaffold(name, ty, linkage, self.runtime.personality),
            ),
            functions: with_record(
                self.functions,
                scaffold_record(name, self.module.functions.len() as usize),
            ),
            ..self
        }
    }

    /// The context with one more structure type at the end of those of the module.
    pub open spec fn with_structure(self, fields: Seq<BasicTypeEnum>) -> Self {
        ContextView { module: self.module.with_structure(fields), ..self }
    }

    /// The place in the table of the declared function of the given name.
    pub open spec fn index_of(self, name: Seq<char>) -> int
        recommends
            self.has_function(name),
    {
        choose|i: int| 0 <= i < self.functions.len() && (#[trigger] self.functions[i]).name == name
    }

    /// The context after the current function has been told where it keeps the value that it
    /// returns: both the current function and its record in the table know it.
    pub open spec fn with_return(self, return_entity: FunctionReturn) -> Self
        recommends
            self.function is Some,
            self.has_function(self.function->0.name),
    {
        let function = self.function->0;
        let index = self.index_of(function.name);
        ContextView {
            function: Some(FunctionView { return_entity: Some(return_entity), ..function }),
            functions: self.functions.update(
                index,
                FunctionView { return_entity: Some(return_entity), ..self.functions[index] },
            ),
            ..self
        }
    }

    /// The context after the instructions have been built one after another at the insertion
    /// point, each unless the block there ends in a terminator already.
    pub open spec fn terminate_all(self, instructions: Seq<InstructionView>) -> Self
        recommends
            self.position is Some,
        decreases instructions.len(),
    {
        if instructions.len() == 0 {
            self
        } else {
            self.terminate(instructions[0]).terminate_all(instructions.drop_first())
        }
    }
}

/// Emitting keeps a well-formed context well formed, leaves the insertion point where it is,
/// and changes no block but the one there, which grows by what is emitted.
pub proof fn lemma_emit<D>(context: ContextView<D>, instructions: Seq<InstructionView>)
    requires
        context.wf(),
        context.position is Some,
        forall|i: int| 0 <= i < instructions.len() ==> (#[trigger] instructions[i]).is_aligned(),
    ensures
        context.emit(instructions).wf(),
        context.emit(instructions).next() == context.next() + instructions.len(),
        context.emit(instructions).module.instructions(context.here()) == context.module.instructions(
            context.here(),
        ) + instructions,
        forall|block: BasicBlock|
            context.module.has_block(block) <==> (#[trigger] context.emit(
                instructions,
            ).module.has_block(block)),
        forall|block: BasicBlock|
            context.module.has_block(block) && block != context.here() ==> (
            #[trigger] context.emit(instructions).module.instructions(block))
                == context.module.instructions(block),
{
    let after = context.emit(instructions);
    let here = context.here();
    assert forall|block: BasicBlock, i: int|
        after.module.has_block(block) && 0 <= i < after.module.length(block) implies (
    #[trigger] after.module.instructions(block)[i]).is_aligned() by {
        assert(context.module.has_block(block));
        if block == here {
            if i < context.module.length(block) {
                assert(after.module.instructions(block)[i] == context.module.instructions(
                    block,
                )[i]);
            } else {
                assert(after.module.instructions(block)[i] == instructions[i
                    - context.module.length(block)]);
            }
        } else {
            assert(after.module.instructions(block) == context.module.instructions(block));
        }
    }
    assert forall|i: int| 0 <= i < after.functions.len() implies (
    #[trigger] after.functions[i]).is_in(after.module) by {
        assert(context.functions[i].is_in(context.module));
    }
}

/// Emitting one run of instructions and then another is emitting the two as one run.
pub broadcast proof fn lemma_emit_emit<D>(
    context: ContextView<D>,
    first: Seq<InstructionView>,
    second: Seq<InstructionView>,
)
    requires
        context.position is Some,
        context.module.has_block(context.here()),
    ensures
        #[trigger] context.emit(first).emit(second) == context.emit(first + second),
{
    let here = context.here();
    let one = context.emit(first).emit(second).module;
    let other = context.emit(first + second).module;
    let function = here.function as int;
    let index = here.index as int;
    assert(one.functions[function].blocks[index].instructions =~= other.functions[function].blocks[index].instructions);
    assert(one.functions[function].blocks =~= other.functions[function].blocks);
    assert(one.functions =~= other.functions);
}

/// Emitting moves the place of the next instruction by the number of instructions emitted,
/// and leaves the insertion point in a block of the module.
pub broadcast proof fn lemma_emit_next<D>(context: ContextView<D>, instructions: Seq<InstructionView>)
    requires
        context.position is Some,
        context.module.has_block(context.here()),
    ensures
        (#[trigger] context.emit(instructions)).next() == context.next() + instructions.len(),
        context.emit(instructions).module.has_block(context.here()),
        context.emit(instructions).module.instructions(context.here())
            == context.module.instructions(context.here()) + instructions,
{
}

/// Emitting the instruction at place `done` of `code`, after the instructions before it, is
/// emitting the first `done + 1` instructions of `code`.
pub proof fn lemma_emit_prefix<D>(start: ContextView<D>, code: Seq<InstructionView>, done: int)
    requires
        start.position is Some,
        start.module.has_block(start.here()),
        0 <= done < code.len(),
    ensures
        start.emit(code.take(done)).emit(seq![code[done]]) == start.emit(code.take(done + 1)),
        done == 0 ==> start.emit(seq![code[0]]) == start.emit(code.take(1)),
        done + 1 == code.len() ==> start.emit(code.take(done + 1)) == start.emit(code),
        start.emit(code.take(done + 1)).next() == start.next() + done + 1,
        start.emit(code.take(done + 1)).position == start.position,
        start.emit(code.take(done + 1)).module.has_block(start.here()),
        start.emit(code.take(done + 1)).module.instructions(start.here()).last() == code[done],
{
    lemma_emit_emit(start, code.take(done), seq![code[done]]);
    assert(code.take(done) + seq![code[done]] =~= code.take(done + 1));
    if done == 0 {
        assert(seq![code[0]] =~= code.take(1));
    }
    if done + 1 == code.len() {
        assert(code.take(done + 1) =~= code);
    }
    lemma_emit_next(start, code.take(done + 1));
}

/// The facts on emission that the proofs of the translators use.
pub broadcast group group_emit {
    lemma_emit_emit,
    lemma_emit_next,
}

/// Appending a block to the current function keeps a well-formed context well formed and
/// changes no block.
pub proof fn lemma_with_block<D>(context: ContextView<D>, name: Seq<char>)
    requires
        context.wf(),
        context.function is Some,
        context.module.functions[context.function->0.index()].blocks.len() <= usize::MAX,
    ensures
        context.with_block(name).wf(),
        context.with_block(name).module.has_block(context.new_block()),
        context.with_block(name).module.instructions(context.new_block()) == Seq::<
            InstructionView,
        >::empty(),
        !context.module.has_block(context.new_block()),
        forall|block: BasicBlock|
            context.module.has_block(block) ==> (#[trigger] context.with_block(
                name,
            ).module.has_block(block)) && context.with_block(name).module.instructions(block)
                == context.module.instructions(block),
{
    let after = context.with_block(name);
    assert forall|block: BasicBlock| context.module.has_block(block) implies (
    #[trigger] after.module.has_block(block)) && after.module.instructions(block)
        == context.module.instructions(block) by {}
    assert forall|block: BasicBlock, i: int|
        after.module.has_block(block) && 0 <= i < after.module.length(block) implies (
    #[trigger] after.module.instructions(block)[i]).is_aligned() by {
        if context.module.has_block(block) {
            assert(after.module.instructions(block) == context.module.instructions(block));
            assert(context.module.instructions(block)[i].is_aligned());
        }
    }
    assert forall|i: int| 0 <= i < after.functions.len() implies (
    #[trigger] after.functions[i]).is_in(after.module) by {
        assert(context.functions[i].is_in(context.module));
    }
}

/// Adding a structure type keeps a well-formed context well formed.
pub proof fn lemma_with_structure<D>(context: ContextView<D>, fields: Seq<BasicTypeEnum>)
    requires
        context.wf(),
    ensures
        context.with_structure(fields).wf(),
{
    let after = context.with_structure(fields);
    assert forall|block: BasicBlock, i: int|
        after.module.has_block(block) && 0 <= i < after.module.length(block) implies (
    #[trigger] after.module.instructions(block)[i]).is_aligned() by {
        assert(context.module.has_block(block));
        assert(context.module.instructions(block)[i].is_aligned());
    }
    assert forall|i: int| 0 <= i < after.functions.len() implies (
    #[trigger] after.functions[i]).is_in(after.module) by {
        assert(context.functions[i].is_in(context.module));
    }
}

/// Adding a function leaves every declared function declared.
pub proof fn lemma_with_function_declared<D>(
    context: ContextView<D>,
    name: Seq<char>,
    ty: FunctionTypeView,
    linkage: Option<Linkage>,
)
    ensures
        context.with_function(name, ty, linkage).has_function(name),
        forall|other: Seq<char>|
            context.has_function(other) ==> #[trigger] context.with_function(
                name,
                ty,
                linkage,
            ).has_function(other),
{
    let after = context.with_function(name, ty, linkage);
    let record = scaffold_record(name, context.module.functions.len() as usize);
    if exists|i: int| 0 <= i < context.functions.len() && context.functions[i].name == name {
        let place = choose|i: int|
            0 <= i < context.functions.len() && context.functions[i].name == name;
        assert(after.functions == context.functions.update(place, record));
        assert(after.functions[place].name == name);
        assert forall|other: Seq<char>| context.has_function(other) implies (
        #[trigger] after.has_function(other)) by {
            let witness = choose|i: int|
                0 <= i < context.functions.len() && (#[trigger] context.functions[i]).name
                    == other;
            assert(after.functions[witness].name == other);
        }
    } else {
        assert(after.functions == context.functions.push(record));
        assert(after.functions[context.functions.len() as int].name == name);
        assert forall|other: Seq<char>| context.has_function(other) implies (
        #[trigger] after.has_function(other)) by {
            let witness = choose|i: int|
                0 <= i < context.functions.len() && (#[trigger] context.functions[i]).name
                    == other;
            assert(after.functions[witness].name == other);
        }
    }
}

/// Adding a function keeps a well-formed context well formed, and changes no block.
#[verifier::rlimit(40)]
pub proof fn lemma_with_function<D>(
    context: ContextView<D>,
    name: Seq<char>,
    ty: FunctionTypeView,
    linkage: Option<Linkage>,
)
    requires
        context.wf(),
        context.module.functions.len() < usize::MAX,
    ensures
        context.with_function(name, ty, linkage).wf(),
        context.with_function(name, ty, linkage).has_function(name),
        context.with_function(name, ty, linkage).function_named(name) == scaffold_record(
            name,
            context.module.functions.len() as usize,
        ),
        scaffold_record(name, context.module.functions.len() as usize).is_in(
            context.with_function(name, ty, linkage).module,
        ),
        forall|block: BasicBlock|
            context.module.has_block(block) ==> (#[trigger] context.with_function(
                name,
                ty,
                linkage,
            ).module.has_block(block)) && context.with_function(
                name,
                ty,
                linkage,
            ).module.instructions(block) == context.module.instructions(block),
{
    let after = context.with_function(name, ty, linkage);
    let record = scaffold_record(name, context.module.functions.len() as usize);
    let count = context.module.functions.len() as int;
    assert forall|block: BasicBlock| context.module.has_block(block) implies (
    #[trigger] after.module.has_block(block)) && after.module.instructions(block)
        == context.module.instructions(block) by {}
    assert(record.is_in(after.module));
    assert forall|block: BasicBlock, i: int|
        after.module.has_block(block) && 0 <= i < after.module.length(block) implies (
    #[trigger] after.module.instructions(block)[i]).is_aligned() by {
        if block.function < count {
            assert(context.module.has_block(block));
            assert(context.module.instructions(block)[i].is_aligned());
        }
    }
    if exists|i: int| 0 <= i < context.functions.len() && context.functions[i].name == name {
        let place = choose|i: int|
            0 <= i < context.functions.len() && context.functions[i].name == name;
        assert(after.functions == context.functions.update(place, record));
        assert(after.functions[place].name == name);
        assert forall|i: int| 0 <= i < after.functions.len() implies (
        #[trigger] after.functions[i]).is_in(after.module) by {
            if i != place {
                assert(context.functions[i].is_in(context.module));
            }
        }
        assert forall|i: int, j: int| 0 <= i < j < after.functions.len() implies (
        #[trigger] after.functions[i]).name != (#[trigger] after.functions[j]).name by {
            assert(context.functions[i].name != context.functions[j].name);
        }
        if context.function is Some {
            let current = context.function->0;
            let witness = choose|i: int|
                0 <= i < context.functions.len() && (#[trigger] context.functions[i]).name
                    == current.name;
            assert(after.functions[witness].name == current.name);
        }
        let chosen = after.index_of(name);
        assert(after.functions[chosen].name == name);
        if chosen < place {
            assert(after.functions[chosen].name != after.functions[place].name);
        } else if place < chosen {
            assert(after.functions[place].name != after.functions[chosen].name);
        }
    } else {
        assert(after.functions == context.functions.push(record));
        let place = context.functions.len() as int;
        assert(after.functions[place].name == name);
        assert forall|i: int| 0 <= i < after.functions.len() implies (
        #[trigger] after.functions[i]).is_in(after.module) by {
            if i != place {
                assert(context.functions[i].is_in(context.module));
            }
        }
        assert forall|i: int, j: int| 0 <= i < j < after.functions.len() implies (
        #[trigger] after.functions[i]).name != (#[trigger] after.functions[j]).name by {
            if j < place {
                assert(context.functions[i].name != context.functions[j].name);
            } else {
                assert(context.functions[i].name != name);
            }
        }
        if context.function is Some {
            let current = context.function->0;
            let witness = choose|i: int|
                0 <= i < context.functions.len() && (#[trigger] context.functions[i]).name
                    == current.name;
            assert(after.functions[witness].name == current.name);
        }
        let chosen = after.index_of(name);
        assert(after.functions[chosen].name == name);
        if chosen < place {
            assert(context.functions[chosen].name == name);
        }
    }
}

/// A block keeps its first terminator: a terminator built into a block that ends in one
/// changes nothing.
pub proof fn lemma_terminate_twice<D>(
    context: ContextView<D>,
    first: InstructionView,
    second: InstructionView,
)
    requires
        context.position is Some,
        context.module.has_block(context.here()),
        first.is_terminator(),
    ensures
        context.terminate(first).is_terminated(),
        context.terminate(first).terminate(second) == context.terminate(first),
{
    if !context.is_terminated() {
        lemma_emit_next(context, seq![first]);
        assert(context.emit(seq![first]).module.instructions(context.here()).last() == first);
    }
}

/// Whatever branches, returns and unreachables are built into a block one after another,
/// the block keeps the first terminator only: the outcome is that of building the first of
/// them alone, and nothing changes at all if the block ends in a terminator before.
pub proof fn lemma_terminate_all<D>(context: ContextView<D>, instructions: Seq<InstructionView>)
    requires
        context.position is Some,
        context.module.has_block(context.here()),
        forall|i: int| 0 <= i < instructions.len() ==> (#[trigger] instructions[i]).is_terminator(),
    ensures
        instructions.len() > 0 ==> context.terminate_all(instructions) == context.terminate(
            instructions[0],
        ),
        context.is_terminated() ==> context.terminate_all(instructions) == context,
    decreases instructions.len(),
{
    if instructions.len() > 0 {
        let first = instructions[0];
        let rest = instructions.drop_first();
        let next = context.terminate(first);
        lemma_terminate_twice(context, first, first);
        assert(next.module.has_block(next.here())) by {
            lemma_emit_next(context, seq![first]);
        }
        assert forall|i: int| 0 <= i < rest.len() implies (#[trigger] rest[i]).is_terminator() by {
            assert(rest[i] == instructions[i + 1]);
        }
        lemma_terminate_all(next, rest);
    }
}

/// In a well-formed context every load and every store has the alignment of the address
/// space of its pointer: that of the word on the stack, and one byte in the heap and in the
/// memories shared with the caller and the callee. Every function of the context keeps the
/// context well formed, in whatever order the functions are called.
pub proof fn lemma_alignment<D>(context: ContextView<D>, block: BasicBlock, index: int)
    requires
        context.wf(),
        context.module.has_block(block),
        0 <= index < context.module.length(block),
    ensures
        match context.module.instructions(block)[index] {
            InstructionView::Load { pointer, alignment, .. } => alignment == (
            if pointer.ty.address_space == AddressSpace::Stack {
                SIZE_FIELD as u32
            } else {
                1u32
            }),
            InstructionView::Store { pointer, alignment, .. } => alignment == (
            if pointer.ty.address_space == AddressSpace::Stack {
                SIZE_FIELD as u32
            } else {
                1u32
            }),
            InstructionView::Alloca { alignment, .. } => alignment == SIZE_FIELD as u32,
            _ => true,
        },
{
    assert(context.module.instructions(block)[index].is_aligned());
}

} // verus!
