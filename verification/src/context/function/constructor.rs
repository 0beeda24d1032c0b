//! The constructor function.

use std::marker::PhantomData;
use vstd::prelude::*;

use crate::abi::ABI_STORAGE_IS_CONSTRUCTOR_EXECUTED;
use crate::abi::LLVM_FUNCTION_CONSTRUCTOR;
use crate::context::code_type::CodeType;
use crate::context::literal::field_const;
use crate::context::function::intrinsic::Intrinsic as IntrinsicFunction;
use crate::context::function::FunctionView;
use crate::context::literal::hash_constant;
use crate::context::emission::long_return_check_code;
use crate::context::emission::rethrow_code;
use crate::context::unwinding::catch_code;
use crate::context::unwinding::lemma_at_other;
use crate::context::unwinding::lemma_catch_block;
use crate::context::unwinding::lemma_emit_other;
use crate::context::unwinding::lemma_throw_block;
use crate::ir::module::BlockView;
use crate::ir::value::BasicBlock;
use crate::context::Context;
use crate::context::ContextView;
use crate::error::Error;
use crate::error::ErrorView;
use crate::ir::instruction::InstructionOpcode;
use crate::ir::instruction::InstructionView;
use crate::ir::module::Linkage;
use crate::ir::types::FunctionTypeView;
use crate::ir::value::BasicValueEnum;
use crate::Dependency;
use crate::WriteLLVM;

verus! {

/// The constructor function: the outermost function of the deploy code, around the node that
/// holds its body.
#[derive(Debug)]
pub struct Constructor<B, D> where B: WriteLLVM<D>, D: Dependency {
    /// The constructor AST representation.
    inner: B,
    /// The `D` phantom data.
    _pd: PhantomData<D>,
}

/// The type of the outermost functions: no parameter and no return value.
pub open spec fn outermost_type() -> FunctionTypeView {
    FunctionTypeView { return_type: None, parameter_types: seq![] }
}

/// The call that writes the flag which tells that the constructor has been executed: one is
/// stored at the storage position that the name of the flag is hashed to.
pub open spec fn executed_flag_code() -> InstructionView {
    InstructionView::call_intrinsic(
        IntrinsicFunction::StorageStore,
        seq![
            BasicValueEnum::IntValue(field_const(1)),
            BasicValueEnum::IntValue(
                hash_constant(vstd::utf8::encode_utf8(ABI_STORAGE_IS_CONSTRUCTOR_EXECUTED@)),
            ),
            BasicValueEnum::IntValue(field_const(0)),
        ],
        "is_executed_flag_store"@,
    )
}

/// Whether the block of the insertion point ends in a branch or a switch.
pub open spec fn ends_in_branch<D>(context: ContextView<D>) -> bool
    recommends
        context.position is Some,
{
    let instructions = context.module.instructions(context.here());
    instructions.len() > 0 && (instructions.last().opcode() is Br
        || instructions.last().opcode() is Switch)
}

/// The context after the body of an outermost function has been closed: the block in which
/// the body ends falls through to the return block of the current function, unless it ends
/// in a branch or a switch, or in another terminator; the throw block and the catch block
/// are built, both aware of the long return; the insertion point is at the end of the return
/// block.
pub open spec fn bracketed<D>(context: ContextView<D>) -> ContextView<D>
    recommends
        context.position is Some,
        context.function is Some,
{
    let function = context.function->0;
    let fallen = if ends_in_branch(context) {
        context
    } else {
        context.terminate(InstructionView::Branch { destination: function.return_block })
    };
    fallen.throw_block(true).catch_block(true).at(function.return_block)
}

/// The context after the constructor has been finished: its body is closed, and its return
/// block writes the flag which tells that the constructor has been executed, and returns.
pub open spec fn finished<D>(context: ContextView<D>) -> ContextView<D>
    recommends
        context.position is Some,
        context.function is Some,
{
    bracketed(context).emit(seq![executed_flag_code()]).terminate(
        InstructionView::Return { value: None },
    )
}

/// The context in which the body of an outermost function is emitted: the function is the
/// current one, the insertion point is at the end of its entry block, and the code type is
/// set.
pub open spec fn started<D>(
    context: ContextView<D>,
    function: FunctionView,
    code_type: CodeType,
) -> ContextView<D> {
    ContextView {
        function: Some(function),
        position: Some(function.entry_block),
        code_type: Some(code_type),
        ..context
    }
}

/// Declares the constructor: a private function without parameters and return value.
pub fn declare_function<D>(context: &mut Context<D>) where D: Dependency
    requires
        old(context)@.wf(),
    ensures
        final(context)@ == old(context)@.with_function(
            LLVM_FUNCTION_CONSTRUCTOR@,
            outermost_type(),
            Some(Linkage::Private),
        ),
        final(context)@.wf(),
        final(context)@.has_function(LLVM_FUNCTION_CONSTRUCTOR@),
        forall|other: Seq<char>|
            old(context)@.has_function(other) ==> #[trigger] final(context)@.has_function(other),
{
    let function_type = context.function_type(0, Vec::new());
    assert(function_type@.parameter_types =~= seq![]);
    context.add_function(LLVM_FUNCTION_CONSTRUCTOR, function_type, Some(Linkage::Private));
}

/// Makes the constructor the current function, with the insertion point at the end of its
/// entry block, and sets the code type to that of the deploy code. Fails if the constructor
/// has not been declared.
pub fn start<D>(context: &mut Context<D>) -> (result: Result<(), Error>) where D: Dependency
    requires
        old(context)@.wf(),
    ensures
        final(context)@.wf(),
        old(context)@.has_function(LLVM_FUNCTION_CONSTRUCTOR@) ==> result is Ok && final(context)@
            == started(
            old(context)@,
            old(context)@.function_named(LLVM_FUNCTION_CONSTRUCTOR@),
            CodeType::Deploy,
        ),
        !old(context)@.has_function(LLVM_FUNCTION_CONSTRUCTOR@) ==> final(context)@ == old(context)@
                && (result matches Err(error) && error@ == ErrorView::ConstructorNotFound),
{
    let function = match context.get_function(LLVM_FUNCTION_CONSTRUCTOR) {
        Some(function) => function,
        None => {
            return Err(Error::ConstructorNotFound);
        },
    };
    let entry_block = function.entry_block;
    context.set_function(function);
    context.set_basic_block(entry_block);
    context.set_code_type(CodeType::Deploy);
    Ok(())
}

/// Closes the body of an outermost function: lets the block in which the body ends fall
/// through to the return block, builds the throw block and the catch block, and moves the
/// insertion point to the end of the return block.
pub fn bracket<D>(context: &mut Context<D>) where D: Dependency
    requires
        old(context)@.wf(),
        old(context)@.position is Some,
        old(context)@.function is Some,
    ensures
        final(context)@ == bracketed(old(context)@),
        final(context)@.wf(),
        final(context)@.position == Some(old(context)@.function->0.return_block),
        final(context)@.function == old(context)@.function,
        final(context)@.functions == old(context)@.functions,
        old(context)@.has_room(2),
{
    let block = context.basic_block();
    let return_block = context.function().return_block;
    match context.module().last_opcode(block) {
        Some(InstructionOpcode::Br) => {},
        Some(InstructionOpcode::Switch) => {},
        _ => context.build_unconditional_branch(return_block),
    }

    context.build_throw_block(true);
    context.build_catch_block(true);

    context.set_basic_block(return_block);
}

/// Writes the contract constructor executed flag.
pub fn write_is_executed_flag<D>(context: &mut Context<D>) where D: Dependency
    requires
        old(context)@.wf(),
        old(context)@.position is Some,
    ensures
        final(context)@ == old(context)@.emit(seq![executed_flag_code()]),
        final(context)@.wf(),
{
    let storage_key_string = crate::hash::keccak256(
        ABI_STORAGE_IS_CONSTRUCTOR_EXECUTED.as_bytes(),
    );
    let storage_key_value = context.field_const_str(storage_key_string.as_str());

    let intrinsic = context.get_intrinsic_function(IntrinsicFunction::StorageStore);
    let operands = vec![
        context.field_const(1).as_basic_value_enum(),
        storage_key_value.as_basic_value_enum(),
        context.field_const(0).as_basic_value_enum(),
    ];
    assert(operands@ =~= executed_flag_code()->Call_arguments);
    let _ = context.build_call(intrinsic, operands.as_slice(), "is_executed_flag_store");
}

/// Finishes the constructor, after its body has been emitted: closes the body, and lets the
/// return block write the flag which tells that the constructor has been executed, and
/// return.
pub fn finish<D>(context: &mut Context<D>) where D: Dependency
    requires
        old(context)@.wf(),
        old(context)@.position is Some,
        old(context)@.function is Some,
    ensures
        final(context)@ == finished(old(context)@),
        final(context)@.wf(),
        final(context)@.position == Some(old(context)@.function->0.return_block),
        final(context)@.function == old(context)@.function,
        final(context)@.functions == old(context)@.functions,
        final(context)@.is_terminated(),
        is_body_done(old(context)@) ==> is_closed_around(old(context)@, final(context)@.module),
{
    bracket(context);
    write_is_executed_flag(context);
    let ghost flagged = context@;
    context.build_return(None);
    proof {
        crate::context::view::lemma_terminate_twice(
            flagged,
            InstructionView::Return { value: None },
            InstructionView::Return { value: None },
        );
        if is_body_done(old(context)@) {
            lemma_finished_closed(old(context)@);
        }
    }
}

impl<B, D> Constructor<B, D> where B: WriteLLVM<D>, D: Dependency {
    /// The node that holds the body of the function.
    pub closed spec fn body(self) -> B {
        self.inner
    }

    /// A shortcut constructor.
    pub fn new(inner: B) -> (result: Self)
        ensures
            result.body() == inner,
    {
        Self { inner, _pd: PhantomData }
    }
}

impl<B, D> WriteLLVM<D> for Constructor<B, D> where B: WriteLLVM<D>, D: Dependency {
    /// The constructor has a function to declare.
    open spec fn declares() -> bool {
        true
    }

    /// Declares the constructor, and then what its body declares.
    fn declare(&mut self, context: &mut Context<D>) -> (result: Result<(), Error>)
        ensures
            final(context)@.has_function(LLVM_FUNCTION_CONSTRUCTOR@),
    {
        declare_function(context);

        self.inner.declare(context)
    }

    /// Emits the constructor: starts it, emits its body, and finishes it. Fails, with
    /// nothing emitted, if the constructor has not been declared, and with the failure of
    /// the body, if the body fails.
    fn into_llvm(self, context: &mut Context<D>) -> (result: Result<(), Error>)
        ensures
            !old(context)@.has_function(LLVM_FUNCTION_CONSTRUCTOR@) ==> final(context)@ == old(context)@
                && (result matches Err(error) && error@ == ErrorView::ConstructorNotFound),
            old(context)@.has_function(LLVM_FUNCTION_CONSTRUCTOR@) && result is Ok ==> final(context)@.function
                is Some && final(context)@.position == Some(
                final(context)@.function->0.return_block,
            ),
            result is Ok ==> final(context)@.is_terminated(),
    {
        match start(context) {
            Ok(()) => {},
            Err(error) => {
                return Err(error);
            },
        }
        let ghost started = context@;
        match self.inner.into_llvm(context) {
            Ok(()) => {},
            Err(error) => {
                proof {
                    assert forall|name: Seq<char>| old(context)@.has_function(name) implies (
                    #[trigger] context@.has_function(name)) by {
                        assert(started.has_function(name));
                    }
                }
                return Err(error);
            },
        }
        let ghost emitted = context@;
        finish(context);
        proof {
            assert forall|name: Seq<char>| old(context)@.has_function(name) implies (
            #[trigger] context@.has_function(name)) by {
                assert(started.has_function(name));
                assert(emitted.has_function(name));
            }
        }

        Ok(())
    }
}

/// Whether the body of an outermost function has left the three other blocks of the
/// function alone: the insertion point is in a block of the module other than the throw
/// block, the catch block and the return block of the current function, and these three are
/// empty.
pub open spec fn is_body_done<D>(context: ContextView<D>) -> bool {
    &&& context.is_positioned()
    &&& context.function->0.is_in(context.module)
    &&& context.here() != context.function->0.throw_block
    &&& context.here() != context.function->0.catch_block
    &&& context.here() != context.function->0.return_block
    &&& context.module.length(context.function->0.throw_block) == 0
    &&& context.module.length(context.function->0.catch_block) == 0
    &&& context.module.length(context.function->0.return_block) == 0
}

/// Whether the block holds no terminator.
pub open spec fn is_open(instructions: Seq<InstructionView>) -> bool {
    forall|i: int| 0 <= i < instructions.len() ==> !(#[trigger] instructions[i]).is_terminator()
}

/// Whether, in `module`, the blocks of the current function of `context` are closed as an
/// outermost function is finished: the throw block, the catch block and the return block each
/// end in a terminator and hold no other, and so do the two blocks that are added for the
/// long return; the block in which the body ended, that of the insertion point of `context`,
/// ends in a terminator; if that block held no terminator, its one terminator is a branch to
/// the return block.
pub open spec fn is_closed_around<D>(
    context: ContextView<D>,
    module: crate::ir::module::ModuleView,
) -> bool {
    &&& module.block(context.function->0.throw_block).is_closed()
    &&& module.block(context.function->0.catch_block).is_closed()
    &&& module.block(context.function->0.return_block).is_closed()
    &&& module.block(context.new_block()).is_closed()
    &&& module.block(context.with_block("no_long_return_block"@).new_block()).is_closed()
    &&& module.block(context.here()).is_terminated()
    &&& is_open(context.module.instructions(context.here())) ==> module.block(
        context.here(),
    ).is_closed() && module.instructions(context.here()).last() == (
    InstructionView::Branch { destination: context.function->0.return_block })
}

/// What closing the body of an outermost function leaves, block by block: the throw block
/// holds the test of the long return flag; the catch block holds a landing pad and the test
/// of the long return flag; the two blocks that the tests go to if the flag is not set hold
/// the instructions that raise again; the return block is empty; the block in which the body
/// ended has a branch to the return block at its end, if it did not end in a terminator.
#[verifier::rlimit(40)]
pub proof fn lemma_bracketed<D>(context: ContextView<D>)
    requires
        is_body_done(context),
        context.has_room(2),
    ensures
        bracketed(context).is_positioned(),
        bracketed(context).here() == context.function->0.return_block,
        bracketed(context).module.has_block(context.here()),
        bracketed(context).module.instructions(context.function->0.return_block) == Seq::<
            InstructionView,
        >::empty(),
        bracketed(context).module.instructions(context.function->0.throw_block)
            == long_return_check_code(
            context.function->0.throw_block,
            0,
            context.function->0.return_block,
            context.new_block(),
        ),
        bracketed(context).module.instructions(context.function->0.catch_block) == catch_code(
            context.function->0.catch_block,
            0,
            context.module.structures.len(),
            context.function->0.return_block,
            context.with_block("no_long_return_block"@).new_block(),
            context.runtime.personality,
            context.runtime.cxa_throw,
            true,
        ),
        bracketed(context).module.has_block(context.new_block()),
        bracketed(context).module.instructions(context.new_block()) == rethrow_code(
            context.runtime.cxa_throw,
        ),
        bracketed(context).module.has_block(
            context.with_block("no_long_return_block"@).new_block(),
        ),
        bracketed(context).module.instructions(
            context.with_block("no_long_return_block"@).new_block(),
        ) == rethrow_code(context.runtime.cxa_throw),
        bracketed(context).module.instructions(context.here()) == (if context.is_terminated() {
            context.module.instructions(context.here())
        } else {
            context.module.instructions(context.here()) + seq![
                InstructionView::Branch { destination: context.function->0.return_block },
            ]
        }),
{
    let function = context.function->0;
    let here = context.here();
    let branch = InstructionView::Branch { destination: function.return_block };
    let fallen = if ends_in_branch(context) {
        context
    } else {
        context.terminate(branch)
    };
    if !context.is_terminated() {
        lemma_emit_other(context, seq![branch], here);
        lemma_emit_other(context, seq![branch], function.throw_block);
        lemma_emit_other(context, seq![branch], function.catch_block);
        lemma_emit_other(context, seq![branch], function.return_block);
    }
    assert(fallen.new_block() == context.new_block());
    let thrown = fallen.throw_block(true);
    lemma_throw_block(fallen, true, here);
    lemma_throw_block(fallen, true, function.throw_block);
    lemma_throw_block(fallen, true, function.catch_block);
    lemma_throw_block(fallen, true, function.return_block);
    assert(thrown.new_block() == context.with_block("no_long_return_block"@).new_block());
    assert(Seq::<InstructionView>::empty() + long_return_check_code(
        function.throw_block,
        0,
        function.return_block,
        context.new_block(),
    ) =~= long_return_check_code(
        function.throw_block,
        0,
        function.return_block,
        context.new_block(),
    ));
    let caught = thrown.catch_block(true);
    lemma_catch_block(thrown, true, here);
    lemma_catch_block(thrown, true, function.throw_block);
    lemma_catch_block(thrown, true, function.catch_block);
    lemma_catch_block(thrown, true, function.return_block);
    lemma_catch_block(thrown, true, context.new_block());
    let code = catch_code(
        function.catch_block,
        0,
        context.module.structures.len(),
        function.return_block,
        thrown.new_block(),
        context.runtime.personality,
        context.runtime.cxa_throw,
        true,
    );
    assert(Seq::<InstructionView>::empty() + code =~= code);
    lemma_at_other(caught, function.return_block, here);
}

/// The test of the long return flag ends in its one terminator.
proof fn lemma_check_closed(
    block: BasicBlock,
    next: int,
    return_block: BasicBlock,
    else_block: BasicBlock,
    name: Seq<char>,
)
    ensures
        (BlockView {
            name,
            instructions: long_return_check_code(block, next, return_block, else_block),
        }).is_closed(),
{
    let code = long_return_check_code(block, next, return_block, else_block);
    assert(!code[0].is_terminator());
    assert(!code[1].is_terminator());
    assert(!code[2].is_terminator());
    assert(code[3].is_terminator());
}

/// After the constructor has been finished, the throw block, the catch block and the return
/// block of the function each end in a terminator and hold no other, and so do the two blocks
/// that were added for the long return, if the body has left the three blocks empty. The
/// block in which the body ended ends in a terminator. If that block held no terminator, its
/// one terminator is a branch to the return block: where the body has ended in the entry
/// block, the return block is reached from the entry block.
#[verifier::rlimit(40)]
pub proof fn lemma_finished_closed<D>(context: ContextView<D>)
    requires
        is_body_done(context),
        context.has_room(2),
    ensures
        is_closed_around(context, finished(context).module),
{
    let function = context.function->0;
    let here = context.here();
    let closed = bracketed(context);
    let flag = seq![executed_flag_code()];
    let flagged = closed.emit(flag);
    let after = finished(context);
    lemma_bracketed(context);
    lemma_emit_other(closed, flag, here);
    lemma_emit_other(closed, flag, function.throw_block);
    lemma_emit_other(closed, flag, function.catch_block);
    lemma_emit_other(closed, flag, function.return_block);
    lemma_emit_other(closed, flag, context.new_block());
    lemma_emit_other(closed, flag, context.with_block("no_long_return_block"@).new_block());
    let end = seq![InstructionView::Return { value: None }];
    assert(flagged.module.instructions(function.return_block) =~= flag);
    assert(!flagged.is_terminated());
    lemma_emit_other(flagged, end, here);
    lemma_emit_other(flagged, end, function.throw_block);
    lemma_emit_other(flagged, end, function.catch_block);
    lemma_emit_other(flagged, end, function.return_block);
    lemma_emit_other(flagged, end, context.new_block());
    lemma_emit_other(flagged, end, context.with_block("no_long_return_block"@).new_block());
    lemma_scaffold_closed(context, after.module);
    let returned = after.module.instructions(function.return_block);
    assert(returned =~= flag + end);
    assert(!returned[0].is_terminator());
}

/// The blocks that closing the body of an outermost function has filled end in their one
/// terminator, in every module that holds them as they were filled.
#[verifier::rlimit(40)]
pub proof fn lemma_scaffold_closed<D>(context: ContextView<D>, module: crate::ir::module::ModuleView)
    requires
        is_body_done(context),
        context.has_room(2),
        module.instructions(context.function->0.throw_block) == bracketed(
            context,
        ).module.instructions(context.function->0.throw_block),
        module.instructions(context.function->0.catch_block) == bracketed(
            context,
        ).module.instructions(context.function->0.catch_block),
        module.instructions(context.new_block()) == bracketed(context).module.instructions(
            context.new_block(),
        ),
        module.instructions(context.with_block("no_long_return_block"@).new_block())
            == bracketed(context).module.instructions(
            context.with_block("no_long_return_block"@).new_block(),
        ),
        module.instructions(context.here()) == bracketed(context).module.instructions(
            context.here(),
        ),
    ensures
        module.block(context.function->0.throw_block).is_closed(),
        module.block(context.function->0.catch_block).is_closed(),
        module.block(context.new_block()).is_closed(),
        module.block(context.with_block("no_long_return_block"@).new_block()).is_closed(),
        module.block(context.here()).is_terminated(),
        is_open(context.module.instructions(context.here())) ==> module.block(
            context.here(),
        ).is_closed() && module.instructions(context.here()).last() == (
        InstructionView::Branch { destination: context.function->0.return_block }),
{
    let function = context.function->0;
    let here = context.here();
    lemma_bracketed(context);
    let first = context.new_block();
    let second = context.with_block("no_long_return_block"@).new_block();
    lemma_check_closed(function.throw_block, 0, function.return_block, first, ""@);
    lemma_check_closed(function.catch_block, 1, function.return_block, second, ""@);
    let raise = rethrow_code(context.runtime.cxa_throw);
    assert(!raise[0].is_terminator());
    assert(raise[1].is_terminator());
    let caught = module.instructions(function.catch_block);
    let check = long_return_check_code(function.catch_block, 1, function.return_block, second);
    assert(!caught[0].is_terminator());
    assert(caught[1] == check[0]);
    assert(caught[2] == check[1]);
    assert(caught[3] == check[2]);
    assert(caught[4] == check[3]);
    assert(caught.len() == 5);
    let ended = module.instructions(here);
    if is_open(context.module.instructions(here)) {
        let before = context.module.instructions(here);
        if before.len() > 0 {
            assert(!before[before.len() - 1].is_terminator());
        }
        assert(!context.is_terminated());
        assert forall|i: int| 0 <= i < ended.len() - 1 implies !(#[trigger] ended[i]).is_terminator() by {
            assert(ended[i] == before[i]);
        }
    }
}

} // verus!
