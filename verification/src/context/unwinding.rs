//! What the throw and catch blocks hold once they are built, and where a raise goes through
//! them: the long return.

use vstd::prelude::*;

use crate::context::function::FunctionView;
use crate::context::emission::landing_pad;
use crate::context::emission::landing_pad_fields;
use crate::context::emission::long_return_check_code;
use crate::context::emission::rethrow_code;
use crate::context::ContextView;
use crate::ir::instruction::InstructionView;
use crate::ir::module::ModuleView;
use crate::ir::types::StructType;
use crate::ir::value::BasicBlock;

verus! {

impl<D> ContextView<D> {
    /// Whether the context can take `count` more blocks in the current function: the
    /// function is one of the module, and the number of its blocks stays within the machine
    /// word.
    pub open spec fn has_room(self, count: int) -> bool {
        &&& self.function is Some
        &&& self.function->0.value is Declared
        &&& self.module.has_function(self.function->0.index())
        &&& self.module.functions[self.function->0.index()].blocks.len() + count <= usize::MAX
    }

    /// Whether the insertion point is set to a block of the module.
    pub open spec fn is_positioned(self) -> bool {
        self.position is Some && self.module.has_block(self.here())
    }
}

/// Emitting changes no block but the one of the insertion point.
pub proof fn lemma_emit_other<D>(
    context: ContextView<D>,
    instructions: Seq<InstructionView>,
    block: BasicBlock,
)
    requires
        context.is_positioned(),
        context.module.has_block(block),
    ensures
        context.emit(instructions).module.has_block(block),
        block != context.here() ==> context.emit(instructions).module.instructions(block)
            == context.module.instructions(block),
        block == context.here() ==> context.emit(instructions).module.instructions(block)
            == context.module.instructions(block) + instructions,
        context.emit(instructions).has_room(0) == context.has_room(0),
        context.has_room(0) ==> context.emit(
            instructions,
        ).module.functions[context.function->0.index()].blocks.len()
            == context.module.functions[context.function->0.index()].blocks.len(),
{
}

/// Moving the insertion point changes no block.
pub proof fn lemma_at_other<D>(context: ContextView<D>, target: BasicBlock, block: BasicBlock)
    requires
        context.module.has_block(target),
    ensures
        context.at(target).is_positioned(),
        context.at(target).here() == target,
        context.at(target).module == context.module,
        context.at(target).function == context.function,
        context.at(target).has_room(0) == context.has_room(0),
{
}

/// Appending a block to the current function changes no block, and the new block is empty.
pub proof fn lemma_with_block_other<D>(context: ContextView<D>, name: Seq<char>, block: BasicBlock)
    requires
        context.has_room(1),
        context.module.has_block(block),
    ensures
        context.with_block(name).module.has_block(block),
        context.with_block(name).module.instructions(block) == context.module.instructions(block),
        context.with_block(name).module.has_block(context.new_block()),
        context.with_block(name).module.instructions(context.new_block()) == Seq::<
            InstructionView,
        >::empty(),
        !context.module.has_block(context.new_block()),
        context.new_block() != block,
        context.with_block(name).has_room(0),
        context.with_block(name).module.functions[context.function->0.index()].blocks.len()
            == context.module.functions[context.function->0.index()].blocks.len() + 1,
{
}

/// What the test of the long return flag leaves: the block of the insertion point has the
/// test at its end, the new block is empty, and no other block has changed.
pub proof fn lemma_long_return_check<D>(context: ContextView<D>, block: BasicBlock)
    requires
        context.is_positioned(),
        context.has_room(1),
        context.module.has_block(block),
    ensures
        context.long_return_check().module.has_block(block),
        block != context.here() ==> context.long_return_check().module.instructions(block)
            == context.module.instructions(block),
        context.long_return_check().module.instructions(context.here())
            == context.module.instructions(context.here()) + long_return_check_code(
            context.here(),
            context.next(),
            context.function->0.return_block,
            context.new_block(),
        ),
        context.long_return_check().position == Some(context.new_block()),
        context.long_return_check().is_positioned(),
        context.long_return_check().next() == 0,
        !context.module.has_block(context.new_block()),
        context.long_return_check().function == context.function,
        context.long_return_check().runtime == context.runtime,
        context.long_return_check().module.structures == context.module.structures,
        context.long_return_check().has_room(0),
        context.long_return_check().module.functions[context.function->0.index()].blocks.len()
            == context.module.functions[context.function->0.index()].blocks.len() + 1,
{
    let name = "no_long_return_block"@;
    let first = context.with_block(name);
    let code = long_return_check_code(
        context.here(),
        context.next(),
        context.function->0.return_block,
        context.new_block(),
    );
    lemma_with_block_other(context, name, block);
    lemma_with_block_other(context, name, context.here());
    lemma_emit_other(first, code, block);
    lemma_emit_other(first, code, context.here());
    lemma_emit_other(first, code, context.new_block());
}

/// The instructions that `build_throw_block` puts into the throw block, when the block holds
/// `next` instructions already.
pub open spec fn throw_code(
    throw_block: BasicBlock,
    next: int,
    return_block: BasicBlock,
    else_block: BasicBlock,
    cxa_throw: crate::ir::value::FunctionValue,
    is_upper_level: bool,
) -> Seq<InstructionView> {
    if is_upper_level {
        long_return_check_code(throw_block, next, return_block, else_block)
    } else {
        rethrow_code(cxa_throw)
    }
}

/// What `build_throw_block` leaves: the throw block of the current function has, at its
/// end, the test of the long return flag if `is_upper_level` is set, and the instructions
/// that raise again otherwise; with the test, a new block holds the instructions that raise
/// again; no other block has changed.
#[verifier::rlimit(40)]
pub proof fn lemma_throw_block<D>(context: ContextView<D>, is_upper_level: bool, block: BasicBlock)
    requires
        context.has_room(1),
        context.module.has_block(context.function->0.throw_block),
        context.module.has_block(block),
    ensures
        context.throw_block(is_upper_level).module.has_block(block),
        block != context.function->0.throw_block ==> context.throw_block(
            is_upper_level,
        ).module.instructions(block) == context.module.instructions(block),
        context.throw_block(is_upper_level).module.instructions(context.function->0.throw_block)
            == context.module.instructions(context.function->0.throw_block) + throw_code(
            context.function->0.throw_block,
            context.module.length(context.function->0.throw_block) as int,
            context.function->0.return_block,
            context.new_block(),
            context.runtime.cxa_throw,
            is_upper_level,
        ),
        is_upper_level ==> context.throw_block(is_upper_level).module.has_block(
            context.new_block(),
        ) && context.throw_block(is_upper_level).module.instructions(context.new_block())
            == rethrow_code(context.runtime.cxa_throw) && !context.module.has_block(
            context.new_block(),
        ),
        context.throw_block(is_upper_level).function == context.function,
        context.throw_block(is_upper_level).runtime == context.runtime,
        context.throw_block(is_upper_level).module.structures == context.module.structures,
        context.throw_block(is_upper_level).has_room(0),
        context.throw_block(is_upper_level).module.functions[context.function->0.index()].blocks.len()
            == context.module.functions[context.function->0.index()].blocks.len() + (
        if is_upper_level {
            1int
        } else {
            0int
        }),
{
    let throw_block = context.function->0.throw_block;
    let start = context.at(throw_block);
    let code = rethrow_code(context.runtime.cxa_throw);
    if is_upper_level {
        let checked = start.long_return_check();
        lemma_long_return_check(start, block);
        lemma_long_return_check(start, throw_block);
        lemma_emit_other(checked, code, block);
        lemma_emit_other(checked, code, throw_block);
        lemma_emit_other(checked, code, context.new_block());
        assert(Seq::<InstructionView>::empty() + code =~= code);
    } else {
        lemma_emit_other(start, code, block);
        lemma_emit_other(start, code, throw_block);
    }
}

/// The instructions that `build_catch_block` puts into the catch block, when the block holds
/// `next` instructions already and the module has `structures` structure types.
pub open spec fn catch_code(
    catch_block: BasicBlock,
    next: int,
    structures: nat,
    return_block: BasicBlock,
    else_block: BasicBlock,
    personality: crate::ir::value::FunctionValue,
    cxa_throw: crate::ir::value::FunctionValue,
    handles_long_return: bool,
) -> Seq<InstructionView> {
    seq![landing_pad(StructType { index: structures as usize }, personality)] + (
    if handles_long_return {
        long_return_check_code(catch_block, next + 1, return_block, else_block)
    } else {
        rethrow_code(cxa_throw)
    })
}

/// What `build_catch_block` leaves: the catch block of the current function has, at its
/// end, a landing pad and then the test of the long return flag if `handles_long_return` is
/// set, and the instructions that raise again otherwise; with the test, a new block holds the
/// instructions that raise again; no other block has changed.
#[verifier::rlimit(40)]
pub proof fn lemma_catch_block<D>(
    context: ContextView<D>,
    handles_long_return: bool,
    block: BasicBlock,
)
    requires
        context.has_room(1),
        context.module.has_block(context.function->0.catch_block),
        context.module.has_block(block),
    ensures
        context.catch_block(handles_long_return).module.has_block(block),
        block != context.function->0.catch_block ==> context.catch_block(
            handles_long_return,
        ).module.instructions(block) == context.module.instructions(block),
        context.catch_block(handles_long_return).module.instructions(
            context.function->0.catch_block,
        ) == context.module.instructions(context.function->0.catch_block) + catch_code(
            context.function->0.catch_block,
            context.module.length(context.function->0.catch_block) as int,
            context.module.structures.len(),
            context.function->0.return_block,
            context.new_block(),
            context.runtime.personality,
            context.runtime.cxa_throw,
            handles_long_return,
        ),
        handles_long_return ==> context.catch_block(handles_long_return).module.has_block(
            context.new_block(),
        ) && context.catch_block(handles_long_return).module.instructions(context.new_block())
            == rethrow_code(context.runtime.cxa_throw) && !context.module.has_block(
            context.new_block(),
        ),
        context.catch_block(handles_long_return).function == context.function,
        context.catch_block(handles_long_return).runtime == context.runtime,
        context.catch_block(handles_long_return).has_room(0),
        context.catch_block(handles_long_return).module.functions[context.function->0.index()].blocks.len()
            == context.module.functions[context.function->0.index()].blocks.len() + (
        if handles_long_return {
            1int
        } else {
            0int
        }),
{
    let catch_block = context.function->0.catch_block;
    let pad = seq![
        landing_pad(
            StructType { index: context.module.structures.len() as usize },
            context.runtime.personality,
        ),
    ];
    let typed = context.at(catch_block).with_structure(landing_pad_fields());
    let start = typed.emit(pad);
    let code = rethrow_code(context.runtime.cxa_throw);
    assert(typed.module.functions == context.module.functions);
    lemma_emit_other(typed, pad, block);
    lemma_emit_other(typed, pad, catch_block);
    let before = context.module.instructions(catch_block);
    if handles_long_return {
        let checked = start.long_return_check();
        lemma_long_return_check(start, block);
        lemma_long_return_check(start, catch_block);
        lemma_emit_other(checked, code, block);
        lemma_emit_other(checked, code, catch_block);
        lemma_emit_other(checked, code, context.new_block());
        assert(Seq::<InstructionView>::empty() + code =~= code);
        assert(start.new_block() == context.new_block());
        assert(start.next() == before.len() + 1);
        assert((before + pad) + long_return_check_code(
            catch_block,
            start.next(),
            context.function->0.return_block,
            context.new_block(),
        ) =~= before + (pad + long_return_check_code(
            catch_block,
            before.len() as int + 1,
            context.function->0.return_block,
            context.new_block(),
        )));
    } else {
        lemma_emit_other(start, code, block);
        lemma_emit_other(start, code, catch_block);
        assert((before + pad) + code =~= before + (pad + code));
    }
}

/// Where control goes from the end of a block.
pub enum Exit {
    /// To the block.
    Goes(BasicBlock),
    /// To the caller, as a raise.
    Raises,
    /// To the caller, as a return.
    Returns,
    /// The instructions of the block do not tell.
    Unknown,
}

/// Where control goes from the end of the block of `instructions`, with the long return flag
/// set or not, as far as the instructions tell: a block that ends in the test of the flag
/// goes to the first block of the test if the flag is set and to the second otherwise; one
/// that ends in the instructions that raise again raises; one that ends in a branch goes to
/// its destination; one that ends in a return returns.
pub open spec fn exit(
    instructions: Seq<InstructionView>,
    block: BasicBlock,
    flag_set: bool,
    cxa_throw: crate::ir::value::FunctionValue,
) -> Exit {
    let length = instructions.len() as int;
    if length == 0 {
        Exit::Unknown
    } else {
        match instructions.last() {
            InstructionView::ConditionalBranch { then_block, else_block, .. } => {
                if length >= 4 && instructions.subrange(length - 4, length)
                    == long_return_check_code(block, length - 4, then_block, else_block) {
                    if flag_set {
                        Exit::Goes(then_block)
                    } else {
                        Exit::Goes(else_block)
                    }
                } else {
                    Exit::Unknown
                }
            },
            InstructionView::Unreachable => {
                if length >= 2 && instructions.subrange(length - 2, length) == rethrow_code(
                    cxa_throw,
                ) {
                    Exit::Raises
                } else {
                    Exit::Unknown
                }
            },
            InstructionView::Branch { destination } => Exit::Goes(destination),
            InstructionView::Return { .. } => Exit::Returns,
            _ => Exit::Unknown,
        }
    }
}

/// Whether a raise that reaches the catch block of the function ends in the return block of
/// the function.
pub open spec fn catch_returns(
    module: ModuleView,
    function: FunctionView,
    flag_set: bool,
    cxa_throw: crate::ir::value::FunctionValue,
) -> bool {
    exit(module.instructions(function.catch_block), function.catch_block, flag_set, cxa_throw)
        == Exit::Goes(function.return_block)
}

/// Whether control that reaches the throw block of the function ends in the return block of
/// the function.
pub open spec fn throw_returns(
    module: ModuleView,
    function: FunctionView,
    flag_set: bool,
    cxa_throw: crate::ir::value::FunctionValue,
) -> bool {
    exit(module.instructions(function.throw_block), function.throw_block, flag_set, cxa_throw)
        == Exit::Goes(function.return_block)
}

/// A catch block turns a raise into a return exactly if it handles the long return and the
/// flag is set. Otherwise the raise goes on to the caller: at once,
/// if the block does not handle the long return, and through the new block, if the flag is
/// not set.
#[verifier::rlimit(40)]
pub proof fn lemma_catch_exit<D>(context: ContextView<D>, handles_long_return: bool, flag_set: bool)
    requires
        context.has_room(1),
        context.module.has_block(context.function->0.catch_block),
        context.module.has_block(context.function->0.return_block),
    ensures
        catch_returns(
            context.catch_block(handles_long_return).module,
            context.function->0,
            flag_set,
            context.runtime.cxa_throw,
        ) == (handles_long_return && flag_set),
        !handles_long_return ==> exit(
            context.catch_block(handles_long_return).module.instructions(
                context.function->0.catch_block,
            ),
            context.function->0.catch_block,
            flag_set,
            context.runtime.cxa_throw,
        ) == Exit::Raises,
        handles_long_return && !flag_set ==> exit(
            context.catch_block(handles_long_return).module.instructions(
                context.function->0.catch_block,
            ),
            context.function->0.catch_block,
            flag_set,
            context.runtime.cxa_throw,
        ) == Exit::Goes(context.new_block()) && exit(
            context.catch_block(handles_long_return).module.instructions(context.new_block()),
            context.new_block(),
            flag_set,
            context.runtime.cxa_throw,
        ) == Exit::Raises,
{
    let function = context.function->0;
    let after = context.catch_block(handles_long_return).module;
    lemma_catch_block(context, handles_long_return, function.catch_block);
    let before = context.module.instructions(function.catch_block);
    let code = catch_code(
        function.catch_block,
        before.len() as int,
        context.module.structures.len(),
        function.return_block,
        context.new_block(),
        context.runtime.personality,
        context.runtime.cxa_throw,
        handles_long_return,
    );
    let caught = after.instructions(function.catch_block);
    assert(caught == before + code);
    let raise = rethrow_code(context.runtime.cxa_throw);
    if handles_long_return {
        let check = long_return_check_code(
            function.catch_block,
            before.len() as int + 1,
            function.return_block,
            context.new_block(),
        );
        assert(caught.subrange(caught.len() - 4, caught.len() as int) =~= check);
        assert(caught.last() == check[3]);
        assert(raise.subrange(0, 2) =~= raise);
    } else {
        assert(caught.subrange(caught.len() - 2, caught.len() as int) =~= raise);
        assert(caught.last() == raise[1]);
    }
}

/// A throw block goes to the return block exactly if the function is an outermost one and the
/// long return flag is set. Otherwise it raises: at once, if the
/// function is not an outermost one, and through the new block, if the flag is not set.
#[verifier::rlimit(40)]
pub proof fn lemma_throw_exit<D>(context: ContextView<D>, is_upper_level: bool, flag_set: bool)
    requires
        context.has_room(1),
        context.module.has_block(context.function->0.throw_block),
        context.module.has_block(context.function->0.return_block),
    ensures
        throw_returns(
            context.throw_block(is_upper_level).module,
            context.function->0,
            flag_set,
            context.runtime.cxa_throw,
        ) == (is_upper_level && flag_set),
        !is_upper_level ==> exit(
            context.throw_block(is_upper_level).module.instructions(
                context.function->0.throw_block,
            ),
            context.function->0.throw_block,
            flag_set,
            context.runtime.cxa_throw,
        ) == Exit::Raises,
        is_upper_level && !flag_set ==> exit(
            context.throw_block(is_upper_level).module.instructions(
                context.function->0.throw_block,
            ),
            context.function->0.throw_block,
            flag_set,
            context.runtime.cxa_throw,
        ) == Exit::Goes(context.new_block()) && exit(
            context.throw_block(is_upper_level).module.instructions(context.new_block()),
            context.new_block(),
            flag_set,
            context.runtime.cxa_throw,
        ) == Exit::Raises,
{
    let function = context.function->0;
    let after = context.throw_block(is_upper_level).module;
    lemma_throw_block(context, is_upper_level, function.throw_block);
    let before = context.module.instructions(function.throw_block);
    let code = throw_code(
        function.throw_block,
        before.len() as int,
        function.return_block,
        context.new_block(),
        context.runtime.cxa_throw,
        is_upper_level,
    );
    let thrown = after.instructions(function.throw_block);
    assert(thrown == before + code);
    let raise = rethrow_code(context.runtime.cxa_throw);
    assert(raise.subrange(0, 2) =~= raise);
    if is_upper_level {
        assert(thrown.subrange(thrown.len() - 4, thrown.len() as int) =~= code);
        assert(thrown.last() == code[3]);
    } else {
        assert(thrown.subrange(thrown.len() - 2, thrown.len() as int) =~= raise);
        assert(thrown.last() == raise[1]);
    }
}

/// The frame, counted from the innermost, in whose return block a raise ends that unwinds
/// through the catch blocks of `frames`, the innermost first: the first frame whose catch
/// block turns the raise into a return. There is none if every frame raises again.
pub open spec fn landing(
    module: ModuleView,
    frames: Seq<FunctionView>,
    flag_set: bool,
    cxa_throw: crate::ir::value::FunctionValue,
) -> Option<int>
    decreases frames.len(),
{
    if frames.len() == 0 {
        None
    } else if catch_returns(module, frames[0], flag_set, cxa_throw) {
        Some(0)
    } else {
        match landing(module, frames.drop_first(), flag_set, cxa_throw) {
            Some(frame) => Some(frame + 1),
            None => None,
        }
    }
}

/// A raise ends in the return block of exactly one frame, if in any: the catch block of that
/// frame turns the raise into a return, and the catch block of every frame inside it raises
/// again.
pub proof fn lemma_landing(
    module: ModuleView,
    frames: Seq<FunctionView>,
    flag_set: bool,
    cxa_throw: crate::ir::value::FunctionValue,
)
    ensures
        landing(module, frames, flag_set, cxa_throw) matches Some(frame) ==> 0 <= frame
            < frames.len() && catch_returns(module, frames[frame], flag_set, cxa_throw)
            && forall|inner: int|
            0 <= inner < frame ==> !catch_returns(
                module,
                #[trigger] frames[inner],
                flag_set,
                cxa_throw,
            ),
        landing(module, frames, flag_set, cxa_throw) is None ==> forall|frame: int|
            0 <= frame < frames.len() ==> !catch_returns(
                module,
                #[trigger] frames[frame],
                flag_set,
                cxa_throw,
            ),
    decreases frames.len(),
{
    if frames.len() > 0 && !catch_returns(module, frames[0], flag_set, cxa_throw) {
        let rest = frames.drop_first();
        lemma_landing(module, rest, flag_set, cxa_throw);
        match landing(module, rest, flag_set, cxa_throw) {
            Some(frame) => {
                assert(rest[frame] == frames[frame + 1]);
                assert forall|inner: int| 0 <= inner < frame + 1 implies !catch_returns(
                    module,
                    #[trigger] frames[inner],
                    flag_set,
                    cxa_throw,
                ) by {
                    if inner > 0 {
                        assert(rest[inner - 1] == frames[inner]);
                    }
                }
            },
            None => {
                assert forall|frame: int| 0 <= frame < frames.len() implies !catch_returns(
                    module,
                    #[trigger] frames[frame],
                    flag_set,
                    cxa_throw,
                ) by {
                    if frame > 0 {
                        assert(rest[frame - 1] == frames[frame]);
                    }
                }
            },
        }
    }
}

/// The long return: when the long return flag is set and the catch block of every enclosing
/// frame handles the long return, a raise ends in the return block of the first frame that it
/// reaches, the innermost of them, and in no other: the instructions that raise again run in
/// no frame.
pub proof fn lemma_long_return(
    module: ModuleView,
    frames: Seq<FunctionView>,
    cxa_throw: crate::ir::value::FunctionValue,
)
    requires
        frames.len() > 0,
        forall|frame: int|
            0 <= frame < frames.len() ==> catch_returns(
                module,
                #[trigger] frames[frame],
                true,
                cxa_throw,
            ),
    ensures
        landing(module, frames, true, cxa_throw) == Some(0int),
{
    assert(catch_returns(module, frames[0], true, cxa_throw));
}

/// An abort is never turned into a return: while the long return flag is not set, a raise
/// ends in the return block of no frame whose catch block does not turn it into a return.
pub proof fn lemma_abort_unwinds(
    module: ModuleView,
    frames: Seq<FunctionView>,
    cxa_throw: crate::ir::value::FunctionValue,
)
    requires
        forall|frame: int|
            0 <= frame < frames.len() ==> !catch_returns(
                module,
                #[trigger] frames[frame],
                false,
                cxa_throw,
            ),
    ensures
        landing(module, frames, false, cxa_throw) is None,
    decreases frames.len(),
{
    if frames.len() > 0 {
        let rest = frames.drop_first();
        assert(!catch_returns(module, frames[0], false, cxa_throw));
        assert forall|frame: int| 0 <= frame < rest.len() implies !catch_returns(
            module,
            #[trigger] rest[frame],
            false,
            cxa_throw,
        ) by {
            assert(rest[frame] == frames[frame + 1]);
        }
        lemma_abort_unwinds(module, rest, cxa_throw);
    }
}

} // verus!
