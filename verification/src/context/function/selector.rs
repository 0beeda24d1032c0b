//! The selector function.

use std::marker::PhantomData;
use vstd::prelude::*;

use crate::abi::LLVM_FUNCTION_SELECTOR;
use crate::context::code_type::CodeType;
use crate::context::function::constructor::bracket;
use crate::context::function::constructor::bracketed;
use crate::context::function::constructor::is_body_done;
use crate::context::function::constructor::is_closed_around;
use crate::context::function::constructor::is_open;
use crate::context::function::constructor::lemma_bracketed;
use crate::context::function::constructor::lemma_scaffold_closed;
use crate::context::unwinding::lemma_emit_other;
use crate::context::function::constructor::outermost_type;
use crate::context::function::constructor::started;
use crate::context::Context;
use crate::context::ContextView;
use crate::error::Error;
use crate::error::ErrorView;
use crate::ir::instruction::InstructionView;
use crate::ir::module::Linkage;
use crate::Dependency;
use crate::WriteLLVM;

verus! {

/// The selector function: the outermost function of the runtime code, around the node that
/// holds its body.
#[derive(Debug)]
pub struct Selector<B, D> where B: WriteLLVM<D>, D: Dependency {
    /// The selector AST representation.
    inner: B,
    /// The `D` phantom data.
    _pd: PhantomData<D>,
}

/// The context after the selector has been finished: its body is closed, and its return
/// block returns.
pub open spec fn finished<D>(context: ContextView<D>) -> ContextView<D>
    recommends
        context.position is Some,
        context.function is Some,
{
    bracketed(context).terminate(InstructionView::Return { value: None })
}

/// Declares the selector: a private function without parameters and return value.
pub fn declare_function<D>(context: &mut Context<D>) where D: Dependency
    requires
        old(context)@.wf(),
    ensures
        final(context)@ == old(context)@.with_function(
            LLVM_FUNCTION_SELECTOR@,
            outermost_type(),
            Some(Linkage::Private),
        ),
        final(context)@.wf(),
        final(context)@.has_function(LLVM_FUNCTION_SELECTOR@),
        forall|other: Seq<char>|
            old(context)@.has_function(other) ==> #[trigger] final(context)@.has_function(other),
{
    let function_type = context.function_type(0, Vec::new());
    assert(function_type@.parameter_types =~= seq![]);
    context.add_function(LLVM_FUNCTION_SELECTOR, function_type, Some(Linkage::Private));
}

/// Makes the selector the current function, with the insertion point at the end of its entry
/// block, and sets the code type to that of the runtime code. Fails if the selector has not
/// been declared.
pub fn start<D>(context: &mut Context<D>) -> (result: Result<(), Error>) where D: Dependency
    requires
        old(context)@.wf(),
    ensures
        final(context)@.wf(),
        old(context)@.has_function(LLVM_FUNCTION_SELECTOR@) ==> result is Ok && final(context)@
            == started(
            old(context)@,
            old(context)@.function_named(LLVM_FUNCTION_SELECTOR@),
            CodeType::Runtime,
        ),
        !old(context)@.has_function(LLVM_FUNCTION_SELECTOR@) ==> final(context)@ == old(context)@
            && (result matches Err(error) && error@ == ErrorView::SelectorNotFound),
{
    let function = match context.get_function(LLVM_FUNCTION_SELECTOR) {
        Some(function) => function,
        None => {
            return Err(Error::SelectorNotFound);
        },
    };
    let entry_block = function.entry_block;
    context.set_function(function);
    context.set_basic_block(entry_block);
    context.set_code_type(CodeType::Runtime);
    Ok(())
}

/// Finishes the selector, after its body has been emitted: closes the body, and lets the
/// return block return.
pub fn finish<D>(context: &mut Context<D>) where D: Dependency
    requires
        old(context)@.wf(),
        old(context)@.position is Some,
        old(context)@.function is Some,
    ensures
        final(context)@ == finished(old(context)@),
        final(context)@.wf(),
        final(context)@.position == Some(old(context)@.function->0.return_block),
        final(context)@.function == old(context)@.function,
        final(context)@.functions == old(context)@.functions,
        final(context)@.is_terminated(),
        is_body_done(old(context)@) ==> is_closed_around(old(context)@, final(context)@.module),
{
    bracket(context);
    let ghost closed = context@;
    context.build_return(None);
    proof {
        crate::context::view::lemma_terminate_twice(
            closed,
            InstructionView::Return { value: None },
            InstructionView::Return { value: None },
        );
        if is_body_done(old(context)@) {
            lemma_finished_closed(old(context)@);
        }
    }
}

impl<B, D> Selector<B, D> where B: WriteLLVM<D>, D: Dependency {
    /// The node that holds the body of the function.
    pub closed spec fn body(self) -> B {
        self.inner
    }

    /// A shortcut constructor.
    pub fn new(inner: B) -> (result: Self)
        ensures
            result.body() == inner,
    {
        Self { inner, _pd: PhantomData }
    }
}

impl<B, D> WriteLLVM<D> for Selector<B, D> where B: WriteLLVM<D>, D: Dependency {
    /// The selector has a function to declare.
    open spec fn declares() -> bool {
        true
    }

    /// Declares the selector, and then what its body declares.
    fn declare(&mut self, context: &mut Context<D>) -> (result: Result<(), Error>)
        ensures
            final(context)@.has_function(LLVM_FUNCTION_SELECTOR@),
    {
        declare_function(context);

        self.inner.declare(context)
    }

    /// Emits the selector: starts it, emits its body, and finishes it. Fails, with nothing
    /// emitted, if the selector has not been declared, and with the failure of the body, if
    /// the body fails.
    fn into_llvm(self, context: &mut Context<D>) -> (result: Result<(), Error>)
        ensures
            !old(context)@.has_function(LLVM_FUNCTION_SELECTOR@) ==> final(context)@ == old(context)@
                && (result matches Err(error) && error@ == ErrorView::SelectorNotFound),
            old(context)@.has_function(LLVM_FUNCTION_SELECTOR@) && result is Ok ==> final(context)@.function
                is Some && final(context)@.position == Some(
                final(context)@.function->0.return_block,
            ),
            result is Ok ==> final(context)@.is_terminated(),
    {
        match start(context) {
            Ok(()) => {},
            Err(error) => {
                return Err(error);
            },
        }
        let ghost started = context@;
        match self.inner.into_llvm(context) {
            Ok(()) => {},
            Err(error) => {
                proof {
                    assert forall|name: Seq<char>| old(context)@.has_function(name) implies (
                    #[trigger] context@.has_function(name)) by {
                        assert(started.has_function(name));
                    }
                }
                return Err(error);
            },
        }
        let ghost emitted = context@;
        finish(context);
        proof {
            assert forall|name: Seq<char>| old(context)@.has_function(name) implies (
            #[trigger] context@.has_function(name)) by {
                assert(started.has_function(name));
                assert(emitted.has_function(name));
            }
        }

        Ok(())
    }
}

/// After the selector has been finished, the throw block, the catch block and the return
/// block of the function each end in a terminator and hold no other, and so do the two blocks
/// that were added for the long return, if the body has left the three blocks empty. The
/// block in which the body ended ends in a terminator. If that block held no terminator, its
/// one terminator is a branch to the return block: where the body has ended in the entry
/// block, the return block is reached from the entry block.
#[verifier::rlimit(40)]
pub proof fn lemma_finished_closed<D>(context: ContextView<D>)
    requires
        is_body_done(context),
        context.has_room(2),
    ensures
        is_closed_around(context, finished(context).module),
{
    let function = context.function->0;
    let here = context.here();
    let closed = bracketed(context);
    let after = finished(context);
    let end = seq![InstructionView::Return { value: None }];
    lemma_bracketed(context);
    assert(!closed.is_terminated());
    lemma_emit_other(closed, end, here);
    lemma_emit_other(closed, end, function.throw_block);
    lemma_emit_other(closed, end, function.catch_block);
    lemma_emit_other(closed, end, function.return_block);
    lemma_emit_other(closed, end, context.new_block());
    lemma_emit_other(closed, end, context.with_block("no_long_return_block"@).new_block());
    lemma_scaffold_closed(context, after.module);
    assert(after.module.instructions(function.return_block) =~= end);
}

} // verus!
