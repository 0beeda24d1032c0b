//! The generation context and the instruction emission layer of a compiler backend that
//! lowers a stack-machine intermediate language into a register-based IR.
//!
//! The context owns the module being emitted and keeps the books of the emission: the
//! functions with their four fixed blocks, the insertion point, the loops. It emits the
//! instructions of the IR, with the alignments that the address spaces of the target ask for,
//! and builds the throw and catch blocks that stand for exceptions. The translators emit the
//! instruction sequences of the operations of the stack machine. The module is a value: it can
//! be inspected, verified, and handed to a code generator.

pub mod abi;
pub mod context;
pub mod dump_flag;
pub mod error;
pub mod evm;
pub mod hash;
pub mod ir;
pub mod text;
pub mod word;

pub use self::context::address_space::AddressSpace;
pub use self::context::argument::Argument;
pub use self::context::code_type::CodeType;
pub use self::context::function::constructor::Constructor as ConstructorFunction;
pub use self::context::function::intrinsic::Intrinsic as IntrinsicFunction;
pub use self::context::function::returning::Return as FunctionReturn;
pub use self::context::function::runtime::Runtime;
pub use self::context::function::selector::Selector as SelectorFunction;
pub use self::context::function::Function;
pub use self::context::loops::Loop;
pub use self::context::optimizer::OptimizationLevel;
pub use self::context::optimizer::Optimizer;
pub use self::context::Context;
pub use self::context::ContextView;
pub use self::dump_flag::DumpFlag;
pub use self::error::Error;
pub use self::evm::calldata;
pub use self::evm::contract;
pub use self::evm::create;
pub use self::evm::immutable;
pub use self::evm::storage;
pub use self::evm::termination;

use vstd::prelude::*;

verus! {

/// Implemented by items which are translated into IR.
///
/// Every method leaves the context well formed, leaves the insertion point and the current
/// function set if they were, and leaves every declared function declared: no function of the
/// context unsets the former or removes the latter.
///
/// Preparing and declaring are optional. An item that has nothing to prepare, or to declare,
/// leaves the method as it is given here, which succeeds and changes nothing.
#[allow(clippy::upper_case_acronyms)]
pub trait WriteLLVM<D>: Sized where D: Dependency {
    /// Whether the items of this type have anything to prepare. Those that have give their
    /// own `prepare`, and say so here.
    open spec fn prepares() -> bool {
        false
    }

    /// Whether the items of this type have anything to declare. Those that have give their
    /// own `declare`, and say so here.
    open spec fn declares() -> bool {
        false
    }

    /// Makes the required preparations in the IR. Where there is nothing to prepare, the
    /// preparation succeeds and leaves the context as it is.
    fn prepare(context: &mut Context<D>) -> (result: Result<(), Error>)
        requires
            old(context)@.wf(),
        ensures
            final(context)@.wf(),
            old(context)@.position is Some ==> final(context)@.position is Some,
            old(context)@.function is Some ==> final(context)@.function is Some,
            forall|name: Seq<char>|
                old(context)@.has_function(name) ==> #[trigger] final(context)@.has_function(name),
            !Self::prepares() ==> result is Ok && final(context)@ == old(context)@,
    {
        Ok(())
    }

    /// Declares the entity in the IR.
    /// Is usually performed in order to use the item before defining it. Where there is
    /// nothing to declare, the declaration succeeds and leaves the item and the context as they
    /// are.
    fn declare(&mut self, context: &mut Context<D>) -> (result: Result<(), Error>)
        requires
            old(context)@.wf(),
        ensures
            final(context)@.wf(),
            old(context)@.position is Some ==> final(context)@.position is Some,
            old(context)@.function is Some ==> final(context)@.function is Some,
            forall|name: Seq<char>|
                old(context)@.has_function(name) ==> #[trigger] final(context)@.has_function(name),
            !Self::declares() ==> result is Ok && final(context)@ == old(context)@ && *final(self)
                == *old(self),
    {
        Ok(())
    }

    /// Translates the entity into IR.
    fn into_llvm(self, context: &mut Context<D>) -> (result: Result<(), Error>)
        requires
            old(context)@.wf(),
        ensures
            final(context)@.wf(),
            old(context)@.position is Some ==> final(context)@.position is Some,
            old(context)@.function is Some ==> final(context)@.function is Some,
            forall|name: Seq<char>|
                old(context)@.has_function(name) ==> #[trigger] final(context)@.has_function(name),
    ;
}

/// Implemented by items managing project dependencies.
///
/// Nothing is promised of what an implementation answers. An implementation may say in
/// `compiles` and `resolves` what its answers are; the context hands them on.
pub trait Dependency: Sized {
    /// Whether `answer` is what the manager, which is `after` afterwards, answers to the
    /// request to compile the dependency `name` of the module `parent_name` at the given
    /// optimization levels, with the given dump flags. Where an implementation does not say,
    /// every answer is one.
    open spec fn compiles(
        &self,
        after: Self,
        name: Seq<char>,
        parent_name: Seq<char>,
        optimization_level_middle: OptimizationLevel,
        optimization_level_back: OptimizationLevel,
        dump_flags: Seq<DumpFlag>,
        answer: Result<String, Error>,
    ) -> bool {
        true
    }

    /// Whether `answer` is what the manager answers to the request for the address of the
    /// library at `path`. Where an implementation does not say, every answer is one.
    open spec fn resolves(&self, path: Seq<char>, answer: Result<String, Error>) -> bool {
        true
    }

    /// Compiles a project dependency, and returns the hash of its code.
    fn compile(
        &mut self,
        name: &str,
        parent_name: &str,
        optimization_level_middle: OptimizationLevel,
        optimization_level_back: OptimizationLevel,
        dump_flags: Vec<DumpFlag>,
    ) -> (answer: Result<String, Error>)
        ensures
            old(self).compiles(
                *final(self),
                name@,
                parent_name@,
                optimization_level_middle,
                optimization_level_back,
                dump_flags@,
                answer,
            ),
    ;

    /// Resolves a library address.
    fn resolve_library(&self, path: &str) -> (answer: Result<String, Error>)
        ensures
            self.resolves(path@, answer),
    ;
}

} // verus!
