//! The function records of the context.

pub mod constructor;
pub mod evm_data;
pub mod intrinsic;
pub mod returning;
pub mod runtime;
pub mod selector;

use vstd::prelude::*;

use crate::ir::module::ModuleView;
use crate::ir::value::BasicBlock;
use crate::ir::value::FunctionValue;
use crate::ir::value::PointerValue;

use self::evm_data::EVMData;
use self::returning::Return;

verus! {

/// What the context keeps of a function: its name, its place in the module, and its four
/// fixed blocks.
#[derive(Debug, PartialEq, Eq)]
pub struct Function {
    /// The name of the function.
    pub name: String,
    /// The function in the module.
    pub value: FunctionValue,
    /// The block where the body begins.
    pub entry_block: BasicBlock,
    /// The block that every abort of the call branches to.
    pub throw_block: BasicBlock,
    /// The block that receives what the calls made by the function raise.
    pub catch_block: BasicBlock,
    /// The block through which the function returns.
    pub return_block: BasicBlock,
    /// Where the function keeps the value that it returns, once that is known.
    pub return_entity: Option<Return>,
    /// The data of a function that holds lowered stack-machine assembly.
    pub evm_data: Option<EVMData>,
}

/// A function record as a mathematical value.
pub struct FunctionView {
    /// The name of the function.
    pub name: Seq<char>,
    /// The function in the module.
    pub value: FunctionValue,
    /// The block where the body begins.
    pub entry_block: BasicBlock,
    /// The block that every abort of the call branches to.
    pub throw_block: BasicBlock,
    /// The block that receives what the calls made by the function raise.
    pub catch_block: BasicBlock,
    /// The block through which the function returns.
    pub return_block: BasicBlock,
    /// Where the function keeps the value that it returns, once that is known.
    pub return_entity: Option<Return>,
    /// The data of a function that holds lowered stack-machine assembly.
    pub evm_data: Option<EVMData>,
}

impl View for Function {
    type V = FunctionView;

    open spec fn view(&self) -> FunctionView {
        FunctionView {
            name: self.name@,
            value: self.value,
            entry_block: self.entry_block,
            throw_block: self.throw_block,
            catch_block: self.catch_block,
            return_block: self.return_block,
            return_entity: self.return_entity,
            evm_data: self.evm_data,
        }
    }
}

impl FunctionView {
    /// The place of the function in the module.
    pub open spec fn index(self) -> int {
        self.value->index as int
    }

    /// Whether the record describes a function of the module: the function is there, and the
    /// four blocks are four different blocks of it.
    pub open spec fn is_in(self, module: ModuleView) -> bool {
        &&& self.value is Declared
        &&& module.has_function(self.index())
        &&& module.has_block(self.entry_block)
        &&& module.has_block(self.throw_block)
        &&& module.has_block(self.catch_block)
        &&& module.has_block(self.return_block)
        &&& self.entry_block.function == self.index()
        &&& self.throw_block.function == self.index()
        &&& self.catch_block.function == self.index()
        &&& self.return_block.function == self.index()
        &&& self.entry_block.index != self.throw_block.index
        &&& self.entry_block.index != self.catch_block.index
        &&& self.entry_block.index != self.return_block.index
        &&& self.throw_block.index != self.catch_block.index
        &&& self.throw_block.index != self.return_block.index
        &&& self.catch_block.index != self.return_block.index
    }
}

impl Function {
    /// A shortcut constructor.
    pub fn new(
        name: String,
        value: FunctionValue,
        entry_block: BasicBlock,
        throw_block: BasicBlock,
        catch_block: BasicBlock,
        return_block: BasicBlock,
        return_entity: Option<Return>,
    ) -> (result: Function)
        ensures
            result@ == (FunctionView {
                name: name@,
                value,
                entry_block,
                throw_block,
                catch_block,
                return_block,
                return_entity,
                evm_data: None,
            }),
    {
        Function {
            name,
            value,
            entry_block,
            throw_block,
            catch_block,
            return_block,
            return_entity,
            evm_data: None,
        }
    }

    /// Sets where the function keeps the value that it returns.
    pub fn set_return(&mut self, return_entity: Return)
        ensures
            final(self)@ == (FunctionView { return_entity: Some(return_entity), ..old(self)@ }),
    {
        self.return_entity = Some(return_entity);
    }

    /// The pointer to the value that the function returns, where it has one.
    pub fn return_pointer(&self) -> (result: Option<PointerValue>)
        ensures
            result == match self@.return_entity {
                Some(Return::Primitive { pointer }) => Some(pointer),
                Some(Return::Compound { pointer, .. }) => Some(pointer),
                _ => None,
            },
    {
        match &self.return_entity {
            Some(return_entity) => return_entity.return_pointer(),
            None => None,
        }
    }
}

impl Clone for Function {
    fn clone(&self) -> (result: Function)
        ensures
            result@ == self@,
    {
        Function {
            name: self.name.clone(),
            value: self.value,
            entry_block: self.entry_block,
            throw_block: self.throw_block,
            catch_block: self.catch_block,
            return_block: self.return_block,
            return_entity: self.return_entity,
            evm_data: self.evm_data,
        }
    }
}

} // verus!
