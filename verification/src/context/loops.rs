//! The loop context.

use vstd::prelude::*;

use crate::ir::value::BasicBlock;

verus! {

/// The blocks of a loop being emitted.
#[derive(Debug, Clone, Copy, PartialEq, Eq, Structural, Hash)]
pub struct Loop {
    /// The block of the loop body.
    pub body_block: BasicBlock,
    /// The block that a `continue` goes to.
    pub continue_block: BasicBlock,
    /// The block that follows the loop, which a `break` goes to.
    pub join_block: BasicBlock,
}

impl Loop {
    /// A shortcut constructor.
    pub fn new(body_block: BasicBlock, continue_block: BasicBlock, join_block: BasicBlock) -> (result:
        Loop)
        ensures
            result == (Loop { body_block, continue_block, join_block }),
    {
        Loop { body_block, continue_block, join_block }
    }
}

} // verus!
