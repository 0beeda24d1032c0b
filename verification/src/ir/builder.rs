//! The builder: the place where the next instruction goes.

use vstd::prelude::*;

use crate::ir::value::BasicBlock;

verus! {

/// The builder, which holds the insertion point: the block at whose end the next instruction
/// goes.
#[derive(Debug, Clone, Copy, PartialEq, Eq, Structural, Hash)]
pub struct Builder {
    /// The block at whose end the next instruction goes, once one has been chosen.
    pub position: Option<BasicBlock>,
}

impl Builder {
    /// A builder without an insertion point.
    pub fn new() -> (result: Builder)
        ensures
            result.position is None,
    {
        Builder { position: None }
    }

    /// Moves the insertion point to the end of the block.
    pub fn position_at_end(&mut self, block: BasicBlock)
        ensures
            final(self).position == Some(block),
    {
        self.position = Some(block);
    }

    /// The block of the insertion point, once one has been chosen.
    pub fn get_insert_block(&self) -> (result: Option<BasicBlock>)
        ensures
            result == self.position,
    {
        self.position
    }
}

} // verus!
