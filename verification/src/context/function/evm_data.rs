//! The data of the functions that hold lowered stack-machine assembly.

use vstd::prelude::*;

verus! {

/// The data that a function carries when it holds lowered stack-machine assembly.
#[derive(Debug, Clone, Copy, PartialEq, Eq, Structural, Hash)]
pub struct EVMData {
    /// The height of the stack that the function may use.
    pub stack_size: usize,
}

impl EVMData {
    /// A shortcut constructor.
    pub fn new(stack_size: usize) -> (result: EVMData)
        ensures
            result == (EVMData { stack_size }),
    {
        EVMData { stack_size }
    }
}

} // verus!
