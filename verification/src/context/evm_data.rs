//! The data of the contexts that lower stack-machine assembly.

use vstd::prelude::*;

verus! {

/// The data that a context carries while it lowers stack-machine assembly.
#[derive(Debug, Clone, Copy, PartialEq, Eq, Structural, Hash)]
pub struct EVMData {
    /// The height of the stack that the assembly may use.
    pub stack_size: usize,
}

impl EVMData {
    /// A shortcut constructor.
    pub fn new(stack_size: usize) -> (result: EVMData)
        ensures
            result == (EVMData { stack_size }),
    {
        EVMData { stack_size }
    }
}

} // verus!
