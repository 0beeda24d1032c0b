//! The target machine, as far as the module records it.

use vstd::prelude::*;

verus! {

/// The target machine: its triple and its data layout.
#[derive(Debug, Clone, PartialEq, Eq)]
pub struct TargetMachine {
    /// The target triple.
    pub triple: String,
    /// The data layout of the target.
    pub data_layout: String,
}

impl TargetMachine {
    /// A shortcut constructor.
    pub fn new(triple: String, data_layout: String) -> (result: TargetMachine)
        ensures
            result.triple == triple,
            result.data_layout == data_layout,
    {
        TargetMachine { triple, data_layout }
    }

    /// The target triple.
    pub fn get_triple(&self) -> (result: &str)
        ensures
            result@ == self.triple@,
    {
        self.triple.as_str()
    }

    /// The data layout of the target.
    pub fn get_data_layout(&self) -> (result: &str)
        ensures
            result@ == self.data_layout@,
    {
        self.data_layout.as_str()
    }
}

} // verus!
