//! The address spaces of the target machine.

use vstd::prelude::*;

use crate::abi::SIZE_FIELD;

verus! {

/// A logical memory region, with its own addressing rules.
#[derive(Debug, Clone, Copy, PartialEq, Eq, Structural, Hash)]
pub enum AddressSpace {
    /// The local stack, which is addressed by words.
    Stack,
    /// The heap of the running contract, which is addressed by bytes.
    Heap,
    /// The memory shared with the caller, which is addressed by bytes.
    Parent,
    /// The memory shared with the callee, which is addressed by bytes.
    Child,
}

impl AddressSpace {
    /// The alignment in bytes of every load and store in the address space: the size of a
    /// word on the stack, and one byte in the heap and in the memories shared with the caller
    /// and the callee.
    pub open spec fn spec_alignment(self) -> u32 {
        match self {
            AddressSpace::Stack => SIZE_FIELD as u32,
            AddressSpace::Heap => 1,
            AddressSpace::Parent => 1,
            AddressSpace::Child => 1,
        }
    }

    /// The alignment in bytes of every load and store in the address space.
    #[verifier::when_used_as_spec(spec_alignment)]
    pub fn alignment(self) -> (result: u32)
        ensures
            result == self.spec_alignment(),
    {
        match self {
            AddressSpace::Stack => SIZE_FIELD as u32,
            AddressSpace::Heap => 1,
            AddressSpace::Parent => 1,
            AddressSpace::Child => 1,
        }
    }

    /// The number of the address space in the IR.
    pub open spec fn spec_number(self) -> u16 {
        match self {
            AddressSpace::Stack => 0,
            AddressSpace::Heap => 1,
            AddressSpace::Parent => 2,
            AddressSpace::Child => 3,
        }
    }

    /// The number of the address space in the IR.
    #[verifier::when_used_as_spec(spec_number)]
    pub fn number(self) -> (result: u16)
        ensures
            result == self.spec_number(),
    {
        match self {
            AddressSpace::Stack => 0,
            AddressSpace::Heap => 1,
            AddressSpace::Parent => 2,
            AddressSpace::Child => 3,
        }
    }
}

} // verus!
