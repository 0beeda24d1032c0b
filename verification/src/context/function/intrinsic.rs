//! The operations of the target machine that the IR calls as functions.

use vstd::prelude::*;

use crate::abi::BITLENGTH_BOOLEAN;
use crate::abi::BITLENGTH_FIELD;
use crate::context::address_space::AddressSpace;
use crate::ir::types::BasicTypeEnum;
use crate::ir::types::IntType;
use crate::ir::types::Pointee;
use crate::ir::types::PointerType;

verus! {

/// An operation of the target machine.
#[derive(Debug, Clone, Copy, PartialEq, Eq, Structural, Hash)]
pub enum Intrinsic {
    /// The contract storage load.
    StorageLoad,
    /// The contract storage store.
    StorageStore,
    /// The call of another contract.
    FarCall,
    /// The call of another contract that may not change the state.
    StaticCall,
    /// The switch to the context of the callee.
    SwitchContext,
    /// The copy within the heap.
    MemoryCopy,
    /// The copy from the memory shared with the caller into the heap.
    MemoryCopyFromParent,
    /// The copy from the heap into the memory shared with the caller.
    MemoryCopyToParent,
    /// The copy from the memory shared with the callee into the heap.
    MemoryCopyFromChild,
    /// The copy from the heap into the memory shared with the callee.
    MemoryCopyToChild,
    /// The read of a value of the execution context.
    GetFromContext,
}

/// The type of the machine word.
pub open spec fn field() -> BasicTypeEnum {
    BasicTypeEnum::IntType(IntType { bit_length: BITLENGTH_FIELD })
}

/// The type of the pointers to machine words in the given address space.
pub open spec fn field_pointer(address_space: AddressSpace) -> BasicTypeEnum {
    BasicTypeEnum::PointerType(
        PointerType { pointee: Pointee::Int(IntType { bit_length: BITLENGTH_FIELD }), address_space },
    )
}

impl Intrinsic {
    /// Whether the operation is one of the memory copies.
    pub open spec fn is_memory_copy(self) -> bool {
        self is MemoryCopy || self is MemoryCopyFromParent || self is MemoryCopyToParent
            || self is MemoryCopyFromChild || self is MemoryCopyToChild
    }

    /// The address space that a memory copy writes to.
    pub open spec fn spec_destination(self) -> AddressSpace {
        match self {
            Intrinsic::MemoryCopyToParent => AddressSpace::Parent,
            Intrinsic::MemoryCopyToChild => AddressSpace::Child,
            _ => AddressSpace::Heap,
        }
    }

    /// The address space that a memory copy reads from.
    pub open spec fn spec_source(self) -> AddressSpace {
        match self {
            Intrinsic::MemoryCopyFromParent => AddressSpace::Parent,
            Intrinsic::MemoryCopyFromChild => AddressSpace::Child,
            _ => AddressSpace::Heap,
        }
    }

    /// The name of the operation in the IR.
    pub fn name(&self) -> (result: &'static str)
        ensures
            result@ == match *self {
                Intrinsic::StorageLoad => "llvm.syncvm.sload"@,
                Intrinsic::StorageStore => "llvm.syncvm.sstore"@,
                Intrinsic::FarCall => "llvm.syncvm.farcall"@,
                Intrinsic::StaticCall => "llvm.syncvm.staticcall"@,
                Intrinsic::SwitchContext => "llvm.syncvm.switchcontext"@,
                Intrinsic::GetFromContext => "llvm.syncvm.getfromcontext"@,
                _ => "llvm.memcpy"@,
            },
    {
        match self {
            Intrinsic::StorageLoad => "llvm.syncvm.sload",
            Intrinsic::StorageStore => "llvm.syncvm.sstore",
            Intrinsic::FarCall => "llvm.syncvm.farcall",
            Intrinsic::StaticCall => "llvm.syncvm.staticcall",
            Intrinsic::SwitchContext => "llvm.syncvm.switchcontext",
            Intrinsic::GetFromContext => "llvm.syncvm.getfromcontext",
            _ => "llvm.memcpy",
        }
    }

    /// The types that select the variant of an operation that has several: for a memory
    /// copy the destination pointer, the source pointer and the size; for the others none.
    pub open spec fn spec_argument_types(self) -> Seq<BasicTypeEnum> {
        if self.is_memory_copy() {
            seq![
                field_pointer(self.spec_destination()),
                field_pointer(self.spec_source()),
                field(),
            ]
        } else {
            seq![]
        }
    }

    /// The types of the parameters of the operation.
    pub open spec fn spec_parameter_types(self) -> Seq<BasicTypeEnum> {
        match self {
            Intrinsic::StorageLoad => seq![field(), field()],
            Intrinsic::StorageStore => seq![field(), field(), field()],
            Intrinsic::FarCall => seq![field()],
            Intrinsic::StaticCall => seq![field()],
            Intrinsic::SwitchContext => seq![],
            Intrinsic::GetFromContext => seq![field()],
            _ => seq![
                field_pointer(self.spec_destination()),
                field_pointer(self.spec_source()),
                field(),
                BasicTypeEnum::IntType(IntType { bit_length: BITLENGTH_BOOLEAN }),
            ],
        }
    }

    /// The type that the operation returns, unless it returns nothing.
    pub open spec fn spec_return_type(self) -> Option<BasicTypeEnum> {
        match self {
            Intrinsic::StorageLoad => Some(field()),
            Intrinsic::FarCall => Some(field()),
            Intrinsic::StaticCall => Some(field()),
            Intrinsic::GetFromContext => Some(field()),
            _ => None,
        }
    }

    /// The address space that a memory copy writes to.
    #[verifier::when_used_as_spec(spec_destination)]
    pub fn destination(self) -> (result: AddressSpace)
        ensures
            result == self.spec_destination(),
    {
        match self {
            Intrinsic::MemoryCopyToParent => AddressSpace::Parent,
            Intrinsic::MemoryCopyToChild => AddressSpace::Child,
            _ => AddressSpace::Heap,
        }
    }

    /// The address space that a memory copy reads from.
    #[verifier::when_used_as_spec(spec_source)]
    pub fn source(self) -> (result: AddressSpace)
        ensures
            result == self.spec_source(),
    {
        match self {
            Intrinsic::MemoryCopyFromParent => AddressSpace::Parent,
            Intrinsic::MemoryCopyFromChild => AddressSpace::Child,
            _ => AddressSpace::Heap,
        }
    }

    /// The types that select the variant of an operation that has several.
    pub fn argument_types(&self) -> (result: Vec<BasicTypeEnum>)
        ensures
            result@ == self.spec_argument_types(),
    {
        let word = IntType { bit_length: BITLENGTH_FIELD };
        let result = match self {
            Intrinsic::MemoryCopy
            | Intrinsic::MemoryCopyFromParent
            | Intrinsic::MemoryCopyToParent
            | Intrinsic::MemoryCopyFromChild
            | Intrinsic::MemoryCopyToChild => vec![
                word.ptr_type(self.destination()).as_basic_type_enum(),
                word.ptr_type(self.source()).as_basic_type_enum(),
                word.as_basic_type_enum(),
            ],
            _ => Vec::new(),
        };
        assert(result@ =~= self.spec_argument_types());
        result
    }

    /// The types of the parameters of the operation.
    pub fn parameter_types(&self) -> (result: Vec<BasicTypeEnum>)
        ensures
            result@ == self.spec_parameter_types(),
    {
        let word = IntType { bit_length: BITLENGTH_FIELD }.as_basic_type_enum();
        let result = match self {
            Intrinsic::StorageLoad => vec![word, word],
            Intrinsic::StorageStore => vec![word, word, word],
            Intrinsic::FarCall => vec![word],
            Intrinsic::StaticCall => vec![word],
            Intrinsic::SwitchContext => Vec::new(),
            Intrinsic::GetFromContext => vec![word],
            _ => vec![
                IntType { bit_length: BITLENGTH_FIELD }.ptr_type(
                    self.destination(),
                ).as_basic_type_enum(),
                IntType { bit_length: BITLENGTH_FIELD }.ptr_type(self.source()).as_basic_type_enum(),
                word,
                IntType { bit_length: BITLENGTH_BOOLEAN }.as_basic_type_enum(),
            ],
        };
        assert(result@ =~= self.spec_parameter_types());
        result
    }

    /// The type that the operation returns, unless it returns nothing.
    #[verifier::when_used_as_spec(spec_return_type)]
    pub fn return_type(self) -> (result: Option<BasicTypeEnum>)
        ensures
            result == self.spec_return_type(),
    {
        let word = IntType { bit_length: BITLENGTH_FIELD }.as_basic_type_enum();
        match self {
            Intrinsic::StorageLoad => Some(word),
            Intrinsic::FarCall => Some(word),
            Intrinsic::StaticCall => Some(word),
            Intrinsic::GetFromContext => Some(word),
            _ => None,
        }
    }
}

} // verus!
