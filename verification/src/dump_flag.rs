//! The intermediate representation dump flags.

use vstd::prelude::*;

verus! {

/// The intermediate representation dump flags.
#[allow(non_camel_case_types)]
#[allow(clippy::upper_case_acronyms)]
#[derive(Debug, Clone, Copy, PartialEq, Eq, Structural, Hash)]
pub enum DumpFlag {
    /// Whether to dump the Yul code.
    Yul,
    /// Whether to dump the Ethereal IR code.
    EthIR,
    /// Whether to dump the EVM code.
    EVM,
    /// Whether to dump the LLVM IR code.
    LLVM,
    /// Whether to dump the assembly code.
    Assembly,
    /// Whether to dump the Vyper LLL IR code.
    LLL,
}

impl DumpFlag {
    /// The flags that are set, in the order Yul, EthIR, EVM, LLVM, assembly, LLL.
    pub open spec fn selected(
        yul: bool,
        ethir: bool,
        evm: bool,
        llvm: bool,
        assembly: bool,
        lll: bool,
    ) -> Seq<DumpFlag> {
        (if yul {
            seq![DumpFlag::Yul]
        } else {
            seq![]
        }) + (if ethir {
            seq![DumpFlag::EthIR]
        } else {
            seq![]
        }) + (if evm {
            seq![DumpFlag::EVM]
        } else {
            seq![]
        }) + (if llvm {
            seq![DumpFlag::LLVM]
        } else {
            seq![]
        }) + (if assembly {
            seq![DumpFlag::Assembly]
        } else {
            seq![]
        }) + (if lll {
            seq![DumpFlag::LLL]
        } else {
            seq![]
        })
    }

    /// A shortcut constructor for vector.
    pub fn initialize(yul: bool, ethir: bool, evm: bool, llvm: bool, assembly: bool, lll: bool) -> (result:
        Vec<Self>)
        ensures
            result@ == DumpFlag::selected(yul, ethir, evm, llvm, assembly, lll),
    {
        let mut vector = Vec::with_capacity(6);
        if yul {
            vector.push(Self::Yul);
        }
        if ethir {
            vector.push(Self::EthIR);
        }
        if evm {
            vector.push(Self::EVM);
        }
        if llvm {
            vector.push(Self::LLVM);
        }
        if assembly {
            vector.push(Self::Assembly);
        }
        if lll {
            vector.push(Self::LLL);
        }
        assert(vector@ =~= DumpFlag::selected(yul, ethir, evm, llvm, assembly, lll));
        vector
    }
}

} // verus!
