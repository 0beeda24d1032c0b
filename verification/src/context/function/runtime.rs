//! The functions of the runtime that every module declares.

use vstd::prelude::*;

use crate::abi::BITLENGTH_BYTE;
use crate::abi::BITLENGTH_X32;
use crate::abi::LLVM_FUNCTION_CXA_THROW;
use crate::abi::LLVM_FUNCTION_PERSONALITY;
use crate::context::address_space::AddressSpace;
use crate::ir::module::Linkage;
use crate::ir::module::Module;
use crate::ir::module::ModuleFunctionView;
use crate::ir::module::ModuleView;
use crate::ir::types::BasicTypeEnum;
use crate::ir::types::FunctionTypeView;
use crate::ir::types::IntType;
use crate::ir::types::Pointee;
use crate::ir::types::PointerType;
use crate::ir::value::FunctionValue;

verus! {

/// The functions of the runtime.
#[derive(Debug, Clone, Copy, PartialEq, Eq, Structural, Hash)]
pub struct Runtime {
    /// The personality function, which the landing pads name.
    pub personality: FunctionValue,
    /// The low-level throw primitive.
    pub cxa_throw: FunctionValue,
}

/// The type of the pointers to bytes on the stack.
pub open spec fn byte_pointer() -> PointerType {
    PointerType {
        pointee: Pointee::Int(IntType { bit_length: BITLENGTH_BYTE }),
        address_space: AddressSpace::Stack,
    }
}

impl Runtime {
    /// The declaration of the personality function: it takes nothing and returns a 32-bit
    /// number.
    pub open spec fn personality_declaration() -> ModuleFunctionView {
        ModuleFunctionView::declaration(
            LLVM_FUNCTION_PERSONALITY@,
            FunctionTypeView {
                return_type: Some(BasicTypeEnum::IntType(IntType { bit_length: BITLENGTH_X32 })),
                parameter_types: seq![],
            },
            None,
        )
    }

    /// The declaration of the throw primitive: it takes three pointers to bytes and returns
    /// nothing.
    pub open spec fn cxa_throw_declaration() -> ModuleFunctionView {
        ModuleFunctionView::declaration(
            LLVM_FUNCTION_CXA_THROW@,
            FunctionTypeView {
                return_type: None,
                parameter_types: seq![
                    BasicTypeEnum::PointerType(byte_pointer()),
                    BasicTypeEnum::PointerType(byte_pointer()),
                    BasicTypeEnum::PointerType(byte_pointer()),
                ],
            },
            Some(Linkage::External),
        )
    }

    /// The module with the functions of the runtime declared at its end.
    pub open spec fn declared(module: ModuleView) -> ModuleView {
        module.with_function(Runtime::personality_declaration()).with_function(
            Runtime::cxa_throw_declaration(),
        )
    }

    /// Declares the functions of the runtime in the module.
    pub fn new(module: &mut Module) -> (result: Runtime)
        ensures
            final(module)@ == Runtime::declared(old(module)@),
            result == (Runtime {
                personality: FunctionValue::Declared {
                    index: old(module)@.functions.len() as usize,
                },
                cxa_throw: FunctionValue::Declared {
                    index: (old(module)@.functions.len() + 1) as usize,
                },
            }),
    {
        let personality = module.add_function(
            LLVM_FUNCTION_PERSONALITY,
            IntType { bit_length: BITLENGTH_X32 }.fn_type(Vec::new()),
            None,
        );
        let byte_pointer = IntType { bit_length: BITLENGTH_BYTE }.ptr_type(
            AddressSpace::Stack,
        ).as_basic_type_enum();
        let parameter_types = vec![byte_pointer, byte_pointer, byte_pointer];
        let ghost parameters = parameter_types@;
        let cxa_throw = module.add_function(
            LLVM_FUNCTION_CXA_THROW,
            crate::ir::types::VoidType {}.fn_type(parameter_types),
            Some(Linkage::External),
        );
        proof {
            assert(parameters =~= Runtime::cxa_throw_declaration().ty.parameter_types);
            assert(Seq::<BasicTypeEnum>::empty() =~= seq![]);
        }
        Runtime { personality, cxa_throw }
    }
}

} // verus!
