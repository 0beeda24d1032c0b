//! The types of the IR.

use vstd::prelude::*;

use crate::context::address_space::AddressSpace;
use crate::ir::value::IntValue;
use crate::ir::value::PointerValue;
use crate::ir::value::Source;
use crate::word::Word;

verus! {

/// The type without values, which a function that returns nothing returns.
#[derive(Debug, Clone, Copy, PartialEq, Eq, Structural, Hash)]
pub struct VoidType {}

/// An integer type of the given width.
#[derive(Debug, Clone, Copy, PartialEq, Eq, Structural, Hash)]
pub struct IntType {
    /// The width in bits.
    pub bit_length: usize,
}

/// A structure type, named by its place among the structure types of the module.
#[derive(Debug, Clone, Copy, PartialEq, Eq, Structural, Hash)]
pub struct StructType {
    /// The place of the fields in the module's list of structure types.
    pub index: usize,
}

/// What a pointer points to.
#[derive(Debug, Clone, Copy, PartialEq, Eq, Structural, Hash)]
pub enum Pointee {
    /// An integer.
    Int(IntType),
    /// A structure.
    Struct(StructType),
}

/// A pointer type: what it points to, and in which address space.
#[derive(Debug, Clone, Copy, PartialEq, Eq, Structural, Hash)]
pub struct PointerType {
    /// The type pointed to.
    pub pointee: Pointee,
    /// The address space pointed into.
    pub address_space: AddressSpace,
}

/// A type that a value can have.
#[derive(Debug, Clone, Copy, PartialEq, Eq, Structural, Hash)]
pub enum BasicTypeEnum {
    /// An integer type.
    IntType(IntType),
    /// A pointer type.
    PointerType(PointerType),
    /// A structure type.
    StructType(StructType),
}

/// A function type.
#[derive(Debug, Clone, PartialEq, Eq)]
pub struct FunctionType {
    /// The type returned, unless the function returns nothing.
    pub return_type: Option<BasicTypeEnum>,
    /// The types of the parameters.
    pub parameter_types: Vec<BasicTypeEnum>,
}

/// A function type as a mathematical value.
pub struct FunctionTypeView {
    /// The type returned, unless the function returns nothing.
    pub return_type: Option<BasicTypeEnum>,
    /// The types of the parameters.
    pub parameter_types: Seq<BasicTypeEnum>,
}

impl View for FunctionType {
    type V = FunctionTypeView;

    open spec fn view(&self) -> FunctionTypeView {
        FunctionTypeView { return_type: self.return_type, parameter_types: self.parameter_types@ }
    }
}

impl BasicTypeEnum {
    /// Whether the type is a pointer type.
    pub open spec fn spec_is_pointer_type(self) -> bool {
        self is PointerType
    }

    /// Whether the type is a pointer type.
    #[verifier::when_used_as_spec(spec_is_pointer_type)]
    pub fn is_pointer_type(self) -> (result: bool)
        ensures
            result == self.spec_is_pointer_type(),
    {
        match self {
            BasicTypeEnum::PointerType(_) => true,
            _ => false,
        }
    }
}

impl VoidType {
    /// The type of the functions that take `parameter_types` and return nothing.
    pub fn fn_type(self, parameter_types: Vec<BasicTypeEnum>) -> (result: FunctionType)
        ensures
            result@ == (FunctionTypeView { return_type: None, parameter_types: parameter_types@ }),
    {
        FunctionType { return_type: None, parameter_types }
    }
}

impl IntType {
    /// The type as a type of values.
    pub fn as_basic_type_enum(self) -> (result: BasicTypeEnum)
        ensures
            result == BasicTypeEnum::IntType(self),
    {
        BasicTypeEnum::IntType(self)
    }

    /// The type of the pointers to this type in the given address space.
    pub fn ptr_type(self, address_space: AddressSpace) -> (result: PointerType)
        ensures
            result == (PointerType { pointee: Pointee::Int(self), address_space }),
    {
        PointerType { pointee: Pointee::Int(self), address_space }
    }

    /// The constant of this type with the given value.
    pub fn const_int(self, value: u64) -> (result: IntValue)
        ensures
            result == (IntValue {
                ty: self,
                source: Source::Constant(Word { limb3: 0, limb2: 0, limb1: 0, limb0: value }),
            }),
    {
        IntValue { ty: self, source: Source::Constant(Word::from_u64(value)) }
    }

    /// The constant of this type that holds the given word.
    pub fn const_word(self, value: Word) -> (result: IntValue)
        ensures
            result == (IntValue { ty: self, source: Source::Constant(value) }),
    {
        IntValue { ty: self, source: Source::Constant(value) }
    }

    /// The zero of this type.
    pub fn const_zero(self) -> (result: IntValue)
        ensures
            result == (IntValue {
                ty: self,
                source: Source::Constant(Word { limb3: 0, limb2: 0, limb1: 0, limb0: 0 }),
            }),
    {
        self.const_int(0)
    }

    /// The type of the functions that take `parameter_types` and return this type.
    pub fn fn_type(self, parameter_types: Vec<BasicTypeEnum>) -> (result: FunctionType)
        ensures
            result@ == (FunctionTypeView {
                return_type: Some(BasicTypeEnum::IntType(self)),
                parameter_types: parameter_types@,
            }),
    {
        FunctionType { return_type: Some(BasicTypeEnum::IntType(self)), parameter_types }
    }
}

impl StructType {
    /// The type as a type of values.
    pub fn as_basic_type_enum(self) -> (result: BasicTypeEnum)
        ensures
            result == BasicTypeEnum::StructType(self),
    {
        BasicTypeEnum::StructType(self)
    }

    /// The type of the pointers to this type in the given address space.
    pub fn ptr_type(self, address_space: AddressSpace) -> (result: PointerType)
        ensures
            result == (PointerType { pointee: Pointee::Struct(self), address_space }),
    {
        PointerType { pointee: Pointee::Struct(self), address_space }
    }
}

impl PointerType {
    /// The type as a type of values.
    pub fn as_basic_type_enum(self) -> (result: BasicTypeEnum)
        ensures
            result == BasicTypeEnum::PointerType(self),
    {
        BasicTypeEnum::PointerType(self)
    }

    /// The null pointer of this type.
    pub fn const_null(self) -> (result: PointerValue)
        ensures
            result == (PointerValue { ty: self, source: Source::Null }),
    {
        PointerValue { ty: self, source: Source::Null }
    }

    /// The zero of this type, which is the null pointer.
    pub fn const_zero(self) -> (result: PointerValue)
        ensures
            result == (PointerValue { ty: self, source: Source::Null }),
    {
        PointerValue { ty: self, source: Source::Null }
    }

    /// The type of the functions that take `parameter_types` and return this type.
    pub fn fn_type(self, parameter_types: Vec<BasicTypeEnum>) -> (result: FunctionType)
        ensures
            result@ == (FunctionTypeView {
                return_type: Some(BasicTypeEnum::PointerType(self)),
                parameter_types: parameter_types@,
            }),
    {
        FunctionType { return_type: Some(BasicTypeEnum::PointerType(self)), parameter_types }
    }

    /// The type that a load through a pointer of this type gives.
    pub open spec fn spec_element_type(self) -> BasicTypeEnum {
        match self.pointee {
            Pointee::Int(ty) => BasicTypeEnum::IntType(ty),
            Pointee::Struct(ty) => BasicTypeEnum::StructType(ty),
        }
    }

    /// The type that a load through a pointer of this type gives.
    #[verifier::when_used_as_spec(spec_element_type)]
    pub fn element_type(self) -> (result: BasicTypeEnum)
        ensures
            result == self.spec_element_type(),
    {
        match self.pointee {
            Pointee::Int(ty) => BasicTypeEnum::IntType(ty),
            Pointee::Struct(ty) => BasicTypeEnum::StructType(ty),
        }
    }
}

} // verus!
