//! The types and the constants of the machine word.

use vstd::prelude::*;

use crate::Dependency;
use crate::abi::ABI_MEMORY_OFFSET_DATA;
use crate::abi::ABI_MEMORY_OFFSET_HEADER;
use crate::abi::ABI_MEMORY_OFFSET_LONG_RETURN;
use crate::abi::BITLENGTH_FIELD;
use crate::abi::SIZE_FIELD;
use crate::context::Context;
use crate::context::address_space::AddressSpace;
use crate::context::view::lemma_with_structure;
use crate::error::Error;
use crate::error::ErrorView;
use crate::ir::types::BasicTypeEnum;
use crate::ir::types::FunctionType;
use crate::ir::types::FunctionTypeView;
use crate::ir::types::IntType;
use crate::ir::types::Pointee;
use crate::ir::types::PointerType;
use crate::ir::types::StructType;
use crate::ir::types::VoidType;
use crate::ir::value::BasicValueEnum;
use crate::ir::value::IntValue;
use crate::ir::value::Source;
use crate::word::Word;
use crate::word::is_word_numeral;
use crate::word::numeral_value;
use crate::word::without_hex_prefix;

verus! {

/// The type of the machine word.
pub open spec fn field_type() -> IntType {
    IntType { bit_length: BITLENGTH_FIELD }
}

/// The constant of the type of the machine word with the given value.
pub open spec fn field_const(value: u64) -> IntValue {
    IntValue {
        ty: field_type(),
        source: Source::Constant(Word { limb3: 0, limb2: 0, limb1: 0, limb0: value }),
    }
}

/// Whether the text is a hexadecimal literal of a word, with or without the prefix `0x`.
pub open spec fn is_hex_literal(text: Seq<char>) -> bool {
    is_word_numeral(without_hex_prefix(text), 16)
}

/// The number that a hexadecimal literal denotes.
pub open spec fn hex_literal_value(text: Seq<char>) -> int {
    numeral_value(without_hex_prefix(text), 16)
}

/// The constant of the type of the machine word that holds the number `value`.
pub open spec fn field_word(value: int) -> IntValue {
    IntValue { ty: field_type(), source: Source::Constant(Word::of_value(value)) }
}

/// The constant that a name is hashed to: the Keccak-256 digest of its bytes, as a number.
pub open spec fn hash_constant(preimage: Seq<u8>) -> IntValue {
    field_word(crate::hash::keccak256_value(preimage))
}

/// The offset of the header in a foreign memory.
pub open spec fn header_offset() -> IntValue {
    field_const((ABI_MEMORY_OFFSET_HEADER * SIZE_FIELD) as u64)
}

/// The offset of the data in a foreign memory.
pub open spec fn data_offset() -> IntValue {
    field_const((ABI_MEMORY_OFFSET_DATA * SIZE_FIELD) as u64)
}

/// The offset of the long return flag in the heap.
pub open spec fn long_return_offset() -> IntValue {
    field_const((ABI_MEMORY_OFFSET_LONG_RETURN * SIZE_FIELD) as u64)
}

/// Whether `result` is what an answer of the dependency manager is read as: a failure is
/// handed on as it is; a hexadecimal literal of a word is the constant of that value; any
/// other text is refused by its name.
pub open spec fn reads_answer(
    answer: Result<String, Error>,
    result: Result<IntValue, Error>,
) -> bool {
    match answer {
        Ok(text) => if is_hex_literal(text@) {
            result == Ok::<IntValue, Error>(field_word(hex_literal_value(text@)))
        } else {
            result matches Err(error) && error@ == ErrorView::InvalidConstant(text@)
        },
        Err(error) => result == Err::<IntValue, Error>(error),
    }
}

/// Whether `result` is the value that an answer of the dependency manager stands for in the
/// IR: the constant that the answer is read as, or its failure.
pub open spec fn reads_answer_value(
    answer: Result<String, Error>,
    result: Result<Option<BasicValueEnum>, Error>,
) -> bool {
    match answer {
        Ok(text) => if is_hex_literal(text@) {
            result == Ok::<Option<BasicValueEnum>, Error>(
                Some(BasicValueEnum::IntValue(field_word(hex_literal_value(text@)))),
            )
        } else {
            result matches Err(error) && error@ == ErrorView::InvalidConstant(text@)
        },
        Err(error) => result == Err::<Option<BasicValueEnum>, Error>(error),
    }
}

impl<D: Dependency> Context<D> {
    /// Reads an answer of the dependency manager, a hash or an address, as a constant.
    pub fn field_const_answer(&self, answer: Result<String, Error>) -> (result: Result<
        IntValue,
        Error,
    >)
        ensures
            reads_answer(answer, result),
    {
        match answer {
            Ok(text) => self.field_const_str_checked(text.as_str()),
            Err(error) => Err(error),
        }
    }

    /// Reads an answer of the dependency manager, a hash or an address, as a value of the
    /// IR.
    pub fn field_const_answer_value(&self, answer: Result<String, Error>) -> (result: Result<
        Option<BasicValueEnum>,
        Error,
    >)
        ensures
            reads_answer_value(answer, result),
    {
        match self.field_const_answer(answer) {
            Ok(value) => Ok(Some(value.as_basic_value_enum())),
            Err(error) => Err(error),
        }
    }

    /// Returns a field type constant.
    pub fn field_const(&self, value: u64) -> (result: IntValue)
        ensures
            result == field_const(value),
    {
        self.field_type().const_int(value)
    }

    /// Returns the void type.
    pub fn void_type(&self) -> (result: VoidType)
    {
        VoidType {  }
    }

    /// Returns the integer type of the specified bitlength.
    pub fn integer_type(&self, bitlength: usize) -> (result: IntType)
        ensures
            result == (IntType { bit_length: bitlength }),
    {
        IntType { bit_length: bitlength }
    }

    /// Returns the default field type.
    pub fn field_type(&self) -> (result: IntType)
        ensures
            result == field_type(),
    {
        IntType { bit_length: BITLENGTH_FIELD }
    }

    /// Returns the structure type with specified fields.
    pub fn structure_type(&mut self, field_types: Vec<BasicTypeEnum>) -> (result: StructType)
        requires
            old(self)@.wf(),
        ensures
            final(self)@ == old(self)@.with_structure(field_types@),
            final(self)@.wf(),
            result == (StructType { index: old(self)@.module.structures.len() as usize }),
    {
        proof {
            lemma_with_structure(self@, field_types@);
        }
        self.module.add_structure(field_types)
    }

    /// Returns the function type for the specified parameters: a function of no return
    /// value returns nothing, one of one return value returns a word, and one of more
    /// returns them in a structure of as many words, through a pointer that is both its first
    /// parameter and its result.
    pub fn function_type(
        &mut self,
        return_values_length: usize,
        argument_types: Vec<BasicTypeEnum>,
    ) -> (result: FunctionType)
        requires
            old(self)@.wf(),
        ensures
            final(self)@.wf(),
            return_values_length == 0 ==> final(self)@ == old(self)@ && result@ == (
            FunctionTypeView { return_type: None, parameter_types: argument_types@ }),
            return_values_length == 1 ==> final(self)@ == old(self)@ && result@ == (
            FunctionTypeView {
                return_type: Some(BasicTypeEnum::IntType(field_type())),
                parameter_types: argument_types@,
            }),
            return_values_length >= 2 ==> final(self)@ == old(self)@.with_structure(
                Seq::new(return_values_length as nat, |i: int| BasicTypeEnum::IntType(field_type())),
            ) && result@ == ({
                let pointer = BasicTypeEnum::PointerType(
                    PointerType {
                        pointee: Pointee::Struct(
                            StructType { index: old(self)@.module.structures.len() as usize },
                        ),
                        address_space: AddressSpace::Stack,
                    },
                );
                FunctionTypeView {
                    return_type: Some(pointer),
                    parameter_types: seq![pointer] + argument_types@,
                }
            }),
    {
        if return_values_length == 0 {
            self.void_type().fn_type(argument_types)
        } else if return_values_length == 1 {
            self.field_type().fn_type(argument_types)
        } else {
            let mut argument_types = argument_types;
            let ghost arguments = argument_types@;
            let mut return_types: Vec<BasicTypeEnum> = Vec::new();
            let mut count: usize = 0;
            while count < return_values_length
                invariant
                    count <= return_values_length,
                    return_types@ == Seq::new(
                        count as nat,
                        |i: int| BasicTypeEnum::IntType(field_type()),
                    ),
                decreases return_values_length - count,
            {
                return_types.push(self.field_type().as_basic_type_enum());
                count += 1;
                assert(return_types@ =~= Seq::new(
                    count as nat,
                    |i: int| BasicTypeEnum::IntType(field_type()),
                ));
            }
            let return_type = self.structure_type(return_types).ptr_type(AddressSpace::Stack);
            argument_types.insert(0, return_type.as_basic_type_enum());
            assert(argument_types@ =~= seq![BasicTypeEnum::PointerType(return_type)] + arguments);
            return_type.fn_type(argument_types)
        }
    }

    /// Returns the offset of the long return flag in the heap.
    pub fn long_return_offset(&self) -> (result: IntValue)
        ensures
            result == long_return_offset(),
    {
        self.field_const((ABI_MEMORY_OFFSET_LONG_RETURN * SIZE_FIELD) as u64)
    }

    /// Returns a field type constant from a hexadecimal string, which may begin with `0x`.
    pub fn field_const_str(&self, value: &str) -> (result: IntValue)
        requires
            is_hex_literal(value@),
        ensures
            result == field_word(hex_literal_value(value@)),
    {
        match self.field_const_str_checked(value) {
            Ok(result) => result,
            Err(_) => vstd::pervasive::unreached(),
        }
    }

    /// Returns a field type constant from a hexadecimal string, which may begin with `0x`, or
    /// the error that says that the string is no such literal.
    pub fn field_const_str_checked(&self, value: &str) -> (result: Result<IntValue, Error>)
        ensures
            is_hex_literal(value@) ==> result == Ok::<IntValue, Error>(
                field_word(hex_literal_value(value@)),
            ),
            !is_hex_literal(value@) ==> (result matches Err(error) && error@
                == ErrorView::InvalidConstant(value@)),
    {
        match Word::from_hex(value) {
            Some(word) => Ok(self.field_type().const_word(word)),
            None => Err(Error::InvalidConstant(value.to_owned())),
        }
    }

    /// Returns a field type constant from a decimal string.
    pub fn field_const_str_dec(&self, value: &str) -> (result: IntValue)
        requires
            is_word_numeral(value@, 10),
        ensures
            result == field_word(numeral_value(value@, 10)),
    {
        match Word::from_dec(value) {
            Some(word) => self.field_type().const_word(word),
            None => vstd::pervasive::unreached(),
        }
    }

    /// Returns a field type constant from a hexadecimal string, which may begin with `0x`.
    pub fn field_const_str_hex(&self, value: &str) -> (result: IntValue)
        requires
            is_hex_literal(value@),
        ensures
            result == field_word(hex_literal_value(value@)),
    {
        match Word::from_hex(value) {
            Some(word) => self.field_type().const_word(word),
            None => vstd::pervasive::unreached(),
        }
    }
}

} // verus!
