//! The constants of the target's binary interface: widths, the layout of the foreign
//! memories, reserved addresses and names.

use vstd::prelude::*;

use crate::word::digit_value;
use crate::word::is_word_numeral;
use crate::word::without_hex_prefix;

verus! {

/// The bit length of a boolean.
pub const BITLENGTH_BOOLEAN: usize = 1;

/// The bit length of a byte.
pub const BITLENGTH_BYTE: usize = 8;

/// The bit length of a 32-bit number.
pub const BITLENGTH_X32: usize = 32;

/// The bit length of the machine word, the field.
pub const BITLENGTH_FIELD: usize = 256;

/// The size of a 32-bit number in bytes.
pub const SIZE_X32: usize = 4;

/// The size of the machine word in bytes.
pub const SIZE_FIELD: usize = 32;

/// The word of a foreign memory that holds the length of its data.
pub const ABI_MEMORY_OFFSET_HEADER: usize = 0;

/// The word of a foreign memory at which its data begins.
pub const ABI_MEMORY_OFFSET_DATA: usize = 1;

/// The word of the heap that holds the long return flag.
pub const ABI_MEMORY_OFFSET_LONG_RETURN: usize = 2;

/// The address of the identity precompile.
pub const ABI_ADDRESS_IDENTITY: &'static str = "0000000000000000000000000000000000000004";

/// The address of the precompile that computes the address of a contract to deploy.
pub const ABI_ADDRESS_CREATE: &'static str = "0000000000000000000000000000000000008006";

/// The address of the `keccak256` precompile.
pub const ABI_ADDRESS_KECCAK256: &'static str = "0000000000000000000000000000000000008010";

/// The name of the storage slot that tells whether the constructor has been executed.
pub const ABI_STORAGE_IS_CONSTRUCTOR_EXECUTED: &'static str = "IS_CONSTRUCTOR_EXECUTED";

/// The name of the storage slot that counts the contracts deployed by this one.
pub const ABI_STORAGE_DEPLOYED_CONTRACTS_COUNTER: &'static str = "DEPLOYED_CONTRACTS_COUNTER";

/// The message of the error raised by a call that transfers value.
pub const ABI_ERROR_FORBIDDEN_SEND_TRANSFER: &'static str = "Forbidden: send/transfer";

/// The name of the contract entry function.
pub const LLVM_FUNCTION_ENTRY: &'static str = "__entry";

/// The name of the constructor function.
pub const LLVM_FUNCTION_CONSTRUCTOR: &'static str = "__constructor";

/// The name of the selector function.
pub const LLVM_FUNCTION_SELECTOR: &'static str = "__selector";

/// The name of the personality function.
pub const LLVM_FUNCTION_PERSONALITY: &'static str = "__personality";

/// The name of the low-level throw primitive.
pub const LLVM_FUNCTION_CXA_THROW: &'static str = "__cxa_throw";

/// A value of the execution context that the running contract can read.
#[derive(Debug, Clone, Copy, PartialEq, Eq, Structural, Hash)]
pub enum ContextValue {
    /// The address of the caller.
    MessageSender,
    /// The number of the current block.
    BlockNumber,
    /// The timestamp of the current block.
    BlockTimestamp,
    /// The gas that is left.
    GasLeft,
}

impl ContextValue {
    /// The number by which the target machine knows the value.
    pub open spec fn spec_number(self) -> u64 {
        match self {
            ContextValue::MessageSender => 0,
            ContextValue::BlockNumber => 1,
            ContextValue::BlockTimestamp => 2,
            ContextValue::GasLeft => 3,
        }
    }

    /// The number by which the target machine knows the value.
    #[verifier::when_used_as_spec(spec_number)]
    pub fn number(self) -> (result: u64)
        ensures
            result == self.spec_number(),
    {
        match self {
            ContextValue::MessageSender => 0,
            ContextValue::BlockNumber => 1,
            ContextValue::BlockTimestamp => 2,
            ContextValue::GasLeft => 3,
        }
    }
}

/// The literal of the flag that a constructor call carries in the header of the child
/// memory.
pub const ABI_HEADER_CONSTRUCTOR_FLAG: &'static str = "00000000000000010000000000000000";

/// Whether every one of the 40 characters of `text` is `0`, `4`, `6`, `8` or `1`.
spec fn is_address_text(text: Seq<char>) -> bool {
    &&& text.len() == 40
    &&& forall|i: int|
        0 <= i < 40 ==> #[trigger] text[i] == '0' || text[i] == '1' || text[i] == '4' || text[i]
            == '6' || text[i] == '8'
}

/// A run of 40 of the digits `0`, `1`, `4`, `6` and `8` is the literal of a word.
proof fn lemma_address_text(text: Seq<char>)
    requires
        is_address_text(text),
    ensures
        without_hex_prefix(text) == text,
        is_word_numeral(text, 16),
{
    assert forall|i: int| 0 <= i < text.len() implies (#[trigger] digit_value(text[i], 16))
        is Some by {
        assert(text[i] == '0' || text[i] == '1' || text[i] == '4' || text[i] == '6' || text[i]
            == '8');
    }
    crate::word::lemma_plain_hex_literal(text);
}

/// The reserved addresses and the constructor flag are hexadecimal literals of words,
/// without a prefix.
pub proof fn lemma_literals()
    ensures
        without_hex_prefix(ABI_ADDRESS_IDENTITY@) == ABI_ADDRESS_IDENTITY@,
        is_word_numeral(ABI_ADDRESS_IDENTITY@, 16),
        without_hex_prefix(ABI_ADDRESS_CREATE@) == ABI_ADDRESS_CREATE@,
        is_word_numeral(ABI_ADDRESS_CREATE@, 16),
        without_hex_prefix(ABI_ADDRESS_KECCAK256@) == ABI_ADDRESS_KECCAK256@,
        is_word_numeral(ABI_ADDRESS_KECCAK256@, 16),
        without_hex_prefix(ABI_HEADER_CONSTRUCTOR_FLAG@) == ABI_HEADER_CONSTRUCTOR_FLAG@,
        is_word_numeral(ABI_HEADER_CONSTRUCTOR_FLAG@, 16),
{
    reveal_strlit("0000000000000000000000000000000000000004");
    reveal_strlit("0000000000000000000000000000000000008006");
    reveal_strlit("0000000000000000000000000000000000008010");
    reveal_strlit("00000000000000010000000000000000");
    assert(is_address_text(ABI_ADDRESS_IDENTITY@));
    assert(is_address_text(ABI_ADDRESS_CREATE@));
    assert(is_address_text(ABI_ADDRESS_KECCAK256@));
    lemma_address_text(ABI_ADDRESS_IDENTITY@);
    lemma_address_text(ABI_ADDRESS_CREATE@);
    lemma_address_text(ABI_ADDRESS_KECCAK256@);
    let flag = ABI_HEADER_CONSTRUCTOR_FLAG@;
    assert forall|i: int| 0 <= i < flag.len() implies (#[trigger] digit_value(flag[i], 16))
        is Some by {
        assert(flag[i] == '0' || flag[i] == '1');
    }
    crate::word::lemma_plain_hex_literal(flag);
}

} // verus!
