//! The Keccak-256 hash, in the lower-case hexadecimal form in which storage keys and error
//! codes are derived from names.

use sha3::Digest;
use vstd::prelude::*;
use vstd::string::StringExecFns;

use crate::word::digit_value;
use crate::word::is_numeral;
use crate::word::numeral_value;
use crate::word::without_hex_prefix;
use crate::word::word_modulus;

verus! {

/// The Keccak-256 digest of a byte string.
pub uninterp spec fn keccak256_digest(preimage: Seq<u8>) -> Seq<u8>;

/// Calls `sha3::Keccak256::digest` (the `Digest` trait's one-shot function) on the bytes. The
/// result is the Keccak-256 digest of the input, which is 32 bytes long: the hasher's output
/// size is fixed at 32.
#[verifier::external_body]
fn digest(preimage: &[u8]) -> (result: Vec<u8>)
    ensures
        result@ == keccak256_digest(preimage@),
        result@.len() == 32,
{
    sha3::Keccak256::digest(preimage).to_vec()
}

/// The lower-case hexadecimal digit for a number below 16.
pub open spec fn hex_character(nibble: int) -> char {
    if nibble == 0 {
        '0'
    } else if nibble == 1 {
        '1'
    } else if nibble == 2 {
        '2'
    } else if nibble == 3 {
        '3'
    } else if nibble == 4 {
        '4'
    } else if nibble == 5 {
        '5'
    } else if nibble == 6 {
        '6'
    } else if nibble == 7 {
        '7'
    } else if nibble == 8 {
        '8'
    } else if nibble == 9 {
        '9'
    } else if nibble == 10 {
        'a'
    } else if nibble == 11 {
        'b'
    } else if nibble == 12 {
        'c'
    } else if nibble == 13 {
        'd'
    } else if nibble == 14 {
        'e'
    } else {
        'f'
    }
}

/// The lower-case hexadecimal form of a byte string: two digits for each byte, the high
/// half first.
pub open spec fn hex_encode(bytes: Seq<u8>) -> Seq<char> {
    Seq::new(
        2 * bytes.len(),
        |i: int|
            if i % 2 == 0 {
                hex_character(bytes[i / 2] as int / 16)
            } else {
                hex_character(bytes[i / 2] as int % 16)
            },
    )
}

/// The number that a byte string denotes, most significant byte first.
pub open spec fn big_endian_value(bytes: Seq<u8>) -> int
    decreases bytes.len(),
{
    if bytes.len() == 0 {
        0
    } else {
        big_endian_value(bytes.drop_last()) * 256 + bytes.last() as int
    }
}

/// The number that the Keccak-256 digest of a byte string denotes, most significant byte
/// first.
pub open spec fn keccak256_value(preimage: Seq<u8>) -> int {
    big_endian_value(keccak256_digest(preimage))
}

/// The number that the first four bytes of the Keccak-256 digest of a byte string denote,
/// most significant byte first.
pub open spec fn keccak256_selector(preimage: Seq<u8>) -> int {
    keccak256_value(preimage) / 0x1_0000_0000_0000_0000_0000_0000_0000_0000_0000_0000_0000_0000_0000_0000int
}

/// The one-character text of a hexadecimal digit.
fn hex_digit_text(nibble: u8) -> (result: &'static str)
    requires
        nibble < 16,
    ensures
        result@ == seq![hex_character(nibble as int)],
{
    proof {
        reveal_strlit("0");
        reveal_strlit("1");
        reveal_strlit("2");
        reveal_strlit("3");
        reveal_strlit("4");
        reveal_strlit("5");
        reveal_strlit("6");
        reveal_strlit("7");
        reveal_strlit("8");
        reveal_strlit("9");
        reveal_strlit("a");
        reveal_strlit("b");
        reveal_strlit("c");
        reveal_strlit("d");
        reveal_strlit("e");
        reveal_strlit("f");
    }
    let text = if nibble == 0 {
        "0"
    } else if nibble == 1 {
        "1"
    } else if nibble == 2 {
        "2"
    } else if nibble == 3 {
        "3"
    } else if nibble == 4 {
        "4"
    } else if nibble == 5 {
        "5"
    } else if nibble == 6 {
        "6"
    } else if nibble == 7 {
        "7"
    } else if nibble == 8 {
        "8"
    } else if nibble == 9 {
        "9"
    } else if nibble == 10 {
        "a"
    } else if nibble == 11 {
        "b"
    } else if nibble == 12 {
        "c"
    } else if nibble == 13 {
        "d"
    } else if nibble == 14 {
        "e"
    } else {
        "f"
    };
    assert(text@ =~= seq![hex_character(nibble as int)]);
    text
}

/// Writes a byte string in lower-case hexadecimal.
pub fn to_hex(bytes: &[u8]) -> (result: String)
    ensures
        result@ == hex_encode(bytes@),
{
    let mut result = String::new();
    let mut index: usize = 0;
    while index < bytes.len()
        invariant
            index <= bytes@.len(),
            result@ == hex_encode(bytes@.take(index as int)),
        decreases bytes@.len() - index,
    {
        let byte = bytes[index];
        let ghost before = result@;
        result.append(hex_digit_text(byte / 16));
        result.append(hex_digit_text(byte % 16));
        assert(result@ =~= hex_encode(bytes@.take(index + 1))) by {
            let shorter = bytes@.take(index as int);
            let longer = bytes@.take(index + 1);
            assert(result@ == before + seq![hex_character(byte as int / 16)] + seq![
                hex_character(byte as int % 16),
            ]);
            assert forall|i: int| 0 <= i < 2 * longer.len() implies result@[i] == hex_encode(
                longer,
            )[i] by {
                if i < 2 * index {
                    assert(longer[i / 2] == shorter[i / 2]);
                    assert(before[i] == hex_encode(shorter)[i]);
                } else {
                    assert(longer[i / 2] == byte);
                }
            }
        }
        index += 1;
    }
    assert(bytes@.take(index as int) =~= bytes@);
    result
}

/// `256^exponent`.
pub open spec fn byte_power(exponent: nat) -> int
    decreases exponent,
{
    if exponent == 0 {
        1
    } else {
        256 * byte_power((exponent - 1) as nat)
    }
}

/// A byte string of `n` bytes denotes a number below `256^n`.
proof fn lemma_big_endian_bound(bytes: Seq<u8>)
    ensures
        0 <= big_endian_value(bytes) < byte_power(bytes.len()),
    decreases bytes.len(),
{
    if bytes.len() > 0 {
        lemma_big_endian_bound(bytes.drop_last());
    }
}

/// `256^32` is `2^256`.
proof fn lemma_byte_power_32()
    ensures
        byte_power(32) == word_modulus(),
{
    assert(byte_power(4) == 0x1_0000_0000int) by {
        reveal_with_fuel(byte_power, 5);
    }
    assert(byte_power(8) == 0x1_0000_0000_0000_0000int) by {
        reveal_with_fuel(byte_power, 5);
    }
    assert(byte_power(12) == 0x1_0000_0000_0000_0000_0000_0000int) by {
        reveal_with_fuel(byte_power, 5);
    }
    assert(byte_power(16) == 0x1_0000_0000_0000_0000_0000_0000_0000_0000int) by {
        reveal_with_fuel(byte_power, 5);
    }
    assert(byte_power(20) == 0x1_0000_0000_0000_0000_0000_0000_0000_0000_0000_0000int) by {
        reveal_with_fuel(byte_power, 5);
    }
    assert(byte_power(24) == 0x1_0000_0000_0000_0000_0000_0000_0000_0000_0000_0000_0000_0000int)
        by {
        reveal_with_fuel(byte_power, 5);
    }
    assert(byte_power(28)
        == 0x1_0000_0000_0000_0000_0000_0000_0000_0000_0000_0000_0000_0000_0000_0000int) by {
        reveal_with_fuel(byte_power, 5);
    }
    assert(byte_power(32) == word_modulus()) by {
        reveal_with_fuel(byte_power, 5);
    }
}

/// The hexadecimal form of a byte string is a numeral without a prefix, and it denotes the
/// number that the bytes denote.
pub proof fn lemma_hex_encode_value(bytes: Seq<u8>)
    ensures
        hex_encode(bytes).len() == 2 * bytes.len(),
        forall|i: int|
            0 <= i < hex_encode(bytes).len() ==> (#[trigger] digit_value(hex_encode(bytes)[i], 16))
                is Some,
        without_hex_prefix(hex_encode(bytes)) == hex_encode(bytes),
        numeral_value(hex_encode(bytes), 16) == big_endian_value(bytes),
        bytes.len() > 0 ==> is_numeral(hex_encode(bytes), 16),
        bytes.len() == 32 ==> big_endian_value(bytes) < word_modulus(),
    decreases bytes.len(),
{
    let text = hex_encode(bytes);
    assert forall|i: int| 0 <= i < text.len() implies (#[trigger] digit_value(text[i], 16))
        is Some && text[i] != 'x' by {
        let byte = bytes[i / 2] as int;
        assert(0 <= byte / 16 < 16 && 0 <= byte % 16 < 16);
    }
    lemma_big_endian_bound(bytes);
    if bytes.len() == 32 {
        lemma_byte_power_32();
    }
    if bytes.len() > 0 {
        let shorter = bytes.drop_last();
        lemma_hex_encode_value(shorter);
        let byte = bytes.last() as int;
        assert(0 <= byte / 16 < 16 && 0 <= byte % 16 < 16);
        assert(text.drop_last().drop_last() =~= hex_encode(shorter));
        assert(text.last() == hex_character(byte % 16));
        assert(text.drop_last().last() == hex_character(byte / 16));
        assert(digit_value(hex_character(byte % 16), 16) == Some(byte % 16));
        assert(digit_value(hex_character(byte / 16), 16) == Some(byte / 16));
        assert(numeral_value(text, 16) == numeral_value(text.drop_last(), 16) * 16 + byte % 16);
        assert(numeral_value(text.drop_last(), 16) == numeral_value(hex_encode(shorter), 16) * 16
            + byte / 16);
    }
}

/// The first four bytes of the Keccak-256 hash of `preimage`, as a number.
pub fn keccak256_first_bytes(preimage: &[u8]) -> (result: u32)
    ensures
        result == keccak256_selector(preimage@),
{
    let hash = keccak256(preimage);
    match crate::word::Word::from_hex(hash.as_str()) {
        Some(word) => word.high_u32(),
        None => vstd::pervasive::unreached(),
    }
}

/// The Keccak-256 hash of `preimage`, as 64 lower-case hexadecimal digits: a hexadecimal
/// literal of a word.
pub fn keccak256(preimage: &[u8]) -> (result: String)
    ensures
        result@ == hex_encode(keccak256_digest(preimage@)),
        result@.len() == 64,
        crate::word::is_word_numeral(without_hex_prefix(result@), 16),
        numeral_value(without_hex_prefix(result@), 16) == keccak256_value(preimage@),
{
    let bytes = digest(preimage);
    proof {
        lemma_hex_encode_value(bytes@);
    }
    to_hex(bytes.as_slice())
}

} // verus!
