//! Comparisons of text, character by character.

use vstd::prelude::*;
use vstd::string::StrSliceExecFns;

verus! {

/// Whether `text` ends with `suffix`.
pub open spec fn has_suffix(text: Seq<char>, suffix: Seq<char>) -> bool {
    suffix.len() <= text.len() && text.skip(text.len() - suffix.len()) == suffix
}

/// Whether the two texts hold the same characters.
pub fn equal(left: &str, right: &str) -> (result: bool)
    ensures
        result == (left@ == right@),
{
    let left_bytes = left.as_bytes();
    let right_bytes = right.as_bytes();
    proof {
        vstd::utf8::encode_utf8_decode_utf8(left@);
        vstd::utf8::encode_utf8_decode_utf8(right@);
    }
    if left_bytes.len() != right_bytes.len() {
        return false;
    }
    let mut index: usize = 0;
    while index < left_bytes.len()
        invariant
            left_bytes@.len() == right_bytes@.len(),
            left_bytes@ == vstd::utf8::encode_utf8(left@),
            right_bytes@ == vstd::utf8::encode_utf8(right@),
            index <= left_bytes@.len(),
            forall|k: int| 0 <= k < index ==> left_bytes@[k] == right_bytes@[k],
        decreases left_bytes@.len() - index,
    {
        if left_bytes[index] != right_bytes[index] {
            return false;
        }
        index += 1;
    }
    assert(left_bytes@ =~= right_bytes@);
    true
}

/// Whether `text` ends with `suffix`.
pub fn ends_with(text: &str, suffix: &str) -> (result: bool)
    ensures
        result == has_suffix(text@, suffix@),
{
    let text_length = text.unicode_len();
    let suffix_length = suffix.unicode_len();
    if suffix_length > text_length {
        return false;
    }
    let start = text_length - suffix_length;
    let mut index: usize = 0;
    while index < suffix_length
        invariant
            text_length == text@.len(),
            suffix_length == suffix@.len(),
            start == text_length - suffix_length,
            index <= suffix_length,
            forall|k: int| 0 <= k < index ==> text@[start + k] == suffix@[k],
        decreases suffix_length - index,
    {
        if text.get_char(start + index) != suffix.get_char(index) {
            assert(text@.skip(start as int)[index as int] != suffix@[index as int]);
            return false;
        }
        index += 1;
    }
    assert(text@.skip(start as int) =~= suffix@);
    true
}

/// Whether `text` begins with `0x`.
pub fn has_hex_prefix(text: &str) -> (result: bool)
    ensures
        result == (text@.len() >= 2 && text@[0] == '0' && text@[1] == 'x'),
{
    text.unicode_len() >= 2 && text.get_char(0) == '0' && text.get_char(1) == 'x'
}

} // verus!
