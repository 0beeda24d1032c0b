//! The machine word: an unsigned 256-bit integer, and its decimal and hexadecimal literals.

use vstd::prelude::*;
use vstd::string::StrSliceExecFns;

verus! {

/// The base of one limb, `2^64`.
pub open spec fn limb_base() -> int {
    0x1_0000_0000_0000_0000int
}

/// The number of values a word can take, `2^256`.
pub open spec fn word_modulus() -> int {
    0x1_0000_0000_0000_0000_0000_0000_0000_0000_0000_0000_0000_0000_0000_0000_0000_0000int
}

/// An unsigned 256-bit integer, held as four 64-bit limbs.
#[derive(Clone, Copy, PartialEq, Eq, Structural, Debug, Hash)]
pub struct Word {
    /// Bits 192 to 255.
    pub limb3: u64,
    /// Bits 128 to 191.
    pub limb2: u64,
    /// Bits 64 to 127.
    pub limb1: u64,
    /// Bits 0 to 63.
    pub limb0: u64,
}

/// The value of a decimal or hexadecimal digit, if the character is one in the given radix.
pub open spec fn digit_value(character: char, radix: int) -> Option<int> {
    let code = character as int;
    if '0' as int <= code <= '9' as int {
        Some(code - '0' as int)
    } else if radix == 16 && 'a' as int <= code <= 'f' as int {
        Some(code - 'a' as int + 10)
    } else if radix == 16 && 'A' as int <= code <= 'F' as int {
        Some(code - 'A' as int + 10)
    } else {
        None
    }
}

/// Whether the text is a non-empty run of digits of the given radix.
pub open spec fn is_numeral(text: Seq<char>, radix: int) -> bool {
    &&& text.len() > 0
    &&& forall|i: int| 0 <= i < text.len() ==> (#[trigger] digit_value(text[i], radix)) is Some
}

/// The number that a run of digits denotes in the given radix, most significant digit first.
pub open spec fn numeral_value(text: Seq<char>, radix: int) -> int
    decreases text.len(),
{
    if text.len() == 0 {
        0
    } else {
        numeral_value(text.drop_last(), radix) * radix + match digit_value(text.last(), radix) {
            Some(digit) => digit,
            None => 0,
        }
    }
}

/// Whether the text is a numeral of the given radix whose value fits a word.
pub open spec fn is_word_numeral(text: Seq<char>, radix: int) -> bool {
    is_numeral(text, radix) && numeral_value(text, radix) < word_modulus()
}

/// The text without one leading `0x`, if it has one.
pub open spec fn without_hex_prefix(text: Seq<char>) -> Seq<char> {
    if text.len() >= 2 && text[0] == '0' && text[1] == 'x' {
        text.skip(2)
    } else {
        text
    }
}

proof fn lemma_split_product(product: u128)
    ensures
        product == (product >> 64) * limb_base() + (product & 0xffff_ffff_ffff_ffff),
        (product >> 64) < limb_base(),
        (product & 0xffff_ffff_ffff_ffff) < limb_base(),
{
    assert(product == (product >> 64) * 0x1_0000_0000_0000_0000u128 + (product
        & 0xffff_ffff_ffff_ffff)) by (bit_vector);
    assert((product >> 64) < 0x1_0000_0000_0000_0000u128) by (bit_vector);
    assert((product & 0xffff_ffff_ffff_ffff) < 0x1_0000_0000_0000_0000u128) by (bit_vector);
}

/// One step of a long multiplication: `limb * factor + carry`, split into its low limb and the
/// carry into the next one.
fn multiply_limb(limb: u64, factor: u64, carry: u64) -> (result: (u64, u64))
    ensures
        limb * factor + carry == result.1 * limb_base() + result.0,
{
    assert(limb * factor + carry <= 0xffff_ffff_ffff_ffff_ffff_ffff_ffff_ffff) by (nonlinear_arith)
        requires
            limb <= 0xffff_ffff_ffff_ffff,
            factor <= 0xffff_ffff_ffff_ffff,
            carry <= 0xffff_ffff_ffff_ffff,
    ;
    assert(limb * factor <= 0xffff_ffff_ffff_ffff_ffff_ffff_ffff_ffff) by (nonlinear_arith)
        requires
            limb <= 0xffff_ffff_ffff_ffff,
            factor <= 0xffff_ffff_ffff_ffff,
    ;
    let product: u128 = (limb as u128) * (factor as u128) + (carry as u128);
    proof {
        lemma_split_product(product);
    }
    let low: u64 = (product & 0xffff_ffff_ffff_ffff) as u64;
    let high: u64 = (product >> 64) as u64;
    (low, high)
}

impl Word {
    /// The number that the word holds.
    pub open spec fn value(self) -> int {
        self.limb0 + self.limb1 * 0x1_0000_0000_0000_0000int + self.limb2
            * 0x1_0000_0000_0000_0000_0000_0000_0000_0000int + self.limb3
            * 0x1_0000_0000_0000_0000_0000_0000_0000_0000_0000_0000_0000_0000int
    }

    /// Every word holds a number below `2^256`.
    pub proof fn lemma_value_bounds(self)
        ensures
            0 <= self.value() < word_modulus(),
    {
    }

    /// The word that holds the given 64-bit number.
    pub fn from_u64(value: u64) -> (result: Word)
        ensures
            result.value() == value,
            result == (Word { limb3: 0, limb2: 0, limb1: 0, limb0: value }),
    {
        Word { limb3: 0, limb2: 0, limb1: 0, limb0: value }
    }

    /// The first four bytes of the word, most significant byte first, as a number: the high
    /// 32 bits.
    pub fn high_u32(&self) -> (result: u32)
        ensures
            result == self.value() / 0x1_0000_0000_0000_0000_0000_0000_0000_0000_0000_0000_0000_0000_0000_0000int,
    {
        let high: u64 = self.limb3 >> 32;
        let low: u64 = self.limb3 & 0xffff_ffff;
        proof {
            let limb = self.limb3;
            assert(limb == (limb >> 32) * 0x1_0000_0000 + (limb & 0xffff_ffff)) by (bit_vector);
            assert((limb >> 32) < 0x1_0000_0000u64) by (bit_vector);
            assert((limb & 0xffff_ffff) < 0x1_0000_0000u64) by (bit_vector);
            vstd::arithmetic::div_mod::lemma_fundamental_div_mod_converse(
                self.value(),
                0x1_0000_0000_0000_0000_0000_0000_0000_0000_0000_0000_0000_0000_0000_0000int,
                high as int,
                low * 0x1_0000_0000_0000_0000_0000_0000_0000_0000_0000_0000_0000_0000int
                    + self.limb2 * 0x1_0000_0000_0000_0000_0000_0000_0000_0000int + self.limb1
                    * 0x1_0000_0000_0000_0000int + self.limb0,
            );
        }
        high as u32
    }

    /// Multiplies the word by `factor` and adds `addend`; the second component is what
    /// overflows the word.
    pub fn multiply_add(&self, factor: u64, addend: u64) -> (result: (Word, u64))
        ensures
            self.value() * factor + addend == result.0.value() + result.1 * word_modulus(),
    {
        let (limb0, carry0) = multiply_limb(self.limb0, factor, addend);
        let (limb1, carry1) = multiply_limb(self.limb1, factor, carry0);
        let (limb2, carry2) = multiply_limb(self.limb2, factor, carry1);
        let (limb3, carry3) = multiply_limb(self.limb3, factor, carry2);
        let word = Word { limb3, limb2, limb1, limb0 };
        proof {
            let f = factor as int;
            let (a0, a1, a2, a3) = (
                self.limb0 as int,
                self.limb1 as int,
                self.limb2 as int,
                self.limb3 as int,
            );
            assert((a0 + a1 * 0x1_0000_0000_0000_0000int + a2
                * 0x1_0000_0000_0000_0000_0000_0000_0000_0000int + a3
                * 0x1_0000_0000_0000_0000_0000_0000_0000_0000_0000_0000_0000_0000int) * f == a0 * f
                + (a1 * f) * 0x1_0000_0000_0000_0000int + (a2 * f)
                * 0x1_0000_0000_0000_0000_0000_0000_0000_0000int + (a3 * f)
                * 0x1_0000_0000_0000_0000_0000_0000_0000_0000_0000_0000_0000_0000int)
                by (nonlinear_arith);
        }
        (word, carry3)
    }
}

/// The value of the digit `character` in the given radix, if it is one.
fn digit_of(character: char, radix: u64) -> (result: Option<u64>)
    requires
        radix == 10 || radix == 16,
    ensures
        result is Some <==> digit_value(character, radix as int) is Some,
        result matches Some(digit) ==> digit == digit_value(character, radix as int)->0 && digit
            < radix,
{
    if character >= '0' && character <= '9' {
        Some((character as u64) - ('0' as u64))
    } else if radix == 16 && character >= 'a' && character <= 'f' {
        Some((character as u64) - ('a' as u64) + 10)
    } else if radix == 16 && character >= 'A' && character <= 'F' {
        Some((character as u64) - ('A' as u64) + 10)
    } else {
        None
    }
}

/// The value of a numeral is not negative, and no prefix of it denotes more than the whole.
proof fn lemma_numeral_prefix(text: Seq<char>, radix: int, length: int)
    requires
        radix == 10 || radix == 16,
        0 <= length <= text.len(),
    ensures
        0 <= numeral_value(text.take(length), radix) <= numeral_value(text, radix),
    decreases text.len(),
{
    if text.len() == 0 {
        assert(text.take(length) =~= text);
    } else {
        let shorter = text.drop_last();
        let digit = match digit_value(text.last(), radix) {
            Some(digit) => digit,
            None => 0,
        };
        assert(0 <= digit);
        if length == text.len() {
            assert(text.take(length) =~= text);
            lemma_numeral_prefix(shorter, radix, shorter.len() as int);
            assert(shorter.take(shorter.len() as int) =~= shorter);
            assert(0 <= numeral_value(shorter, radix) * radix) by (nonlinear_arith)
                requires
                    0 <= numeral_value(shorter, radix),
                    radix >= 10,
            ;
        } else {
            lemma_numeral_prefix(shorter, radix, length);
            assert(shorter.take(length) =~= text.take(length));
            assert(numeral_value(shorter, radix) <= numeral_value(shorter, radix) * radix)
                by (nonlinear_arith)
                requires
                    0 <= numeral_value(shorter, radix),
                    radix >= 10,
            ;
        }
    }
}

impl Word {
    /// The word that holds the number `value`, taken modulo `2^256`.
    pub open spec fn of_value(value: int) -> Word {
        Word {
            limb3: ((value / 0x1_0000_0000_0000_0000_0000_0000_0000_0000_0000_0000_0000_0000int)
                % 0x1_0000_0000_0000_0000int) as u64,
            limb2: ((value / 0x1_0000_0000_0000_0000_0000_0000_0000_0000int)
                % 0x1_0000_0000_0000_0000int) as u64,
            limb1: ((value / 0x1_0000_0000_0000_0000int) % 0x1_0000_0000_0000_0000int) as u64,
            limb0: (value % 0x1_0000_0000_0000_0000int) as u64,
        }
    }

    /// A word is the word that holds its value: no two words hold the same number.
    pub proof fn lemma_of_value(self)
        ensures
            Word::of_value(self.value()) == self,
    {
        let base = 0x1_0000_0000_0000_0000int;
        let square = 0x1_0000_0000_0000_0000_0000_0000_0000_0000int;
        let cube = 0x1_0000_0000_0000_0000_0000_0000_0000_0000_0000_0000_0000_0000int;
        let (a0, a1, a2, a3) = (
            self.limb0 as int,
            self.limb1 as int,
            self.limb2 as int,
            self.limb3 as int,
        );
        let value = self.value();
        vstd::arithmetic::div_mod::lemma_fundamental_div_mod_converse(
            value,
            base,
            a1 + a2 * base + a3 * square,
            a0,
        );
        vstd::arithmetic::div_mod::lemma_fundamental_div_mod_converse(
            a1 + a2 * base + a3 * square,
            base,
            a2 + a3 * base,
            a1,
        );
        vstd::arithmetic::div_mod::lemma_fundamental_div_mod_converse(
            value,
            square,
            a2 + a3 * base,
            a0 + a1 * base,
        );
        vstd::arithmetic::div_mod::lemma_fundamental_div_mod_converse(
            a2 + a3 * base,
            base,
            a3,
            a2,
        );
        vstd::arithmetic::div_mod::lemma_fundamental_div_mod_converse(
            value,
            cube,
            a3,
            a0 + a1 * base + a2 * square,
        );
        vstd::arithmetic::div_mod::lemma_fundamental_div_mod_converse(a3, base, 0, a3);
    }

    /// Reads the numeral that starts at character `start` of `text`: a non-empty run of digits
    /// of the radix, 10 or 16, whose value fits a word.
    pub fn from_numeral(text: &str, start: usize, radix: u64) -> (result: Option<Word>)
        requires
            radix == 10 || radix == 16,
            start <= text@.len(),
        ensures
            result is Some <==> is_word_numeral(text@.skip(start as int), radix as int),
            result matches Some(word) ==> word.value() == numeral_value(
                text@.skip(start as int),
                radix as int,
            ) && word == Word::of_value(numeral_value(text@.skip(start as int), radix as int)),
    {
        let length = text.unicode_len();
        let ghost digits = text@.skip(start as int);
        if start == length {
            return None;
        }
        let mut word = Word::from_u64(0);
        let mut index: usize = start;
        assert(digits.take(0) =~= Seq::<char>::empty());
        while index < length
            invariant
                radix == 10 || radix == 16,
                length == text@.len(),
                digits == text@.skip(start as int),
                start <= index <= length,
                word.value() == numeral_value(digits.take(index - start), radix as int),
                forall|k: int|
                    0 <= k < index - start ==> (#[trigger] digit_value(digits[k], radix as int))
                        is Some,
            decreases length - index,
        {
            let character = text.get_char(index);
            assert(digits[index - start] == character);
            let digit = match digit_of(character, radix) {
                Some(digit) => digit,
                None => {
                    return None;
                },
            };
            let (next, carry) = word.multiply_add(radix, digit);
            proof {
                let longer = digits.take(index - start + 1);
                assert(longer.drop_last() =~= digits.take(index - start));
                assert(longer.last() == character);
                next.lemma_value_bounds();
                lemma_numeral_prefix(digits, radix as int, index - start + 1);
                assert(carry * word_modulus() >= word_modulus() || carry == 0) by (nonlinear_arith)
                    requires
                        carry >= 0,
                        word_modulus() > 0,
                ;
            }
            if carry != 0 {
                return None;
            }
            word = next;
            index += 1;
        }
        proof {
            assert(digits.take(index - start) =~= digits);
            word.lemma_value_bounds();
            word.lemma_of_value();
        }
        Some(word)
    }

    /// Reads a decimal literal: a non-empty run of the digits `0` to `9` whose value fits a
    /// word.
    pub fn from_dec(text: &str) -> (result: Option<Word>)
        ensures
            result is Some <==> is_word_numeral(text@, 10),
            result matches Some(word) ==> word.value() == numeral_value(text@, 10) && word
                == Word::of_value(numeral_value(text@, 10)),
    {
        assert(text@.skip(0) =~= text@);
        Word::from_numeral(text, 0, 10)
    }

    /// Reads a hexadecimal literal: one optional leading `0x`, then a non-empty run of the
    /// digits `0` to `9`, `a` to `f` and `A` to `F` whose value fits a word.
    pub fn from_hex(text: &str) -> (result: Option<Word>)
        ensures
            result is Some <==> is_word_numeral(without_hex_prefix(text@), 16),
            result matches Some(word) ==> word.value() == numeral_value(
                without_hex_prefix(text@),
                16,
            ) && word == Word::of_value(numeral_value(without_hex_prefix(text@), 16)),
    {
        if crate::text::has_hex_prefix(text) {
            Word::from_numeral(text, 2, 16)
        } else {
            assert(text@.skip(0) =~= text@);
            Word::from_numeral(text, 0, 16)
        }
    }
}

/// `16^exponent`.
pub open spec fn hex_power(exponent: nat) -> int
    decreases exponent,
{
    if exponent == 0 {
        1
    } else {
        16 * hex_power((exponent - 1) as nat)
    }
}

/// The powers of 16 are positive and grow with the exponent.
proof fn lemma_hex_power_grows(smaller: nat, larger: nat)
    requires
        smaller <= larger,
    ensures
        0 < hex_power(smaller) <= hex_power(larger),
    decreases larger,
{
    if larger == 0 {
    } else if smaller == larger {
        lemma_hex_power_grows((smaller - 1) as nat, (larger - 1) as nat);
    } else {
        lemma_hex_power_grows(smaller, (larger - 1) as nat);
    }
}

/// `16^64` is `2^256`.
proof fn lemma_hex_power_64()
    ensures
        hex_power(64) == word_modulus(),
{
    assert(hex_power(8) == 0x1_0000_0000int) by {
        reveal_with_fuel(hex_power, 9);
    }
    assert(hex_power(16) == 0x1_0000_0000_0000_0000int) by {
        reveal_with_fuel(hex_power, 9);
    }
    assert(hex_power(24) == 0x1_0000_0000_0000_0000_0000_0000int) by {
        reveal_with_fuel(hex_power, 9);
    }
    assert(hex_power(32) == 0x1_0000_0000_0000_0000_0000_0000_0000_0000int) by {
        reveal_with_fuel(hex_power, 9);
    }
    assert(hex_power(40) == 0x1_0000_0000_0000_0000_0000_0000_0000_0000_0000_0000int) by {
        reveal_with_fuel(hex_power, 9);
    }
    assert(hex_power(48) == 0x1_0000_0000_0000_0000_0000_0000_0000_0000_0000_0000_0000_0000int)
        by {
        reveal_with_fuel(hex_power, 9);
    }
    assert(hex_power(56)
        == 0x1_0000_0000_0000_0000_0000_0000_0000_0000_0000_0000_0000_0000_0000_0000int) by {
        reveal_with_fuel(hex_power, 9);
    }
    assert(hex_power(64) == word_modulus()) by {
        reveal_with_fuel(hex_power, 9);
    }
}

/// A hexadecimal numeral of `n` digits denotes a number below `16^n`.
proof fn lemma_hex_numeral_bound(text: Seq<char>)
    requires
        forall|i: int| 0 <= i < text.len() ==> (#[trigger] digit_value(text[i], 16)) is Some,
    ensures
        0 <= numeral_value(text, 16) < hex_power(text.len()),
    decreases text.len(),
{
    if text.len() > 0 {
        let shorter = text.drop_last();
        assert forall|i: int| 0 <= i < shorter.len() implies (#[trigger] digit_value(
            shorter[i],
            16,
        )) is Some by {
            assert(shorter[i] == text[i]);
        }
        lemma_hex_numeral_bound(shorter);
        assert(digit_value(text[text.len() - 1], 16) is Some);
    }
}

/// A hexadecimal numeral of at most 64 digits is the literal of a word, and has no prefix.
pub proof fn lemma_plain_hex_literal(text: Seq<char>)
    requires
        is_numeral(text, 16),
        text.len() <= 64,
    ensures
        without_hex_prefix(text) == text,
        is_word_numeral(text, 16),
{
    lemma_hex_numeral_bound(text);
    lemma_hex_power_grows(text.len(), 64);
    lemma_hex_power_64();
    if text.len() >= 2 {
        assert(digit_value(text[1], 16) is Some);
    }
}

} // verus!
