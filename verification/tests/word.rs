use compiler_llvm_context::hash::keccak256;
use compiler_llvm_context::hash::to_hex;
use compiler_llvm_context::text::ends_with;
use compiler_llvm_context::text::equal;
use compiler_llvm_context::text::has_hex_prefix;
use compiler_llvm_context::word::Word;

fn word(limb3: u64, limb2: u64, limb1: u64, limb0: u64) -> Word {
    Word { limb3, limb2, limb1, limb0 }
}

#[test]
fn word_from_u64_fills_the_low_limb() {
    assert_eq!(Word::from_u64(0), word(0, 0, 0, 0));
    assert_eq!(Word::from_u64(u64::MAX), word(0, 0, 0, u64::MAX));
    assert_eq!(Word::from_u64(5).limb0, 5);
}

#[test]
fn word_multiply_add_carries_between_limbs() {
    let (product, carry) = word(0, 0, 0, u64::MAX).multiply_add(16, 15);
    assert_eq!(product, word(0, 0, 15, u64::MAX));
    assert_eq!(carry, 0);

    let (product, carry) = word(u64::MAX, u64::MAX, u64::MAX, u64::MAX).multiply_add(10, 9);
    assert_eq!(product, word(u64::MAX, u64::MAX, u64::MAX, u64::MAX));
    assert_eq!(carry, 9);

    let (product, carry) = word(1, 0, 0, 0).multiply_add(u64::MAX, 0);
    assert_eq!(product, word(u64::MAX, 0, 0, 0));
    assert_eq!(carry, 0);
}

#[test]
fn word_from_hex_reads_digits_of_both_cases() {
    assert_eq!(Word::from_hex("0"), Some(word(0, 0, 0, 0)));
    assert_eq!(Word::from_hex("ff"), Some(word(0, 0, 0, 255)));
    assert_eq!(Word::from_hex("FF"), Some(word(0, 0, 0, 255)));
    assert_eq!(Word::from_hex("aBcDeF"), Some(word(0, 0, 0, 0xabcdef)));
    assert_eq!(Word::from_hex("10000000000000000"), Some(word(0, 0, 1, 0)));
    assert_eq!(
        Word::from_hex("0123456789abcdef00000000000000011111111111111111fedcba9876543210"),
        Some(word(0x0123456789abcdef, 1, 0x1111111111111111, 0xfedcba9876543210))
    );
}

#[test]
fn word_from_hex_takes_one_prefix() {
    assert_eq!(Word::from_hex("0x10"), Some(word(0, 0, 0, 16)));
    assert_eq!(Word::from_hex("0x0005"), Some(word(0, 0, 0, 5)));
    assert_eq!(Word::from_hex("0x0x10"), None);
    assert_eq!(Word::from_hex("0X10"), None);
    assert_eq!(Word::from_hex("0x"), None);
}

#[test]
fn word_from_hex_refuses_what_is_no_numeral() {
    assert_eq!(Word::from_hex(""), None);
    assert_eq!(Word::from_hex("g"), None);
    assert_eq!(Word::from_hex("12 "), None);
    assert_eq!(Word::from_hex("-1"), None);
    assert_eq!(Word::from_hex("+1"), None);
    assert_eq!(Word::from_hex("1é"), None);
}

#[test]
fn word_from_hex_refuses_what_does_not_fit() {
    let largest = "f".repeat(64);
    assert_eq!(
        Word::from_hex(&largest),
        Some(word(u64::MAX, u64::MAX, u64::MAX, u64::MAX))
    );
    let too_large = format!("1{}", "0".repeat(64));
    assert_eq!(Word::from_hex(&too_large), None);
    let padded = format!("{}1", "0".repeat(80));
    assert_eq!(Word::from_hex(&padded), Some(word(0, 0, 0, 1)));
}

#[test]
fn word_from_dec_reads_decimal_digits_only() {
    assert_eq!(Word::from_dec("0"), Some(word(0, 0, 0, 0)));
    assert_eq!(Word::from_dec("1234567890"), Some(word(0, 0, 0, 1234567890)));
    assert_eq!(Word::from_dec("18446744073709551616"), Some(word(0, 0, 1, 0)));
    assert_eq!(Word::from_dec("ff"), None);
    assert_eq!(Word::from_dec("0x10"), None);
    assert_eq!(Word::from_dec(""), None);
}

#[test]
fn word_from_dec_refuses_what_does_not_fit() {
    let largest = "115792089237316195423570985008687907853269984665640564039457584007913129639935";
    assert_eq!(
        Word::from_dec(largest),
        Some(word(u64::MAX, u64::MAX, u64::MAX, u64::MAX))
    );
    let too_large = "115792089237316195423570985008687907853269984665640564039457584007913129639936";
    assert_eq!(Word::from_dec(too_large), None);
}

#[test]
fn word_from_numeral_starts_where_it_is_told() {
    assert_eq!(Word::from_numeral("xx10", 2, 16), Some(word(0, 0, 0, 16)));
    assert_eq!(Word::from_numeral("xx10", 2, 10), Some(word(0, 0, 0, 10)));
    assert_eq!(Word::from_numeral("xx10", 4, 10), None);
    assert_eq!(Word::from_numeral("xx10", 1, 10), None);
}

#[test]
fn to_hex_writes_two_lower_case_digits_for_each_byte() {
    assert_eq!(to_hex(&[]), "");
    assert_eq!(to_hex(&[0x00, 0x0f, 0xf0, 0xab, 0xff]), "000ff0abff");
}

#[test]
fn keccak256_of_known_inputs() {
    assert_eq!(
        keccak256(b""),
        "c5d2460186f7233c927e7db2dcc703c0e500b653ca82273b7bfad8045d85a470"
    );
    assert_eq!(
        keccak256(b"abc"),
        "4e03657aea45a94fc7d47ba826c8d667c0d1e6e33a64a036ec44f58fa12d6c45"
    );
    assert_eq!(
        keccak256(b"transfer(address,uint256)"),
        "a9059cbb2ab09eb219583f4a59a5d0623ade346d962bcd4e46b11da047c9049b"
    );
}

#[test]
fn keccak256_is_the_literal_of_a_word() {
    let hash = keccak256(b"abc");
    assert_eq!(hash.len(), 64);
    assert_eq!(
        Word::from_hex(&hash),
        Some(word(
            0x4e03657aea45a94f,
            0xc7d47ba826c8d667,
            0xc0d1e6e33a64a036,
            0xec44f58fa12d6c45
        ))
    );
}

#[test]
fn keccak256_first_bytes_are_the_high_bytes_of_the_hash() {
    assert_eq!(compiler_llvm_context::hash::keccak256_first_bytes(b"transfer(address,uint256)"), 0xa9059cbb);
    assert_eq!(compiler_llvm_context::hash::keccak256_first_bytes(b""), 0xc5d24601);
    assert_eq!(word(0x0123456789abcdef, 1, 2, 3).high_u32(), 0x01234567);
    assert_eq!(word(0, u64::MAX, u64::MAX, u64::MAX).high_u32(), 0);
}

#[test]
fn text_equal_compares_every_character() {
    assert!(equal("", ""));
    assert!(equal("__entry", "__entry"));
    assert!(!equal("__entry", "__entrY"));
    assert!(!equal("__entry", "__entry_"));
    assert!(!equal("é", "e"));
}

#[test]
fn text_ends_with_compares_the_tail() {
    assert!(ends_with("Test_deployed", "_deployed"));
    assert!(ends_with("_deployed", "_deployed"));
    assert!(ends_with("anything", ""));
    assert!(!ends_with("deployed", "_deployed"));
    assert!(!ends_with("Test_deployed_", "_deployed"));
    assert!(ends_with("é_deployed", "_deployed"));
}

#[test]
fn text_has_hex_prefix_wants_both_characters() {
    assert!(has_hex_prefix("0x"));
    assert!(has_hex_prefix("0x12"));
    assert!(!has_hex_prefix("0"));
    assert!(!has_hex_prefix("x0"));
    assert!(!has_hex_prefix(""));
}
