use beerus_core::felt::{FieldElement, FromStrError};
use beerus_core::uint::U256;

const PRIME_BYTES: [u8; 32] = [
    0x08, 0, 0, 0, 0, 0, 0, 0x11, 0, 0, 0, 0, 0, 0, 0, 0, 0, 0, 0, 0, 0, 0, 0, 0, 0, 0, 0, 0, 0, 0,
    0, 0x01,
];

fn hex_text(bytes: &[u8; 32]) -> String {
    let digits: Vec<String> = bytes.iter().map(|b| format!("{:02x}", b)).collect();
    format!("0x{}", digits.concat())
}

#[test]
fn hex_text_gives_the_element() {
    let element = FieldElement::from_hex_be("0x10").unwrap();
    let mut expected = [0u8; 32];
    expected[31] = 0x10;
    assert_eq!(element.to_bytes_be(), expected);
    assert_eq!(element.to_string(), "16");
}

#[test]
fn hex_text_without_prefix_is_accepted() {
    let with_prefix = FieldElement::from_hex_be("0xabc").unwrap();
    let without = FieldElement::from_hex_be("abc").unwrap();
    assert_eq!(with_prefix, without);
    assert_eq!(without.to_string(), "2748");
}

#[test]
fn hex_text_with_a_wrong_character_is_refused() {
    assert_eq!(
        FieldElement::from_hex_be("0xzz").unwrap_err(),
        FromStrError::InvalidCharacter
    );
}

#[test]
fn hex_text_at_or_above_the_modulus_is_refused() {
    let prime = hex_text(&PRIME_BYTES);
    assert_eq!(prime.len(), 66);
    assert_eq!(
        FieldElement::from_hex_be(&prime).unwrap_err(),
        FromStrError::OutOfRange
    );
    let mut below = PRIME_BYTES;
    below[31] = 0;
    assert_eq!(
        FieldElement::from_hex_be(&hex_text(&below)).unwrap().to_string(),
        "3618502788666131213697322783095070105623107215331596699973092056135872020480"
    );
    let too_long = format!("0x{}", "0".repeat(65));
    assert_eq!(
        FieldElement::from_hex_be(&too_long).unwrap_err(),
        FromStrError::OutOfRange
    );
}

#[test]
fn text_is_read_as_decimal_unless_it_starts_with_0x() {
    let decimal = FieldElement::from_str("123").unwrap();
    let hex = FieldElement::from_str("0x7b").unwrap();
    assert_eq!(decimal, hex);
    assert_eq!(decimal.to_string(), "123");
    assert_eq!(
        FieldElement::from_str("12a").unwrap_err(),
        FromStrError::InvalidCharacter
    );
    assert_eq!(
        FieldElement::from_str(
            "3618502788666131213697322783095070105623107215331596699973092056135872020481"
        )
        .unwrap_err(),
        FromStrError::OutOfRange
    );
}

#[test]
fn zero_is_written_as_a_single_digit() {
    assert_eq!(FieldElement::from_str("0").unwrap().to_string(), "0");
    assert_eq!(FieldElement::from_hex_be("0x0000").unwrap().to_string(), "0");
    assert_eq!(U256::zero().to_string(), "0");
}

#[test]
fn bytes_denote_an_element_only_below_the_modulus() {
    assert!(FieldElement::from_bytes_be(&PRIME_BYTES).is_none());
    let mut below = PRIME_BYTES;
    below[31] = 0;
    let element = FieldElement::from_bytes_be(&below).unwrap();
    assert_eq!(element.to_bytes_be(), below);
    assert!(FieldElement::from_bytes_be(&[0xff; 32]).is_none());
    assert_eq!(
        FieldElement::from_bytes_be(&[0u8; 32]).unwrap().to_string(),
        "0"
    );
}

#[test]
fn elements_compare_by_their_bytes() {
    let a = FieldElement::from_str("77").unwrap();
    let b = FieldElement::from_hex_be("0x4d").unwrap();
    let c = FieldElement::from_str("78").unwrap();
    assert!(a == b);
    assert!(a != c);
}

#[test]
fn big_endian_bytes_are_read_most_significant_first() {
    let value = U256::from_big_endian(&[1, 0]);
    assert_eq!(value, U256::from_u64(256));
    assert_eq!(value.to_string(), "256");
    assert_eq!(U256::from_big_endian(&[]), U256::zero());
    let mut word = [0u8; 32];
    word[0] = 0x80;
    assert_eq!(U256::from_big_endian(&word), U256([0, 0, 0, 0x8000_0000_0000_0000]));
}

#[test]
fn big_endian_bytes_are_written_most_significant_first() {
    let bytes = U256::from_u64(0x0102).to_big_endian();
    let mut expected = [0u8; 32];
    expected[30] = 1;
    expected[31] = 2;
    assert_eq!(bytes, expected);
    let high = U256([0, 0, 0, 0x0a00_0000_0000_0000]).to_big_endian();
    assert_eq!(high[0], 0x0a);
    assert!(high[1..].iter().all(|b| *b == 0));
}

#[test]
fn limbs_are_least_significant_first() {
    assert_eq!(U256([0, 1, 0, 0]).to_string(), "18446744073709551616");
    assert_eq!(
        U256([u64::MAX; 4]).to_string(),
        "115792089237316195423570985008687907853269984665640564039457584007913129639935"
    );
    assert_eq!(U256::from_u64(u64::MAX).to_string(), "18446744073709551615");
}

#[test]
fn a_written_number_reads_back_as_itself() {
    let values = [
        U256::zero(),
        U256::from_u64(1),
        U256([7, 0, 9, 0]),
        U256([u64::MAX, 1, 2, u64::MAX]),
    ];
    for value in values {
        assert_eq!(U256::from_big_endian(&value.to_big_endian()), value);
    }
}
