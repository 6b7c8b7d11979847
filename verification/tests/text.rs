use libtlp::text::{binary, byte_bits, decimal, digit_str, word_bits};

#[test]
fn decimal_numbers() {
    assert_eq!(decimal(0), "0");
    assert_eq!(decimal(9), "9");
    assert_eq!(decimal(10), "10");
    assert_eq!(decimal(18), "18");
    assert_eq!(decimal(4096), "4096");
    assert_eq!(decimal(1_000_000_007), "1000000007");
    assert_eq!(decimal(usize::MAX), format!("{}", usize::MAX));
    for n in 0usize..2000 {
        assert_eq!(decimal(n), format!("{}", n));
    }
}

#[test]
fn binary_numbers() {
    assert_eq!(binary(0), "0");
    assert_eq!(binary(1), "1");
    assert_eq!(binary(2), "10");
    assert_eq!(binary(0x2004), "10000000000100");
    assert_eq!(word_bits(0), "0b0");
    assert_eq!(word_bits(0xffff), "0b1111111111111111");
    for x in [0u16, 1, 2, 3, 0x2000, 0x4001, 0x8fff, 0xe000, 0xffff] {
        assert_eq!(word_bits(x), format!("{:#b}", x));
    }
}

#[test]
fn bits_of_a_byte() {
    assert_eq!(byte_bits(0), "0b00000000");
    assert_eq!(byte_bits(0x4a), "0b01001010");
    assert_eq!(byte_bits(0xff), "0b11111111");
    for b in 0u8..=255 {
        assert_eq!(byte_bits(b), format!("{:#010b}", b));
    }
}

#[test]
fn digits() {
    let all: Vec<&str> = (0u8..10).map(digit_str).collect();
    assert_eq!(all.concat(), "0123456789");
}
