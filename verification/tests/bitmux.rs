use pannotia::bitmux::{twohot_bits, twohot_decode};

#[test]
fn test_basic_twohot_dec() {
    // 2 outer, 3 inner choices
    let expected = [0b01001, 0b01010, 0b01100, 0b10001, 0b10010, 0b10100];
    for (v, bits) in expected.iter().enumerate() {
        assert_eq!(twohot_decode(2, 3, *bits), Some(v as u32));
    }
    assert_eq!(twohot_decode(2, 3, 0), None);
    assert_eq!(twohot_decode(2, 3, 0b00011), None);
}

#[test]
fn test_basic_twohot_enc() {
    // 3 outer, 2 inner choices
    let expected = [0b00101, 0b00110, 0b01001, 0b01010, 0b10001, 0b10010];
    for (v, bits) in expected.iter().enumerate() {
        assert_eq!(twohot_bits(3, 2, v as u32), *bits);
    }
}
