use pannotia::bitenum::{bit_pattern, bitenum_patterns, BitEnumError, BitEnumItem, BitPattern};

fn chars(s: &str) -> Vec<char> {
    s.chars().collect()
}

#[test]
fn test_basic_bitenum() {
    // VarA = "00", VarB = "01", VarC = "1x"
    let items = vec![
        BitEnumItem::Variant(chars("00")),
        BitEnumItem::Variant(chars("01")),
        BitEnumItem::Variant(chars("1x")),
    ];
    let (nbits, pats) = bitenum_patterns(&items).unwrap();
    assert_eq!(nbits, 2);
    // read as 0 => VarA, 1 => VarB, bits & 2 == 2 => VarC; written as 0, 1, 2
    assert_eq!(
        pats,
        vec![
            BitPattern { match_mask: 3, match_val: 0, write_val: 0, has_dont_care: false },
            BitPattern { match_mask: 3, match_val: 1, write_val: 1, has_dont_care: false },
            BitPattern { match_mask: 2, match_val: 2, write_val: 2, has_dont_care: true },
        ]
    );
}

#[test]
fn bitenum_write_one_dont_care() {
    let p = bit_pattern(&chars("1X0x")).unwrap();
    assert_eq!(p.match_mask, 0b1010);
    assert_eq!(p.match_val, 0b1000);
    assert_eq!(p.write_val, 0b1100);
    assert!(p.has_dont_care);
}

#[test]
fn bitenum_invalid_bit() {
    assert_eq!(bit_pattern(&chars("01z1")), Err('z'));
    let items = vec![BitEnumItem::Variant(chars("0")), BitEnumItem::Variant(chars("2"))];
    assert_eq!(bitenum_patterns(&items), Err(BitEnumError::InvalidBit { item: 1, bit: '2' }));
}

#[test]
fn bitenum_wrong_bit_count() {
    let items = vec![BitEnumItem::Variant(chars("00")), BitEnumItem::Variant(chars("011"))];
    assert_eq!(
        bitenum_patterns(&items),
        Err(BitEnumError::WrongBitCount { item: 1, expected: 2 })
    );
}

#[test]
fn bitenum_no_variants() {
    let items = vec![BitEnumItem::Fallback(chars("Self::A"))];
    assert_eq!(bitenum_patterns(&items), Err(BitEnumError::NoVariants));
    assert_eq!(bitenum_patterns(&[]), Err(BitEnumError::NoVariants));
}

#[test]
fn bitenum_multiple_fallbacks() {
    let items = vec![
        BitEnumItem::Fallback(chars("Self::A")),
        BitEnumItem::Variant(chars("0")),
        BitEnumItem::Fallback(chars("Self::B")),
    ];
    assert_eq!(bitenum_patterns(&items), Err(BitEnumError::MultipleFallbacks { item: 2 }));
}

#[test]
fn bitenum_long_pattern_keeps_low_bits() {
    // 33 bits: the top one falls off a 32-bit pattern
    let mut s = String::from("1");
    for _ in 0..32 {
        s.push('0');
    }
    let p = bit_pattern(&chars(&s)).unwrap();
    assert_eq!(p.match_mask, 0xffff_ffff);
    assert_eq!(p.match_val, 0);
}
