use pannotia::chips::Family;
use pannotia::container::Bitstream;
use pannotia::coordinates::GlobalBitPos;
use pannotia::rawdump::{dump_raw_bits, image_data};

#[test]
fn raw_listing_layout() {
    let b = Bitstream::new(Family::AGRV2K);
    let s: String = dump_raw_bits(&b).iter().collect();
    let lines: Vec<&str> = s.split('\n').collect();
    assert_eq!(lines[0], "// group 0 chain 0");
    // 860 rows of 920 bits, then an empty line
    for y in 0..860 {
        assert_eq!(lines[1 + y].len(), 920);
    }
    assert_eq!(lines[861], "");
    assert_eq!(lines[862], "// group 1 chain 0");
    assert_eq!(lines[863].len(), 834);
    assert_eq!(lines[864], "");
    assert_eq!(lines[865], "// group 1 chain 1");
    assert_eq!(lines[866].len(), 239);
    assert_eq!(lines[867], "");
    assert_eq!(lines[868], "");
    assert_eq!(lines.len(), 869);
}

#[test]
fn raw_listing_shows_bits() {
    let mut b = Bitstream::new(Family::AGRV2K);
    b.set_logic_array_bit(GlobalBitPos { x: 3, y: 2 }, true);
    b.set_logic_array_bit(GlobalBitPos { x: 4, y: 2 }, false);
    let s: String = dump_raw_bits(&b).iter().collect();
    let row: Vec<char> = s.split('\n').nth(3).unwrap().chars().collect();
    assert_eq!(row[3], '1');
    assert_eq!(row[4], '0');
}

#[test]
fn image_rows_msb_first() {
    let mut b = Bitstream::new(Family::AGRV2K);
    for x in 0..16 {
        b.set_logic_array_bit(GlobalBitPos { x, y: 1 }, false);
    }
    b.set_logic_array_bit(GlobalBitPos { x: 0, y: 1 }, true);
    b.set_logic_array_bit(GlobalBitPos { x: 9, y: 1 }, true);
    let data = image_data(&b);
    assert_eq!(data.len(), 860 * 115);
    assert_eq!(data[115], 0b1000_0000);
    assert_eq!(data[116], 0b0100_0000);
}
