use pannotia::chips::Family;
use pannotia::container::Bitstream;
use pannotia::coordinates::TilePos;
use pannotia::pack::{pack_line_unsupported, pad_lookup, parse_pack_line, try_parse_field, try_parse_line};
use pannotia::padring::{DriveStrength, PadRingExt, PullUpDown};
use pannotia::tiles::generic_routing::{GenericRoutingRefTrait, RMUX};

fn chars(s: &str) -> Vec<char> {
    s.chars().collect()
}

fn pack(b: &mut Bitstream, line: &str) -> Result<(), ()> {
    try_parse_line(b, &chars(line))
}

fn rmux_at(b: &Bitstream, x: u8, y: u8, i: u8) -> RMUX {
    let t = b.tile(TilePos { x, y }).unwrap();
    t.as_generic_routing_tile().rmux(b, i)
}

#[test]
fn field_with_index() {
    let f = chars("rmux[ 12 ]");
    let (name, i) = try_parse_field(&f).unwrap();
    assert_eq!(name, &chars("rmux")[..]);
    assert_eq!(i, 12);
}

#[test]
fn field_without_index_or_closing_bracket() {
    let f = chars("input_en");
    assert_eq!(try_parse_field(&f), Ok((&f[..], 0)));
    let g = chars("rmux[7");
    let (name, i) = try_parse_field(&g).unwrap();
    assert_eq!(name, &chars("rmux")[..]);
    assert_eq!(i, 7);
    assert_eq!(try_parse_field(&chars("rmux[x]")), Err(()));
    assert_eq!(try_parse_field(&chars("rmux[256]")), Err(()));
}

#[test]
fn pack_user_id() {
    let mut b = Bitstream::new(Family::AGRV2K);
    assert_eq!(pack(&mut b, "USERID 0x1234"), Ok(()));
    assert_eq!(b.user_id, 0x1234);
    assert_eq!(pack(&mut b, "  USERID   42  "), Ok(()));
    assert_eq!(b.user_id, 42);
    assert_eq!(pack(&mut b, "USERID twelve"), Err(()));
    assert_eq!(b.user_id, 42);
}

#[test]
fn pack_skips_blank_and_comment_lines() {
    let mut b = Bitstream::new(Family::AGRV2K);
    assert_eq!(pack(&mut b, ""), Ok(()));
    assert_eq!(pack(&mut b, "   \t"), Ok(()));
    assert_eq!(pack(&mut b, "// tile[14, 1].rmux[3] = #5"), Ok(()));
    assert_eq!(rmux_at(&b, 14, 1, 3), RMUX::Unset);
}

#[test]
fn pack_tile_rmux() {
    let mut b = Bitstream::new(Family::AGRV2K);
    assert_eq!(pack(&mut b, "tile[14, 1].rmux[3] = #5 // comment"), Ok(()));
    assert_eq!(rmux_at(&b, 14, 1, 3), RMUX::I(5));
    assert_eq!(pack(&mut b, "tile[13,2].rmux[95]=#20"), Ok(()));
    assert_eq!(rmux_at(&b, 13, 2, 95), RMUX::I(20));
    assert_eq!(pack(&mut b, "tile[14, 1].rmux[3] = <unset>"), Ok(()));
    assert_eq!(rmux_at(&b, 14, 1, 3), RMUX::Unset);
}

#[test]
fn pack_tile_errors_leave_bitstream_alone() {
    let mut b = Bitstream::new(Family::AGRV2K);
    assert_eq!(pack(&mut b, "tile[14, 1].rmux[3] = #5"), Ok(()));
    let before = b.save();
    assert_eq!(pack(&mut b, "tile[99, 1].rmux[0] = #1"), Err(()));
    assert_eq!(pack(&mut b, "tile[14, 1].rmux[96] = #1"), Err(()));
    assert_eq!(pack(&mut b, "tile[14, 1].rmux[3] = #21"), Err(()));
    assert_eq!(pack(&mut b, "tile[1, 0].rmux[0] = #1"), Err(()));
    assert_eq!(pack(&mut b, "tile[14, 1, 2].rmux[3] = #1"), Err(()));
    assert_eq!(pack(&mut b, "tile[14, 1].lut[3] = #1"), Err(()));
    assert_eq!(pack(&mut b, "tile[14, 1]rmux[3] = #1"), Err(()));
    assert_eq!(pack(&mut b, "tile[14, 1].rmux[3] #1"), Err(()));
    assert_eq!(pack(&mut b, "wire[14, 1].rmux[3] = #1"), Err(()));
    assert_eq!(b.save(), before);
    assert_eq!(rmux_at(&b, 14, 1, 3), RMUX::I(5));
}

#[test]
fn pack_pad_settings() {
    let mut b = Bitstream::new(Family::AGRV2K);
    let pad0 = pad_lookup(TilePos { x: 14, y: 13 }, 0).unwrap();
    let pad1 = pad_lookup(TilePos { x: 14, y: 13 }, 2).unwrap();
    assert_eq!((pad0, pad1), (0, 1));
    assert_eq!(pack(&mut b, "pad[14, 13, 0].input_en = 1"), Ok(()));
    assert!(b.pad_input_en(0));
    assert_eq!(pack(&mut b, "pad[14, 13, 0].input_en = FALSE"), Ok(()));
    assert!(!b.pad_input_en(0));
    assert_eq!(pack(&mut b, "pad[14, 13, 0].drive_strength = 8 mA"), Ok(()));
    assert_eq!(b.pad_drive_strength(0), DriveStrength::_8MA);
    assert_eq!(pack(&mut b, "pad[14, 13, 0].term = PullUp"), Ok(()));
    assert_eq!(b.pad_termination(0), PullUpDown::Up);
    assert_eq!(pack(&mut b, "pad[14,13,2].open_drain = t"), Ok(()));
    assert!(b.pad_open_drain(1));
    assert_eq!(pack(&mut b, "pad[14,13,2].reduced_slew = true"), Ok(()));
    assert!(b.pad_reduced_slew(1));
    assert_eq!(pack(&mut b, "pad[14,13,2].pullup_to_fabric = 1 // on"), Ok(()));
    assert!(b.pad_pullup_to_fabric(1));
}

#[test]
fn pack_pad_errors() {
    let mut b = Bitstream::new(Family::AGRV2K);
    let before = b.save();
    assert_eq!(pack(&mut b, "pad[14, 13, 1].input_en = 1"), Err(()));
    assert_eq!(pack(&mut b, "pad[14, 13].input_en = 1"), Err(()));
    assert_eq!(pack(&mut b, "pad[14, 13, 0].input_en = yes"), Err(()));
    assert_eq!(pack(&mut b, "pad[14, 13, 0].drive_strength = 3 mA"), Err(()));
    assert_eq!(pack(&mut b, "pad[14, 13, 0].term = up"), Err(()));
    assert_eq!(pack(&mut b, "pad[14, 13, 0].slew = 1"), Err(()));
    assert_eq!(b.save(), before);
}

#[test]
fn pack_unsupported_lines() {
    let b = Bitstream::new(Family::AGRV2K);
    let l = chars("tile[13, 1].init_data[0] = 0");
    let cmd = parse_pack_line(&l).unwrap();
    assert!(pack_line_unsupported(&b, &cmd));
    let l = chars("USERID -5");
    let cmd = parse_pack_line(&l).unwrap();
    assert!(pack_line_unsupported(&b, &cmd));
    let l = chars("tile[14, 1].init_data[0] = 0");
    let cmd = parse_pack_line(&l).unwrap();
    assert!(!pack_line_unsupported(&b, &cmd));
}

#[test]
fn pack_user_id_number_forms() {
    let mut b = Bitstream::new(Family::AGRV2K);
    assert_eq!(pack(&mut b, "USERID 0xBEEF_0001"), Ok(()));
    assert_eq!(b.user_id, 0xbeef_0001);
    assert_eq!(pack(&mut b, "USERID 0b1010"), Ok(()));
    assert_eq!(b.user_id, 10);
    assert_eq!(pack(&mut b, "USERID 0O17"), Ok(()));
    assert_eq!(b.user_id, 15);
    assert_eq!(pack(&mut b, "USERID 1_000"), Ok(()));
    assert_eq!(b.user_id, 1000);
    assert_eq!(pack(&mut b, "USERID +7"), Ok(()));
    assert_eq!(b.user_id, 7);
    assert_eq!(pack(&mut b, "USERID 4294967295"), Ok(()));
    assert_eq!(b.user_id, 0xffff_ffff);
    assert_eq!(pack(&mut b, "USERID 4294967296"), Err(()));
    assert_eq!(pack(&mut b, "USERID _5"), Err(()));
    assert_eq!(pack(&mut b, "USERID 0x"), Err(()));
    assert_eq!(pack(&mut b, "USERID 0b102"), Err(()));
    assert_eq!(b.user_id, 0xffff_ffff);
}
