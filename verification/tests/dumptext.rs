use pannotia::chips::Family;
use pannotia::container::Bitstream;
use pannotia::coordinates::TilePos;
use pannotia::dumptext::{
    dump_pads, dump_routing, pad_field_line, print_function_input_source, tile_field_line,
    tile_pos_text,
};
use pannotia::padring::{pad_i_to_bit_i, DriveStrength, PadRingExt, PullUpDown};
use pannotia::pack::try_parse_line;
use pannotia::routedb::FunctionInputSource;
use pannotia::tiles::generic_routing::{GenericRoutingRefTrait, GenericRoutingRefMutTrait, RMUX};

fn text(v: &[char]) -> String {
    v.iter().collect()
}

fn chars(s: &str) -> Vec<char> {
    s.chars().collect()
}

#[test]
fn field_line_text() {
    let l = tile_field_line(TilePos { x: 14, y: 3 }, &chars("rmux"), 7, &chars("#12"));
    assert_eq!(text(&l), "tile[14, 3].rmux[7] = #12");
    assert_eq!(text(&tile_pos_text(TilePos { x: 0, y: 255 })), "0, 255");
}

#[test]
fn dump_then_pack_gives_the_same_routing() {
    let mut a = Bitstream::new(Family::AGRV2K);
    let pos = TilePos { x: 13, y: 2 };
    let t = a.tile(pos).unwrap().as_generic_routing_tile();
    t.set_rmux(&mut a, 0, RMUX::I(20));
    t.set_rmux(&mut a, 41, RMUX::I(3));
    t.set_rmux(&mut a, 95, RMUX::I(0));
    let lines = dump_routing(&a, pos).unwrap();
    let shown: Vec<String> = lines.iter().map(|l| text(l)).collect();
    assert_eq!(
        shown,
        vec![
            "tile[13, 2].rmux[0] = #20".to_string(),
            "tile[13, 2].rmux[41] = #3".to_string(),
            "tile[13, 2].rmux[95] = #0".to_string(),
        ]
    );
    let mut b = Bitstream::new(Family::AGRV2K);
    for l in &lines {
        assert_eq!(try_parse_line(&mut b, l), Ok(()));
    }
    assert_eq!(b.save(), a.save());
    let tb = b.tile(pos).unwrap().as_generic_routing_tile();
    assert_eq!(tb.rmux(&b, 41), RMUX::I(3));
}

#[test]
fn dump_of_new_tile_is_empty() {
    let b = Bitstream::new(Family::AGRV2K);
    assert_eq!(dump_routing(&b, TilePos { x: 5, y: 3 }), Some(vec![]));
}

#[test]
fn function_input_sources() {
    let p = TilePos { x: 5, y: 3 };
    assert_eq!(text(&print_function_input_source(FunctionInputSource::RMUX(17), p)), "rmux[17]");
    assert_eq!(
        text(&print_function_input_source(FunctionInputSource::LEOutput(4), p)),
        "this_output[4]"
    );
    assert_eq!(
        text(&print_function_input_source(FunctionInputSource::RightNeighborWire(2), p)),
        "tile[6, 3] T1_W[2]"
    );
    assert_eq!(
        text(&print_function_input_source(FunctionInputSource::LeftNeighborWire(9), p)),
        "tile[4, 3] T1_E[9]"
    );
    assert_eq!(text(&print_function_input_source(FunctionInputSource::Unused, p)), "vcc");
}

#[test]
fn pad_dump_of_new_bitstream_is_empty() {
    let b = Bitstream::new(Family::AGRV2K);
    assert_eq!(dump_pads(&b), Some(vec![]));
}

#[test]
fn pad_dump_shows_changed_settings() {
    let mut b = Bitstream::new(Family::AGRV2K);
    b.set_pad_input_en(3, true);
    b.set_pad_drive_strength(3, DriveStrength::_16MA);
    b.set_pad_open_drain(70, true);
    b.set_pad_termination(70, PullUpDown::Up);
    let lines: Vec<String> = dump_pads(&b).unwrap().iter().map(|l| text(l)).collect();
    assert_eq!(
        lines,
        vec![
            "pad[3].input_en = 1".to_string(),
            "pad[3].drive_strength = 16 mA".to_string(),
            "pad[70].open_drain = 1".to_string(),
            "pad[70].term = pullup".to_string(),
        ]
    );
}

#[test]
fn pad_dump_refuses_invalid_drive_strength() {
    let mut b = Bitstream::new(Family::AGRV2K);
    // drive strength bits 0b0011 hold no drive strength
    b.set_pad_drive_strength(5, DriveStrength::_2MA);
    assert!(dump_pads(&b).is_some());
    let base = pad_i_to_bit_i(5);
    b.set_aux_array_bit(1, 0, base - 5, true);
    assert_eq!(dump_pads(&b), None);
}

#[test]
fn pad_field_line_text() {
    let field: Vec<char> = "term".chars().collect();
    let value: Vec<char> = "keeper".chars().collect();
    assert_eq!(text(&pad_field_line(12, &field, &value)), "pad[12].term = keeper");
}
