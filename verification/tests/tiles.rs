use pannotia::chips::Family;
use pannotia::container::Bitstream;
use pannotia::coordinates::TilePos;
use pannotia::tiles::bram9k::KMUX;
use pannotia::tiles::local_lines::IMUX;
use pannotia::tiles::logic::{InputCMode, LUT, OMUX};
use pannotia::padring::{DriveStrength, PadRingExt, PullUpDown};
use pannotia::tiles::io::IOClockMux;
use pannotia::tiles::{GlobalToLocalMux, Mux2Inv, Mux3Inv, TileRefTrait, TileType};

fn new_bitstream() -> Bitstream {
    Bitstream::new(Family::AGRV2K)
}

#[test]
fn tile_lookup() {
    let b = new_bitstream();
    assert!(b.tile(TilePos { x: 0, y: 0 }).is_none());
    assert!(b.tile(TilePos { x: 23, y: 1 }).is_none());
    let t = b.tile(TilePos { x: 14, y: 1 }).unwrap();
    assert_eq!(t.tile_type(), TileType::Logic);
    assert_eq!(b.tile(TilePos { x: 22, y: 5 }).unwrap().tile_type(), TileType::PLL);
}

#[test]
fn logic_tile_settings_read_back() {
    let mut b = new_bitstream();
    let t = b.tile(TilePos { x: 15, y: 7 }).unwrap().as_logic_tile();
    let lut4 = t.lut(&b, 4);
    t.set_lut(&mut b, 3, LUT(0xbeef));
    t.set_lut_inp_a(&mut b, 3, IMUX::I(17));
    t.set_lc_output(&mut b, 3, 1, OMUX::FlipFlop);
    t.set_lc_input_c_mode(&mut b, 3, InputCMode::Carry);
    t.set_clock_mux(&mut b, 1, Mux3Inv::I { invert: true, i: 1 });
    t.set_clock_en_mux(&mut b, 0, Mux2Inv::GND);
    t.set_global_to_local(&mut b, 2, GlobalToLocalMux::I(3));
    assert_eq!(t.lut(&b, 3), LUT(0xbeef));
    assert_eq!(t.lut(&b, 4), lut4);
    assert_eq!(t.lut_inp_a(&b, 3), IMUX::I(17));
    assert_eq!(t.lc_output(&b, 3, 1), OMUX::FlipFlop);
    assert_eq!(t.lc_output(&b, 3, 0), OMUX::Combinatorial);
    assert_eq!(t.lc_input_c_mode(&b, 3), InputCMode::Carry);
    assert_eq!(t.clock_mux(&b, 1), Mux3Inv::I { invert: true, i: 1 });
    assert_eq!(t.clock_en_mux(&b, 0), Mux2Inv::GND);
    assert_eq!(t.global_to_local(&b, 2), GlobalToLocalMux::I(3));
    // the settings survive saving and reading back
    let c = Bitstream::read(&b.save()).unwrap();
    let tc = c.tile(TilePos { x: 15, y: 7 }).unwrap().as_logic_tile();
    assert_eq!(tc.lut(&c, 3), LUT(0xbeef));
    assert_eq!(tc.clock_mux(&c, 1), Mux3Inv::I { invert: true, i: 1 });
}

#[test]
fn bram_tile_settings_read_back() {
    let mut b = new_bitstream();
    let t = b.tile(TilePos { x: 13, y: 3 }).unwrap().as_bram9k_tile();
    t.set_kmux(&mut b, 4, KMUX::I { invert: true, i: 9 });
    t.set_read_en_a(&mut b, KMUX::GND);
    assert_eq!(t.kmux(&b, 4), KMUX::I { invert: true, i: 9 });
    assert_eq!(t.read_en_a(&b), KMUX::GND);
    let mut data = vec![false; 9216];
    data[0] = true;
    data[1000] = true;
    data[9215] = true;
    t.set_init_data(&mut b, &data);
    let mut back = vec![false; 9216];
    t.init_data(&b, &mut back);
    assert_eq!(back, data);
}

#[test]
fn pll_settings_read_back() {
    let mut b = new_bitstream();
    let t = b.tile(TilePos { x: 22, y: 5 }).unwrap().as_pll_tile();
    t.set_out_div_lo_time(&mut b, 2, 0x5a);
    t.set_in_div_hi_time(&mut b, 7);
    t.set_out_enable(&mut b, 1, true);
    assert_eq!(t.out_div_lo_time(&b, 2), 0x5a);
    assert_eq!(t.in_div_hi_time(&b), 7);
    assert!(t.out_enable(&b, 1));
    assert!(!t.out_enable(&b, 0));
}

#[test]
fn bram_tile_reports_bram_type() {
    let b = new_bitstream();
    let t = b.tile(TilePos { x: 13, y: 1 }).unwrap();
    assert_eq!(t.tile_type(), TileType::BRAM);
    let r = t.as_bram9k_tile();
    assert_eq!(r.pos(), TilePos { x: 13, y: 1 });
    assert_eq!(r.tile_type(), TileType::BRAM);
}

#[test]
fn mux3_inv_bits_round_trip() {
    assert_eq!(Mux3Inv::from_bits(0b0100), Mux3Inv::I { invert: false, i: 2 });
    assert_eq!(Mux3Inv::from_bits(0b1100), Mux3Inv::I { invert: true, i: 2 });
    assert_eq!(Mux3Inv::from_bits(0b0001), Mux3Inv::I { invert: false, i: 0 });
    assert_eq!(Mux3Inv::from_bits(0b1010), Mux3Inv::I { invert: true, i: 1 });
    assert_eq!(Mux3Inv::from_bits(0b0000), Mux3Inv::VCC);
    assert_eq!(Mux3Inv::from_bits(0b1000), Mux3Inv::GND);
    for x in [
        Mux3Inv::VCC,
        Mux3Inv::GND,
        Mux3Inv::I { invert: false, i: 0 },
        Mux3Inv::I { invert: false, i: 1 },
        Mux3Inv::I { invert: false, i: 2 },
        Mux3Inv::I { invert: true, i: 0 },
        Mux3Inv::I { invert: true, i: 1 },
        Mux3Inv::I { invert: true, i: 2 },
    ] {
        assert_eq!(Mux3Inv::from_bits(x.to_bits()), x);
    }
}

#[test]
fn logic_clock_mux_third_choice_reads_back() {
    let mut b = new_bitstream();
    let t = b.tile(TilePos { x: 15, y: 7 }).unwrap().as_logic_tile();
    t.set_clock_mux(&mut b, 0, Mux3Inv::I { invert: false, i: 2 });
    assert_eq!(t.clock_mux(&b, 0), Mux3Inv::I { invert: false, i: 2 });
}

#[test]
fn io_clock_mux_bits() {
    assert_eq!(IOClockMux::ViaGlobalToLocal { invert: true }.to_bits(), 0b110);
    assert_eq!(IOClockMux::from_bits(0b110), IOClockMux::ViaGlobalToLocal { invert: true });
    assert_eq!(IOClockMux::from_bits(0b001), IOClockMux::ViaLocalToClock { invert: false });
    assert_eq!(IOClockMux::from_bits(0b100), IOClockMux::GND);
    assert_eq!(IOClockMux::from_bits(0b000), IOClockMux::VCC);
}

#[test]
fn lut_bits_are_inverted() {
    assert_eq!(LUT::from_bits(0), LUT(0xffff));
    assert_eq!(LUT::from_bits(0), LUT::default());
    assert_eq!(LUT::from_bits(0x00ff), LUT(0xff00));
    assert_eq!(LUT(0xbeef).to_bits(), 0x4110);
    assert_eq!(LUT::from_bits(LUT(0x1234).to_bits()), LUT(0x1234));
}

#[test]
fn new_bitstream_defaults() {
    let b = new_bitstream();
    assert_eq!(b.user_id, 0xffff);
    for p in 0..79u8 {
        assert_eq!(b.pad_drive_strength(p), DriveStrength::_4MA);
        assert_eq!(b.pad_termination(p), PullUpDown::NoPull);
        assert!(!b.pad_input_en(p));
    }
    let t = b.tile(TilePos { x: 22, y: 5 }).unwrap().as_pll_tile();
    assert_eq!(t.analog_icp(&b), 4);
    assert_eq!(t.analog_rlpf(&b), 1);
    assert_eq!(t.analog_rref(&b), 1);
    assert_eq!(t.analog_rvi(&b), 1);
    assert_eq!(t.analog_ivco(&b), 2);
}

#[test]
fn family_by_name() {
    let name: Vec<char> = "agrv2k".chars().collect();
    assert_eq!(Family::from_name(&name), Some(Family::AGRV2K));
    let name: Vec<char> = "AGRV2K".chars().collect();
    assert_eq!(Family::from_name(&name), Some(Family::AGRV2K));
    let name: Vec<char> = "AgRv2K".chars().collect();
    assert_eq!(Family::from_name(&name), Some(Family::AGRV2K));
    let name: Vec<char> = "agrv2".chars().collect();
    assert_eq!(Family::from_name(&name), None);
    let name: Vec<char> = "xyz".chars().collect();
    assert_eq!(Family::from_name(&name), None);
}
