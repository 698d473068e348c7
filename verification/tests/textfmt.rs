use pannotia::padring::{DriveStrength, PullUpDown};
use pannotia::routedb::{Direction, WireType};
use pannotia::textfmt::push_dec;
use pannotia::tiles::bram9k::{ClockMode, PortWidth, KMUX, TMUX};
use pannotia::tiles::hard_ip::{Mux13Inv, Mux17InvGeneric};
use pannotia::tiles::io::{IOClockMux, LocalToIOMux, TopBottomIOLocalMux};
use pannotia::tiles::local_lines::IMUX;
use pannotia::tiles::logic::{InputCMode, OMUX};
use pannotia::tiles::{GlobalToLocalMux, Mux2, Mux2Inv, Mux3Inv};

fn text(v: &[char]) -> String {
    v.iter().collect()
}

#[test]
fn decimal_text() {
    for (n, s) in [(0u32, "0"), (7, "7"), (10, "10"), (255, "255"), (4294967295, "4294967295")] {
        let mut v = vec!['x'];
        push_dec(&mut v, n);
        assert_eq!(text(&v), format!("x{}", s));
    }
}

#[test]
fn mux_texts() {
    assert_eq!(text(&GlobalToLocalMux::Unset.to_text()), "<unset>");
    assert_eq!(text(&GlobalToLocalMux::I(5).to_text()), "#5");
    assert_eq!(text(&TMUX::I(14).to_text()), "#14");
    assert_eq!(text(&IMUX::I(26).to_text()), "#26");
    assert_eq!(text(&TopBottomIOLocalMux::Unset.to_text()), "<unset>");
    assert_eq!(text(&Mux2Inv::VCC.to_text()), "VCC");
    assert_eq!(text(&Mux3Inv::GND.to_text()), "GND");
    assert_eq!(text(&KMUX::I { invert: true, i: 11 }.to_text()), "!#11");
    assert_eq!(text(&Mux13Inv::I { invert: false, i: 12 }.to_text()), "#12");
    assert_eq!(text(&Mux17InvGeneric::I { invert: true, i: 16 }.to_text()), "!#16");
    assert_eq!(text(&LocalToIOMux::I { invert: true, i: 3 }.to_text()), "!#3");
    assert_eq!(text(&IOClockMux::ViaGlobalToLocal { invert: true }.to_text()), "!glb2loc");
    assert_eq!(text(&IOClockMux::ViaLocalToClock { invert: false }.to_text()), "loc2clk");
}

#[test]
fn word_texts() {
    assert_eq!(text(&Mux2::_1.to_text()), "#1");
    assert_eq!(text(&PortWidth::X9.to_text()), "9");
    assert_eq!(text(&ClockMode::InputOutput.to_text()), "input_output");
    assert_eq!(text(&InputCMode::Carry.to_text()), "carry");
    assert_eq!(text(&OMUX::FlipFlop.to_text()), "ff");
    assert_eq!(text(&DriveStrength::_16MA.to_text()), "16 mA");
    assert_eq!(text(&PullUpDown::Down.to_text()), "pulldown");
    assert_eq!(text(&Direction::W.to_text()), "W");
    assert_eq!(text(&WireType::T4.to_text()), "T4");
}

#[test]
fn texts_read_back() {
    for m in [Mux2Inv::VCC, Mux2Inv::GND, Mux2Inv::I { invert: true, i: 1 }, Mux2Inv::I { invert: false, i: 0 }] {
        assert_eq!(text(&m.to_text()).parse::<Mux2Inv>(), Ok(m));
    }
    for i in 0..15u8 {
        assert_eq!(text(&TMUX::I(i).to_text()).parse::<TMUX>(), Ok(TMUX::I(i)));
        let k = KMUX::I { invert: i % 2 == 0, i };
        assert_eq!(text(&k.to_text()).parse::<KMUX>(), Ok(k));
    }
    for d in [DriveStrength::_0MA, DriveStrength::_2MA, DriveStrength::_4MA, DriveStrength::_8MA, DriveStrength::_16MA, DriveStrength::_30MA] {
        assert_eq!(text(&d.to_text()).parse::<DriveStrength>(), Ok(d));
    }
    for p in [PortWidth::X36, PortWidth::X18, PortWidth::X9, PortWidth::X4, PortWidth::X2, PortWidth::X1] {
        assert_eq!(text(&p.to_text()).parse::<PortWidth>(), Ok(p));
    }
    for t in [PullUpDown::NoPull, PullUpDown::Down, PullUpDown::Up, PullUpDown::Keeper] {
        assert_eq!(text(&t.to_text()).parse::<PullUpDown>(), Ok(t));
    }
}
