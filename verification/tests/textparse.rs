use pannotia::padring::{DriveStrength, PullUpDown};
use pannotia::tiles::bram9k::{ClockMode, PortWidth, KMUX, TMUX};
use pannotia::tiles::logic::{InputCMode, OMUX};
use pannotia::tiles::{GlobalToLocalMux, Mux2, Mux2Inv, Mux3Inv};
use pannotia::textparse::{parse_dec, parse_inv_helper, parse_noinv_helper, trim, PackerParse};
use pannotia::bitmux::InvertedBool;

fn chars(s: &str) -> Vec<char> {
    s.chars().collect()
}

#[test]
fn noinv_helper() {
    assert_eq!(parse_noinv_helper(&chars("<unset>"), 6), Ok(None));
    assert_eq!(parse_noinv_helper(&chars("#5"), 6), Ok(Some(5)));
    assert_eq!(parse_noinv_helper(&chars("# 3 "), 6), Ok(Some(3)));
    assert_eq!(parse_noinv_helper(&chars("#\u{3000}2"), 6), Ok(Some(2)));
    assert_eq!(parse_noinv_helper(&chars("#6"), 6), Err(()));
    assert_eq!(parse_noinv_helper(&chars("5"), 6), Err(()));
    assert_eq!(parse_noinv_helper(&chars("<UNSET>"), 6), Err(()));
}

#[test]
fn inv_helper() {
    assert_eq!(parse_inv_helper(&chars("#1"), 2), Ok((false, 1)));
    assert_eq!(parse_inv_helper(&chars("! #0"), 2), Ok((true, 0)));
    assert_eq!(parse_inv_helper(&chars("!#+1"), 2), Ok((true, 1)));
    assert_eq!(parse_inv_helper(&chars("#2"), 2), Err(()));
    assert_eq!(parse_inv_helper(&chars(" #1"), 2), Err(()));
}

#[test]
fn decimal_numbers() {
    assert_eq!(parse_dec(&chars("0042"), 255), Some(42));
    assert_eq!(parse_dec(&chars("+7"), 255), Some(7));
    assert_eq!(parse_dec(&chars("255"), 255), Some(255));
    assert_eq!(parse_dec(&chars("256"), 255), None);
    assert_eq!(parse_dec(&chars("+"), 255), None);
    assert_eq!(parse_dec(&chars(""), 255), None);
    assert_eq!(parse_dec(&chars("-1"), 255), None);
    assert_eq!(parse_dec(&chars("4294967295"), u32::MAX), Some(u32::MAX));
    assert_eq!(parse_dec(&chars("4294967296"), u32::MAX), None);
}

#[test]
fn trimming() {
    let s = chars(" \t ab c\r\n");
    assert_eq!(trim(&s, false), &chars("ab c")[..]);
    let u = chars("\u{a0}x\u{2003}");
    assert_eq!(trim(&u, false), &u[..]);
    assert_eq!(trim(&u, true), &chars("x")[..]);
}

#[test]
fn mux_settings_from_text() {
    assert_eq!("0".parse::<Mux2>(), Ok(Mux2::_0));
    assert_eq!("#1".parse::<Mux2>(), Ok(Mux2::_1));
    assert_eq!("2".parse::<Mux2>(), Err(()));
    assert_eq!("#5".parse::<GlobalToLocalMux>(), Ok(GlobalToLocalMux::I(5)));
    assert_eq!("<unset>".parse::<GlobalToLocalMux>(), Ok(GlobalToLocalMux::Unset));
    assert_eq!("Vcc".parse::<Mux2Inv>(), Ok(Mux2Inv::VCC));
    assert_eq!("GND".parse::<Mux3Inv>(), Ok(Mux3Inv::GND));
    assert_eq!("!#2".parse::<Mux3Inv>(), Ok(Mux3Inv::I { invert: true, i: 2 }));
    assert_eq!("#2".parse::<Mux2Inv>(), Err(()));
    assert_eq!("#14".parse::<TMUX>(), Ok(TMUX::I(14)));
    assert_eq!("#15".parse::<TMUX>(), Err(()));
    assert_eq!("!#14".parse::<KMUX>(), Ok(KMUX::I { invert: true, i: 14 }));
}

#[test]
fn word_settings_from_text() {
    assert_eq!("36".parse::<PortWidth>(), Ok(PortWidth::X36));
    assert_eq!("3".parse::<PortWidth>(), Err(()));
    assert_eq!("Read_Write".parse::<ClockMode>(), Ok(ClockMode::ReadWrite));
    assert_eq!("FF".parse::<InputCMode>(), Ok(InputCMode::FlipFlop));
    assert_eq!("comb".parse::<OMUX>(), Ok(OMUX::Combinatorial));
    assert_eq!("30 MA".parse::<DriveStrength>(), Ok(DriveStrength::_30MA));
    assert_eq!("30mA".parse::<DriveStrength>(), Err(()));
    assert_eq!("none".parse::<PullUpDown>(), Ok(PullUpDown::NoPull));
    assert_eq!("Keeper".parse::<PullUpDown>(), Ok(PullUpDown::Keeper));
}

#[test]
fn flags_from_text() {
    assert_eq!(<bool as PackerParse>::try_parse(&chars("T")), Ok(true));
    assert_eq!(<bool as PackerParse>::try_parse(&chars("False")), Ok(false));
    assert_eq!(<bool as PackerParse>::try_parse(&chars("2")), Err(()));
    assert_eq!(<InvertedBool as PackerParse>::try_parse(&chars("1")), Ok(InvertedBool(true)));
}
