use pannotia::bitmux::InvertedBool;
use pannotia::chips::Family;
use pannotia::coordinates::TilePos;
use pannotia::prettyprint::{PrettyPrintGeneric, PrettyPrintWrap};
use pannotia::tiles::bram9k::KMUX;
use pannotia::tiles::io::{IOLocalToClockMux, LocalToIOMux, TopBottomIOLocalMux};
use pannotia::tiles::local_lines::IMUX;
use pannotia::tiles::logic::LUT;
use pannotia::tiles::TileType;

fn show<T>(x: T, pos: TilePos, ty: TileType, i: u8) -> String
where
    PrettyPrintWrap<T>: PrettyPrintGeneric,
{
    PrettyPrintWrap(x)
        .pretty_print(Family::AGRV2K, pos, ty, i)
        .iter()
        .collect()
}

#[test]
fn flags_and_luts() {
    let p = TilePos { x: 5, y: 3 };
    assert_eq!(show(true, p, TileType::Logic, 0), "1");
    assert_eq!(show(InvertedBool(false), p, TileType::Logic, 0), "0");
    assert_eq!(show(LUT(0xbeef), p, TileType::Logic, 0), "0xbeef");
    assert_eq!(show(LUT(0x0a0), p, TileType::Logic, 0), "0x00a0");
}

#[test]
fn imux_with_source() {
    let p = TilePos { x: 5, y: 3 };
    assert_eq!(show(IMUX::Unset, p, TileType::Logic, 0), "<unset>");
    let s = show(IMUX::I(0), p, TileType::Logic, 0);
    assert!(s.starts_with("#0\t// "));
}

#[test]
fn kmux_with_source() {
    let p = TilePos { x: 13, y: 3 };
    let s = show(KMUX::I { invert: true, i: 2 }, p, TileType::BRAM, 1);
    assert!(s.starts_with("!#2\t// tmux["));
    assert_eq!(show(KMUX::VCC, p, TileType::BRAM, 1), "VCC");
}

#[test]
fn io_muxes_with_source() {
    let top = TilePos { x: 15, y: 13 };
    assert_eq!(
        show(IOLocalToClockMux::I(0), top, TileType::TopBottomIO, 0),
        "#0\t// local_line[3]"
    );
    let side = TilePos { x: 0, y: 2 };
    assert_eq!(
        show(IOLocalToClockMux::I(1), side, TileType::LeftRightIO, 0),
        "#1\t// local_line[10]"
    );
    assert_eq!(
        show(LocalToIOMux::I { invert: false, i: 1 }, side, TileType::LeftRightIO, 0),
        "#1\t// local_line[6]"
    );
    let s = show(TopBottomIOLocalMux::I(6), top, TileType::TopBottomIO, 0);
    assert_eq!(s, "#6\t// glb2loc[0]");
}
