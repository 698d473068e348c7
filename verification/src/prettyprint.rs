//! Showing a setting together with what its choice connects to
//!
//! A dump shows a mux setting by its text, and for some muxes adds, after a tab and
//! `//`, where the chosen input comes from: another mux, a logic cell's output, a local
//! line, or a routing wire named by its absolute position.

use vstd::prelude::*;

use crate::bitmux::InvertedBool;
use crate::chips::{spec_tile_dims, Family};
use crate::coordinates::TilePos;
use crate::dumptext::{
    print_function_input_source, push_text, spec_function_input_text, spec_tile_pos_text,
    tile_pos_text,
};
use crate::pack::spec_tile_text;
use crate::routedb::{
    bram_imux_input, kmux_input, left_right_io_clock_input, left_right_io_signal_input,
    logic_imux_input, spec_bram_imux_input, spec_kmux_input, spec_left_right_io_clock_input,
    spec_left_right_io_signal_input, spec_logic_imux_input, spec_step, spec_to_absolute,
    spec_top_bottom_io_clock_input, spec_top_bottom_io_local_line_input,
    spec_top_bottom_io_signal_input, top_bottom_io_clock_input, top_bottom_io_local_line_input,
    top_bottom_io_signal_input, AbsoluteRoutingWire, Direction, FunctionInputSource,
    IOLocalLineSource, RoutingWire,
};
use crate::textfmt::{
    push_dec, spec_dec_text, spec_direction_text, spec_imux_text, spec_io_local_to_clock_text,
    spec_kmux_text, spec_local_to_io_text, spec_top_bottom_io_local_text, spec_wire_type_text,
};
use crate::tiles::bram9k::KMUX;
use crate::tiles::io::{IOLocalToClockMux, LocalToIOMux, TopBottomIOLocalMux};
use crate::tiles::local_lines::IMUX;
use crate::tiles::logic::LUT;
use crate::tiles::TileType;

verus! {

/// A setting, to be shown with what its choice connects to
pub struct PrettyPrintWrap<T>(pub T);

/// Settings that a dump shows, some with what their choice connects to
pub trait PrettyPrintGeneric {
    /// Can the setting of mux `i` of the tile at `tile_pos` be shown?
    spec fn spec_can_show(&self, family: Family, tile_pos: TilePos, tile_type: TileType, i: u8) -> bool;

    /// What a dump shows of the setting of mux `i` of the tile at `tile_pos`
    spec fn spec_shown(&self, family: Family, tile_pos: TilePos, tile_type: TileType, i: u8) -> Seq<
        char,
    >;

    /// What a dump shows of the setting of mux `i` of the tile at `tile_pos`
    fn pretty_print(&self, family: Family, tile_pos: TilePos, tile_type: TileType, i: u8) -> (r: Vec<
        char,
    >)
        requires
            self.spec_can_show(family, tile_pos, tile_type, i),
        ensures
            r@ == self.spec_shown(family, tile_pos, tile_type, i),
    ;
}

/// `\t// ` before what a choice connects to
pub open spec fn spec_note_start() -> Seq<char> {
    seq!['\t', '/', '/', ' ']
}

fn push_note_start(out: &mut Vec<char>)
    ensures
        final(out)@ == old(out)@ + spec_note_start(),
{
    out.push('\t');
    out.push('/');
    out.push('/');
    out.push(' ');
    proof {
        assert(final(out)@ =~= old(out)@ + spec_note_start());
    }
}

/// `name[n]`
pub open spec fn spec_name_index_text(name: Seq<char>, n: nat) -> Seq<char> {
    name + seq!['['] + spec_dec_text(n) + seq![']']
}

fn push_name_index(out: &mut Vec<char>, name: &[char], n: u32)
    ensures
        final(out)@ == old(out)@ + spec_name_index_text(name@, n as nat),
{
    push_text(out, name);
    out.push('[');
    push_dec(out, n);
    out.push(']');
    proof {
        assert(final(out)@ =~= old(out)@ + spec_name_index_text(name@, n as nat));
    }
}

/// `local_line`
pub open spec fn spec_local_line_text() -> Seq<char> {
    seq!['l', 'o', 'c', 'a', 'l', '_', 'l', 'i', 'n', 'e']
}

/// `1` or `0`
pub open spec fn spec_flag_text(b: bool) -> Seq<char> {
    if b {
        seq!['1']
    } else {
        seq!['0']
    }
}

impl PrettyPrintGeneric for PrettyPrintWrap<bool> {
    open spec fn spec_can_show(&self, family: Family, tile_pos: TilePos, tile_type: TileType, i: u8) -> bool {
        true
    }

    open spec fn spec_shown(&self, family: Family, tile_pos: TilePos, tile_type: TileType, i: u8) -> Seq<char> {
        spec_flag_text(self.0)
    }

    fn pretty_print(&self, family: Family, tile_pos: TilePos, tile_type: TileType, i: u8) -> (r: Vec<char>) {
        let mut out: Vec<char> = Vec::new();
        out.push(if self.0 {
            '1'
        } else {
            '0'
        });
        proof {
            assert(out@ =~= spec_flag_text(self.0));
        }
        out
    }
}

impl PrettyPrintGeneric for PrettyPrintWrap<InvertedBool> {
    open spec fn spec_can_show(&self, family: Family, tile_pos: TilePos, tile_type: TileType, i: u8) -> bool {
        true
    }

    open spec fn spec_shown(&self, family: Family, tile_pos: TilePos, tile_type: TileType, i: u8) -> Seq<char> {
        spec_flag_text((self.0).0)
    }

    fn pretty_print(&self, family: Family, tile_pos: TilePos, tile_type: TileType, i: u8) -> (r: Vec<char>) {
        let mut out: Vec<char> = Vec::new();
        out.push(if (self.0).0 {
            '1'
        } else {
            '0'
        });
        proof {
            assert(out@ =~= spec_flag_text((self.0).0));
        }
        out
    }
}

/// The lower-case hexadecimal digit of `d`
pub open spec fn spec_hex_digit(d: nat) -> char {
    if d < 10 {
        ((d + 48) as u32) as char
    } else {
        ((d + 87) as u32) as char
    }
}

/// `0x` and four lower-case hexadecimal digits
pub open spec fn spec_hex4_text(v: u16) -> Seq<char> {
    seq![
        '0',
        'x',
        spec_hex_digit((v / 4096) as nat),
        spec_hex_digit((v / 256 % 16) as nat),
        spec_hex_digit((v / 16 % 16) as nat),
        spec_hex_digit((v % 16) as nat),
    ]
}

fn hex_digit(d: u16) -> (r: char)
    requires
        d < 16,
    ensures
        r == spec_hex_digit(d as nat),
{
    let table = [
        '0', '1', '2', '3', '4', '5', '6', '7', '8', '9', 'a', 'b', 'c', 'd', 'e', 'f',
    ];
    let c = table[d as usize];
    proof {
        assert(table@[d as int] == spec_hex_digit(d as nat));
    }
    c
}

impl PrettyPrintGeneric for PrettyPrintWrap<LUT> {
    open spec fn spec_can_show(&self, family: Family, tile_pos: TilePos, tile_type: TileType, i: u8) -> bool {
        true
    }

    open spec fn spec_shown(&self, family: Family, tile_pos: TilePos, tile_type: TileType, i: u8) -> Seq<char> {
        spec_hex4_text((self.0).0)
    }

    fn pretty_print(&self, family: Family, tile_pos: TilePos, tile_type: TileType, i: u8) -> (r: Vec<char>) {
        let v = (self.0).0;
        let mut out: Vec<char> = Vec::new();
        out.push('0');
        out.push('x');
        out.push(hex_digit(v / 4096));
        out.push(hex_digit(v / 256 % 16));
        out.push(hex_digit(v / 16 % 16));
        out.push(hex_digit(v % 16));
        proof {
            assert(out@ =~= spec_hex4_text(v));
        }
        out
    }
}

/// What an input of a LUT or BRAM mux takes, for mux `i` choosing input `k`
pub open spec fn spec_imux_source(tile_type: TileType, i: u8, k: u8) -> FunctionInputSource {
    if tile_type == TileType::BRAM {
        spec_bram_imux_input(i, k)
    } else {
        spec_logic_imux_input(i / 4, i % 4, k)
    }
}

/// Does the tile at `tile_pos` have the neighbour that a source names?
pub open spec fn spec_source_shown(src: FunctionInputSource, tile_pos: TilePos) -> bool {
    &&& src matches FunctionInputSource::RightNeighborWire(_) ==> spec_step(tile_pos, Direction::E) is Some
    &&& src matches FunctionInputSource::LeftNeighborWire(_) ==> spec_step(tile_pos, Direction::W) is Some
}

impl PrettyPrintGeneric for PrettyPrintWrap<IMUX> {
    open spec fn spec_can_show(&self, family: Family, tile_pos: TilePos, tile_type: TileType, i: u8) -> bool {
        match self.0 {
            IMUX::I(k) => i < 64 && k < 27 && spec_source_shown(
                spec_imux_source(tile_type, i, k),
                tile_pos,
            ),
            IMUX::Unset => true,
        }
    }

    open spec fn spec_shown(&self, family: Family, tile_pos: TilePos, tile_type: TileType, i: u8) -> Seq<char> {
        match self.0 {
            IMUX::I(k) => spec_imux_text(self.0) + spec_note_start() + spec_function_input_text(
                spec_imux_source(tile_type, i, k),
                tile_pos,
            ),
            IMUX::Unset => spec_imux_text(self.0),
        }
    }

    fn pretty_print(&self, family: Family, tile_pos: TilePos, tile_type: TileType, i: u8) -> (r: Vec<char>) {
        let mut out = self.0.to_text();
        match self.0 {
            IMUX::I(k) => {
                push_note_start(&mut out);
                let src = if tile_type == TileType::BRAM {
                    bram_imux_input(i, k)
                } else {
                    logic_imux_input(i / 4, i % 4, k)
                };
                let t = print_function_input_source(src, tile_pos);
                push_text(&mut out, t.as_slice());
            },
            IMUX::Unset => {},
        }
        out
    }
}

impl PrettyPrintGeneric for PrettyPrintWrap<KMUX> {
    open spec fn spec_can_show(&self, family: Family, tile_pos: TilePos, tile_type: TileType, i: u8) -> bool {
        match self.0 {
            KMUX::I { i: k, .. } => i < 16 && k < 15,
            _ => true,
        }
    }

    open spec fn spec_shown(&self, family: Family, tile_pos: TilePos, tile_type: TileType, i: u8) -> Seq<char> {
        match self.0 {
            KMUX::I { i: k, .. } => spec_kmux_text(self.0) + spec_note_start()
                + spec_name_index_text(seq!['t', 'm', 'u', 'x'], spec_kmux_input(i, k) as nat),
            _ => spec_kmux_text(self.0),
        }
    }

    fn pretty_print(&self, family: Family, tile_pos: TilePos, tile_type: TileType, i: u8) -> (r: Vec<char>) {
        let mut out = self.0.to_text();
        match self.0 {
            KMUX::I { i: k, .. } => {
                push_note_start(&mut out);
                let name = ['t', 'm', 'u', 'x'];
                proof {
                    assert(name@ =~= seq!['t', 'm', 'u', 'x']);
                }
                push_name_index(&mut out, &name, kmux_input(i, k) as u32);
            },
            _ => {},
        }
        out
    }
}

/// The direction that the routing wires into a top/bottom IO tile run in
pub open spec fn spec_io_wire_dir(tile_pos: TilePos) -> Direction {
    if tile_pos.y == 0 {
        Direction::S
    } else {
        Direction::N
    }
}

/// `tile[x, y] T4_N[i]`: a routing wire by its absolute position
pub open spec fn spec_abs_wire_text(w: AbsoluteRoutingWire) -> Seq<char> {
    spec_tile_text() + spec_tile_pos_text(w.tile) + seq![']', ' '] + spec_wire_type_text(w.ty)
        + seq!['_'] + spec_direction_text(w.going_dir) + seq!['['] + spec_dec_text(w.wire_idx as nat)
        + seq![']']
}

/// The wire that a local line of a top/bottom IO tile takes, when it takes one
pub open spec fn spec_io_wire(
    src: IOLocalLineSource,
    family: Family,
    tile_pos: TilePos,
) -> Option<AbsoluteRoutingWire> {
    match src {
        IOLocalLineSource::RoutingWire { ty, bundle, wire_idx } => spec_to_absolute(
            RoutingWire { ty, bundle, wire_idx, going_dir: spec_io_wire_dir(tile_pos) },
            family,
            tile_pos,
        ),
        IOLocalLineSource::GlobalToLocal(_) => None,
    }
}

/// What a local line of a top/bottom IO tile takes, as a dump describes it
pub open spec fn spec_io_local_source_text(
    src: IOLocalLineSource,
    family: Family,
    tile_pos: TilePos,
) -> Seq<char> {
    match src {
        IOLocalLineSource::GlobalToLocal(g) => spec_name_index_text(
            seq!['g', 'l', 'b', '2', 'l', 'o', 'c'],
            g as nat,
        ),
        IOLocalLineSource::RoutingWire { .. } => spec_abs_wire_text(
            spec_io_wire(src, family, tile_pos)->0,
        ),
    }
}

fn abs_wire_text(w: AbsoluteRoutingWire) -> (r: Vec<char>)
    ensures
        r@ == spec_abs_wire_text(w),
{
    let head = ['t', 'i', 'l', 'e', '['];
    let mut out: Vec<char> = Vec::new();
    push_text(&mut out, &head);
    let p = tile_pos_text(w.tile);
    push_text(&mut out, p.as_slice());
    out.push(']');
    out.push(' ');
    let t = w.ty.to_text();
    push_text(&mut out, t.as_slice());
    out.push('_');
    let d = w.going_dir.to_text();
    push_text(&mut out, d.as_slice());
    out.push('[');
    push_dec(&mut out, w.wire_idx as u32);
    out.push(']');
    proof {
        assert(head@ =~= spec_tile_text());
        assert(out@ =~= spec_abs_wire_text(w));
    }
    out
}

impl PrettyPrintGeneric for PrettyPrintWrap<TopBottomIOLocalMux> {
    open spec fn spec_can_show(&self, family: Family, tile_pos: TilePos, tile_type: TileType, i: u8) -> bool {
        match self.0 {
            TopBottomIOLocalMux::I(k) => i < 32 && k < 7 && {
                let src = spec_top_bottom_io_local_line_input(i, k);
                src is RoutingWire ==> spec_io_wire(src, family, tile_pos) is Some
            },
            TopBottomIOLocalMux::Unset => true,
        }
    }

    open spec fn spec_shown(&self, family: Family, tile_pos: TilePos, tile_type: TileType, i: u8) -> Seq<char> {
        match self.0 {
            TopBottomIOLocalMux::I(k) => spec_top_bottom_io_local_text(self.0) + spec_note_start()
                + spec_io_local_source_text(spec_top_bottom_io_local_line_input(i, k), family, tile_pos),
            TopBottomIOLocalMux::Unset => spec_top_bottom_io_local_text(self.0),
        }
    }

    fn pretty_print(&self, family: Family, tile_pos: TilePos, tile_type: TileType, i: u8) -> (r: Vec<char>) {
        let mut out = self.0.to_text();
        match self.0 {
            TopBottomIOLocalMux::I(k) => {
                push_note_start(&mut out);
                match top_bottom_io_local_line_input(i, k) {
                    IOLocalLineSource::GlobalToLocal(g) => {
                        let name = ['g', 'l', 'b', '2', 'l', 'o', 'c'];
                        proof {
                            assert(name@ =~= seq!['g', 'l', 'b', '2', 'l', 'o', 'c']);
                        }
                        push_name_index(&mut out, &name, g as u32);
                    },
                    IOLocalLineSource::RoutingWire { ty, bundle, wire_idx } => {
                        let going_dir = if tile_pos.y == 0 {
                            Direction::S
                        } else {
                            Direction::N
                        };
                        let wire = RoutingWire { ty, bundle, wire_idx, going_dir };
                        let abs = wire.to_absolute(family, tile_pos);
                        let t = abs_wire_text(abs);
                        push_text(&mut out, t.as_slice());
                    },
                }
            },
            TopBottomIOLocalMux::Unset => {},
        }
        out
    }
}

/// Is the tile at `tile_pos` on the left or right edge?
pub open spec fn spec_on_side(family: Family, tile_pos: TilePos) -> bool {
    tile_pos.x == 0 || tile_pos.x == spec_tile_dims(family).0 - 1
}

impl PrettyPrintGeneric for PrettyPrintWrap<IOLocalToClockMux> {
    open spec fn spec_can_show(&self, family: Family, tile_pos: TilePos, tile_type: TileType, i: u8) -> bool {
        match self.0 {
            IOLocalToClockMux::I(k) => k < 8 && if spec_on_side(family, tile_pos) {
                i < 12
            } else {
                i < 8
            },
            IOLocalToClockMux::Unset => true,
        }
    }

    open spec fn spec_shown(&self, family: Family, tile_pos: TilePos, tile_type: TileType, i: u8) -> Seq<char> {
        match self.0 {
            IOLocalToClockMux::I(k) => spec_io_local_to_clock_text(self.0) + spec_note_start()
                + spec_name_index_text(
                spec_local_line_text(),
                (if spec_on_side(family, tile_pos) {
                    spec_left_right_io_clock_input(i, k)
                } else {
                    spec_top_bottom_io_clock_input(i, k)
                }) as nat,
            ),
            IOLocalToClockMux::Unset => spec_io_local_to_clock_text(self.0),
        }
    }

    fn pretty_print(&self, family: Family, tile_pos: TilePos, tile_type: TileType, i: u8) -> (r: Vec<char>) {
        let mut out = self.0.to_text();
        match self.0 {
            IOLocalToClockMux::I(k) => {
                let (w, _h) = family.tile_dims();
                let src = if tile_pos.x == 0 || tile_pos.x == w - 1 {
                    left_right_io_clock_input(i, k)
                } else {
                    top_bottom_io_clock_input(i, k)
                };
                push_note_start(&mut out);
                let name = ['l', 'o', 'c', 'a', 'l', '_', 'l', 'i', 'n', 'e'];
                proof {
                    assert(name@ =~= spec_local_line_text());
                }
                push_name_index(&mut out, &name, src as u32);
            },
            IOLocalToClockMux::Unset => {},
        }
        out
    }
}

impl PrettyPrintGeneric for PrettyPrintWrap<LocalToIOMux> {
    open spec fn spec_can_show(&self, family: Family, tile_pos: TilePos, tile_type: TileType, i: u8) -> bool {
        match self.0 {
            LocalToIOMux::I { i: k, .. } => k < 8 && if spec_on_side(family, tile_pos) {
                i < 36
            } else {
                i < 24
            },
            _ => true,
        }
    }

    open spec fn spec_shown(&self, family: Family, tile_pos: TilePos, tile_type: TileType, i: u8) -> Seq<char> {
        match self.0 {
            LocalToIOMux::I { i: k, .. } => spec_local_to_io_text(self.0) + spec_note_start()
                + spec_name_index_text(
                spec_local_line_text(),
                (if spec_on_side(family, tile_pos) {
                    spec_left_right_io_signal_input(i, k)
                } else {
                    spec_top_bottom_io_signal_input(i, k)
                }) as nat,
            ),
            _ => spec_local_to_io_text(self.0),
        }
    }

    fn pretty_print(&self, family: Family, tile_pos: TilePos, tile_type: TileType, i: u8) -> (r: Vec<char>) {
        let mut out = self.0.to_text();
        match self.0 {
            LocalToIOMux::I { i: k, .. } => {
                let (w, _h) = family.tile_dims();
                let src = if tile_pos.x == 0 || tile_pos.x == w - 1 {
                    left_right_io_signal_input(i, k)
                } else {
                    top_bottom_io_signal_input(i, k)
                };
                push_note_start(&mut out);
                let name = ['l', 'o', 'c', 'a', 'l', '_', 'l', 'i', 'n', 'e'];
                proof {
                    assert(name@ =~= spec_local_line_text());
                }
                push_name_index(&mut out, &name, src as u32);
            },
            _ => {},
        }
        out
    }
}

} // verus!
