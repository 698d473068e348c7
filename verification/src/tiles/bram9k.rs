//! Block RAM tiles (9216 bits)
//!
//! A block RAM tile is also similar to a logic tile, with the obvious difference
//! that a block RAM requires many more signals than a single logic cell.
//!
//! ## Outputs
//!
//! Because a block RAM has 36 output wires which is approximately equal to 2×16,
//! there are no output muxes in a BRAM tile. Instead, all output wiring is fixed.
//!
//! The right-going neighbor wires (`T1_E`) get bits [0-7] and [9-16] of port A's
//! data output. This corresponds to 16 "non-parity" bits.
//!
//! The inputs to `RMUX` which in a logic tile _would've_ come from LE outputs
//! instead get bits [0-7] and [9-16] of port B's data output.
//!
//! The remaining 4 output bits (2 from each of port A/B) replace
//! what in a logic tile are the 4 global-to-local wire inputs into the `RMUX`.
//! A BRAM tile still _has_ global-to-local wires though (6 rather than 4),
//! so those then replace what in a logic tile would be RMUX-to-RMUX self-wires.
//! A BRAM tile doesn't have those.
//!
//! ## Inputs
//!
//! Address and data inputs can use a similar set of `IMUX` as LE inputs.
//! Each port has 18 data lines and 13 address lines for a total of 31 inputs per port.
//! This equals a grand total of 62 inputs per BRAM which is 2 less than the 64 inputs
//! in a logic tile. These 2 extra wires can be used as clock enables or async resets.
//!
//! Because feeding a block RAM's data output right back into its input is
//! not nearly as useful as feeding a LE's output back into its input,
//! and because BRAMs need a much larger set of _unique_ inputs,
//! BRAM `IMUX`es contain a different mix of input signals from a logic tile
//! (and do not contain such loopback paths, instead replacing them with extra `RMUX` choices).
//! BRAM `CtrlMUX`es likewise also do not contain these wires,
//! instead replacing them with additional neighbor wires from the left neighbor.
//!
//! However, `IMUX`es do not cover the BRAM's actual control signals (e.g. read/write enables)
//! and also does not give the ability to invert these control signals where desired.
//! BRAM tiles thus contain an additional layer of [TMUX] followed by [KMUX] for these signals.
//! A [TMUX] preselects from (mostly) the various `T*` wires found in the tile.
//! A [KMUX] then selects from amongst the `TMUX` outputs, optionally including an invert bit.
//!
//! ## Diagram
//!
//! ```text
//!                                     +------------+                                  +----------+
//! output wires other than T1_E <------|            |--- TMUX-to-KMUX wires ---------->| 16× KMUX |--> 6× useless wires
//! general-purpose routing wires ----->| 16× TMUX   |<-+                               +----------+
//!                                     | 6× 16 RMUX |--+ RMUX-to- *TMUX* wires                 |
//!                                     | 4× CtrlMUX |--------------------------+               +------ 10× control signals ----+
//!                                     |            |<-----------------+       | 3× 16 local lines (RMUX-to-IMUX)              |
//!                                     +------------+                  |       v                                               |
//!                                         ^ |                         |   +------------+                                      |
//!                 +--------------------+  | | 4× control signal       |   | 4× 16 IMUX |<-- T1_W wires                        |
//! global wires -> | 6× global-to-local | -+ |    preselections        |   +------------+                                      |
//!                 +--------------------+  | | +---------------------- | ----+     |   2× (18× data wires, 13× address wires)  |
//!                                         v v v    16× wires (port B) | 2× bonus  | =62× total wires                          |
//!                                        _______   +4× wires (parity) |    wires  v                                           |
//!                                        \_____/                      |   +---------+                                         |
//!                                          |                          +---|         |<----------------------------------------+
//!                tile-wide control signals |                              |   RAM   |----> T1_E wires (port A)
//!              (clock+enable, async reset) +----------------------------->|         |
//!                                                                         +---------+
//! ```

use vstd::prelude::*;

use crate::bitmux::{
    lemma_shift_table, lemma_twohot_roundtrip, lemma_twohot_shape, spec_twohot, spec_twohot_decode,
    twohot_bits, twohot_decode,
};
use crate::chips::{spec_tile_type, Family};
use crate::container::{spec_same_aux, Bitstream, BitstreamView};
use crate::coordinates::{GlobalBitPos, TilePos, TileRelativeBitPos};
use crate::field::{
    lemma_field_fits, lemma_tile_bit_in_range, read_field, spec_read_field, spec_tile_bit,
    spec_write_value, write_field, BitAt, FieldPositionCalculator,
};
use crate::tiles::generic_routing::{
    read_rmux, write_rmux, GenericRoutingRefMutTrait, GenericRoutingRefTrait, RMUX,
};
use crate::tiles::local_lines::{IMUXRef, IMUX};
use crate::tiles::{
    GlobalToLocalMux, GlobalToLocalMuxRef, Mux3Inv, TileRef, TileRefTrait, TileType,
};

verus! {

/// Access to a BRAM tile
#[derive(Clone, Copy, PartialEq, Eq, Debug, Hash, Structural)]
pub struct BRAMTileRef {
    pub family: Family,
    pub p: TilePos,
}

impl BRAMTileRef {
    /// Can this handle be used to access this bitstream?
    pub open spec fn spec_attached(self, v: BitstreamView) -> bool {
        &&& v.logic_ready()
        &&& v.family == self.family
        &&& spec_tile_type(self.family, self.p) == TileType::BRAM
    }
}

impl TileRefTrait for BRAMTileRef {
    open spec fn spec_family(&self) -> Family {
        self.family
    }

    open spec fn spec_pos(&self) -> TilePos {
        self.p
    }

    open spec fn spec_tile_type(&self) -> TileType {
        TileType::BRAM
    }

    fn family(&self) -> (r: Family) {
        self.family
    }

    fn tile_type(&self) -> (r: TileType) {
        TileType::BRAM
    }

    fn pos(&self) -> (r: TilePos) {
        self.p
    }

    fn as_base_tile(self) -> (r: TileRef) {
        TileRef { family: self.family, p: self.p }
    }
}
/// The 4 wide by 2 high block of bits of one `TMUX`: the cell `(x, y)` of bit `biti`
pub open spec fn spec_tmux_cell(biti: int) -> (int, int) {
    if biti == 0 {
        (0, 0)
    } else if biti == 1 {
        (0, 1)
    } else if biti == 2 {
        (1, 0)
    } else if biti == 3 {
        (1, 1)
    } else if biti == 4 {
        (2, 0)
    } else if biti == 5 {
        (3, 0)
    } else if biti == 6 {
        (3, 1)
    } else {
        (2, 1)
    }
}

fn tmux_cell(biti: usize) -> (r: (u8, u8))
    requires
        biti < 8,
    ensures
        r.0 == spec_tmux_cell(biti as int).0,
        r.1 == spec_tmux_cell(biti as int).1,
{
    match biti {
        0 => (0, 0),
        1 => (0, 1),
        2 => (1, 0),
        3 => (1, 1),
        4 => (2, 0),
        5 => (3, 0),
        6 => (3, 1),
        _ => (2, 1),
    }
}

proof fn lemma_tmux_cell()
    ensures
        forall|i: int| 0 <= i < 8 ==> 0 <= (#[trigger] spec_tmux_cell(i)).0 <= 3 && 0 <= spec_tmux_cell(i).1 <= 1,
        forall|i: int, j: int| 0 <= i < j < 8 ==> #[trigger] spec_tmux_cell(i) != #[trigger] spec_tmux_cell(j),
{
    assert forall|i: int, j: int| 0 <= i < j < 8 implies #[trigger] spec_tmux_cell(i) != #[trigger] spec_tmux_cell(j) by {
        if i == 0 {
        } else if i == 1 {
        } else if i == 2 {
        } else if i == 3 {
        } else if i == 4 {
        } else if i == 5 {
        } else if i == 6 {
        } else if i == 7 {
        }
    }
}

/// The block of bits of one `KMUX` (4x2 plus an invert bit): the cell `(x, y)` of bit `biti`
pub open spec fn spec_kmux_cell(biti: int) -> (int, int) {
    if biti == 0 {
        (7, 0)
    } else if biti == 1 {
        (7, 1)
    } else if biti == 2 {
        (6, 0)
    } else if biti == 3 {
        (6, 1)
    } else if biti == 4 {
        (5, 0)
    } else if biti == 5 {
        (4, 0)
    } else if biti == 6 {
        (4, 1)
    } else if biti == 7 {
        (5, 1)
    } else {
        (1, 1)
    }
}

fn kmux_cell(biti: usize) -> (r: (u8, u8))
    requires
        biti < 9,
    ensures
        r.0 == spec_kmux_cell(biti as int).0,
        r.1 == spec_kmux_cell(biti as int).1,
{
    match biti {
        0 => (7, 0),
        1 => (7, 1),
        2 => (6, 0),
        3 => (6, 1),
        4 => (5, 0),
        5 => (4, 0),
        6 => (4, 1),
        7 => (5, 1),
        _ => (1, 1),
    }
}

proof fn lemma_kmux_cell()
    ensures
        forall|i: int| 0 <= i < 9 ==> 0 <= (#[trigger] spec_kmux_cell(i)).0 <= 7 && 0 <= spec_kmux_cell(i).1 <= 1,
        forall|i: int, j: int| 0 <= i < j < 9 ==> #[trigger] spec_kmux_cell(i) != #[trigger] spec_kmux_cell(j),
{
    assert forall|i: int, j: int| 0 <= i < j < 9 implies #[trigger] spec_kmux_cell(i) != #[trigger] spec_kmux_cell(j) by {
        if i == 0 {
        } else if i == 1 {
        } else if i == 2 {
        } else if i == 3 {
        } else if i == 4 {
        } else if i == 5 {
        } else if i == 6 {
        } else if i == 7 {
        } else if i == 8 {
        }
    }
}

/// The vertical position of a `TMUX` or `KMUX`, repeating in groups of 4
pub open spec fn spec_tkmux_y(i: u8, offsets: (int, int, int, int)) -> int {
    let group = i / 4;
    let within = i % 4;
    (if group == 0 {
        0int
    } else if group == 1 {
        16int
    } else if group == 2 {
        36int
    } else {
        52int
    }) + (if within == 0 {
        offsets.0
    } else if within == 1 {
        offsets.1
    } else if within == 2 {
        offsets.2
    } else {
        offsets.3
    })
}

fn tkmux_y(i: u8, offsets: (u8, u8, u8, u8)) -> (r: u8)
    requires
        i < 16,
        offsets.0 <= 14,
        offsets.1 <= 14,
        offsets.2 <= 14,
        offsets.3 <= 14,
    ensures
        r == spec_tkmux_y(i, (offsets.0 as int, offsets.1 as int, offsets.2 as int, offsets.3 as int)),
{
    let group = i / 4;
    let within = i % 4;
    (if group == 0 {
        0
    } else if group == 1 {
        16
    } else if group == 2 {
        32 + 4
    } else {
        48 + 4
    }) + (if within == 0 {
        offsets.0
    } else if within == 1 {
        offsets.1
    } else if within == 2 {
        offsets.2
    } else {
        offsets.3
    })
}

/// Where the bits of `TMUX` `i` sit
pub struct TMUXRef {
    pub i: u8,
}

impl FieldPositionCalculator for TMUXRef {
    open spec fn spec_valid(&self) -> bool {
        self.i < 16
    }

    open spec fn spec_nbits(&self) -> nat {
        8
    }

    open spec fn spec_bit_pos(&self, biti: int) -> TileRelativeBitPos {
        let (dx, dy) = spec_tmux_cell(biti);
        TileRelativeBitPos { y: (spec_tkmux_y(self.i, (2, 6, 8, 12)) + dy) as u8, x: (28 + dx) as u8 }
    }

    open spec fn spec_width(&self) -> int {
        32
    }

    open spec fn spec_height(&self) -> int {
        68
    }

    proof fn lemma_layout(&self) {
        lemma_tmux_cell();
    }

    fn get_bit_pos(&self, biti: usize) -> (r: TileRelativeBitPos) {
        proof {
            lemma_tmux_cell();
        }
        let (dx, dy) = tmux_cell(biti);
        TileRelativeBitPos { y: tkmux_y(self.i, (2, 6, 8, 12)) + dy, x: 28 + dx }
    }
}

/// The place of `KMUX` `i` in the repeating pattern: number 0 is at the very bottom
pub open spec fn spec_kmux_slot(i: u8) -> u8 {
    if i == 0 {
        15
    } else {
        (i - 1) as u8
    }
}

/// Where the bits of `KMUX` `i` sit, slotting "in between" the `TMUX`es
pub struct KMUXRef {
    pub i: u8,
}

impl FieldPositionCalculator for KMUXRef {
    open spec fn spec_valid(&self) -> bool {
        self.i < 16
    }

    open spec fn spec_nbits(&self) -> nat {
        9
    }

    open spec fn spec_bit_pos(&self, biti: int) -> TileRelativeBitPos {
        let (dx, dy) = spec_kmux_cell(biti);
        TileRelativeBitPos {
            y: (spec_tkmux_y(spec_kmux_slot(self.i), (0, 4, 10, 14)) + dy) as u8,
            x: (28 + dx) as u8,
        }
    }

    open spec fn spec_width(&self) -> int {
        36
    }

    open spec fn spec_height(&self) -> int {
        68
    }

    proof fn lemma_layout(&self) {
        lemma_kmux_cell();
    }

    fn get_bit_pos(&self, biti: usize) -> (r: TileRelativeBitPos) {
        proof {
            lemma_kmux_cell();
        }
        let slot = if self.i == 0 {
            15
        } else {
            self.i - 1
        };
        let (dx, dy) = kmux_cell(biti);
        TileRelativeBitPos { y: tkmux_y(slot, (0, 4, 10, 14)) + dy, x: 28 + dx }
    }
}

/// Where the 4 bits of a BRAM clock, clock enable or async control mux sit
///
/// `kind` 0 is a clock (`clk` selects which), 1 a clock enable, 2 an async control.
pub struct BRAMCtrlMux {
    pub kind: u8,
    pub k: u8,
}

/// The 4 bits in a row, in the order 2 1 0 3
pub open spec fn spec_row_2103(biti: int) -> int {
    if biti == 0 {
        2
    } else if biti == 1 {
        1
    } else if biti == 2 {
        0
    } else {
        3
    }
}

impl FieldPositionCalculator for BRAMCtrlMux {
    open spec fn spec_valid(&self) -> bool {
        self.kind < 3 && self.k < 2
    }

    open spec fn spec_nbits(&self) -> nat {
        4
    }

    open spec fn spec_bit_pos(&self, biti: int) -> TileRelativeBitPos {
        if self.kind == 0 {
            TileRelativeBitPos {
                x: (32 + spec_row_2103(biti)) as u8,
                y: if self.k == 0 { 32 } else { 35 },
            }
        } else if self.kind == 1 && self.k == 0 {
            TileRelativeBitPos { x: (32 + spec_row_2103(biti)) as u8, y: 34 }
        } else if self.kind == 1 {
            // 1 2 / 0 3
            if biti == 0 {
                TileRelativeBitPos { x: 30, y: 35 }
            } else if biti == 1 {
                TileRelativeBitPos { x: 30, y: 34 }
            } else if biti == 2 {
                TileRelativeBitPos { x: 31, y: 34 }
            } else {
                TileRelativeBitPos { x: 31, y: 35 }
            }
        } else if self.k == 0 {
            // 0 3 / 1 2
            if biti == 0 {
                TileRelativeBitPos { x: 30, y: 32 }
            } else if biti == 1 {
                TileRelativeBitPos { x: 30, y: 33 }
            } else if biti == 2 {
                TileRelativeBitPos { x: 31, y: 33 }
            } else {
                TileRelativeBitPos { x: 31, y: 32 }
            }
        } else {
            TileRelativeBitPos { x: (32 + spec_row_2103(biti)) as u8, y: 33 }
        }
    }

    open spec fn spec_width(&self) -> int {
        36
    }

    open spec fn spec_height(&self) -> int {
        36
    }

    proof fn lemma_layout(&self) {
    }

    fn get_bit_pos(&self, biti: usize) -> (r: TileRelativeBitPos) {
        let row: u8 = if biti == 0 {
            2
        } else if biti == 1 {
            1
        } else if biti == 2 {
            0
        } else {
            3
        };
        if self.kind == 0 {
            TileRelativeBitPos {
                x: 32 + row,
                y: if self.k == 0 {
                    32
                } else {
                    35
                },
            }
        } else if self.kind == 1 && self.k == 0 {
            TileRelativeBitPos { x: 32 + row, y: 34 }
        } else if self.kind == 1 {
            if biti == 0 {
                TileRelativeBitPos { x: 30, y: 35 }
            } else if biti == 1 {
                TileRelativeBitPos { x: 30, y: 34 }
            } else if biti == 2 {
                TileRelativeBitPos { x: 31, y: 34 }
            } else {
                TileRelativeBitPos { x: 31, y: 35 }
            }
        } else if self.k == 0 {
            if biti == 0 {
                TileRelativeBitPos { x: 30, y: 32 }
            } else if biti == 1 {
                TileRelativeBitPos { x: 30, y: 33 }
            } else if biti == 2 {
                TileRelativeBitPos { x: 31, y: 33 }
            } else {
                TileRelativeBitPos { x: 31, y: 32 }
            }
        } else {
            TileRelativeBitPos { x: 32 + row, y: 33 }
        }
    }
}

/// Where the 5 bits of the data width of port A (`port_b` false) or port B sit
pub struct PortWidthRef {
    pub port_b: bool,
}

impl FieldPositionCalculator for PortWidthRef {
    open spec fn spec_valid(&self) -> bool {
        true
    }

    open spec fn spec_nbits(&self) -> nat {
        5
    }

    open spec fn spec_bit_pos(&self, biti: int) -> TileRelativeBitPos {
        if !self.port_b {
            if biti == 0 {
                TileRelativeBitPos { x: 35, y: 25 }
            } else if biti == 1 {
                TileRelativeBitPos { x: 35, y: 23 }
            } else if biti == 2 {
                TileRelativeBitPos { x: 34, y: 19 }
            } else if biti == 3 {
                TileRelativeBitPos { x: 35, y: 13 }
            } else {
                TileRelativeBitPos { x: 34, y: 45 }
            }
        } else {
            if biti == 0 {
                TileRelativeBitPos { x: 35, y: 43 }
            } else if biti == 1 {
                TileRelativeBitPos { x: 34, y: 43 }
            } else if biti == 2 {
                TileRelativeBitPos { x: 33, y: 49 }
            } else if biti == 3 {
                TileRelativeBitPos { x: 34, y: 55 }
            } else {
                TileRelativeBitPos { x: 35, y: 45 }
            }
        }
    }

    open spec fn spec_width(&self) -> int {
        36
    }

    open spec fn spec_height(&self) -> int {
        56
    }

    proof fn lemma_layout(&self) {
    }

    fn get_bit_pos(&self, biti: usize) -> (r: TileRelativeBitPos) {
        if !self.port_b {
            if biti == 0 {
                TileRelativeBitPos { x: 35, y: 25 }
            } else if biti == 1 {
                TileRelativeBitPos { x: 35, y: 23 }
            } else if biti == 2 {
                TileRelativeBitPos { x: 34, y: 19 }
            } else if biti == 3 {
                TileRelativeBitPos { x: 35, y: 13 }
            } else {
                TileRelativeBitPos { x: 34, y: 45 }
            }
        } else {
            if biti == 0 {
                TileRelativeBitPos { x: 35, y: 43 }
            } else if biti == 1 {
                TileRelativeBitPos { x: 34, y: 43 }
            } else if biti == 2 {
                TileRelativeBitPos { x: 33, y: 49 }
            } else if biti == 3 {
                TileRelativeBitPos { x: 34, y: 55 }
            } else {
                TileRelativeBitPos { x: 35, y: 45 }
            }
        }
    }
}

/// A two-bit field at two fixed positions
pub struct TwoBits {
    pub x0: u8,
    pub y0: u8,
    pub x1: u8,
    pub y1: u8,
}

impl FieldPositionCalculator for TwoBits {
    open spec fn spec_valid(&self) -> bool {
        self.x0 != self.x1 || self.y0 != self.y1
    }

    open spec fn spec_nbits(&self) -> nat {
        2
    }

    open spec fn spec_bit_pos(&self, biti: int) -> TileRelativeBitPos {
        if biti == 0 {
            TileRelativeBitPos { x: self.x0, y: self.y0 }
        } else {
            TileRelativeBitPos { x: self.x1, y: self.y1 }
        }
    }

    open spec fn spec_width(&self) -> int {
        if self.x0 > self.x1 { self.x0 + 1 } else { self.x1 + 1 }
    }

    open spec fn spec_height(&self) -> int {
        if self.y0 > self.y1 { self.y0 + 1 } else { self.y1 + 1 }
    }

    proof fn lemma_layout(&self) {
    }

    fn get_bit_pos(&self, biti: usize) -> (r: TileRelativeBitPos) {
        if biti == 0 {
            TileRelativeBitPos { x: self.x0, y: self.y0 }
        } else {
            TileRelativeBitPos { x: self.x1, y: self.y1 }
        }
    }
}

/// The position of bit `biti` of the BRAM preloaded data
///
/// Each row contains 144 bits, and there are 64 rows; the bottom half jumps over the
/// mid-tile gap. Within a row, 8 instances of "every 18th bit" come first, starting from
/// bit 0 (i.e. 0, 18, 36, ...), and this repeats 18 times to fill out the row.
pub open spec fn spec_init_bit_pos(biti: int) -> TileRelativeBitPos {
    let row = biti / 144;
    let y = if row >= 32 { row + 4 } else { row };
    let col = biti % 144;
    TileRelativeBitPos { y: y as u8, x: (36 + (col % 18) * 8 + col / 18) as u8 }
}

fn init_bit_pos(biti: usize) -> (r: TileRelativeBitPos)
    requires
        biti < 9216,
    ensures
        r == spec_init_bit_pos(biti as int),
        r.x < 180,
        r.y < 68,
{
    let row = (biti / 144) as u8;
    let y = if row >= 32 {
        row + 4
    } else {
        row
    };
    let col = (biti % 144) as u8;
    TileRelativeBitPos { y, x: 36 + (col % 18) * 8 + col / 18 }
}

proof fn lemma_init_bit_pos_injective(i: int, j: int)
    requires
        0 <= i < 9216,
        0 <= j < 9216,
        i != j,
    ensures
        spec_init_bit_pos(i) != spec_init_bit_pos(j),
{
    let (ri, ci) = (i / 144, i % 144);
    let (rj, cj) = (j / 144, j % 144);
    if ri == rj {
        assert(ci != cj);
        assert(ci == 18 * (ci / 18) + ci % 18);
        assert(cj == 18 * (cj / 18) + cj % 18);
    }
}

/// The positions of the preloaded data bits
pub open spec fn spec_init_positions() -> Seq<TileRelativeBitPos> {
    Seq::new(9216, |i: int| spec_init_bit_pos(i))
}

/// The preloaded data of the BRAM tile at `tile`
pub open spec fn spec_init_data(v: BitstreamView, tile: TilePos) -> Seq<bool> {
    Seq::new(9216, |i: int| spec_tile_bit(v, tile, spec_init_bit_pos(i)))
}

/// Receives BRAM init data, bit by bit
pub trait BitSink {
    /// The bits held so far
    spec fn spec_sink_bits(&self) -> Seq<bool>;

    fn set(&mut self, biti: usize, val: bool)
        requires
            biti < old(self).spec_sink_bits().len(),
        ensures
            final(self).spec_sink_bits() == old(self).spec_sink_bits().update(biti as int, val),
    ;
}

impl BitSink for Vec<bool> {
    open spec fn spec_sink_bits(&self) -> Seq<bool> {
        self@
    }

    fn set(&mut self, biti: usize, val: bool) {
        vstd::pervasive::VecAdditionalExecFns::set(self, biti, val);
    }
}

/// Provides BRAM init data, bit by bit
pub trait BitSource {
    /// The bits provided
    spec fn spec_source_bits(&self) -> Seq<bool>;

    fn get(&self, biti: usize) -> (r: bool)
        requires
            biti < self.spec_source_bits().len(),
        ensures
            r == self.spec_source_bits()[biti as int],
    ;
}

impl BitSource for Vec<bool> {
    open spec fn spec_source_bits(&self) -> Seq<bool> {
        self@
    }

    fn get(&self, biti: usize) -> (r: bool) {
        self[biti]
    }
}

/// Writing the preloaded data and reading it back gives the written bits.
pub proof fn lemma_init_data_write_read(v: BitstreamView, tile: TilePos, bits: Seq<bool>)
    requires
        v.logic_ready(),
        spec_tile_type(v.family, tile) == TileType::BRAM,
        bits.len() == 9216,
    ensures
        spec_init_data(crate::field::spec_write_field(v, tile, spec_init_positions(), bits), tile) == bits,
{
    let ps = spec_init_positions();
    assert forall|i: int| 0 <= i < ps.len() implies crate::container::spec_logic_bit_in_range(
        v.family,
        #[trigger] crate::coordinates::spec_global_from_tile(v.family, tile, ps[i]),
    ) by {
        lemma_tile_bit_in_range(v.family, tile, ps[i]);
    }
    assert forall|i: int, j: int| 0 <= i < j < ps.len() implies #[trigger] ps[i] != #[trigger] ps[j] by {
        lemma_init_bit_pos_injective(i, j);
    }
    crate::field::lemma_write_field_read(v, tile, ps, bits);
    let w = crate::field::spec_write_field(v, tile, ps, bits);
    assert(spec_init_data(w, tile) =~= crate::field::spec_field_bits(w, tile, ps));
}

/// Where the preloaded data sits: the data is 64 rows of 144 bits; bit `18 * b + a` of row
/// `k` (`a < 18`, `b < 8`) is stored at column `36 + 8 * a + b` of tile row `k`, or of tile
/// row `k + 4` for the rows from 32 on, which lie below the mid-tile gap.
pub proof fn lemma_init_bit_layout(k: int, a: int, b: int)
    requires
        0 <= k < 64,
        0 <= a < 18,
        0 <= b < 8,
    ensures
        0 <= 144 * k + 18 * b + a < 9216,
        spec_init_positions()[144 * k + 18 * b + a] == (TileRelativeBitPos {
            x: (36 + 8 * a + b) as u8,
            y: (if k < 32 { k } else { k + 4 }) as u8,
        }),
{
    let i = 144 * k + 18 * b + a;
    let col = 18 * b + a;
    vstd::arithmetic::div_mod::lemma_fundamental_div_mod_converse(i, 144, k, col);
    vstd::arithmetic::div_mod::lemma_fundamental_div_mod_converse(col, 18, b, a);
    assert(b * 18 == 18 * b);
    assert(k * 144 == 144 * k);
}

/// Writing the preloaded data of a BRAM tile stores bit `144 * k + 18 * b + a` of the data
/// (`k < 64`, `a < 18`, `b < 8`) in the tile bit at column `36 + 8 * a + b` of row `k`
/// (row `k + 4` from row 32 on).
pub proof fn lemma_init_data_tile_bits(v: BitstreamView, tile: TilePos, bits: Seq<bool>, k: int, a: int, b: int)
    requires
        v.logic_ready(),
        spec_tile_type(v.family, tile) == TileType::BRAM,
        bits.len() == 9216,
        0 <= k < 64,
        0 <= a < 18,
        0 <= b < 8,
    ensures
        spec_tile_bit(
            crate::field::spec_write_field(v, tile, spec_init_positions(), bits),
            tile,
            TileRelativeBitPos { x: (36 + 8 * a + b) as u8, y: (if k < 32 { k } else { k + 4 }) as u8 },
        ) == bits[144 * k + 18 * b + a],
{
    lemma_init_bit_layout(k, a, b);
    lemma_init_data_write_read(v, tile, bits);
    let w = crate::field::spec_write_field(v, tile, spec_init_positions(), bits);
    let i = 144 * k + 18 * b + a;
    assert(spec_init_data(w, tile)[i] == bits[i]);
}

/// A routing mux to preselect control signals for a BRAM
///
/// This mux can either be unprogrammed or have 15 choices.
/// The exact set of inputs depends on the specific mux.
#[derive(Clone, Copy, PartialEq, Eq, Debug, Hash, Structural)]
pub enum TMUX {
    /// Not programmed
    Unset,
    /// Input `i`
    I(u8),
}

impl TMUX {
    /// The setting held by the bits of the field, if they hold a valid one
    pub open spec fn spec_from_bits(bits: u32) -> Option<TMUX> {
        if bits == 0 {
            Some(TMUX::Unset)
        } else {
            match spec_twohot_decode(3, 5, bits) {
                Some(v) => Some(TMUX::I(v as u8)),
                None => None,
            }
        }
    }

    /// Can this setting be written?
    pub open spec fn spec_valid(self) -> bool {
        match self {
            TMUX::Unset => true,
            TMUX::I(i) => i < 15,
        }
    }

    /// The bits that hold this setting
    pub open spec fn spec_to_bits(self) -> u32 {
        match self {
            TMUX::Unset => 0,
            TMUX::I(i) => spec_twohot(5, i as u32),
        }
    }

    /// Decode the bits of the field, which hold a setting
    pub fn from_bits(bits: u32) -> (r: TMUX)
        requires
            TMUX::spec_from_bits(bits) is Some,
        ensures
            Some(r) == TMUX::spec_from_bits(bits),
    {
        if bits == 0 {
            return TMUX::Unset;
        }
        match twohot_decode(3, 5, bits) {
            Some(v) => TMUX::I(v as u8),
            // not reached: the bits hold a setting
            None => TMUX::Unset,
        }
    }

    /// Encode the setting into the bits of the field
    pub fn to_bits(self) -> (r: u32)
        requires
            self.spec_valid(),
        ensures
            r == self.spec_to_bits(),
    {
        match self {
            TMUX::Unset => 0,
            TMUX::I(i) => {
                twohot_bits(3, 5, i as u32)
            },
        }
    }
}

impl Default for TMUX {
    fn default() -> (r: Self)
        ensures
            r == TMUX::Unset,
    {
        TMUX::Unset
    }
}

/// Decoding the bits of a valid `TMUX` gives it back, and the bits fit in 8 bits.
pub proof fn lemma_tmux_roundtrip(x: TMUX)
    requires
        x.spec_valid(),
    ensures
        TMUX::spec_from_bits(x.spec_to_bits()) == Some(x),
        x.spec_to_bits() < 256,
{
    lemma_shift_table();
    match x {
        TMUX::Unset => {},
        TMUX::I(i) => {
                lemma_twohot_roundtrip(3, 5, i as u32);
                lemma_twohot_shape(3, 5, i as u32, 0);
        },
    }
}
/// A routing mux to select control signals for a BRAM
///
/// This mux can either be unprogrammed or have 15 choices.
/// The exact set of inputs depends on the specific mux.
///
/// This also supports programmable inversion
#[derive(Clone, Copy, PartialEq, Eq, Debug, Hash, Structural)]
pub enum KMUX {
    /// Constant 1
    VCC,
    /// Constant 0
    GND,
    /// Choice `i`, optionally inverted
    I { invert: bool, i: u8 },
}

impl KMUX {
    /// The setting held by the bits of the field, if they hold a valid one
    pub open spec fn spec_from_bits(bits: u32) -> Option<Self> {
        let invert = (bits / 256) % 2 == 1;
        let low = bits % 256;
        if low == 0 {
            if invert {
                Some(Self::GND)
            } else {
                Some(Self::VCC)
            }
        } else {
            match spec_twohot_decode(3, 5, low) {
                Some(v) => Some(Self::I { invert, i: v as u8 }),
                None => None,
            }
        }
    }

    /// Can this setting be written?
    pub open spec fn spec_valid(self) -> bool {
        match self {
            Self::I { i, .. } => i < 15,
            _ => true,
        }
    }

    /// The bits of the choice, without the invert bit
    pub open spec fn spec_choice_bits(i: u8) -> u32 {
        spec_twohot(5, i as u32)
    }

    /// The bits that hold this setting
    pub open spec fn spec_to_bits(self) -> u32 {
        match self {
            Self::VCC => 0,
            Self::GND => 256,
            Self::I { invert, i } => if invert {
                (Self::spec_choice_bits(i) + 256) as u32
            } else {
                Self::spec_choice_bits(i)
            },
        }
    }

    /// Decode the bits of the field, which hold a setting
    pub fn from_bits(bits: u32) -> (r: Self)
        requires
            Self::spec_from_bits(bits) is Some,
        ensures
            Some(r) == Self::spec_from_bits(bits),
    {
        let invert = (bits / 256) % 2 == 1;
        let low = bits % 256;
        if low == 0 {
            if invert {
                return Self::GND;
            } else {
                return Self::VCC;
            }
        }
        match twohot_decode(3, 5, low) {
            Some(v) => Self::I { invert, i: v as u8 },
            // not reached: the bits hold a setting
            None => Self::VCC,
        }
    }

    /// Encode the setting into the bits of the field
    pub fn to_bits(self) -> (r: u32)
        requires
            self.spec_valid(),
        ensures
            r == self.spec_to_bits(),
    {
        match self {
            Self::VCC => 0,
            Self::GND => 256,
            Self::I { invert, i } => {
                let choice = twohot_bits(3, 5, i as u32);
                proof {
                    lemma_shift_table();
                    if i < 15 {
                        lemma_twohot_shape(3, 5, i as u32, 0);
                    }
                }
                if invert {
                    choice + 256
                } else {
                    choice
                }
            },
        }
    }
}

impl Default for KMUX {
    fn default() -> (r: Self)
        ensures
            r == Self::VCC,
    {
        Self::VCC
    }
}

/// Decoding the bits of a valid `KMUX` gives it back, and the bits fit in 9 bits.
pub proof fn lemma_kmux_roundtrip(x: KMUX)
    requires
        x.spec_valid(),
    ensures
        KMUX::spec_from_bits(x.spec_to_bits()) == Some(x),
        x.spec_to_bits() < 512,
{
    lemma_shift_table();
    match x {
        KMUX::I { invert, i } => {
                lemma_twohot_roundtrip(3, 5, i as u32);
                lemma_twohot_shape(3, 5, i as u32, 0);
        },
        _ => {},
    }
}
/// Block RAM port data width in bits
#[derive(Clone, Copy, PartialEq, Eq, Debug, Hash, Structural)]
pub enum PortWidth {
    X36,
    X18,
    X9,
    X4,
    X2,
    X1,
}

impl PortWidth {
    /// The setting held by the bits of the field, if they hold a valid one
    pub open spec fn spec_from_bits(bits: u32) -> Option<PortWidth> {
        if bits == 16 {
            Some(PortWidth::X36)
        } else if bits == 0 {
            Some(PortWidth::X18)
        } else if bits == 8 {
            Some(PortWidth::X9)
        } else if bits == 12 {
            Some(PortWidth::X4)
        } else if bits == 14 {
            Some(PortWidth::X2)
        } else if bits == 15 {
            Some(PortWidth::X1)
        } else {
            None
        }
    }

    /// The bits that hold this setting
    pub open spec fn spec_to_bits(self) -> u32 {
        match self {
            PortWidth::X36 => 16,
            PortWidth::X18 => 0,
            PortWidth::X9 => 8,
            PortWidth::X4 => 12,
            PortWidth::X2 => 14,
            PortWidth::X1 => 15,
        }
    }

    /// Decode the bits of the field, which hold a setting
    pub fn from_bits(bits: u32) -> (r: PortWidth)
        requires
            PortWidth::spec_from_bits(bits) is Some,
        ensures
            Some(r) == PortWidth::spec_from_bits(bits),
    {
        if bits == 16 {
            PortWidth::X36
        } else if bits == 0 {
            PortWidth::X18
        } else if bits == 8 {
            PortWidth::X9
        } else if bits == 12 {
            PortWidth::X4
        } else if bits == 14 {
            PortWidth::X2
        } else {
            PortWidth::X1
        }
    }

    /// Encode the setting into the bits of the field
    pub fn to_bits(self) -> (r: u32)
        ensures
            r == self.spec_to_bits(),
    {
        match self {
            PortWidth::X36 => 16,
            PortWidth::X18 => 0,
            PortWidth::X9 => 8,
            PortWidth::X4 => 12,
            PortWidth::X2 => 14,
            PortWidth::X1 => 15,
        }
    }
}

impl Default for PortWidth {
    fn default() -> (r: Self)
        ensures
            r == PortWidth::X18,
    {
        PortWidth::X18
    }
}

/// Decoding the bits of a `PortWidth` gives it back, and the bits fit in 5 bits.
pub proof fn lemma_port_width_roundtrip(x: PortWidth)
    ensures
        PortWidth::spec_from_bits(x.spec_to_bits()) == Some(x),
        x.spec_to_bits() < 32,
{
}
/// Block RAM port clocking mode
#[derive(Clone, Copy, PartialEq, Eq, Debug, Hash, Structural)]
pub enum ClockMode {
    /// Port A uses clock 0, port B uses clock 1
    Independent,
    /// Input registers use clock 0, output registers use clock 1
    InputOutput,
    /// Input data uses clock 0, output data uses clock 1, input address port A/B uses clock 0/1
    ///
    /// It appears that the intended use case for this might be that
    /// port A only performs writes (using clock 0),
    /// and port B only performs reads (using clock 1).
    ReadWrite,
}

impl ClockMode {
    /// The setting held by the bits of the field, if they hold a valid one
    pub open spec fn spec_from_bits(bits: u32) -> Option<ClockMode> {
        if bits == 0 {
            Some(ClockMode::Independent)
        } else if bits == 1 {
            Some(ClockMode::InputOutput)
        } else if (bits / 2) % 2 == 1 {
            Some(ClockMode::ReadWrite)
        } else {
            None
        }
    }

    /// The bits that hold this setting
    pub open spec fn spec_to_bits(self) -> u32 {
        match self {
            ClockMode::Independent => 0,
            ClockMode::InputOutput => 1,
            ClockMode::ReadWrite => 2,
        }
    }

    /// Decode the bits of the field, which hold a setting
    pub fn from_bits(bits: u32) -> (r: ClockMode)
        requires
            ClockMode::spec_from_bits(bits) is Some,
        ensures
            Some(r) == ClockMode::spec_from_bits(bits),
    {
        if bits == 0 {
            ClockMode::Independent
        } else if bits == 1 {
            ClockMode::InputOutput
        } else {
            ClockMode::ReadWrite
        }
    }

    /// Encode the setting into the bits of the field
    pub fn to_bits(self) -> (r: u32)
        ensures
            r == self.spec_to_bits(),
    {
        match self {
            ClockMode::Independent => 0,
            ClockMode::InputOutput => 1,
            ClockMode::ReadWrite => 2,
        }
    }
}

impl Default for ClockMode {
    fn default() -> (r: Self)
        ensures
            r == ClockMode::Independent,
    {
        ClockMode::Independent
    }
}

/// Decoding the bits of a `ClockMode` gives it back, and the bits fit in 2 bits.
pub proof fn lemma_clock_mode_roundtrip(x: ClockMode)
    ensures
        ClockMode::spec_from_bits(x.spec_to_bits()) == Some(x),
        x.spec_to_bits() < 4,
{
}

impl BRAMTileRef {
    pub fn global_to_local(&self, b: &Bitstream, inp_idx: u8) -> (r: GlobalToLocalMux)
        requires
            self.spec_attached(b@),
            inp_idx < 6,
            GlobalToLocalMux::spec_from_bits(spec_read_field(b@, self.p, (GlobalToLocalMuxRef { is_bram: true, i: inp_idx }), 6)) is Some,
        ensures
            Some(r) == GlobalToLocalMux::spec_from_bits(spec_read_field(b@, self.p, (GlobalToLocalMuxRef { is_bram: true, i: inp_idx }), 6)),
    {
        let fp = GlobalToLocalMuxRef { is_bram: true, i: inp_idx };
        proof {
            lemma_field_fits(b@.family, self.p, fp, 6);
        }
        let bits = read_field(b, self.p, &fp, 6);
        GlobalToLocalMux::from_bits(bits)
    }


    /// Write the field read by [`global_to_local`](Self::global_to_local)
    pub fn set_global_to_local(&self, b: &mut Bitstream, inp_idx: u8, val: GlobalToLocalMux)
        requires
            self.spec_attached(old(b)@),
            inp_idx < 6,
            val.spec_valid(),
        ensures
            final(b)@ == spec_write_value(old(b)@, self.p, (GlobalToLocalMuxRef { is_bram: true, i: inp_idx }), 6, val.spec_to_bits()),
            self.spec_attached(final(b)@),
            spec_same_aux(old(b)@, final(b)@),
    {
        let fp = GlobalToLocalMuxRef { is_bram: true, i: inp_idx };
        proof {
            lemma_field_fits(b@.family, self.p, fp, 6);
        }
        write_field(b, self.p, &fp, 6, val.to_bits());
    }

    pub fn imux(&self, b: &Bitstream, i: u8) -> (r: IMUX)
        requires
            self.spec_attached(b@),
            i < 64,
            IMUX::spec_from_bits(spec_read_field(b@, self.p, (IMUXRef { is_bram: true, i }), 12)) is Some,
        ensures
            Some(r) == IMUX::spec_from_bits(spec_read_field(b@, self.p, (IMUXRef { is_bram: true, i }), 12)),
    {
        let fp = IMUXRef { is_bram: true, i };
        proof {
            lemma_field_fits(b@.family, self.p, fp, 12);
        }
        let bits = read_field(b, self.p, &fp, 12);
        IMUX::from_bits(bits)
    }


    /// Write the field read by [`imux`](Self::imux)
    pub fn set_imux(&self, b: &mut Bitstream, i: u8, val: IMUX)
        requires
            self.spec_attached(old(b)@),
            i < 64,
            val.spec_valid(),
        ensures
            final(b)@ == spec_write_value(old(b)@, self.p, (IMUXRef { is_bram: true, i }), 12, val.spec_to_bits()),
            self.spec_attached(final(b)@),
            spec_same_aux(old(b)@, final(b)@),
    {
        let fp = IMUXRef { is_bram: true, i };
        proof {
            lemma_field_fits(b@.family, self.p, fp, 12);
        }
        write_field(b, self.p, &fp, 12, val.to_bits());
    }

    /// Address bit `bit` of port A (an [`imux`](Self::imux))
    pub fn addr_a(&self, b: &Bitstream, bit: u8) -> (r: IMUX)
        requires
            self.spec_attached(b@),
            bit < 13,
            IMUX::spec_from_bits(spec_read_field(b@, self.p, (IMUXRef { is_bram: true, i: (12 - bit) as u8 }), 12)) is Some,
        ensures
            Some(r) == IMUX::spec_from_bits(spec_read_field(b@, self.p, (IMUXRef { is_bram: true, i: (12 - bit) as u8 }), 12)),
    {
        let fp = IMUXRef { is_bram: true, i: 12 - bit };
        proof {
            lemma_field_fits(b@.family, self.p, fp, 12);
        }
        let bits = read_field(b, self.p, &fp, 12);
        IMUX::from_bits(bits)
    }


    /// Write the field read by [`addr_a`](Self::addr_a)
    pub fn set_addr_a(&self, b: &mut Bitstream, bit: u8, val: IMUX)
        requires
            self.spec_attached(old(b)@),
            bit < 13,
            val.spec_valid(),
        ensures
            final(b)@ == spec_write_value(old(b)@, self.p, (IMUXRef { is_bram: true, i: (12 - bit) as u8 }), 12, val.spec_to_bits()),
            self.spec_attached(final(b)@),
            spec_same_aux(old(b)@, final(b)@),
    {
        let fp = IMUXRef { is_bram: true, i: 12 - bit };
        proof {
            lemma_field_fits(b@.family, self.p, fp, 12);
        }
        write_field(b, self.p, &fp, 12, val.to_bits());
    }

    /// Address bit `bit` of port B (an [`imux`](Self::imux))
    pub fn addr_b(&self, b: &Bitstream, bit: u8) -> (r: IMUX)
        requires
            self.spec_attached(b@),
            bit < 13,
            IMUX::spec_from_bits(spec_read_field(b@, self.p, (IMUXRef { is_bram: true, i: (51 + bit) as u8 }), 12)) is Some,
        ensures
            Some(r) == IMUX::spec_from_bits(spec_read_field(b@, self.p, (IMUXRef { is_bram: true, i: (51 + bit) as u8 }), 12)),
    {
        let fp = IMUXRef { is_bram: true, i: 51 + bit };
        proof {
            lemma_field_fits(b@.family, self.p, fp, 12);
        }
        let bits = read_field(b, self.p, &fp, 12);
        IMUX::from_bits(bits)
    }


    /// Write the field read by [`addr_b`](Self::addr_b)
    pub fn set_addr_b(&self, b: &mut Bitstream, bit: u8, val: IMUX)
        requires
            self.spec_attached(old(b)@),
            bit < 13,
            val.spec_valid(),
        ensures
            final(b)@ == spec_write_value(old(b)@, self.p, (IMUXRef { is_bram: true, i: (51 + bit) as u8 }), 12, val.spec_to_bits()),
            self.spec_attached(final(b)@),
            spec_same_aux(old(b)@, final(b)@),
    {
        let fp = IMUXRef { is_bram: true, i: 51 + bit };
        proof {
            lemma_field_fits(b@.family, self.p, fp, 12);
        }
        write_field(b, self.p, &fp, 12, val.to_bits());
    }

    /// Data input bit `bit` of port A (an [`imux`](Self::imux))
    pub fn data_in_a(&self, b: &Bitstream, bit: u8) -> (r: IMUX)
        requires
            self.spec_attached(b@),
            bit < 18,
            IMUX::spec_from_bits(spec_read_field(b@, self.p, (IMUXRef { is_bram: true, i: (30 - bit) as u8 }), 12)) is Some,
        ensures
            Some(r) == IMUX::spec_from_bits(spec_read_field(b@, self.p, (IMUXRef { is_bram: true, i: (30 - bit) as u8 }), 12)),
    {
        let fp = IMUXRef { is_bram: true, i: 30 - bit };
        proof {
            lemma_field_fits(b@.family, self.p, fp, 12);
        }
        let bits = read_field(b, self.p, &fp, 12);
        IMUX::from_bits(bits)
    }


    /// Write the field read by [`data_in_a`](Self::data_in_a)
    pub fn set_data_in_a(&self, b: &mut Bitstream, bit: u8, val: IMUX)
        requires
            self.spec_attached(old(b)@),
            bit < 18,
            val.spec_valid(),
        ensures
            final(b)@ == spec_write_value(old(b)@, self.p, (IMUXRef { is_bram: true, i: (30 - bit) as u8 }), 12, val.spec_to_bits()),
            self.spec_attached(final(b)@),
            spec_same_aux(old(b)@, final(b)@),
    {
        let fp = IMUXRef { is_bram: true, i: 30 - bit };
        proof {
            lemma_field_fits(b@.family, self.p, fp, 12);
        }
        write_field(b, self.p, &fp, 12, val.to_bits());
    }

    /// Data input bit `bit` of port B (an [`imux`](Self::imux))
    pub fn data_in_b(&self, b: &Bitstream, bit: u8) -> (r: IMUX)
        requires
            self.spec_attached(b@),
            bit < 18,
            IMUX::spec_from_bits(spec_read_field(b@, self.p, (IMUXRef { is_bram: true, i: (33 + bit) as u8 }), 12)) is Some,
        ensures
            Some(r) == IMUX::spec_from_bits(spec_read_field(b@, self.p, (IMUXRef { is_bram: true, i: (33 + bit) as u8 }), 12)),
    {
        let fp = IMUXRef { is_bram: true, i: 33 + bit };
        proof {
            lemma_field_fits(b@.family, self.p, fp, 12);
        }
        let bits = read_field(b, self.p, &fp, 12);
        IMUX::from_bits(bits)
    }


    /// Write the field read by [`data_in_b`](Self::data_in_b)
    pub fn set_data_in_b(&self, b: &mut Bitstream, bit: u8, val: IMUX)
        requires
            self.spec_attached(old(b)@),
            bit < 18,
            val.spec_valid(),
        ensures
            final(b)@ == spec_write_value(old(b)@, self.p, (IMUXRef { is_bram: true, i: (33 + bit) as u8 }), 12, val.spec_to_bits()),
            self.spec_attached(final(b)@),
            spec_same_aux(old(b)@, final(b)@),
    {
        let fp = IMUXRef { is_bram: true, i: 33 + bit };
        proof {
            lemma_field_fits(b@.family, self.p, fp, 12);
        }
        write_field(b, self.p, &fp, 12, val.to_bits());
    }

    /// One of the 2 extra inputs (an [`imux`](Self::imux))
    pub fn imux_xtra(&self, b: &Bitstream, idx: u8) -> (r: IMUX)
        requires
            self.spec_attached(b@),
            idx < 2,
            IMUX::spec_from_bits(spec_read_field(b@, self.p, (IMUXRef { is_bram: true, i: (31 + idx) as u8 }), 12)) is Some,
        ensures
            Some(r) == IMUX::spec_from_bits(spec_read_field(b@, self.p, (IMUXRef { is_bram: true, i: (31 + idx) as u8 }), 12)),
    {
        let fp = IMUXRef { is_bram: true, i: 31 + idx };
        proof {
            lemma_field_fits(b@.family, self.p, fp, 12);
        }
        let bits = read_field(b, self.p, &fp, 12);
        IMUX::from_bits(bits)
    }


    /// Write the field read by [`imux_xtra`](Self::imux_xtra)
    pub fn set_imux_xtra(&self, b: &mut Bitstream, idx: u8, val: IMUX)
        requires
            self.spec_attached(old(b)@),
            idx < 2,
            val.spec_valid(),
        ensures
            final(b)@ == spec_write_value(old(b)@, self.p, (IMUXRef { is_bram: true, i: (31 + idx) as u8 }), 12, val.spec_to_bits()),
            self.spec_attached(final(b)@),
            spec_same_aux(old(b)@, final(b)@),
    {
        let fp = IMUXRef { is_bram: true, i: 31 + idx };
        proof {
            lemma_field_fits(b@.family, self.p, fp, 12);
        }
        write_field(b, self.p, &fp, 12, val.to_bits());
    }

    pub fn tmux(&self, b: &Bitstream, i: u8) -> (r: TMUX)
        requires
            self.spec_attached(b@),
            i < 16,
            TMUX::spec_from_bits(spec_read_field(b@, self.p, (TMUXRef { i }), 8)) is Some,
        ensures
            Some(r) == TMUX::spec_from_bits(spec_read_field(b@, self.p, (TMUXRef { i }), 8)),
    {
        let fp = TMUXRef { i };
        proof {
            lemma_field_fits(b@.family, self.p, fp, 8);
        }
        let bits = read_field(b, self.p, &fp, 8);
        TMUX::from_bits(bits)
    }


    /// Write the field read by [`tmux`](Self::tmux)
    pub fn set_tmux(&self, b: &mut Bitstream, i: u8, val: TMUX)
        requires
            self.spec_attached(old(b)@),
            i < 16,
            val.spec_valid(),
        ensures
            final(b)@ == spec_write_value(old(b)@, self.p, (TMUXRef { i }), 8, val.spec_to_bits()),
            self.spec_attached(final(b)@),
            spec_same_aux(old(b)@, final(b)@),
    {
        let fp = TMUXRef { i };
        proof {
            lemma_field_fits(b@.family, self.p, fp, 8);
        }
        write_field(b, self.p, &fp, 8, val.to_bits());
    }

    pub fn kmux(&self, b: &Bitstream, i: u8) -> (r: KMUX)
        requires
            self.spec_attached(b@),
            i < 16,
            KMUX::spec_from_bits(spec_read_field(b@, self.p, (KMUXRef { i }), 9)) is Some,
        ensures
            Some(r) == KMUX::spec_from_bits(spec_read_field(b@, self.p, (KMUXRef { i }), 9)),
    {
        let fp = KMUXRef { i };
        proof {
            lemma_field_fits(b@.family, self.p, fp, 9);
        }
        let bits = read_field(b, self.p, &fp, 9);
        KMUX::from_bits(bits)
    }


    /// Write the field read by [`kmux`](Self::kmux)
    pub fn set_kmux(&self, b: &mut Bitstream, i: u8, val: KMUX)
        requires
            self.spec_attached(old(b)@),
            i < 16,
            val.spec_valid(),
        ensures
            final(b)@ == spec_write_value(old(b)@, self.p, (KMUXRef { i }), 9, val.spec_to_bits()),
            self.spec_attached(final(b)@),
            spec_same_aux(old(b)@, final(b)@),
    {
        let fp = KMUXRef { i };
        proof {
            lemma_field_fits(b@.family, self.p, fp, 9);
        }
        write_field(b, self.p, &fp, 9, val.to_bits());
    }

    /// [`kmux`](Self::kmux) 6
    pub fn read_en_a(&self, b: &Bitstream) -> (r: KMUX)
        requires
            self.spec_attached(b@),
            KMUX::spec_from_bits(spec_read_field(b@, self.p, (KMUXRef { i: 6 }), 9)) is Some,
        ensures
            Some(r) == KMUX::spec_from_bits(spec_read_field(b@, self.p, (KMUXRef { i: 6 }), 9)),
    {
        let fp = KMUXRef { i: 6 };
        proof {
            lemma_field_fits(b@.family, self.p, fp, 9);
        }
        let bits = read_field(b, self.p, &fp, 9);
        KMUX::from_bits(bits)
    }


    /// Write the field read by [`read_en_a`](Self::read_en_a)
    pub fn set_read_en_a(&self, b: &mut Bitstream, val: KMUX)
        requires
            self.spec_attached(old(b)@),
            val.spec_valid(),
        ensures
            final(b)@ == spec_write_value(old(b)@, self.p, (KMUXRef { i: 6 }), 9, val.spec_to_bits()),
            self.spec_attached(final(b)@),
            spec_same_aux(old(b)@, final(b)@),
    {
        let fp = KMUXRef { i: 6 };
        proof {
            lemma_field_fits(b@.family, self.p, fp, 9);
        }
        write_field(b, self.p, &fp, 9, val.to_bits());
    }

    /// [`kmux`](Self::kmux) 7
    pub fn read_en_b(&self, b: &Bitstream) -> (r: KMUX)
        requires
            self.spec_attached(b@),
            KMUX::spec_from_bits(spec_read_field(b@, self.p, (KMUXRef { i: 7 }), 9)) is Some,
        ensures
            Some(r) == KMUX::spec_from_bits(spec_read_field(b@, self.p, (KMUXRef { i: 7 }), 9)),
    {
        let fp = KMUXRef { i: 7 };
        proof {
            lemma_field_fits(b@.family, self.p, fp, 9);
        }
        let bits = read_field(b, self.p, &fp, 9);
        KMUX::from_bits(bits)
    }


    /// Write the field read by [`read_en_b`](Self::read_en_b)
    pub fn set_read_en_b(&self, b: &mut Bitstream, val: KMUX)
        requires
            self.spec_attached(old(b)@),
            val.spec_valid(),
        ensures
            final(b)@ == spec_write_value(old(b)@, self.p, (KMUXRef { i: 7 }), 9, val.spec_to_bits()),
            self.spec_attached(final(b)@),
            spec_same_aux(old(b)@, final(b)@),
    {
        let fp = KMUXRef { i: 7 };
        proof {
            lemma_field_fits(b@.family, self.p, fp, 9);
        }
        write_field(b, self.p, &fp, 9, val.to_bits());
    }

    /// [`kmux`](Self::kmux) 3
    pub fn write_en_a(&self, b: &Bitstream) -> (r: KMUX)
        requires
            self.spec_attached(b@),
            KMUX::spec_from_bits(spec_read_field(b@, self.p, (KMUXRef { i: 3 }), 9)) is Some,
        ensures
            Some(r) == KMUX::spec_from_bits(spec_read_field(b@, self.p, (KMUXRef { i: 3 }), 9)),
    {
        let fp = KMUXRef { i: 3 };
        proof {
            lemma_field_fits(b@.family, self.p, fp, 9);
        }
        let bits = read_field(b, self.p, &fp, 9);
        KMUX::from_bits(bits)
    }


    /// Write the field read by [`write_en_a`](Self::write_en_a)
    pub fn set_write_en_a(&self, b: &mut Bitstream, val: KMUX)
        requires
            self.spec_attached(old(b)@),
            val.spec_valid(),
        ensures
            final(b)@ == spec_write_value(old(b)@, self.p, (KMUXRef { i: 3 }), 9, val.spec_to_bits()),
            self.spec_attached(final(b)@),
            spec_same_aux(old(b)@, final(b)@),
    {
        let fp = KMUXRef { i: 3 };
        proof {
            lemma_field_fits(b@.family, self.p, fp, 9);
        }
        write_field(b, self.p, &fp, 9, val.to_bits());
    }

    /// [`kmux`](Self::kmux) 0
    pub fn write_en_b(&self, b: &Bitstream) -> (r: KMUX)
        requires
            self.spec_attached(b@),
            KMUX::spec_from_bits(spec_read_field(b@, self.p, (KMUXRef { i: 0 }), 9)) is Some,
        ensures
            Some(r) == KMUX::spec_from_bits(spec_read_field(b@, self.p, (KMUXRef { i: 0 }), 9)),
    {
        let fp = KMUXRef { i: 0 };
        proof {
            lemma_field_fits(b@.family, self.p, fp, 9);
        }
        let bits = read_field(b, self.p, &fp, 9);
        KMUX::from_bits(bits)
    }


    /// Write the field read by [`write_en_b`](Self::write_en_b)
    pub fn set_write_en_b(&self, b: &mut Bitstream, val: KMUX)
        requires
            self.spec_attached(old(b)@),
            val.spec_valid(),
        ensures
            final(b)@ == spec_write_value(old(b)@, self.p, (KMUXRef { i: 0 }), 9, val.spec_to_bits()),
            self.spec_attached(final(b)@),
            spec_same_aux(old(b)@, final(b)@),
    {
        let fp = KMUXRef { i: 0 };
        proof {
            lemma_field_fits(b@.family, self.p, fp, 9);
        }
        write_field(b, self.p, &fp, 9, val.to_bits());
    }

    /// [`kmux`](Self::kmux) 4
    pub fn addr_stall_a(&self, b: &Bitstream) -> (r: KMUX)
        requires
            self.spec_attached(b@),
            KMUX::spec_from_bits(spec_read_field(b@, self.p, (KMUXRef { i: 4 }), 9)) is Some,
        ensures
            Some(r) == KMUX::spec_from_bits(spec_read_field(b@, self.p, (KMUXRef { i: 4 }), 9)),
    {
        let fp = KMUXRef { i: 4 };
        proof {
            lemma_field_fits(b@.family, self.p, fp, 9);
        }
        let bits = read_field(b, self.p, &fp, 9);
        KMUX::from_bits(bits)
    }


    /// Write the field read by [`addr_stall_a`](Self::addr_stall_a)
    pub fn set_addr_stall_a(&self, b: &mut Bitstream, val: KMUX)
        requires
            self.spec_attached(old(b)@),
            val.spec_valid(),
        ensures
            final(b)@ == spec_write_value(old(b)@, self.p, (KMUXRef { i: 4 }), 9, val.spec_to_bits()),
            self.spec_attached(final(b)@),
            spec_same_aux(old(b)@, final(b)@),
    {
        let fp = KMUXRef { i: 4 };
        proof {
            lemma_field_fits(b@.family, self.p, fp, 9);
        }
        write_field(b, self.p, &fp, 9, val.to_bits());
    }

    /// [`kmux`](Self::kmux) 5
    pub fn addr_stall_b(&self, b: &Bitstream) -> (r: KMUX)
        requires
            self.spec_attached(b@),
            KMUX::spec_from_bits(spec_read_field(b@, self.p, (KMUXRef { i: 5 }), 9)) is Some,
        ensures
            Some(r) == KMUX::spec_from_bits(spec_read_field(b@, self.p, (KMUXRef { i: 5 }), 9)),
    {
        let fp = KMUXRef { i: 5 };
        proof {
            lemma_field_fits(b@.family, self.p, fp, 9);
        }
        let bits = read_field(b, self.p, &fp, 9);
        KMUX::from_bits(bits)
    }


    /// Write the field read by [`addr_stall_b`](Self::addr_stall_b)
    pub fn set_addr_stall_b(&self, b: &mut Bitstream, val: KMUX)
        requires
            self.spec_attached(old(b)@),
            val.spec_valid(),
        ensures
            final(b)@ == spec_write_value(old(b)@, self.p, (KMUXRef { i: 5 }), 9, val.spec_to_bits()),
            self.spec_attached(final(b)@),
            spec_same_aux(old(b)@, final(b)@),
    {
        let fp = KMUXRef { i: 5 };
        proof {
            lemma_field_fits(b@.family, self.p, fp, 9);
        }
        write_field(b, self.p, &fp, 9, val.to_bits());
    }

    /// Byte enable `bit` of port A (a [`kmux`](Self::kmux))
    pub fn byte_en_a(&self, b: &Bitstream, bit: u8) -> (r: KMUX)
        requires
            self.spec_attached(b@),
            bit < 2,
            KMUX::spec_from_bits(spec_read_field(b@, self.p, (KMUXRef { i: (1 + bit) as u8 }), 9)) is Some,
        ensures
            Some(r) == KMUX::spec_from_bits(spec_read_field(b@, self.p, (KMUXRef { i: (1 + bit) as u8 }), 9)),
    {
        let fp = KMUXRef { i: 1 + bit };
        proof {
            lemma_field_fits(b@.family, self.p, fp, 9);
        }
        let bits = read_field(b, self.p, &fp, 9);
        KMUX::from_bits(bits)
    }


    /// Write the field read by [`byte_en_a`](Self::byte_en_a)
    pub fn set_byte_en_a(&self, b: &mut Bitstream, bit: u8, val: KMUX)
        requires
            self.spec_attached(old(b)@),
            bit < 2,
            val.spec_valid(),
        ensures
            final(b)@ == spec_write_value(old(b)@, self.p, (KMUXRef { i: (1 + bit) as u8 }), 9, val.spec_to_bits()),
            self.spec_attached(final(b)@),
            spec_same_aux(old(b)@, final(b)@),
    {
        let fp = KMUXRef { i: 1 + bit };
        proof {
            lemma_field_fits(b@.family, self.p, fp, 9);
        }
        write_field(b, self.p, &fp, 9, val.to_bits());
    }

    /// Byte enable `bit` of port B (a [`kmux`](Self::kmux))
    pub fn byte_en_b(&self, b: &Bitstream, bit: u8) -> (r: KMUX)
        requires
            self.spec_attached(b@),
            bit < 2,
            KMUX::spec_from_bits(spec_read_field(b@, self.p, (KMUXRef { i: (8 + bit) as u8 }), 9)) is Some,
        ensures
            Some(r) == KMUX::spec_from_bits(spec_read_field(b@, self.p, (KMUXRef { i: (8 + bit) as u8 }), 9)),
    {
        let fp = KMUXRef { i: 8 + bit };
        proof {
            lemma_field_fits(b@.family, self.p, fp, 9);
        }
        let bits = read_field(b, self.p, &fp, 9);
        KMUX::from_bits(bits)
    }


    /// Write the field read by [`byte_en_b`](Self::byte_en_b)
    pub fn set_byte_en_b(&self, b: &mut Bitstream, bit: u8, val: KMUX)
        requires
            self.spec_attached(old(b)@),
            bit < 2,
            val.spec_valid(),
        ensures
            final(b)@ == spec_write_value(old(b)@, self.p, (KMUXRef { i: (8 + bit) as u8 }), 9, val.spec_to_bits()),
            self.spec_attached(final(b)@),
            spec_same_aux(old(b)@, final(b)@),
    {
        let fp = KMUXRef { i: 8 + bit };
        proof {
            lemma_field_fits(b@.family, self.p, fp, 9);
        }
        write_field(b, self.p, &fp, 9, val.to_bits());
    }

    pub fn clock_mux(&self, b: &Bitstream, clk_idx: u8) -> (r: Mux3Inv)
        requires
            self.spec_attached(b@),
            clk_idx < 2,
            Mux3Inv::spec_from_bits(spec_read_field(b@, self.p, (BRAMCtrlMux { kind: 0, k: clk_idx }), 4)) is Some,
        ensures
            Some(r) == Mux3Inv::spec_from_bits(spec_read_field(b@, self.p, (BRAMCtrlMux { kind: 0, k: clk_idx }), 4)),
    {
        let fp = BRAMCtrlMux { kind: 0, k: clk_idx };
        proof {
            lemma_field_fits(b@.family, self.p, fp, 4);
        }
        let bits = read_field(b, self.p, &fp, 4);
        Mux3Inv::from_bits(bits)
    }


    /// Write the field read by [`clock_mux`](Self::clock_mux)
    pub fn set_clock_mux(&self, b: &mut Bitstream, clk_idx: u8, val: Mux3Inv)
        requires
            self.spec_attached(old(b)@),
            clk_idx < 2,
            val.spec_valid(),
        ensures
            final(b)@ == spec_write_value(old(b)@, self.p, (BRAMCtrlMux { kind: 0, k: clk_idx }), 4, val.spec_to_bits()),
            self.spec_attached(final(b)@),
            spec_same_aux(old(b)@, final(b)@),
    {
        let fp = BRAMCtrlMux { kind: 0, k: clk_idx };
        proof {
            lemma_field_fits(b@.family, self.p, fp, 4);
        }
        write_field(b, self.p, &fp, 4, val.to_bits());
    }

    pub fn clock_en_mux(&self, b: &Bitstream, clk_idx: u8) -> (r: Mux3Inv)
        requires
            self.spec_attached(b@),
            clk_idx < 2,
            Mux3Inv::spec_from_bits(spec_read_field(b@, self.p, (BRAMCtrlMux { kind: 1, k: clk_idx }), 4)) is Some,
        ensures
            Some(r) == Mux3Inv::spec_from_bits(spec_read_field(b@, self.p, (BRAMCtrlMux { kind: 1, k: clk_idx }), 4)),
    {
        let fp = BRAMCtrlMux { kind: 1, k: clk_idx };
        proof {
            lemma_field_fits(b@.family, self.p, fp, 4);
        }
        let bits = read_field(b, self.p, &fp, 4);
        Mux3Inv::from_bits(bits)
    }


    /// Write the field read by [`clock_en_mux`](Self::clock_en_mux)
    pub fn set_clock_en_mux(&self, b: &mut Bitstream, clk_idx: u8, val: Mux3Inv)
        requires
            self.spec_attached(old(b)@),
            clk_idx < 2,
            val.spec_valid(),
        ensures
            final(b)@ == spec_write_value(old(b)@, self.p, (BRAMCtrlMux { kind: 1, k: clk_idx }), 4, val.spec_to_bits()),
            self.spec_attached(final(b)@),
            spec_same_aux(old(b)@, final(b)@),
    {
        let fp = BRAMCtrlMux { kind: 1, k: clk_idx };
        proof {
            lemma_field_fits(b@.family, self.p, fp, 4);
        }
        write_field(b, self.p, &fp, 4, val.to_bits());
    }

    pub fn async_mux(&self, b: &Bitstream, clk_idx: u8) -> (r: Mux3Inv)
        requires
            self.spec_attached(b@),
            clk_idx < 2,
            Mux3Inv::spec_from_bits(spec_read_field(b@, self.p, (BRAMCtrlMux { kind: 2, k: clk_idx }), 4)) is Some,
        ensures
            Some(r) == Mux3Inv::spec_from_bits(spec_read_field(b@, self.p, (BRAMCtrlMux { kind: 2, k: clk_idx }), 4)),
    {
        let fp = BRAMCtrlMux { kind: 2, k: clk_idx };
        proof {
            lemma_field_fits(b@.family, self.p, fp, 4);
        }
        let bits = read_field(b, self.p, &fp, 4);
        Mux3Inv::from_bits(bits)
    }


    /// Write the field read by [`async_mux`](Self::async_mux)
    pub fn set_async_mux(&self, b: &mut Bitstream, clk_idx: u8, val: Mux3Inv)
        requires
            self.spec_attached(old(b)@),
            clk_idx < 2,
            val.spec_valid(),
        ensures
            final(b)@ == spec_write_value(old(b)@, self.p, (BRAMCtrlMux { kind: 2, k: clk_idx }), 4, val.spec_to_bits()),
            self.spec_attached(final(b)@),
            spec_same_aux(old(b)@, final(b)@),
    {
        let fp = BRAMCtrlMux { kind: 2, k: clk_idx };
        proof {
            lemma_field_fits(b@.family, self.p, fp, 4);
        }
        write_field(b, self.p, &fp, 4, val.to_bits());
    }

    /// The "packed" mode
    pub fn use_packed_mode_address_override(&self, b: &Bitstream) -> (r: bool)
        requires
            self.spec_attached(b@),
        ensures
            r == (spec_read_field(b@, self.p, (BitAt { x: 34, y: 3 }), 1) == 1),
    {
        let fp = BitAt { x: 34, y: 3 };
        proof {
            lemma_field_fits(b@.family, self.p, fp, 1);
        }
        let bits = read_field(b, self.p, &fp, 1);
        bits == 1
    }


    /// Write the field read by [`use_packed_mode_address_override`](Self::use_packed_mode_address_override)
    pub fn set_use_packed_mode_address_override(&self, b: &mut Bitstream, val: bool)
        requires
            self.spec_attached(old(b)@),
        ensures
            final(b)@ == spec_write_value(old(b)@, self.p, (BitAt { x: 34, y: 3 }), 1, if val { 1u32 } else { 0u32 }),
            self.spec_attached(final(b)@),
            spec_same_aux(old(b)@, final(b)@),
    {
        let fp = BitAt { x: 34, y: 3 };
        proof {
            lemma_field_fits(b@.family, self.p, fp, 1);
        }
        write_field(b, self.p, &fp, 1, if val {
            1
        } else {
            0
        });
    }

    pub fn clock_choices_mode(&self, b: &Bitstream) -> (r: ClockMode)
        requires
            self.spec_attached(b@),
            ClockMode::spec_from_bits(spec_read_field(b@, self.p, (TwoBits { x0: 35, y0: 49, x1: 34, y1: 49 }), 2)) is Some,
        ensures
            Some(r) == ClockMode::spec_from_bits(spec_read_field(b@, self.p, (TwoBits { x0: 35, y0: 49, x1: 34, y1: 49 }), 2)),
    {
        let fp = TwoBits { x0: 35, y0: 49, x1: 34, y1: 49 };
        proof {
            lemma_field_fits(b@.family, self.p, fp, 2);
        }
        let bits = read_field(b, self.p, &fp, 2);
        ClockMode::from_bits(bits)
    }


    /// Write the field read by [`clock_choices_mode`](Self::clock_choices_mode)
    pub fn set_clock_choices_mode(&self, b: &mut Bitstream, val: ClockMode)
        requires
            self.spec_attached(old(b)@),
        ensures
            final(b)@ == spec_write_value(old(b)@, self.p, (TwoBits { x0: 35, y0: 49, x1: 34, y1: 49 }), 2, val.spec_to_bits()),
            self.spec_attached(final(b)@),
            spec_same_aux(old(b)@, final(b)@),
    {
        let fp = TwoBits { x0: 35, y0: 49, x1: 34, y1: 49 };
        proof {
            lemma_field_fits(b@.family, self.p, fp, 2);
        }
        write_field(b, self.p, &fp, 2, val.to_bits());
    }

    pub fn width_a(&self, b: &Bitstream) -> (r: PortWidth)
        requires
            self.spec_attached(b@),
            PortWidth::spec_from_bits(spec_read_field(b@, self.p, (PortWidthRef { port_b: false }), 5)) is Some,
        ensures
            Some(r) == PortWidth::spec_from_bits(spec_read_field(b@, self.p, (PortWidthRef { port_b: false }), 5)),
    {
        let fp = PortWidthRef { port_b: false };
        proof {
            lemma_field_fits(b@.family, self.p, fp, 5);
        }
        let bits = read_field(b, self.p, &fp, 5);
        PortWidth::from_bits(bits)
    }


    /// Write the field read by [`width_a`](Self::width_a)
    pub fn set_width_a(&self, b: &mut Bitstream, val: PortWidth)
        requires
            self.spec_attached(old(b)@),
        ensures
            final(b)@ == spec_write_value(old(b)@, self.p, (PortWidthRef { port_b: false }), 5, val.spec_to_bits()),
            self.spec_attached(final(b)@),
            spec_same_aux(old(b)@, final(b)@),
    {
        let fp = PortWidthRef { port_b: false };
        proof {
            lemma_field_fits(b@.family, self.p, fp, 5);
        }
        write_field(b, self.p, &fp, 5, val.to_bits());
    }

    pub fn width_b(&self, b: &Bitstream) -> (r: PortWidth)
        requires
            self.spec_attached(b@),
            PortWidth::spec_from_bits(spec_read_field(b@, self.p, (PortWidthRef { port_b: true }), 5)) is Some,
        ensures
            Some(r) == PortWidth::spec_from_bits(spec_read_field(b@, self.p, (PortWidthRef { port_b: true }), 5)),
    {
        let fp = PortWidthRef { port_b: true };
        proof {
            lemma_field_fits(b@.family, self.p, fp, 5);
        }
        let bits = read_field(b, self.p, &fp, 5);
        PortWidth::from_bits(bits)
    }


    /// Write the field read by [`width_b`](Self::width_b)
    pub fn set_width_b(&self, b: &mut Bitstream, val: PortWidth)
        requires
            self.spec_attached(old(b)@),
        ensures
            final(b)@ == spec_write_value(old(b)@, self.p, (PortWidthRef { port_b: true }), 5, val.spec_to_bits()),
            self.spec_attached(final(b)@),
            spec_same_aux(old(b)@, final(b)@),
    {
        let fp = PortWidthRef { port_b: true };
        proof {
            lemma_field_fits(b@.family, self.p, fp, 5);
        }
        write_field(b, self.p, &fp, 5, val.to_bits());
    }

    pub fn use_output_register_a(&self, b: &Bitstream) -> (r: bool)
        requires
            self.spec_attached(b@),
        ensures
            r == (spec_read_field(b@, self.p, (BitAt { x: 34, y: 29 }), 1) == 1),
    {
        let fp = BitAt { x: 34, y: 29 };
        proof {
            lemma_field_fits(b@.family, self.p, fp, 1);
        }
        let bits = read_field(b, self.p, &fp, 1);
        bits == 1
    }


    /// Write the field read by [`use_output_register_a`](Self::use_output_register_a)
    pub fn set_use_output_register_a(&self, b: &mut Bitstream, val: bool)
        requires
            self.spec_attached(old(b)@),
        ensures
            final(b)@ == spec_write_value(old(b)@, self.p, (BitAt { x: 34, y: 29 }), 1, if val { 1u32 } else { 0u32 }),
            self.spec_attached(final(b)@),
            spec_same_aux(old(b)@, final(b)@),
    {
        let fp = BitAt { x: 34, y: 29 };
        proof {
            lemma_field_fits(b@.family, self.p, fp, 1);
        }
        write_field(b, self.p, &fp, 1, if val {
            1
        } else {
            0
        });
    }

    pub fn use_output_register_b(&self, b: &Bitstream) -> (r: bool)
        requires
            self.spec_attached(b@),
        ensures
            r == (spec_read_field(b@, self.p, (BitAt { x: 35, y: 39 }), 1) == 1),
    {
        let fp = BitAt { x: 35, y: 39 };
        proof {
            lemma_field_fits(b@.family, self.p, fp, 1);
        }
        let bits = read_field(b, self.p, &fp, 1);
        bits == 1
    }


    /// Write the field read by [`use_output_register_b`](Self::use_output_register_b)
    pub fn set_use_output_register_b(&self, b: &mut Bitstream, val: bool)
        requires
            self.spec_attached(old(b)@),
        ensures
            final(b)@ == spec_write_value(old(b)@, self.p, (BitAt { x: 35, y: 39 }), 1, if val { 1u32 } else { 0u32 }),
            self.spec_attached(final(b)@),
            spec_same_aux(old(b)@, final(b)@),
    {
        let fp = BitAt { x: 35, y: 39 };
        proof {
            lemma_field_fits(b@.family, self.p, fp, 1);
        }
        write_field(b, self.p, &fp, 1, if val {
            1
        } else {
            0
        });
    }

    pub fn use_rst_in_a(&self, b: &Bitstream) -> (r: bool)
        requires
            self.spec_attached(b@),
        ensures
            r == (spec_read_field(b@, self.p, (BitAt { x: 35, y: 55 }), 1) == 1),
    {
        let fp = BitAt { x: 35, y: 55 };
        proof {
            lemma_field_fits(b@.family, self.p, fp, 1);
        }
        let bits = read_field(b, self.p, &fp, 1);
        bits == 1
    }


    /// Write the field read by [`use_rst_in_a`](Self::use_rst_in_a)
    pub fn set_use_rst_in_a(&self, b: &mut Bitstream, val: bool)
        requires
            self.spec_attached(old(b)@),
        ensures
            final(b)@ == spec_write_value(old(b)@, self.p, (BitAt { x: 35, y: 55 }), 1, if val { 1u32 } else { 0u32 }),
            self.spec_attached(final(b)@),
            spec_same_aux(old(b)@, final(b)@),
    {
        let fp = BitAt { x: 35, y: 55 };
        proof {
            lemma_field_fits(b@.family, self.p, fp, 1);
        }
        write_field(b, self.p, &fp, 1, if val {
            1
        } else {
            0
        });
    }

    pub fn use_rst_in_b(&self, b: &Bitstream) -> (r: bool)
        requires
            self.spec_attached(b@),
        ensures
            r == (spec_read_field(b@, self.p, (BitAt { x: 35, y: 61 }), 1) == 1),
    {
        let fp = BitAt { x: 35, y: 61 };
        proof {
            lemma_field_fits(b@.family, self.p, fp, 1);
        }
        let bits = read_field(b, self.p, &fp, 1);
        bits == 1
    }


    /// Write the field read by [`use_rst_in_b`](Self::use_rst_in_b)
    pub fn set_use_rst_in_b(&self, b: &mut Bitstream, val: bool)
        requires
            self.spec_attached(old(b)@),
        ensures
            final(b)@ == spec_write_value(old(b)@, self.p, (BitAt { x: 35, y: 61 }), 1, if val { 1u32 } else { 0u32 }),
            self.spec_attached(final(b)@),
            spec_same_aux(old(b)@, final(b)@),
    {
        let fp = BitAt { x: 35, y: 61 };
        proof {
            lemma_field_fits(b@.family, self.p, fp, 1);
        }
        write_field(b, self.p, &fp, 1, if val {
            1
        } else {
            0
        });
    }

    pub fn use_rst_out_a(&self, b: &Bitstream) -> (r: bool)
        requires
            self.spec_attached(b@),
        ensures
            r == (spec_read_field(b@, self.p, (BitAt { x: 35, y: 59 }), 1) == 1),
    {
        let fp = BitAt { x: 35, y: 59 };
        proof {
            lemma_field_fits(b@.family, self.p, fp, 1);
        }
        let bits = read_field(b, self.p, &fp, 1);
        bits == 1
    }


    /// Write the field read by [`use_rst_out_a`](Self::use_rst_out_a)
    pub fn set_use_rst_out_a(&self, b: &mut Bitstream, val: bool)
        requires
            self.spec_attached(old(b)@),
        ensures
            final(b)@ == spec_write_value(old(b)@, self.p, (BitAt { x: 35, y: 59 }), 1, if val { 1u32 } else { 0u32 }),
            self.spec_attached(final(b)@),
            spec_same_aux(old(b)@, final(b)@),
    {
        let fp = BitAt { x: 35, y: 59 };
        proof {
            lemma_field_fits(b@.family, self.p, fp, 1);
        }
        write_field(b, self.p, &fp, 1, if val {
            1
        } else {
            0
        });
    }

    pub fn use_rst_out_b(&self, b: &Bitstream) -> (r: bool)
        requires
            self.spec_attached(b@),
        ensures
            r == (spec_read_field(b@, self.p, (BitAt { x: 35, y: 65 }), 1) == 1),
    {
        let fp = BitAt { x: 35, y: 65 };
        proof {
            lemma_field_fits(b@.family, self.p, fp, 1);
        }
        let bits = read_field(b, self.p, &fp, 1);
        bits == 1
    }


    /// Write the field read by [`use_rst_out_b`](Self::use_rst_out_b)
    pub fn set_use_rst_out_b(&self, b: &mut Bitstream, val: bool)
        requires
            self.spec_attached(old(b)@),
        ensures
            final(b)@ == spec_write_value(old(b)@, self.p, (BitAt { x: 35, y: 65 }), 1, if val { 1u32 } else { 0u32 }),
            self.spec_attached(final(b)@),
            spec_same_aux(old(b)@, final(b)@),
    {
        let fp = BitAt { x: 35, y: 65 };
        proof {
            lemma_field_fits(b@.family, self.p, fp, 1);
        }
        write_field(b, self.p, &fp, 1, if val {
            1
        } else {
            0
        });
    }

    pub fn use_clk_en_in_a(&self, b: &Bitstream) -> (r: bool)
        requires
            self.spec_attached(b@),
        ensures
            r == (spec_read_field(b@, self.p, (BitAt { x: 35, y: 3 }), 1) == 1),
    {
        let fp = BitAt { x: 35, y: 3 };
        proof {
            lemma_field_fits(b@.family, self.p, fp, 1);
        }
        let bits = read_field(b, self.p, &fp, 1);
        bits == 1
    }


    /// Write the field read by [`use_clk_en_in_a`](Self::use_clk_en_in_a)
    pub fn set_use_clk_en_in_a(&self, b: &mut Bitstream, val: bool)
        requires
            self.spec_attached(old(b)@),
        ensures
            final(b)@ == spec_write_value(old(b)@, self.p, (BitAt { x: 35, y: 3 }), 1, if val { 1u32 } else { 0u32 }),
            self.spec_attached(final(b)@),
            spec_same_aux(old(b)@, final(b)@),
    {
        let fp = BitAt { x: 35, y: 3 };
        proof {
            lemma_field_fits(b@.family, self.p, fp, 1);
        }
        write_field(b, self.p, &fp, 1, if val {
            1
        } else {
            0
        });
    }

    pub fn use_clk_en_in_b(&self, b: &Bitstream) -> (r: bool)
        requires
            self.spec_attached(b@),
        ensures
            r == (spec_read_field(b@, self.p, (BitAt { x: 35, y: 19 }), 1) == 1),
    {
        let fp = BitAt { x: 35, y: 19 };
        proof {
            lemma_field_fits(b@.family, self.p, fp, 1);
        }
        let bits = read_field(b, self.p, &fp, 1);
        bits == 1
    }


    /// Write the field read by [`use_clk_en_in_b`](Self::use_clk_en_in_b)
    pub fn set_use_clk_en_in_b(&self, b: &mut Bitstream, val: bool)
        requires
            self.spec_attached(old(b)@),
        ensures
            final(b)@ == spec_write_value(old(b)@, self.p, (BitAt { x: 35, y: 19 }), 1, if val { 1u32 } else { 0u32 }),
            self.spec_attached(final(b)@),
            spec_same_aux(old(b)@, final(b)@),
    {
        let fp = BitAt { x: 35, y: 19 };
        proof {
            lemma_field_fits(b@.family, self.p, fp, 1);
        }
        write_field(b, self.p, &fp, 1, if val {
            1
        } else {
            0
        });
    }

    pub fn use_clk_en_out_a(&self, b: &Bitstream) -> (r: bool)
        requires
            self.spec_attached(b@),
        ensures
            r == (spec_read_field(b@, self.p, (BitAt { x: 35, y: 7 }), 1) == 1),
    {
        let fp = BitAt { x: 35, y: 7 };
        proof {
            lemma_field_fits(b@.family, self.p, fp, 1);
        }
        let bits = read_field(b, self.p, &fp, 1);
        bits == 1
    }


    /// Write the field read by [`use_clk_en_out_a`](Self::use_clk_en_out_a)
    pub fn set_use_clk_en_out_a(&self, b: &mut Bitstream, val: bool)
        requires
            self.spec_attached(old(b)@),
        ensures
            final(b)@ == spec_write_value(old(b)@, self.p, (BitAt { x: 35, y: 7 }), 1, if val { 1u32 } else { 0u32 }),
            self.spec_attached(final(b)@),
            spec_same_aux(old(b)@, final(b)@),
    {
        let fp = BitAt { x: 35, y: 7 };
        proof {
            lemma_field_fits(b@.family, self.p, fp, 1);
        }
        write_field(b, self.p, &fp, 1, if val {
            1
        } else {
            0
        });
    }

    pub fn use_clk_en_out_b(&self, b: &Bitstream) -> (r: bool)
        requires
            self.spec_attached(b@),
        ensures
            r == (spec_read_field(b@, self.p, (BitAt { x: 35, y: 29 }), 1) == 1),
    {
        let fp = BitAt { x: 35, y: 29 };
        proof {
            lemma_field_fits(b@.family, self.p, fp, 1);
        }
        let bits = read_field(b, self.p, &fp, 1);
        bits == 1
    }


    /// Write the field read by [`use_clk_en_out_b`](Self::use_clk_en_out_b)
    pub fn set_use_clk_en_out_b(&self, b: &mut Bitstream, val: bool)
        requires
            self.spec_attached(old(b)@),
        ensures
            final(b)@ == spec_write_value(old(b)@, self.p, (BitAt { x: 35, y: 29 }), 1, if val { 1u32 } else { 0u32 }),
            self.spec_attached(final(b)@),
            spec_same_aux(old(b)@, final(b)@),
    {
        let fp = BitAt { x: 35, y: 29 };
        proof {
            lemma_field_fits(b@.family, self.p, fp, 1);
        }
        write_field(b, self.p, &fp, 1, if val {
            1
        } else {
            0
        });
    }

    pub fn write_thru_a(&self, b: &Bitstream) -> (r: bool)
        requires
            self.spec_attached(b@),
        ensures
            r == (spec_read_field(b@, self.p, (BitAt { x: 35, y: 9 }), 1) == 1),
    {
        let fp = BitAt { x: 35, y: 9 };
        proof {
            lemma_field_fits(b@.family, self.p, fp, 1);
        }
        let bits = read_field(b, self.p, &fp, 1);
        bits == 1
    }


    /// Write the field read by [`write_thru_a`](Self::write_thru_a)
    pub fn set_write_thru_a(&self, b: &mut Bitstream, val: bool)
        requires
            self.spec_attached(old(b)@),
        ensures
            final(b)@ == spec_write_value(old(b)@, self.p, (BitAt { x: 35, y: 9 }), 1, if val { 1u32 } else { 0u32 }),
            self.spec_attached(final(b)@),
            spec_same_aux(old(b)@, final(b)@),
    {
        let fp = BitAt { x: 35, y: 9 };
        proof {
            lemma_field_fits(b@.family, self.p, fp, 1);
        }
        write_field(b, self.p, &fp, 1, if val {
            1
        } else {
            0
        });
    }

    pub fn write_thru_b(&self, b: &Bitstream) -> (r: bool)
        requires
            self.spec_attached(b@),
        ensures
            r == (spec_read_field(b@, self.p, (BitAt { x: 34, y: 59 }), 1) == 1),
    {
        let fp = BitAt { x: 34, y: 59 };
        proof {
            lemma_field_fits(b@.family, self.p, fp, 1);
        }
        let bits = read_field(b, self.p, &fp, 1);
        bits == 1
    }


    /// Write the field read by [`write_thru_b`](Self::write_thru_b)
    pub fn set_write_thru_b(&self, b: &mut Bitstream, val: bool)
        requires
            self.spec_attached(old(b)@),
        ensures
            final(b)@ == spec_write_value(old(b)@, self.p, (BitAt { x: 34, y: 59 }), 1, if val { 1u32 } else { 0u32 }),
            self.spec_attached(final(b)@),
            spec_same_aux(old(b)@, final(b)@),
    {
        let fp = BitAt { x: 34, y: 59 };
        proof {
            lemma_field_fits(b@.family, self.p, fp, 1);
        }
        write_field(b, self.p, &fp, 1, if val {
            1
        } else {
            0
        });
    }

    pub fn rsen_delay(&self, b: &Bitstream) -> (r: u8)
        requires
            self.spec_attached(b@),
        ensures
            r == spec_read_field(b@, self.p, (TwoBits { x0: 34, y0: 13, x1: 34, y1: 23 }), 2) as u8,
    {
        let fp = TwoBits { x0: 34, y0: 13, x1: 34, y1: 23 };
        proof {
            lemma_field_fits(b@.family, self.p, fp, 2);
        }
        let bits = read_field(b, self.p, &fp, 2);
        bits as u8
    }


    /// Write the field read by [`rsen_delay`](Self::rsen_delay)
    pub fn set_rsen_delay(&self, b: &mut Bitstream, val: u8)
        requires
            self.spec_attached(old(b)@),
            val < 4,
        ensures
            final(b)@ == spec_write_value(old(b)@, self.p, (TwoBits { x0: 34, y0: 13, x1: 34, y1: 23 }), 2, val as u32),
            self.spec_attached(final(b)@),
            spec_same_aux(old(b)@, final(b)@),
    {
        let fp = TwoBits { x0: 34, y0: 13, x1: 34, y1: 23 };
        proof {
            lemma_field_fits(b@.family, self.p, fp, 2);
        }
        write_field(b, self.p, &fp, 2, val as u32);
    }

    pub fn delay_time(&self, b: &Bitstream) -> (r: u8)
        requires
            self.spec_attached(b@),
        ensures
            r == spec_read_field(b@, self.p, (TwoBits { x0: 34, y0: 25, x1: 34, y1: 39 }), 2) as u8,
    {
        let fp = TwoBits { x0: 34, y0: 25, x1: 34, y1: 39 };
        proof {
            lemma_field_fits(b@.family, self.p, fp, 2);
        }
        let bits = read_field(b, self.p, &fp, 2);
        bits as u8
    }


    /// Write the field read by [`delay_time`](Self::delay_time)
    pub fn set_delay_time(&self, b: &mut Bitstream, val: u8)
        requires
            self.spec_attached(old(b)@),
            val < 4,
        ensures
            final(b)@ == spec_write_value(old(b)@, self.p, (TwoBits { x0: 34, y0: 25, x1: 34, y1: 39 }), 2, val as u32),
            self.spec_attached(final(b)@),
            spec_same_aux(old(b)@, final(b)@),
    {
        let fp = TwoBits { x0: 34, y0: 25, x1: 34, y1: 39 };
        proof {
            lemma_field_fits(b@.family, self.p, fp, 2);
        }
        write_field(b, self.p, &fp, 2, val as u32);
    }

    /// Read the 9216 bits of preloaded data into `sink`
    pub fn init_data<S: BitSink>(&self, b: &Bitstream, sink: &mut S)
        requires
            self.spec_attached(b@),
            old(sink).spec_sink_bits().len() >= 9216,
        ensures
            final(sink).spec_sink_bits() == spec_init_data(b@, self.p) + old(sink).spec_sink_bits().subrange(
                9216,
                old(sink).spec_sink_bits().len() as int,
            ),
    {
        let family = b.family();
        let ghost s0 = sink.spec_sink_bits();
        let mut i: usize = 0;
        while i < 9216
            invariant
                i <= 9216,
                self.spec_attached(b@),
                family == b@.family,
                sink.spec_sink_bits().len() == s0.len(),
                s0.len() >= 9216,
                forall|k: int| 0 <= k < i ==> #[trigger] sink.spec_sink_bits()[k] == spec_tile_bit(
                    b@,
                    self.p,
                    spec_init_bit_pos(k),
                ),
                forall|k: int| i <= k < s0.len() ==> #[trigger] sink.spec_sink_bits()[k] == s0[k],
            decreases 9216 - i,
        {
            let rel = init_bit_pos(i);
            proof {
                lemma_tile_bit_in_range(family, self.p, rel);
            }
            let gb = GlobalBitPos::from((family, self.p, rel));
            let bit = b.get_logic_array_bit(gb);
            sink.set(i, bit);
            i = i + 1;
        }
        assert(sink.spec_sink_bits() =~= spec_init_data(b@, self.p) + s0.subrange(9216, s0.len() as int));
    }

    /// Write the 9216 bits of preloaded data from the first bits of `source`
    pub fn set_init_data<S: BitSource>(&self, b: &mut Bitstream, source: &S)
        requires
            self.spec_attached(old(b)@),
            source.spec_source_bits().len() >= 9216,
        ensures
            final(b)@ == crate::field::spec_write_field(
                old(b)@,
                self.p,
                spec_init_positions(),
                source.spec_source_bits().subrange(0, 9216),
            ),
            self.spec_attached(final(b)@),
    {
        let family = b.family();
        let ghost v0 = b@;
        let ghost bits = source.spec_source_bits().subrange(0, 9216);
        let mut i: usize = 0;
        proof {
            assert(spec_init_positions().subrange(0, 0) =~= Seq::<TileRelativeBitPos>::empty());
        }
        while i < 9216
            invariant
                i <= 9216,
                self.spec_attached(b@),
                family == v0.family,
                b@.family == v0.family,
                self.spec_attached(v0),
                source.spec_source_bits().len() >= 9216,
                bits == source.spec_source_bits().subrange(0, 9216),
                b@ == crate::field::spec_write_field(v0, self.p, spec_init_positions().subrange(0, i as int), bits),
            decreases 9216 - i,
        {
            let rel = init_bit_pos(i);
            proof {
                lemma_tile_bit_in_range(family, self.p, rel);
            }
            let gb = GlobalBitPos::from((family, self.p, rel));
            let val = source.get(i);
            b.set_logic_array_bit(gb, val);
            proof {
                let ps1 = spec_init_positions().subrange(0, i + 1);
                assert(ps1.drop_last() =~= spec_init_positions().subrange(0, i as int));
                assert(ps1[i as int] == rel);
                assert(bits[i as int] == val);
            }
            i = i + 1;
        }
        assert(spec_init_positions().subrange(0, 9216) =~= spec_init_positions());
    }
}

impl GenericRoutingRefTrait for BRAMTileRef {
    open spec fn spec_routing_pos(&self) -> TilePos {
        self.p
    }

    open spec fn spec_routing_is_bram(&self) -> bool {
        true
    }

    open spec fn spec_routing_attached(&self, v: BitstreamView) -> bool {
        self.spec_attached(v)
    }

    fn rmux(&self, b: &Bitstream, rmux_idx: u8) -> (r: RMUX) {
        read_rmux(b, self.p, true, rmux_idx)
    }
}

impl GenericRoutingRefMutTrait for BRAMTileRef {
    fn set_rmux(&self, b: &mut Bitstream, rmux_idx: u8, val: RMUX) {
        write_rmux(b, self.p, true, rmux_idx, val);
    }
}

} // verus!
