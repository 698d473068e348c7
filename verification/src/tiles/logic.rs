//! Logic tiles
//!
//! A logic tile contains 16 individual logic elements (LEs), which
//! each consist of a LUT4 and a register (flip-flop).
//! The tile also contains input selection muxes for each LE
//! and a number of control signal muxes shared by all LEs.
//!
//! ## Routing
//!
//! Each LE's input has an [IMUX] to select a signal.
//! Inputs `A` and `C` have a similar signal mix available,
//! as do inputs `B` and `D`. The input mix is also very similar
//! between each LE in a tile. In general, this allows for
//! input swapping and LE swapping. However, the sites are not _exactly_
//! identical, so care must be taken.
//!
//! `IMUX` can select from amongst the following choices:
//! - `RMUX` self-wires (from where it likely came from the interconnect)
//! - neighbor wires from the tile on the right
//!   (typically an output from another `RMUX` and thus also from the interconnect)
//! - LE outputs from within this tile (but via an `OMUX`, so only
//!   _either_ the LUT or the flip-flop's output is available, but not both _via this path_)
//!
//! Both the combinatorial output and the registered output of
//! each LE can be used simultaneously, and each LE has _three_
//! [OMUX]es independently selecting from the two. These muxes then drive:
//! 1. right-going neighbor wires
//!    (where the signal typically enters an `RMUX` to drive it further)
//! 2. LUT inputs within this tile (via `IMUX`)
//! 3. `RMUX` within this tile
//!
//! Visually, the routing _within_ a logic tile looks like this:
//!
//! ```text
//!                                     +------------+
//! output wires other than T1_E <------|            |--+
//! general-purpose routing wires ----->| 6× 16 RMUX |  | RMUX-to-RMUX self-wires
//!                                     |            |<-+
//!                                     | 4× CtrlMUX |----------------------+
//!                                     |            |<-------------+       | 2× 16 local lines (RMUX-to-IMUX)
//!                                     +------------+              |       v
//!                                         ^ |                     |   +------------+
//!                 +--------------------+  | | 4× control signal   |   | 4× 16 IMUX |<-- T1_W wires
//! global wires -> | 4× global-to-local | -+ |    preselections    |   +------------+
//!                 +--------------------+  | |                     |       | ^
//!                                         v v            16× OMUX |       | | 16× OMUX
//!                                        _____                    |       v |
//!                                        \___/                    |   +---------+
//!                                          |                      +---|         |
//!                tile-wide control signals |                          | 16× LEs |----> T1_E wires (via OMUX)
//!        (clock+enable, async reset, etc.) +------------------------->|         |
//!                                                                     +---------+
//! ```
//!
//! ## Control signals
//!
//! Control signals for the register (flip-flop) have much more restricted routing,
//! and many resources must be shared by all LEs within a tile. Specifically, a tile has:
//! - 2x clock+clock-enable pairs
//! - 2x async control wires
//! - 1 sync clear wires
//! - 1 sync load wires
//!
//! Every LE can only pick from amongst these, as follows:
//! - using one clock+enable pair, or the other
//! - using one of the async control wires
//!   (this cannot be disabled, so "not using async reset" consumes one of the tile's wires)
//! - whether or not to use sync control signals (both load _and_ clear will be used)
//!
//! For the clock and async control signals only, the source can come from a global net.
//! The appropriate global net must first be selected via a "global to local" mux.
//! Otherwise, for all of of the control signals, the source can come from general routing.
//! In that case, a signal must be selected with a [CtrlMux],
//! which is similar to an `IMUX` but with more choices.
//!
//! ## Fast paths
//!
//! There are two fast paths between logic elements, carry chains and a "shift register" path.
//! Both of these connect _from_ the logic element above. "Above" means the LE
//! with an index 1 _smaller_ within the tile (for LEs 1 to 15 inclusive),
//! or the signals from LE 15 in the tile with a y-coordinate 1 _higher_ (for LE 0).
//!
//! The tiles at the top edge of the array do not have fast path inputs,
//! and these are supposedly hardwired to 0.
//!
//! ## Logic elements
//!
//! Each logic element consists of a LUT4 and a register.
//!
//! In the "default" configuration, the register's input comes from the output of the LUT4:
//!
//! ```text
//!                 +------------------>
//!      +------+   |       +----+
//! A -->|      |   |       |    |
//! B -->| LUT4 |---+-------| FF |----->
//! C -->|      |           |    |
//! D -->|      |      clk -|>   |
//!      +------+           +----+
//! ```
//!
//! However, input C to the LUT is special, because it can be used for carry chains:
//!
//! ```text
//!                           +------------------>
//!                +------+   |       +----+
//!           A -->|      |   |       |    |
//! Cin-->|\  B -->| LUT  |---+-------| FF |----->
//!       | |------|      |           |    |
//! C---->|/  D -->|      |-+    clk -|>   |
//!                +------+ |         +----+
//!                         v
//!                        Cout
//! ```
//!
//! The carry _out_ from a LUT is computed from inputs `A`, `B`, and `Cin` (not `C`),
//! using the "bottom" half of the LUT.
//! This computation is not affected by how LUT input C is configured.
//! The _data_ out from a LUT is the only thing affected by the input C mode.
//!
//! In practice, to implement an adder, the "bottom" half of the LUT implements a majority gate over
//! `A`, `B`, and `Cin`, and the "top" half of the LUT implements an XOR gate over the same inputs.
//! Input D is not used. However, other configurations _are_ permitted by the hardware.
//!
//! Logic elements also contain a "register feedback" path.
//! This takes the output of the register and replaces input C with it.
//!
//! ```text
//!                           +------------------>
//!                +------+   |       +----+
//!           A -->|      |   |       |    |
//! Cin-->|\  B -->| LUT  |---+-------| FF |--+-->
//! C---->| |------|      |           |    |  |
//!    +--|/  D -->|      |-+    clk -|>   |  |
//!    |           +------+ |         +----+  |
//!    |                    v                 |
//!    |                   Cout               |
//!    +--------------------------------------+
//! ```
//!
//! This fast path can be used to optimize state machines and similar logic.
//!
//! The register can also take its input from the register above, to implement shift registers:
//!
//! ```text
//!                         shift in
//!                             v
//!                           +-|---------------->
//!                +------+   | +-|\  +----+
//!           A -->|      |   |   | |-|    |
//! Cin-->|\  B -->| LUT  |---+---|/  | FF |--+-->
//! C---->| |------|      |           |    |  |
//!    +--|/  D -->|      |-+    clk -|>   |  |
//!    |           +------+ |         +----+  |
//!    |                    v                 |
//!    |                   Cout               |
//!    +--------------------------------------+
//!                                           v
//!                                     shift out
//! ```
//!
//! When the shift register feature is being used, the LUT output remains available via certain OMUX paths.
//! The shift register feature can also be combined with the "register feedback" feature.
//!
//! The register can be optionally forced to take its input from input C when a "sync load" signal is asserted:
//!
//! ```text
//!                             shift in
//!                                 v
//!                               +-|---------------------------------->
//!                    +------+   | +-|\
//!               A -->|      |   |   | |-|\
//!     Cin-->|\  B -->| LUT  |---+---|/  | |--|\        +----+
//! C-+------>| |------|      |         +-|/   | |-------| FF |--+----->
//!   |    +--|/  D -->|      |-+       |  | 0-|/        |    |  |
//!   |    |           +------+ |       |  |    |   clk -|>   |  |
//!   |    |                    v       |  |    |        +----+  |
//!   |    |                   Cout     |  |    |                |
//!   |    +----------------------------|--|----|----------------+
//!   +---------------------------------+  |    |                |
//!                             sync load -+    |                v
//!                             sync clear -----+           shift out
//! ```
//!
//! If sync load is a constant 1, this allows the LUT and register to implement completely unrelated functionality
//! (at the cost of losing one useful LUT input and tile-wide packing constraints over the sync control signals).
//!
//! Finally, the register contains an async reset:
//!
//! ```text
//!                             shift in
//!                                 v
//!                               +-|---------------------------------->
//!                    +------+   | +-|\              async reset
//!               A -->|      |   |   | |-|\               |
//!     Cin-->|\  B -->| LUT  |---+---|/  | |--|\        +-V--+
//! C-+------>| |------|      |         +-|/   | |-------|    |--+----->
//!   |    +--|/  D -->|      |-+       |  | 0-|/        | FF |  |
//!   |    |           +------+ |       |  |    |   clk -|>   |  |
//!   |    |                    v       |  |    |        +----+  |
//!   |    |                   Cout     |  |    |                |
//!   |    +----------------------------|--|----|----------------+
//!   +---------------------------------+  |    |                |
//!                             sync load -+    |                v
//!                             sync clear -----+           shift out
//! ```
//!
//! Features that are _not_ present include:
//! - no async set
//! - no default power-up state
//! - cannot be used as distributed RAM

use vstd::prelude::*;

use crate::bitmux::InvertedBool;
use crate::chips::{spec_tile_type, Family};
use crate::container::{spec_same_aux, Bitstream, BitstreamView};
use crate::coordinates::{TilePos, TileRelativeBitPos};
use crate::field::{
    lemma_field_fits, lemma_write_field_read, lemma_write_read_value, read_field, spec_field_bits,
    spec_positions, spec_tile_bit,
    spec_read_field, spec_write_value, write_field, FieldPositionCalculator, RowDown,
};
use crate::tiles::generic_routing::{
    read_rmux, write_rmux, GenericRoutingRefMutTrait, GenericRoutingRefTrait, RMUX,
};
use crate::tiles::local_lines::{IMUXRef, IMUX};
use crate::tiles::{
    GlobalToLocalMux, GlobalToLocalMuxRef, Mux2, Mux2Inv, Mux3Inv, TileRef, TileRefTrait, TileType,
};

verus! {

/// Access to a logic tile
#[derive(Clone, Copy, PartialEq, Eq, Debug, Hash, Structural)]
pub struct LogicTileRef {
    pub family: Family,
    pub p: TilePos,
}

impl LogicTileRef {
    /// Can this handle be used to access this bitstream?
    pub open spec fn spec_attached(self, v: BitstreamView) -> bool {
        &&& v.logic_ready()
        &&& v.family == self.family
        &&& spec_tile_type(self.family, self.p) == TileType::Logic
    }
}

impl TileRefTrait for LogicTileRef {
    open spec fn spec_family(&self) -> Family {
        self.family
    }

    open spec fn spec_pos(&self) -> TilePos {
        self.p
    }

    open spec fn spec_tile_type(&self) -> TileType {
        TileType::Logic
    }

    fn family(&self) -> (r: Family) {
        self.family
    }

    fn tile_type(&self) -> (r: TileType) {
        TileType::Logic
    }

    fn pos(&self) -> (r: TilePos) {
        self.p
    }

    fn as_base_tile(self) -> (r: TileRef) {
        TileRef { family: self.family, p: self.p }
    }
}

/// The first row of the bits of logic cell `lc`: 4 rows per cell, with a 4-row gap after
/// the first 8 cells
pub open spec fn spec_lc_row(lc: u8) -> int {
    lc * 4 + if lc >= 8 { 4int } else { 0 }
}

fn lc_row(lc: u8) -> (r: u8)
    requires
        lc < 16,
    ensures
        r == spec_lc_row(lc),
{
    lc * 4 + if lc >= 8 {
        4
    } else {
        0
    }
}

/// A one-bit setting of logic cell `lc`, in column `x` and row `dy` of its rows
pub struct LcBit {
    pub lc: u8,
    pub x: u8,
    pub dy: u8,
}

impl FieldPositionCalculator for LcBit {
    open spec fn spec_valid(&self) -> bool {
        self.lc < 16 && self.dy < 4
    }

    open spec fn spec_nbits(&self) -> nat {
        1
    }

    open spec fn spec_bit_pos(&self, biti: int) -> TileRelativeBitPos {
        TileRelativeBitPos { y: (self.dy + spec_lc_row(self.lc)) as u8, x: self.x }
    }

    open spec fn spec_width(&self) -> int {
        self.x + 1
    }

    open spec fn spec_height(&self) -> int {
        68
    }

    proof fn lemma_layout(&self) {
    }

    fn get_bit_pos(&self, biti: usize) -> (r: TileRelativeBitPos) {
        TileRelativeBitPos { y: self.dy + lc_row(self.lc), x: self.x }
    }
}

/// The 4x4 block of LUT bits: the cell `(x, y)` of bit `biti`
pub open spec fn spec_lut_cell(biti: int) -> (int, int) {
    if biti == 0 {
        (3, 0)
    } else if biti == 1 {
        (0, 0)
    } else if biti == 2 {
        (2, 0)
    } else if biti == 3 {
        (1, 0)
    } else if biti == 4 {
        (2, 1)
    } else if biti == 5 {
        (1, 1)
    } else if biti == 6 {
        (3, 1)
    } else if biti == 7 {
        (0, 1)
    } else if biti == 8 {
        (3, 2)
    } else if biti == 9 {
        (0, 2)
    } else if biti == 10 {
        (2, 2)
    } else if biti == 11 {
        (1, 2)
    } else if biti == 12 {
        (2, 3)
    } else if biti == 13 {
        (1, 3)
    } else if biti == 14 {
        (3, 3)
    } else {
        (0, 3)
    }
}

fn lut_cell(biti: usize) -> (r: (u8, u8))
    requires
        biti < 16,
    ensures
        r.0 == spec_lut_cell(biti as int).0,
        r.1 == spec_lut_cell(biti as int).1,
{
    match biti {
        0 => (3, 0),
        1 => (0, 0),
        2 => (2, 0),
        3 => (1, 0),
        4 => (2, 1),
        5 => (1, 1),
        6 => (3, 1),
        7 => (0, 1),
        8 => (3, 2),
        9 => (0, 2),
        10 => (2, 2),
        11 => (1, 2),
        12 => (2, 3),
        13 => (1, 3),
        14 => (3, 3),
        _ => (0, 3),
    }
}

proof fn lemma_lut_cell()
    ensures
        forall|i: int| 0 <= i < 16 ==> 0 <= (#[trigger] spec_lut_cell(i)).0 <= 3 && 0 <= spec_lut_cell(i).1 <= 3,
        forall|i: int, j: int| 0 <= i < j < 16 ==> #[trigger] spec_lut_cell(i) != #[trigger] spec_lut_cell(j),
{
    assert forall|i: int, j: int| 0 <= i < j < 16 implies #[trigger] spec_lut_cell(i) != #[trigger] spec_lut_cell(j) by {
        if i == 0 {
        } else if i == 1 {
        } else if i == 2 {
        } else if i == 3 {
        } else if i == 4 {
        } else if i == 5 {
        } else if i == 6 {
        } else if i == 7 {
        } else if i == 8 {
        } else if i == 9 {
        } else if i == 10 {
        } else if i == 11 {
        } else if i == 12 {
        } else if i == 13 {
        } else if i == 14 {
        } else if i == 15 {
        }
    }
}

/// Where the bits of the LUT of logic cell `lc` sit
pub struct LogicLUT {
    pub lc: u8,
}

impl FieldPositionCalculator for LogicLUT {
    open spec fn spec_valid(&self) -> bool {
        self.lc < 16
    }

    open spec fn spec_nbits(&self) -> nat {
        16
    }

    open spec fn spec_bit_pos(&self, biti: int) -> TileRelativeBitPos {
        let (dx, dy) = spec_lut_cell(biti);
        TileRelativeBitPos { y: (dy + spec_lc_row(self.lc)) as u8, x: (27 + dx) as u8 }
    }

    open spec fn spec_width(&self) -> int {
        31
    }

    open spec fn spec_height(&self) -> int {
        68
    }

    proof fn lemma_layout(&self) {
        lemma_lut_cell();
    }

    fn get_bit_pos(&self, biti: usize) -> (r: TileRelativeBitPos) {
        proof {
            lemma_lut_cell();
        }
        let (dx, dy) = lut_cell(biti);
        TileRelativeBitPos { y: dy + lc_row(self.lc), x: 27 + dx }
    }
}

/// The LUT bits of a logic cell, as laid out in the tile
///
/// Row by row, the 4x4 block of LUT bits holds the bits
/// `[[1, 3, 2, 0], [7, 5, 4, 6], [9, 11, 10, 8], [15, 13, 12, 14]]`.
pub open spec fn lut_bit_table() -> Seq<Seq<int>> {
    seq![seq![1int, 3, 2, 0], seq![7int, 5, 4, 6], seq![9int, 11, 10, 8], seq![15int, 13, 12, 14]]
}

/// Where the LUT bits of a logic cell sit: the bit at row `r`, column `c` of
/// [`lut_bit_table`] is stored at `x = 27 + c` and `y = 4 * lc + r` of the tile, four rows
/// further down for the cells 8 and up (below the mid-tile gap).
pub proof fn lemma_lut_bit_layout(lc: u8, r: int, c: int)
    requires
        lc < 16,
        0 <= r < 4,
        0 <= c < 4,
    ensures
        0 <= lut_bit_table()[r][c] < 16,
        (LogicLUT { lc }).spec_bit_pos(lut_bit_table()[r][c]) == (TileRelativeBitPos {
            x: (27 + c) as u8,
            y: (4 * lc + r + if lc >= 8 { 4int } else { 0 }) as u8,
        }),
{
    let t = lut_bit_table();
    if r == 0 {
        if c == 0 {
            assert(t[0] =~= seq![1, 3, 2, 0]);
            assert(t[r][c] == 1);
        } else if c == 1 {
            assert(t[0] =~= seq![1, 3, 2, 0]);
            assert(t[r][c] == 3);
        } else if c == 2 {
            assert(t[0] =~= seq![1, 3, 2, 0]);
            assert(t[r][c] == 2);
        } else if c == 3 {
            assert(t[0] =~= seq![1, 3, 2, 0]);
            assert(t[r][c] == 0);
        }
    } else if r == 1 {
        if c == 0 {
            assert(t[1] =~= seq![7, 5, 4, 6]);
            assert(t[r][c] == 7);
        } else if c == 1 {
            assert(t[1] =~= seq![7, 5, 4, 6]);
            assert(t[r][c] == 5);
        } else if c == 2 {
            assert(t[1] =~= seq![7, 5, 4, 6]);
            assert(t[r][c] == 4);
        } else if c == 3 {
            assert(t[1] =~= seq![7, 5, 4, 6]);
            assert(t[r][c] == 6);
        }
    } else if r == 2 {
        if c == 0 {
            assert(t[2] =~= seq![9, 11, 10, 8]);
            assert(t[r][c] == 9);
        } else if c == 1 {
            assert(t[2] =~= seq![9, 11, 10, 8]);
            assert(t[r][c] == 11);
        } else if c == 2 {
            assert(t[2] =~= seq![9, 11, 10, 8]);
            assert(t[r][c] == 10);
        } else if c == 3 {
            assert(t[2] =~= seq![9, 11, 10, 8]);
            assert(t[r][c] == 8);
        }
    } else if r == 3 {
        if c == 0 {
            assert(t[3] =~= seq![15, 13, 12, 14]);
            assert(t[r][c] == 15);
        } else if c == 1 {
            assert(t[3] =~= seq![15, 13, 12, 14]);
            assert(t[r][c] == 13);
        } else if c == 2 {
            assert(t[3] =~= seq![15, 13, 12, 14]);
            assert(t[r][c] == 12);
        } else if c == 3 {
            assert(t[3] =~= seq![15, 13, 12, 14]);
            assert(t[r][c] == 14);
        }
    }
}

/// Writing a LUT into logic cell `lc` stores LUT bit `lut_bit_table()[r][c]`, inverted, in the
/// tile bit at `x = 27 + c`, `y = 4 * lc + r` (four rows further down for the cells 8 and
/// up).
pub proof fn lemma_lut_tile_bits(t: LogicTileRef, v: BitstreamView, lc: u8, val: LUT, r: int, c: int)
    requires
        t.spec_attached(v),
        lc < 16,
        0 <= r < 4,
        0 <= c < 4,
    ensures
        spec_tile_bit(
            spec_write_value(v, t.p, (LogicLUT { lc }), 16, val.spec_to_bits()),
            t.p,
            TileRelativeBitPos { x: (27 + c) as u8, y: (4 * lc + r + if lc >= 8 { 4int } else { 0 }) as u8 },
        ) == !crate::bitfield::bit_of(val.0 as u32, lut_bit_table()[r][c] as u32),
{
    let fp = LogicLUT { lc };
    lemma_lut_bit_layout(lc, r, c);
    lemma_field_fits(v.family, t.p, fp, 16);
    let ps = spec_positions(fp, 16);
    let bits = crate::bitfield::value_bits(val.spec_to_bits(), 16);
    lemma_write_field_read(v, t.p, ps, bits);
    let k = lut_bit_table()[r][c];
    let w = spec_write_value(v, t.p, fp, 16, val.spec_to_bits());
    assert(spec_field_bits(w, t.p, ps)[k] == bits[k]);
    assert(ps[k] == fp.spec_bit_pos(k));
    let x = val.0 as u32;
    let y = val.spec_to_bits();
    let ku = k as u32;
    assert(y == 65535 - x);
    assert(x < 65536 && ku < 16 && y == 65535 - x ==> (((y >> ku) & 1u32) == 1u32) == !(((x >> ku)
        & 1u32) == 1u32)) by (bit_vector);
}

/// Where the bits of the input-C setting of logic cell `lc` sit
pub struct LogicInputC {
    pub lc: u8,
}

impl FieldPositionCalculator for LogicInputC {
    open spec fn spec_valid(&self) -> bool {
        self.lc < 16
    }

    open spec fn spec_nbits(&self) -> nat {
        2
    }

    open spec fn spec_bit_pos(&self, biti: int) -> TileRelativeBitPos {
        TileRelativeBitPos {
            y: ((if biti == 0 { 3int } else { 0 }) + spec_lc_row(self.lc)) as u8,
            x: 31,
        }
    }

    open spec fn spec_width(&self) -> int {
        32
    }

    open spec fn spec_height(&self) -> int {
        68
    }

    proof fn lemma_layout(&self) {
    }

    fn get_bit_pos(&self, biti: usize) -> (r: TileRelativeBitPos) {
        let dy: u8 = if biti == 0 {
            3
        } else {
            0
        };
        TileRelativeBitPos { y: dy + lc_row(self.lc), x: 31 }
    }
}

/// The choice of inputs for LUT input C
///
/// This LUT input is used to implement the special functions of:
/// - carry chains
/// - "register feedback" mode
#[derive(Clone, Copy, PartialEq, Eq, Debug, Hash, Structural)]
pub enum InputCMode {
    /// Input C comes from the "normal" path, selected from the local lines via an [IMUX]
    IMUX,
    /// Input C comes from the output of the register (flip-flop)
    FlipFlop,
    /// Input C comes from the carry-out of the LUT above
    ///
    /// Both 10 and 11 seem to work, which matches vendor simulation model
    Carry,
}

impl InputCMode {
    /// The setting held by the bits of the field, if they hold a valid one
    pub open spec fn spec_from_bits(bits: u32) -> Option<InputCMode> {
        if bits == 0 {
            Some(InputCMode::IMUX)
        } else if bits == 1 {
            Some(InputCMode::FlipFlop)
        } else if (bits / 2) % 2 == 1 {
            Some(InputCMode::Carry)
        } else {
            None
        }
    }

    /// The bits that hold this setting
    pub open spec fn spec_to_bits(self) -> u32 {
        match self {
            InputCMode::IMUX => 0,
            InputCMode::FlipFlop => 1,
            InputCMode::Carry => 2,
        }
    }

    /// Decode the bits of the field, which hold a setting
    pub fn from_bits(bits: u32) -> (r: InputCMode)
        requires
            InputCMode::spec_from_bits(bits) is Some,
        ensures
            Some(r) == InputCMode::spec_from_bits(bits),
    {
        if bits == 0 {
            InputCMode::IMUX
        } else if bits == 1 {
            InputCMode::FlipFlop
        } else {
            InputCMode::Carry
        }
    }

    /// Encode the setting into the bits of the field
    pub fn to_bits(self) -> (r: u32)
        ensures
            r == self.spec_to_bits(),
    {
        match self {
            InputCMode::IMUX => 0,
            InputCMode::FlipFlop => 1,
            InputCMode::Carry => 2,
        }
    }
}

impl Default for InputCMode {
    fn default() -> (r: Self)
        ensures
            r == InputCMode::IMUX,
    {
        InputCMode::IMUX
    }
}

/// Decoding the bits of a `InputCMode` gives it back, and the bits fit in 2 bits.
pub proof fn lemma_input_c_mode_roundtrip(x: InputCMode)
    ensures
        InputCMode::spec_from_bits(x.spec_to_bits()) == Some(x),
        x.spec_to_bits() < 4,
{
}
/// A choice between an unregistered output and the flip-flop's output
#[derive(Clone, Copy, PartialEq, Eq, Debug, Hash, Structural)]
pub enum OMUX {
    Combinatorial,
    FlipFlop,
}

impl OMUX {
    /// The setting held by the bits of the field, if they hold a valid one
    pub open spec fn spec_from_bits(bits: u32) -> Option<OMUX> {
        if bits == 0 {
            Some(OMUX::Combinatorial)
        } else if bits == 1 {
            Some(OMUX::FlipFlop)
        } else {
            None
        }
    }

    /// The bits that hold this setting
    pub open spec fn spec_to_bits(self) -> u32 {
        match self {
            OMUX::Combinatorial => 0,
            OMUX::FlipFlop => 1,
        }
    }

    /// Decode the bits of the field, which hold a setting
    pub fn from_bits(bits: u32) -> (r: OMUX)
        requires
            OMUX::spec_from_bits(bits) is Some,
        ensures
            Some(r) == OMUX::spec_from_bits(bits),
    {
        if bits == 0 {
            OMUX::Combinatorial
        } else {
            OMUX::FlipFlop
        }
    }

    /// Encode the setting into the bits of the field
    pub fn to_bits(self) -> (r: u32)
        ensures
            r == self.spec_to_bits(),
    {
        match self {
            OMUX::Combinatorial => 0,
            OMUX::FlipFlop => 1,
        }
    }
}

impl Default for OMUX {
    fn default() -> (r: Self)
        ensures
            r == OMUX::Combinatorial,
    {
        OMUX::Combinatorial
    }
}

/// Decoding the bits of a `OMUX` gives it back, and the bits fit in 1 bits.
pub proof fn lemma_omux_roundtrip(x: OMUX)
    ensures
        OMUX::spec_from_bits(x.spec_to_bits()) == Some(x),
        x.spec_to_bits() < 2,
{
}

/// A LUT value, a `u16` with a modified [Default]
///
/// The LUT bits are _inverted_ in the bitstream.
#[derive(Clone, Copy, PartialEq, Eq, PartialOrd, Ord, Debug, Hash, Structural)]
pub struct LUT(pub u16);

impl LUT {
    /// The value held by the (inverted) bits of the field
    pub open spec fn spec_from_bits(bits: u32) -> LUT {
        LUT((65535 - bits % 65536) as u16)
    }

    /// The (inverted) bits that hold this value
    pub open spec fn spec_to_bits(self) -> u32 {
        (65535 - self.0) as u32
    }

    /// Decode the bits of the field
    pub fn from_bits(bits: u32) -> (r: LUT)
        ensures
            r == LUT::spec_from_bits(bits),
    {
        LUT((65535 - bits % 65536) as u16)
    }

    /// Encode the value into the bits of the field
    pub fn to_bits(self) -> (r: u32)
        ensures
            r == self.spec_to_bits(),
    {
        (65535 - self.0) as u32
    }
}

impl Default for LUT {
    fn default() -> (r: Self)
        ensures
            r == LUT(0xffff),
    {
        LUT(0xffff)
    }
}

/// Decoding the bits of a `LUT` gives it back, and the bits fit in 16 bits.
pub proof fn lemma_lut_roundtrip(x: LUT)
    ensures
        LUT::spec_from_bits(x.spec_to_bits()) == x,
        x.spec_to_bits() < 65536,
{
}

impl LogicTileRef {
    /// Selects which input (a global line or a preselected control signal) drives this clock line
    pub fn clock_mux(&self, b: &Bitstream, clk_idx: u8) -> (r: Mux3Inv)
        requires
            self.spec_attached(b@),
            clk_idx < 2,
            Mux3Inv::spec_from_bits(spec_read_field(b@, self.p, (RowDown { x: 30, y: if clk_idx == 0 { 32 } else { 35 }, len: 4 }), 4)) is Some,
        ensures
            Some(r) == Mux3Inv::spec_from_bits(spec_read_field(b@, self.p, (RowDown { x: 30, y: if clk_idx == 0 { 32 } else { 35 }, len: 4 }), 4)),
    {
        let fp = RowDown { x: 30, y: if clk_idx == 0 { 32 } else { 35 }, len: 4 };
        proof {
            lemma_field_fits(b@.family, self.p, fp, 4);
        }
        let bits = read_field(b, self.p, &fp, 4);
        Mux3Inv::from_bits(bits)
    }


    /// Write the field read by [`clock_mux`](Self::clock_mux)
    pub fn set_clock_mux(&self, b: &mut Bitstream, clk_idx: u8, val: Mux3Inv)
        requires
            self.spec_attached(old(b)@),
            clk_idx < 2,
            val.spec_valid(),
        ensures
            final(b)@ == spec_write_value(old(b)@, self.p, (RowDown { x: 30, y: if clk_idx == 0 { 32 } else { 35 }, len: 4 }), 4, val.spec_to_bits()),
            self.spec_attached(final(b)@),
            spec_same_aux(old(b)@, final(b)@),
    {
        let fp = RowDown { x: 30, y: if clk_idx == 0 { 32 } else { 35 }, len: 4 };
        proof {
            lemma_field_fits(b@.family, self.p, fp, 4);
        }
        write_field(b, self.p, &fp, 4, val.to_bits());
    }

    pub fn clock_en_mux(&self, b: &Bitstream, clk_idx: u8) -> (r: Mux2Inv)
        requires
            self.spec_attached(b@),
            clk_idx < 2,
            Mux2Inv::spec_from_bits(spec_read_field(b@, self.p, (RowDown { x: 33, y: if clk_idx == 0 { 32 } else { 35 }, len: 3 }), 3)) is Some,
        ensures
            Some(r) == Mux2Inv::spec_from_bits(spec_read_field(b@, self.p, (RowDown { x: 33, y: if clk_idx == 0 { 32 } else { 35 }, len: 3 }), 3)),
    {
        let fp = RowDown { x: 33, y: if clk_idx == 0 { 32 } else { 35 }, len: 3 };
        proof {
            lemma_field_fits(b@.family, self.p, fp, 3);
        }
        let bits = read_field(b, self.p, &fp, 3);
        Mux2Inv::from_bits(bits)
    }


    /// Write the field read by [`clock_en_mux`](Self::clock_en_mux)
    pub fn set_clock_en_mux(&self, b: &mut Bitstream, clk_idx: u8, val: Mux2Inv)
        requires
            self.spec_attached(old(b)@),
            clk_idx < 2,
            val.spec_valid(),
        ensures
            final(b)@ == spec_write_value(old(b)@, self.p, (RowDown { x: 33, y: if clk_idx == 0 { 32 } else { 35 }, len: 3 }), 3, val.spec_to_bits()),
            self.spec_attached(final(b)@),
            spec_same_aux(old(b)@, final(b)@),
    {
        let fp = RowDown { x: 33, y: if clk_idx == 0 { 32 } else { 35 }, len: 3 };
        proof {
            lemma_field_fits(b@.family, self.p, fp, 3);
        }
        write_field(b, self.p, &fp, 3, val.to_bits());
    }

    pub fn async_mux(&self, b: &Bitstream, asy_idx: u8) -> (r: Mux3Inv)
        requires
            self.spec_attached(b@),
            asy_idx < 2,
            Mux3Inv::spec_from_bits(spec_read_field(b@, self.p, (RowDown { x: 30, y: if asy_idx == 0 { 33 } else { 34 }, len: 4 }), 4)) is Some,
        ensures
            Some(r) == Mux3Inv::spec_from_bits(spec_read_field(b@, self.p, (RowDown { x: 30, y: if asy_idx == 0 { 33 } else { 34 }, len: 4 }), 4)),
    {
        let fp = RowDown { x: 30, y: if asy_idx == 0 { 33 } else { 34 }, len: 4 };
        proof {
            lemma_field_fits(b@.family, self.p, fp, 4);
        }
        let bits = read_field(b, self.p, &fp, 4);
        Mux3Inv::from_bits(bits)
    }


    /// Write the field read by [`async_mux`](Self::async_mux)
    pub fn set_async_mux(&self, b: &mut Bitstream, asy_idx: u8, val: Mux3Inv)
        requires
            self.spec_attached(old(b)@),
            asy_idx < 2,
            val.spec_valid(),
        ensures
            final(b)@ == spec_write_value(old(b)@, self.p, (RowDown { x: 30, y: if asy_idx == 0 { 33 } else { 34 }, len: 4 }), 4, val.spec_to_bits()),
            self.spec_attached(final(b)@),
            spec_same_aux(old(b)@, final(b)@),
    {
        let fp = RowDown { x: 30, y: if asy_idx == 0 { 33 } else { 34 }, len: 4 };
        proof {
            lemma_field_fits(b@.family, self.p, fp, 4);
        }
        write_field(b, self.p, &fp, 4, val.to_bits());
    }

    pub fn sync_load_mux(&self, b: &Bitstream) -> (r: Mux2Inv)
        requires
            self.spec_attached(b@),
            Mux2Inv::spec_from_bits(spec_read_field(b@, self.p, (RowDown { x: 33, y: 33, len: 3 }), 3)) is Some,
        ensures
            Some(r) == Mux2Inv::spec_from_bits(spec_read_field(b@, self.p, (RowDown { x: 33, y: 33, len: 3 }), 3)),
    {
        let fp = RowDown { x: 33, y: 33, len: 3 };
        proof {
            lemma_field_fits(b@.family, self.p, fp, 3);
        }
        let bits = read_field(b, self.p, &fp, 3);
        Mux2Inv::from_bits(bits)
    }


    /// Write the field read by [`sync_load_mux`](Self::sync_load_mux)
    pub fn set_sync_load_mux(&self, b: &mut Bitstream, val: Mux2Inv)
        requires
            self.spec_attached(old(b)@),
            val.spec_valid(),
        ensures
            final(b)@ == spec_write_value(old(b)@, self.p, (RowDown { x: 33, y: 33, len: 3 }), 3, val.spec_to_bits()),
            self.spec_attached(final(b)@),
            spec_same_aux(old(b)@, final(b)@),
    {
        let fp = RowDown { x: 33, y: 33, len: 3 };
        proof {
            lemma_field_fits(b@.family, self.p, fp, 3);
        }
        write_field(b, self.p, &fp, 3, val.to_bits());
    }

    pub fn sync_clr_mux(&self, b: &Bitstream) -> (r: Mux2Inv)
        requires
            self.spec_attached(b@),
            Mux2Inv::spec_from_bits(spec_read_field(b@, self.p, (RowDown { x: 33, y: 34, len: 3 }), 3)) is Some,
        ensures
            Some(r) == Mux2Inv::spec_from_bits(spec_read_field(b@, self.p, (RowDown { x: 33, y: 34, len: 3 }), 3)),
    {
        let fp = RowDown { x: 33, y: 34, len: 3 };
        proof {
            lemma_field_fits(b@.family, self.p, fp, 3);
        }
        let bits = read_field(b, self.p, &fp, 3);
        Mux2Inv::from_bits(bits)
    }


    /// Write the field read by [`sync_clr_mux`](Self::sync_clr_mux)
    pub fn set_sync_clr_mux(&self, b: &mut Bitstream, val: Mux2Inv)
        requires
            self.spec_attached(old(b)@),
            val.spec_valid(),
        ensures
            final(b)@ == spec_write_value(old(b)@, self.p, (RowDown { x: 33, y: 34, len: 3 }), 3, val.spec_to_bits()),
            self.spec_attached(final(b)@),
            spec_same_aux(old(b)@, final(b)@),
    {
        let fp = RowDown { x: 33, y: 34, len: 3 };
        proof {
            lemma_field_fits(b@.family, self.p, fp, 3);
        }
        write_field(b, self.p, &fp, 3, val.to_bits());
    }

    pub fn global_to_local(&self, b: &Bitstream, inp_idx: u8) -> (r: GlobalToLocalMux)
        requires
            self.spec_attached(b@),
            inp_idx < 4,
            GlobalToLocalMux::spec_from_bits(spec_read_field(b@, self.p, (GlobalToLocalMuxRef { is_bram: false, i: inp_idx }), 6)) is Some,
        ensures
            Some(r) == GlobalToLocalMux::spec_from_bits(spec_read_field(b@, self.p, (GlobalToLocalMuxRef { is_bram: false, i: inp_idx }), 6)),
    {
        let fp = GlobalToLocalMuxRef { is_bram: false, i: inp_idx };
        proof {
            lemma_field_fits(b@.family, self.p, fp, 6);
        }
        let bits = read_field(b, self.p, &fp, 6);
        GlobalToLocalMux::from_bits(bits)
    }


    /// Write the field read by [`global_to_local`](Self::global_to_local)
    pub fn set_global_to_local(&self, b: &mut Bitstream, inp_idx: u8, val: GlobalToLocalMux)
        requires
            self.spec_attached(old(b)@),
            inp_idx < 4,
            val.spec_valid(),
        ensures
            final(b)@ == spec_write_value(old(b)@, self.p, (GlobalToLocalMuxRef { is_bram: false, i: inp_idx }), 6, val.spec_to_bits()),
            self.spec_attached(final(b)@),
            spec_same_aux(old(b)@, final(b)@),
    {
        let fp = GlobalToLocalMuxRef { is_bram: false, i: inp_idx };
        proof {
            lemma_field_fits(b@.family, self.p, fp, 6);
        }
        write_field(b, self.p, &fp, 6, val.to_bits());
    }

    /// The logic function implemented in this logic cell
    ///
    /// The bit at index `(d << 3) + (c << 2) + (b << 1) + (a << 0)`
    /// (with the least significant bit being bit 0)
    /// is chosen by a given set of inputs `abcd`.
    pub fn lut(&self, b: &Bitstream, lc_idx: u8) -> (r: LUT)
        requires
            self.spec_attached(b@),
            lc_idx < 16,
        ensures
            r == LUT::spec_from_bits(spec_read_field(b@, self.p, (LogicLUT { lc: lc_idx }), 16)),
    {
        let fp = LogicLUT { lc: lc_idx };
        proof {
            lemma_field_fits(b@.family, self.p, fp, 16);
        }
        let bits = read_field(b, self.p, &fp, 16);
        LUT::from_bits(bits)
    }


    /// Write the field read by [`lut`](Self::lut)
    pub fn set_lut(&self, b: &mut Bitstream, lc_idx: u8, val: LUT)
        requires
            self.spec_attached(old(b)@),
            lc_idx < 16,
        ensures
            final(b)@ == spec_write_value(old(b)@, self.p, (LogicLUT { lc: lc_idx }), 16, val.spec_to_bits()),
            self.spec_attached(final(b)@),
            spec_same_aux(old(b)@, final(b)@),
    {
        let fp = LogicLUT { lc: lc_idx };
        proof {
            lemma_field_fits(b@.family, self.p, fp, 16);
        }
        write_field(b, self.p, &fp, 16, val.to_bits());
    }

    /// This routes signals from RMUX local lines into each LUT
    pub fn lut_input(&self, b: &Bitstream, lc_idx: u8, inp_idx: u8) -> (r: IMUX)
        requires
            self.spec_attached(b@),
            lc_idx < 16,
            inp_idx < 4,
            IMUX::spec_from_bits(spec_read_field(b@, self.p, (IMUXRef { is_bram: false, i: (lc_idx * 4 + inp_idx) as u8 }), 12)) is Some,
        ensures
            Some(r) == IMUX::spec_from_bits(spec_read_field(b@, self.p, (IMUXRef { is_bram: false, i: (lc_idx * 4 + inp_idx) as u8 }), 12)),
    {
        let fp = IMUXRef { is_bram: false, i: lc_idx * 4 + inp_idx };
        proof {
            lemma_field_fits(b@.family, self.p, fp, 12);
        }
        let bits = read_field(b, self.p, &fp, 12);
        IMUX::from_bits(bits)
    }


    /// Write the field read by [`lut_input`](Self::lut_input)
    pub fn set_lut_input(&self, b: &mut Bitstream, lc_idx: u8, inp_idx: u8, val: IMUX)
        requires
            self.spec_attached(old(b)@),
            lc_idx < 16,
            inp_idx < 4,
            val.spec_valid(),
        ensures
            final(b)@ == spec_write_value(old(b)@, self.p, (IMUXRef { is_bram: false, i: (lc_idx * 4 + inp_idx) as u8 }), 12, val.spec_to_bits()),
            self.spec_attached(final(b)@),
            spec_same_aux(old(b)@, final(b)@),
    {
        let fp = IMUXRef { is_bram: false, i: lc_idx * 4 + inp_idx };
        proof {
            lemma_field_fits(b@.family, self.p, fp, 12);
        }
        write_field(b, self.p, &fp, 12, val.to_bits());
    }

    /// Input A of the LUT (see [`lut_input`](Self::lut_input))
    pub fn lut_inp_a(&self, b: &Bitstream, lc_idx: u8) -> (r: IMUX)
        requires
            self.spec_attached(b@),
            lc_idx < 16,
            IMUX::spec_from_bits(spec_read_field(b@, self.p, (IMUXRef { is_bram: false, i: (lc_idx * 4 + 0) as u8 }), 12)) is Some,
        ensures
            Some(r) == IMUX::spec_from_bits(spec_read_field(b@, self.p, (IMUXRef { is_bram: false, i: (lc_idx * 4 + 0) as u8 }), 12)),
    {
        let fp = IMUXRef { is_bram: false, i: lc_idx * 4 + 0 };
        proof {
            lemma_field_fits(b@.family, self.p, fp, 12);
        }
        let bits = read_field(b, self.p, &fp, 12);
        IMUX::from_bits(bits)
    }


    /// Write the field read by [`lut_inp_a`](Self::lut_inp_a)
    pub fn set_lut_inp_a(&self, b: &mut Bitstream, lc_idx: u8, val: IMUX)
        requires
            self.spec_attached(old(b)@),
            lc_idx < 16,
            val.spec_valid(),
        ensures
            final(b)@ == spec_write_value(old(b)@, self.p, (IMUXRef { is_bram: false, i: (lc_idx * 4 + 0) as u8 }), 12, val.spec_to_bits()),
            self.spec_attached(final(b)@),
            spec_same_aux(old(b)@, final(b)@),
    {
        let fp = IMUXRef { is_bram: false, i: lc_idx * 4 + 0 };
        proof {
            lemma_field_fits(b@.family, self.p, fp, 12);
        }
        write_field(b, self.p, &fp, 12, val.to_bits());
    }

    /// Input B of the LUT (see [`lut_input`](Self::lut_input))
    pub fn lut_inp_b(&self, b: &Bitstream, lc_idx: u8) -> (r: IMUX)
        requires
            self.spec_attached(b@),
            lc_idx < 16,
            IMUX::spec_from_bits(spec_read_field(b@, self.p, (IMUXRef { is_bram: false, i: (lc_idx * 4 + 1) as u8 }), 12)) is Some,
        ensures
            Some(r) == IMUX::spec_from_bits(spec_read_field(b@, self.p, (IMUXRef { is_bram: false, i: (lc_idx * 4 + 1) as u8 }), 12)),
    {
        let fp = IMUXRef { is_bram: false, i: lc_idx * 4 + 1 };
        proof {
            lemma_field_fits(b@.family, self.p, fp, 12);
        }
        let bits = read_field(b, self.p, &fp, 12);
        IMUX::from_bits(bits)
    }


    /// Write the field read by [`lut_inp_b`](Self::lut_inp_b)
    pub fn set_lut_inp_b(&self, b: &mut Bitstream, lc_idx: u8, val: IMUX)
        requires
            self.spec_attached(old(b)@),
            lc_idx < 16,
            val.spec_valid(),
        ensures
            final(b)@ == spec_write_value(old(b)@, self.p, (IMUXRef { is_bram: false, i: (lc_idx * 4 + 1) as u8 }), 12, val.spec_to_bits()),
            self.spec_attached(final(b)@),
            spec_same_aux(old(b)@, final(b)@),
    {
        let fp = IMUXRef { is_bram: false, i: lc_idx * 4 + 1 };
        proof {
            lemma_field_fits(b@.family, self.p, fp, 12);
        }
        write_field(b, self.p, &fp, 12, val.to_bits());
    }

    /// Input C of the LUT (see [`lut_input`](Self::lut_input))
    pub fn lut_inp_c(&self, b: &Bitstream, lc_idx: u8) -> (r: IMUX)
        requires
            self.spec_attached(b@),
            lc_idx < 16,
            IMUX::spec_from_bits(spec_read_field(b@, self.p, (IMUXRef { is_bram: false, i: (lc_idx * 4 + 2) as u8 }), 12)) is Some,
        ensures
            Some(r) == IMUX::spec_from_bits(spec_read_field(b@, self.p, (IMUXRef { is_bram: false, i: (lc_idx * 4 + 2) as u8 }), 12)),
    {
        let fp = IMUXRef { is_bram: false, i: lc_idx * 4 + 2 };
        proof {
            lemma_field_fits(b@.family, self.p, fp, 12);
        }
        let bits = read_field(b, self.p, &fp, 12);
        IMUX::from_bits(bits)
    }


    /// Write the field read by [`lut_inp_c`](Self::lut_inp_c)
    pub fn set_lut_inp_c(&self, b: &mut Bitstream, lc_idx: u8, val: IMUX)
        requires
            self.spec_attached(old(b)@),
            lc_idx < 16,
            val.spec_valid(),
        ensures
            final(b)@ == spec_write_value(old(b)@, self.p, (IMUXRef { is_bram: false, i: (lc_idx * 4 + 2) as u8 }), 12, val.spec_to_bits()),
            self.spec_attached(final(b)@),
            spec_same_aux(old(b)@, final(b)@),
    {
        let fp = IMUXRef { is_bram: false, i: lc_idx * 4 + 2 };
        proof {
            lemma_field_fits(b@.family, self.p, fp, 12);
        }
        write_field(b, self.p, &fp, 12, val.to_bits());
    }

    /// Input D of the LUT (see [`lut_input`](Self::lut_input))
    pub fn lut_inp_d(&self, b: &Bitstream, lc_idx: u8) -> (r: IMUX)
        requires
            self.spec_attached(b@),
            lc_idx < 16,
            IMUX::spec_from_bits(spec_read_field(b@, self.p, (IMUXRef { is_bram: false, i: (lc_idx * 4 + 3) as u8 }), 12)) is Some,
        ensures
            Some(r) == IMUX::spec_from_bits(spec_read_field(b@, self.p, (IMUXRef { is_bram: false, i: (lc_idx * 4 + 3) as u8 }), 12)),
    {
        let fp = IMUXRef { is_bram: false, i: lc_idx * 4 + 3 };
        proof {
            lemma_field_fits(b@.family, self.p, fp, 12);
        }
        let bits = read_field(b, self.p, &fp, 12);
        IMUX::from_bits(bits)
    }


    /// Write the field read by [`lut_inp_d`](Self::lut_inp_d)
    pub fn set_lut_inp_d(&self, b: &mut Bitstream, lc_idx: u8, val: IMUX)
        requires
            self.spec_attached(old(b)@),
            lc_idx < 16,
            val.spec_valid(),
        ensures
            final(b)@ == spec_write_value(old(b)@, self.p, (IMUXRef { is_bram: false, i: (lc_idx * 4 + 3) as u8 }), 12, val.spec_to_bits()),
            self.spec_attached(final(b)@),
            spec_same_aux(old(b)@, final(b)@),
    {
        let fp = IMUXRef { is_bram: false, i: lc_idx * 4 + 3 };
        proof {
            lemma_field_fits(b@.family, self.p, fp, 12);
        }
        write_field(b, self.p, &fp, 12, val.to_bits());
    }

    /// This controls whether the LUT combinatorial output or the flip-flop output is used.
    ///
    /// Because each logic cell has multiple OMUX, both can be used at the same time.
    pub fn lc_output(&self, b: &Bitstream, lc_idx: u8, out_idx: u8) -> (r: OMUX)
        requires
            self.spec_attached(b@),
            lc_idx < 16,
            out_idx < 3,
            OMUX::spec_from_bits(spec_read_field(b@, self.p, (LcBit { lc: lc_idx, x: 33, dy: if out_idx == 0 { 0 } else if out_idx == 1 { 2 } else { 3 } }), 1)) is Some,
        ensures
            Some(r) == OMUX::spec_from_bits(spec_read_field(b@, self.p, (LcBit { lc: lc_idx, x: 33, dy: if out_idx == 0 { 0 } else if out_idx == 1 { 2 } else { 3 } }), 1)),
    {
        let fp = LcBit { lc: lc_idx, x: 33, dy: if out_idx == 0 { 0 } else if out_idx == 1 { 2 } else { 3 } };
        proof {
            lemma_field_fits(b@.family, self.p, fp, 1);
        }
        let bits = read_field(b, self.p, &fp, 1);
        OMUX::from_bits(bits)
    }


    /// Write the field read by [`lc_output`](Self::lc_output)
    pub fn set_lc_output(&self, b: &mut Bitstream, lc_idx: u8, out_idx: u8, val: OMUX)
        requires
            self.spec_attached(old(b)@),
            lc_idx < 16,
            out_idx < 3,
        ensures
            final(b)@ == spec_write_value(old(b)@, self.p, (LcBit { lc: lc_idx, x: 33, dy: if out_idx == 0 { 0 } else if out_idx == 1 { 2 } else { 3 } }), 1, val.spec_to_bits()),
            self.spec_attached(final(b)@),
            spec_same_aux(old(b)@, final(b)@),
    {
        let fp = LcBit { lc: lc_idx, x: 33, dy: if out_idx == 0 { 0 } else if out_idx == 1 { 2 } else { 3 } };
        proof {
            lemma_field_fits(b@.family, self.p, fp, 1);
        }
        write_field(b, self.p, &fp, 1, val.to_bits());
    }

    /// Output mux 0 (see [`lc_output`](Self::lc_output))
    pub fn lc_output_neigh(&self, b: &Bitstream, lc_idx: u8) -> (r: OMUX)
        requires
            self.spec_attached(b@),
            lc_idx < 16,
            OMUX::spec_from_bits(spec_read_field(b@, self.p, (LcBit { lc: lc_idx, x: 33, dy: 0 }), 1)) is Some,
        ensures
            Some(r) == OMUX::spec_from_bits(spec_read_field(b@, self.p, (LcBit { lc: lc_idx, x: 33, dy: 0 }), 1)),
    {
        let fp = LcBit { lc: lc_idx, x: 33, dy: 0 };
        proof {
            lemma_field_fits(b@.family, self.p, fp, 1);
        }
        let bits = read_field(b, self.p, &fp, 1);
        OMUX::from_bits(bits)
    }


    /// Write the field read by [`lc_output_neigh`](Self::lc_output_neigh)
    pub fn set_lc_output_neigh(&self, b: &mut Bitstream, lc_idx: u8, val: OMUX)
        requires
            self.spec_attached(old(b)@),
            lc_idx < 16,
        ensures
            final(b)@ == spec_write_value(old(b)@, self.p, (LcBit { lc: lc_idx, x: 33, dy: 0 }), 1, val.spec_to_bits()),
            self.spec_attached(final(b)@),
            spec_same_aux(old(b)@, final(b)@),
    {
        let fp = LcBit { lc: lc_idx, x: 33, dy: 0 };
        proof {
            lemma_field_fits(b@.family, self.p, fp, 1);
        }
        write_field(b, self.p, &fp, 1, val.to_bits());
    }

    /// Output mux 1 (see [`lc_output`](Self::lc_output))
    pub fn lc_output_imux(&self, b: &Bitstream, lc_idx: u8) -> (r: OMUX)
        requires
            self.spec_attached(b@),
            lc_idx < 16,
            OMUX::spec_from_bits(spec_read_field(b@, self.p, (LcBit { lc: lc_idx, x: 33, dy: 2 }), 1)) is Some,
        ensures
            Some(r) == OMUX::spec_from_bits(spec_read_field(b@, self.p, (LcBit { lc: lc_idx, x: 33, dy: 2 }), 1)),
    {
        let fp = LcBit { lc: lc_idx, x: 33, dy: 2 };
        proof {
            lemma_field_fits(b@.family, self.p, fp, 1);
        }
        let bits = read_field(b, self.p, &fp, 1);
        OMUX::from_bits(bits)
    }


    /// Write the field read by [`lc_output_imux`](Self::lc_output_imux)
    pub fn set_lc_output_imux(&self, b: &mut Bitstream, lc_idx: u8, val: OMUX)
        requires
            self.spec_attached(old(b)@),
            lc_idx < 16,
        ensures
            final(b)@ == spec_write_value(old(b)@, self.p, (LcBit { lc: lc_idx, x: 33, dy: 2 }), 1, val.spec_to_bits()),
            self.spec_attached(final(b)@),
            spec_same_aux(old(b)@, final(b)@),
    {
        let fp = LcBit { lc: lc_idx, x: 33, dy: 2 };
        proof {
            lemma_field_fits(b@.family, self.p, fp, 1);
        }
        write_field(b, self.p, &fp, 1, val.to_bits());
    }

    /// Output mux 2 (see [`lc_output`](Self::lc_output))
    pub fn lc_output_rmux(&self, b: &Bitstream, lc_idx: u8) -> (r: OMUX)
        requires
            self.spec_attached(b@),
            lc_idx < 16,
            OMUX::spec_from_bits(spec_read_field(b@, self.p, (LcBit { lc: lc_idx, x: 33, dy: 3 }), 1)) is Some,
        ensures
            Some(r) == OMUX::spec_from_bits(spec_read_field(b@, self.p, (LcBit { lc: lc_idx, x: 33, dy: 3 }), 1)),
    {
        let fp = LcBit { lc: lc_idx, x: 33, dy: 3 };
        proof {
            lemma_field_fits(b@.family, self.p, fp, 1);
        }
        let bits = read_field(b, self.p, &fp, 1);
        OMUX::from_bits(bits)
    }


    /// Write the field read by [`lc_output_rmux`](Self::lc_output_rmux)
    pub fn set_lc_output_rmux(&self, b: &mut Bitstream, lc_idx: u8, val: OMUX)
        requires
            self.spec_attached(old(b)@),
            lc_idx < 16,
        ensures
            final(b)@ == spec_write_value(old(b)@, self.p, (LcBit { lc: lc_idx, x: 33, dy: 3 }), 1, val.spec_to_bits()),
            self.spec_attached(final(b)@),
            spec_same_aux(old(b)@, final(b)@),
    {
        let fp = LcBit { lc: lc_idx, x: 33, dy: 3 };
        proof {
            lemma_field_fits(b@.family, self.p, fp, 1);
        }
        write_field(b, self.p, &fp, 1, val.to_bits());
    }

    /// The special mux on input C of the LUT.
    pub fn lc_input_c_mode(&self, b: &Bitstream, lc_idx: u8) -> (r: InputCMode)
        requires
            self.spec_attached(b@),
            lc_idx < 16,
            InputCMode::spec_from_bits(spec_read_field(b@, self.p, (LogicInputC { lc: lc_idx }), 2)) is Some,
        ensures
            Some(r) == InputCMode::spec_from_bits(spec_read_field(b@, self.p, (LogicInputC { lc: lc_idx }), 2)),
    {
        let fp = LogicInputC { lc: lc_idx };
        proof {
            lemma_field_fits(b@.family, self.p, fp, 2);
        }
        let bits = read_field(b, self.p, &fp, 2);
        InputCMode::from_bits(bits)
    }


    /// Write the field read by [`lc_input_c_mode`](Self::lc_input_c_mode)
    pub fn set_lc_input_c_mode(&self, b: &mut Bitstream, lc_idx: u8, val: InputCMode)
        requires
            self.spec_attached(old(b)@),
            lc_idx < 16,
        ensures
            final(b)@ == spec_write_value(old(b)@, self.p, (LogicInputC { lc: lc_idx }), 2, val.spec_to_bits()),
            self.spec_attached(final(b)@),
            spec_same_aux(old(b)@, final(b)@),
    {
        let fp = LogicInputC { lc: lc_idx };
        proof {
            lemma_field_fits(b@.family, self.p, fp, 2);
        }
        write_field(b, self.p, &fp, 2, val.to_bits());
    }

    /// Whether or not the carry output of this LUT can be used
    ///
    /// This defaults to _enabled_. When disabled, the carry output value is always 1.
    pub fn lc_carry_en(&self, b: &Bitstream, lc_idx: u8) -> (r: InvertedBool)
        requires
            self.spec_attached(b@),
            lc_idx < 16,
        ensures
            r == InvertedBool(spec_read_field(b@, self.p, (LcBit { lc: lc_idx, x: 31, dy: 2 }), 1) == 0),
    {
        let fp = LcBit { lc: lc_idx, x: 31, dy: 2 };
        proof {
            lemma_field_fits(b@.family, self.p, fp, 1);
        }
        let bits = read_field(b, self.p, &fp, 1);
        InvertedBool(bits == 0)
    }


    /// Write the field read by [`lc_carry_en`](Self::lc_carry_en)
    pub fn set_lc_carry_en(&self, b: &mut Bitstream, lc_idx: u8, val: InvertedBool)
        requires
            self.spec_attached(old(b)@),
            lc_idx < 16,
        ensures
            final(b)@ == spec_write_value(old(b)@, self.p, (LcBit { lc: lc_idx, x: 31, dy: 2 }), 1, if val.0 { 0u32 } else { 1u32 }),
            self.spec_attached(final(b)@),
            spec_same_aux(old(b)@, final(b)@),
    {
        let fp = LcBit { lc: lc_idx, x: 31, dy: 2 };
        proof {
            lemma_field_fits(b@.family, self.p, fp, 1);
        }
        write_field(b, self.p, &fp, 1, if val.0 {
            0
        } else {
            1
        });
    }

    pub fn lc_async_choice(&self, b: &Bitstream, lc_idx: u8) -> (r: Mux2)
        requires
            self.spec_attached(b@),
            lc_idx < 16,
            Mux2::spec_from_bits(spec_read_field(b@, self.p, (LcBit { lc: lc_idx, x: 32, dy: 0 }), 1)) is Some,
        ensures
            Some(r) == Mux2::spec_from_bits(spec_read_field(b@, self.p, (LcBit { lc: lc_idx, x: 32, dy: 0 }), 1)),
    {
        let fp = LcBit { lc: lc_idx, x: 32, dy: 0 };
        proof {
            lemma_field_fits(b@.family, self.p, fp, 1);
        }
        let bits = read_field(b, self.p, &fp, 1);
        Mux2::from_bits(bits)
    }


    /// Write the field read by [`lc_async_choice`](Self::lc_async_choice)
    pub fn set_lc_async_choice(&self, b: &mut Bitstream, lc_idx: u8, val: Mux2)
        requires
            self.spec_attached(old(b)@),
            lc_idx < 16,
        ensures
            final(b)@ == spec_write_value(old(b)@, self.p, (LcBit { lc: lc_idx, x: 32, dy: 0 }), 1, val.spec_to_bits()),
            self.spec_attached(final(b)@),
            spec_same_aux(old(b)@, final(b)@),
    {
        let fp = LcBit { lc: lc_idx, x: 32, dy: 0 };
        proof {
            lemma_field_fits(b@.family, self.p, fp, 1);
        }
        write_field(b, self.p, &fp, 1, val.to_bits());
    }

    pub fn lc_clk_choice(&self, b: &Bitstream, lc_idx: u8) -> (r: Mux2)
        requires
            self.spec_attached(b@),
            lc_idx < 16,
            Mux2::spec_from_bits(spec_read_field(b@, self.p, (LcBit { lc: lc_idx, x: 32, dy: 1 }), 1)) is Some,
        ensures
            Some(r) == Mux2::spec_from_bits(spec_read_field(b@, self.p, (LcBit { lc: lc_idx, x: 32, dy: 1 }), 1)),
    {
        let fp = LcBit { lc: lc_idx, x: 32, dy: 1 };
        proof {
            lemma_field_fits(b@.family, self.p, fp, 1);
        }
        let bits = read_field(b, self.p, &fp, 1);
        Mux2::from_bits(bits)
    }


    /// Write the field read by [`lc_clk_choice`](Self::lc_clk_choice)
    pub fn set_lc_clk_choice(&self, b: &mut Bitstream, lc_idx: u8, val: Mux2)
        requires
            self.spec_attached(old(b)@),
            lc_idx < 16,
        ensures
            final(b)@ == spec_write_value(old(b)@, self.p, (LcBit { lc: lc_idx, x: 32, dy: 1 }), 1, val.spec_to_bits()),
            self.spec_attached(final(b)@),
            spec_same_aux(old(b)@, final(b)@),
    {
        let fp = LcBit { lc: lc_idx, x: 32, dy: 1 };
        proof {
            lemma_field_fits(b@.family, self.p, fp, 1);
        }
        write_field(b, self.p, &fp, 1, val.to_bits());
    }

    /// Controls whether the register uses the output from the register above, instead of the LUT
    ///
    /// This is used to implement fast shift registers.
    pub fn lc_shift_reg_mode(&self, b: &Bitstream, lc_idx: u8) -> (r: bool)
        requires
            self.spec_attached(b@),
            lc_idx < 16,
        ensures
            r == (spec_read_field(b@, self.p, (LcBit { lc: lc_idx, x: 32, dy: 2 }), 1) == 1),
    {
        let fp = LcBit { lc: lc_idx, x: 32, dy: 2 };
        proof {
            lemma_field_fits(b@.family, self.p, fp, 1);
        }
        let bits = read_field(b, self.p, &fp, 1);
        bits == 1
    }


    /// Write the field read by [`lc_shift_reg_mode`](Self::lc_shift_reg_mode)
    pub fn set_lc_shift_reg_mode(&self, b: &mut Bitstream, lc_idx: u8, val: bool)
        requires
            self.spec_attached(old(b)@),
            lc_idx < 16,
        ensures
            final(b)@ == spec_write_value(old(b)@, self.p, (LcBit { lc: lc_idx, x: 32, dy: 2 }), 1, if val { 1u32 } else { 0u32 }),
            self.spec_attached(final(b)@),
            spec_same_aux(old(b)@, final(b)@),
    {
        let fp = LcBit { lc: lc_idx, x: 32, dy: 2 };
        proof {
            lemma_field_fits(b@.family, self.p, fp, 1);
        }
        write_field(b, self.p, &fp, 1, if val {
            1
        } else {
            0
        });
    }

    /// Controls whether the sync load/clear function is enabled for this flip-flop
    ///
    /// If it is enabled, and the _tile-wide_ sync load signal is asserted,
    /// the data to be loaded comes from the same signal that goes into input C of the LUT.
    ///
    /// Synchronous clear has priority over synchronous load.
    pub fn lc_enable_sync_ctrl(&self, b: &Bitstream, lc_idx: u8) -> (r: bool)
        requires
            self.spec_attached(b@),
            lc_idx < 16,
        ensures
            r == (spec_read_field(b@, self.p, (LcBit { lc: lc_idx, x: 32, dy: 3 }), 1) == 1),
    {
        let fp = LcBit { lc: lc_idx, x: 32, dy: 3 };
        proof {
            lemma_field_fits(b@.family, self.p, fp, 1);
        }
        let bits = read_field(b, self.p, &fp, 1);
        bits == 1
    }


    /// Write the field read by [`lc_enable_sync_ctrl`](Self::lc_enable_sync_ctrl)
    pub fn set_lc_enable_sync_ctrl(&self, b: &mut Bitstream, lc_idx: u8, val: bool)
        requires
            self.spec_attached(old(b)@),
            lc_idx < 16,
        ensures
            final(b)@ == spec_write_value(old(b)@, self.p, (LcBit { lc: lc_idx, x: 32, dy: 3 }), 1, if val { 1u32 } else { 0u32 }),
            self.spec_attached(final(b)@),
            spec_same_aux(old(b)@, final(b)@),
    {
        let fp = LcBit { lc: lc_idx, x: 32, dy: 3 };
        proof {
            lemma_field_fits(b@.family, self.p, fp, 1);
        }
        write_field(b, self.p, &fp, 1, if val {
            1
        } else {
            0
        });
    }
}

impl GenericRoutingRefTrait for LogicTileRef {
    open spec fn spec_routing_pos(&self) -> TilePos {
        self.p
    }

    open spec fn spec_routing_is_bram(&self) -> bool {
        false
    }

    open spec fn spec_routing_attached(&self, v: BitstreamView) -> bool {
        self.spec_attached(v)
    }

    fn rmux(&self, b: &Bitstream, rmux_idx: u8) -> (r: RMUX) {
        read_rmux(b, self.p, false, rmux_idx)
    }
}

impl GenericRoutingRefMutTrait for LogicTileRef {
    fn set_rmux(&self, b: &mut Bitstream, rmux_idx: u8, val: RMUX) {
        write_rmux(b, self.p, false, rmux_idx, val);
    }
}

/// The LUT bits are inverted in the bitstream: the LUT of a logic cell reads as the
/// complement of its 16 bits, a LUT written to a cell reads back unchanged, and a cell
/// whose 16 LUT bits are all clear reads as the default LUT, all ones.
pub proof fn lemma_lut_bits_inverted(t: LogicTileRef, v: BitstreamView, lc_idx: u8, val: LUT)
    requires
        t.spec_attached(v),
        lc_idx < 16,
    ensures
        LUT::spec_from_bits(spec_read_field(v, t.p, (LogicLUT { lc: lc_idx }), 16)).0
            == (spec_read_field(v, t.p, (LogicLUT { lc: lc_idx }), 16) ^ 0xffffu32) as u16,
        LUT::spec_from_bits(
            spec_read_field(
                spec_write_value(v, t.p, (LogicLUT { lc: lc_idx }), 16, val.spec_to_bits()),
                t.p,
                (LogicLUT { lc: lc_idx }),
                16,
            ),
        ) == val,
        (forall|k: int|
            0 <= k < 16 ==> !#[trigger] spec_field_bits(
                v,
                t.p,
                spec_positions((LogicLUT { lc: lc_idx }), 16),
            )[k]) ==> LUT::spec_from_bits(spec_read_field(v, t.p, (LogicLUT { lc: lc_idx }), 16))
            == LUT(0xffff),
{
    let fp = LogicLUT { lc: lc_idx };
    lemma_field_fits(v.family, t.p, fp, 16);
    let bits = spec_read_field(v, t.p, fp, 16);
    assert(((65535 - bits % 65536) as u16) == ((bits ^ 0xffffu32) as u16)) by (bit_vector);
    lemma_lut_roundtrip(val);
    crate::bitfield::lemma_fits_bits_iff_lt(val.spec_to_bits(), 16);
    crate::bitmux::lemma_shift_table();
    lemma_write_read_value(v, t.p, fp, 16, val.spec_to_bits());
    if forall|k: int| 0 <= k < 16 ==> !#[trigger] spec_field_bits(v, t.p, spec_positions(fp, 16))[k] {
        crate::bitfield::lemma_bits_value_all_clear(spec_field_bits(v, t.p, spec_positions(fp, 16)));
    }
}

} // verus!
