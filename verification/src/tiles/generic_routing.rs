//! General-purpose interconnect
//!
//! These muxes are found in the "main" section of the array
//! (i.e. in logic, BRAM, and routing-only tiles, and not at the edges).
//!
//! General-purpose routing wires travel along the x/y-axis. They are unidirectional and
//! driven from exactly one place, and the specific input that is chosen is controlled by
//! the associated [RMUX]. These wires also have a fixed length (or "span") in tiles.
//!
//! There are:
//! * 16 `T1` wires in each direction left/right
//! * 12 `T4` wires in each direction left/right/up/down
//! * 96 `RMUX` per tile
//!
//! As a quirk, left-going neighbor wires are controlled by `RMUX`,
//! but right-going neighbor wires are controlled by tile-specific output muxes.
//! "Whatever is left" of the `RMUX`es control `T0` wires.

use vstd::prelude::*;

use crate::bitmux::{
    lemma_shift_table, lemma_twohot_roundtrip, lemma_twohot_shape, spec_twohot, spec_twohot_decode,
    twohot_bits, twohot_decode,
};
use crate::chips::{spec_tile_type, Family};
use crate::container::{spec_same_aux, Bitstream, BitstreamView};
use crate::coordinates::{TilePos, TileRelativeBitPos};
use crate::field::{
    lemma_field_fits, read_field, spec_read_field, spec_write_value, write_field,
    FieldPositionCalculator,
};
use crate::tiles::{TileRef, TileRefTrait, TileType};

verus! {

/// Where each `RMUX` of a group of 24 sits (3 columns of 8, in this strange order): the cell `(x, y)` of bit `biti`
pub open spec fn spec_rmux_group_cell(biti: int) -> (int, int) {
    if biti == 0 {
        (0, 0)
    } else if biti == 1 {
        (0, 4)
    } else if biti == 2 {
        (1, 0)
    } else if biti == 3 {
        (1, 4)
    } else if biti == 4 {
        (2, 0)
    } else if biti == 5 {
        (2, 4)
    } else if biti == 6 {
        (0, 1)
    } else if biti == 7 {
        (0, 5)
    } else if biti == 8 {
        (1, 1)
    } else if biti == 9 {
        (1, 5)
    } else if biti == 10 {
        (2, 1)
    } else if biti == 11 {
        (2, 5)
    } else if biti == 12 {
        (1, 6)
    } else if biti == 13 {
        (1, 2)
    } else if biti == 14 {
        (2, 6)
    } else if biti == 15 {
        (2, 2)
    } else if biti == 16 {
        (0, 6)
    } else if biti == 17 {
        (0, 2)
    } else if biti == 18 {
        (1, 7)
    } else if biti == 19 {
        (1, 3)
    } else if biti == 20 {
        (2, 7)
    } else if biti == 21 {
        (2, 3)
    } else if biti == 22 {
        (0, 7)
    } else {
        (0, 3)
    }
}

fn rmux_group_cell(biti: usize) -> (r: (u8, u8))
    requires
        biti < 24,
    ensures
        r.0 == spec_rmux_group_cell(biti as int).0,
        r.1 == spec_rmux_group_cell(biti as int).1,
{
    match biti {
        0 => (0, 0),
        1 => (0, 4),
        2 => (1, 0),
        3 => (1, 4),
        4 => (2, 0),
        5 => (2, 4),
        6 => (0, 1),
        7 => (0, 5),
        8 => (1, 1),
        9 => (1, 5),
        10 => (2, 1),
        11 => (2, 5),
        12 => (1, 6),
        13 => (1, 2),
        14 => (2, 6),
        15 => (2, 2),
        16 => (0, 6),
        17 => (0, 2),
        18 => (1, 7),
        19 => (1, 3),
        20 => (2, 7),
        21 => (2, 3),
        22 => (0, 7),
        _ => (0, 3),
    }
}

proof fn lemma_rmux_group_cell()
    ensures
        forall|i: int| 0 <= i < 24 ==> 0 <= (#[trigger] spec_rmux_group_cell(i)).0 <= 2 && 0 <= spec_rmux_group_cell(i).1 <= 7,
        forall|i: int, j: int| 0 <= i < j < 24 ==> #[trigger] spec_rmux_group_cell(i) != #[trigger] spec_rmux_group_cell(j),
{
    assert forall|i: int, j: int| 0 <= i < j < 24 implies #[trigger] spec_rmux_group_cell(i) != #[trigger] spec_rmux_group_cell(j) by {
        if i == 0 {
        } else if i == 1 {
        } else if i == 2 {
        } else if i == 3 {
        } else if i == 4 {
        } else if i == 5 {
        } else if i == 6 {
        } else if i == 7 {
        } else if i == 8 {
        } else if i == 9 {
        } else if i == 10 {
        } else if i == 11 {
        } else if i == 12 {
        } else if i == 13 {
        } else if i == 14 {
        } else if i == 15 {
        } else if i == 16 {
        } else if i == 17 {
        } else if i == 18 {
        } else if i == 19 {
        } else if i == 20 {
        } else if i == 21 {
        } else if i == 22 {
        } else if i == 23 {
        }
    }
}

/// The 5 wide by 2 high block of bits of one `RMUX`: the cell `(x, y)` of bit `biti`
pub open spec fn spec_rmux_cell(biti: int) -> (int, int) {
    if biti == 0 {
        (4, 0)
    } else if biti == 1 {
        (4, 1)
    } else if biti == 2 {
        (3, 0)
    } else if biti == 3 {
        (3, 1)
    } else if biti == 4 {
        (2, 0)
    } else if biti == 5 {
        (2, 1)
    } else if biti == 6 {
        (1, 0)
    } else if biti == 7 {
        (0, 0)
    } else if biti == 8 {
        (0, 1)
    } else {
        (1, 1)
    }
}

fn rmux_cell(biti: usize) -> (r: (u8, u8))
    requires
        biti < 10,
    ensures
        r.0 == spec_rmux_cell(biti as int).0,
        r.1 == spec_rmux_cell(biti as int).1,
{
    match biti {
        0 => (4, 0),
        1 => (4, 1),
        2 => (3, 0),
        3 => (3, 1),
        4 => (2, 0),
        5 => (2, 1),
        6 => (1, 0),
        7 => (0, 0),
        8 => (0, 1),
        _ => (1, 1),
    }
}

proof fn lemma_rmux_cell()
    ensures
        forall|i: int| 0 <= i < 10 ==> 0 <= (#[trigger] spec_rmux_cell(i)).0 <= 4 && 0 <= spec_rmux_cell(i).1 <= 1,
        forall|i: int, j: int| 0 <= i < j < 10 ==> #[trigger] spec_rmux_cell(i) != #[trigger] spec_rmux_cell(j),
{
    assert forall|i: int, j: int| 0 <= i < j < 10 implies #[trigger] spec_rmux_cell(i) != #[trigger] spec_rmux_cell(j) by {
        if i == 0 {
        } else if i == 1 {
        } else if i == 2 {
        } else if i == 3 {
        } else if i == 4 {
        } else if i == 5 {
        } else if i == 6 {
        } else if i == 7 {
        } else if i == 8 {
        } else if i == 9 {
        }
    }
}

/// The places of the 24 `RMUX`es of a group, as laid out in the tile
///
/// Row by row (8 rows of 3 columns), the group's muxes are
/// `[[0, 2, 4], [6, 8, 10], [17, 13, 15], [23, 19, 21], [1, 3, 5], [7, 9, 11], [16, 12, 14],
/// [22, 18, 20]]`.
pub open spec fn rmux_group_table() -> Seq<Seq<int>> {
    seq![
        seq![0int, 2, 4],
        seq![6int, 8, 10],
        seq![17int, 13, 15],
        seq![23int, 19, 21],
        seq![1int, 3, 5],
        seq![7int, 9, 11],
        seq![16int, 12, 14],
        seq![22int, 18, 20],
    ]
}

/// The bits of one `RMUX` in its 5 wide by 2 high block, row by row:
/// `[[7, 6, 4, 2, 0], [8, 9, 5, 3, 1]]`
pub open spec fn rmux_bit_table() -> Seq<Seq<int>> {
    seq![seq![7int, 6, 4, 2, 0], seq![8int, 9, 5, 3, 1]]
}

/// Where the bits of the `RMUX`es sit: the 96 muxes form 4 groups of 24, each group 8
/// rows of 2 tile rows (the last two groups below a 4-row gap) and 3 columns of 5 bits.
/// Mux `24 * g + rmux_group_table()[r][c]` has bit `rmux_bit_table()[dy][dx]` at tile row
/// `2 * (8 * g + r) + dy` (plus 4 for `g >= 2`) and column `dx`, `9 - dx` or `10 + dx` for
/// the columns 0, 1 (mirrored) and 2, one further right in a BRAM tile.
pub proof fn lemma_rmux_bit_layout(is_bram: bool, g: int, r: int, c: int, dy: int, dx: int)
    requires
        0 <= g < 4,
        0 <= r < 8,
        0 <= c < 3,
        0 <= dy < 2,
        0 <= dx < 5,
    ensures
        0 <= rmux_group_table()[r][c] < 24,
        0 <= rmux_bit_table()[dy][dx] < 10,
        (RMUXRef { is_bram, i: (24 * g + rmux_group_table()[r][c]) as u8 }).spec_bit_pos(
            rmux_bit_table()[dy][dx],
        ) == (TileRelativeBitPos {
            x: ((if c == 0 {
                dx
            } else if c == 1 {
                9 - dx
            } else {
                10 + dx
            }) + if is_bram { 1int } else { 0 }) as u8,
            y: (2 * (8 * g + r) + dy + if g >= 2 { 4int } else { 0 }) as u8,
        }),
{
    let gt = rmux_group_table();
    let bt = rmux_bit_table();
    let k = gt[r][c];
    let b = bt[dy][dx];
    assert(spec_rmux_group_cell(k) == (c, r)) by {
        if r == 0 {
            if c == 0 {
                assert(gt[0] =~= seq![0, 2, 4]);
                assert(gt[r][c] == 0);
            } else if c == 1 {
                assert(gt[0] =~= seq![0, 2, 4]);
                assert(gt[r][c] == 2);
            } else if c == 2 {
                assert(gt[0] =~= seq![0, 2, 4]);
                assert(gt[r][c] == 4);
            }
        } else if r == 1 {
            if c == 0 {
                assert(gt[1] =~= seq![6, 8, 10]);
                assert(gt[r][c] == 6);
            } else if c == 1 {
                assert(gt[1] =~= seq![6, 8, 10]);
                assert(gt[r][c] == 8);
            } else if c == 2 {
                assert(gt[1] =~= seq![6, 8, 10]);
                assert(gt[r][c] == 10);
            }
        } else if r == 2 {
            if c == 0 {
                assert(gt[2] =~= seq![17, 13, 15]);
                assert(gt[r][c] == 17);
            } else if c == 1 {
                assert(gt[2] =~= seq![17, 13, 15]);
                assert(gt[r][c] == 13);
            } else if c == 2 {
                assert(gt[2] =~= seq![17, 13, 15]);
                assert(gt[r][c] == 15);
            }
        } else if r == 3 {
            if c == 0 {
                assert(gt[3] =~= seq![23, 19, 21]);
                assert(gt[r][c] == 23);
            } else if c == 1 {
                assert(gt[3] =~= seq![23, 19, 21]);
                assert(gt[r][c] == 19);
            } else if c == 2 {
                assert(gt[3] =~= seq![23, 19, 21]);
                assert(gt[r][c] == 21);
            }
        } else if r == 4 {
            if c == 0 {
                assert(gt[4] =~= seq![1, 3, 5]);
                assert(gt[r][c] == 1);
            } else if c == 1 {
                assert(gt[4] =~= seq![1, 3, 5]);
                assert(gt[r][c] == 3);
            } else if c == 2 {
                assert(gt[4] =~= seq![1, 3, 5]);
                assert(gt[r][c] == 5);
            }
        } else if r == 5 {
            if c == 0 {
                assert(gt[5] =~= seq![7, 9, 11]);
                assert(gt[r][c] == 7);
            } else if c == 1 {
                assert(gt[5] =~= seq![7, 9, 11]);
                assert(gt[r][c] == 9);
            } else if c == 2 {
                assert(gt[5] =~= seq![7, 9, 11]);
                assert(gt[r][c] == 11);
            }
        } else if r == 6 {
            if c == 0 {
                assert(gt[6] =~= seq![16, 12, 14]);
                assert(gt[r][c] == 16);
            } else if c == 1 {
                assert(gt[6] =~= seq![16, 12, 14]);
                assert(gt[r][c] == 12);
            } else if c == 2 {
                assert(gt[6] =~= seq![16, 12, 14]);
                assert(gt[r][c] == 14);
            }
        } else if r == 7 {
            if c == 0 {
                assert(gt[7] =~= seq![22, 18, 20]);
                assert(gt[r][c] == 22);
            } else if c == 1 {
                assert(gt[7] =~= seq![22, 18, 20]);
                assert(gt[r][c] == 18);
            } else if c == 2 {
                assert(gt[7] =~= seq![22, 18, 20]);
                assert(gt[r][c] == 20);
            }
        }
    }
    assert(spec_rmux_cell(b) == (dx, dy)) by {
        if dy == 0 {
            if dx == 0 {
                assert(bt[0] =~= seq![7, 6, 4, 2, 0]);
                assert(bt[dy][dx] == 7);
            } else if dx == 1 {
                assert(bt[0] =~= seq![7, 6, 4, 2, 0]);
                assert(bt[dy][dx] == 6);
            } else if dx == 2 {
                assert(bt[0] =~= seq![7, 6, 4, 2, 0]);
                assert(bt[dy][dx] == 4);
            } else if dx == 3 {
                assert(bt[0] =~= seq![7, 6, 4, 2, 0]);
                assert(bt[dy][dx] == 2);
            } else if dx == 4 {
                assert(bt[0] =~= seq![7, 6, 4, 2, 0]);
                assert(bt[dy][dx] == 0);
            }
        } else if dy == 1 {
            if dx == 0 {
                assert(bt[1] =~= seq![8, 9, 5, 3, 1]);
                assert(bt[dy][dx] == 8);
            } else if dx == 1 {
                assert(bt[1] =~= seq![8, 9, 5, 3, 1]);
                assert(bt[dy][dx] == 9);
            } else if dx == 2 {
                assert(bt[1] =~= seq![8, 9, 5, 3, 1]);
                assert(bt[dy][dx] == 5);
            } else if dx == 3 {
                assert(bt[1] =~= seq![8, 9, 5, 3, 1]);
                assert(bt[dy][dx] == 3);
            } else if dx == 4 {
                assert(bt[1] =~= seq![8, 9, 5, 3, 1]);
                assert(bt[dy][dx] == 1);
            }
        }
    }
    let i = 24 * g + k;
    assert(i / 24 == g && i % 24 == k);
    assert((i >= 48) == (g >= 2));
}

/// Where the bits of `RMUX` `i` sit
///
/// There are 96 RMUXes per tile, which we _logically_ group as 16x 6,
/// but which are _physically_ grouped more like 4x 24.
/// Each sub-group of 24 is 3 columns of 8; the middle column has its bits flipped.
/// In a BRAM tile, everything is scooted right by 1.
pub struct RMUXRef {
    pub is_bram: bool,
    pub i: u8,
}

impl FieldPositionCalculator for RMUXRef {
    open spec fn spec_valid(&self) -> bool {
        self.i < 96
    }

    open spec fn spec_nbits(&self) -> nat {
        10
    }

    open spec fn spec_bit_pos(&self, biti: int) -> TileRelativeBitPos {
        let group = self.i / 24;
        let (col, row) = spec_rmux_group_cell((self.i % 24) as int);
        // a 4-row gap in the middle holds global routing bits
        let y_offs = (row + group * 8) * 2 + if self.i >= 48 { 4int } else { 0 };
        let (xbase, dy) = spec_rmux_cell(biti);
        let x = if col == 0 {
            xbase
        } else if col == 1 {
            9 - xbase
        } else {
            10 + xbase
        };
        TileRelativeBitPos {
            y: (y_offs + dy) as u8,
            x: (x + if self.is_bram { 1int } else { 0 }) as u8,
        }
    }

    open spec fn spec_width(&self) -> int {
        16
    }

    open spec fn spec_height(&self) -> int {
        68
    }

    proof fn lemma_layout(&self) {
        lemma_rmux_group_cell();
        lemma_rmux_cell();
        let c = spec_rmux_group_cell((self.i % 24) as int);
        assert(0 <= c.0 <= 2 && 0 <= c.1 <= 7);
    }

    fn get_bit_pos(&self, biti: usize) -> (r: TileRelativeBitPos) {
        proof {
            lemma_rmux_group_cell();
            lemma_rmux_cell();
        }
        let group = self.i / 24;
        let (col, row) = rmux_group_cell((self.i % 24) as usize);
        let mut y_offs: u8 = (row + group * 8) * 2;
        if self.i >= 48 {
            y_offs = y_offs + 4;
        }
        let (xbase, dy) = rmux_cell(biti);
        let mut x: u8 = if col == 0 {
            xbase
        } else if col == 1 {
            9 - xbase
        } else {
            10 + xbase
        };
        if self.is_bram {
            x = x + 1;
        }
        TileRelativeBitPos { y: y_offs + dy, x }
    }
}

/// A general-purpose routing mux
///
/// It is either unprogrammed or selects one of 21 inputs, by a "two-hot" code of
/// 3 outer and 7 inner choices.
#[derive(Clone, Copy, PartialEq, Eq, Debug, Hash, Structural)]
pub enum RMUX {
    /// Not programmed
    Unset,
    /// Input `i`
    I(u8),
}

impl RMUX {
    /// The setting held by the bits of the field, if they hold a valid one
    pub open spec fn spec_from_bits(bits: u32) -> Option<RMUX> {
        if bits == 0 {
            Some(RMUX::Unset)
        } else {
            match spec_twohot_decode(3, 7, bits) {
                Some(v) => Some(RMUX::I(v as u8)),
                None => None,
            }
        }
    }

    /// Can this setting be written?
    pub open spec fn spec_valid(self) -> bool {
        match self {
            RMUX::Unset => true,
            RMUX::I(i) => i < 21,
        }
    }

    /// The bits that hold this setting
    pub open spec fn spec_to_bits(self) -> u32 {
        match self {
            RMUX::Unset => 0,
            RMUX::I(i) => spec_twohot(7, i as u32),
        }
    }

    /// Decode the bits of the field; `None` when they hold no setting (the routing dump
    /// reports such a mux)
    pub fn from_bits(bits: u32) -> (r: Option<RMUX>)
        ensures
            r == RMUX::spec_from_bits(bits),
    {
        if bits == 0 {
            return Some(RMUX::Unset);
        }
        match twohot_decode(3, 7, bits) {
            Some(v) => Some(RMUX::I(v as u8)),
            None => None,
        }
    }

    /// Encode the setting into the bits of the field
    pub fn to_bits(self) -> (r: u32)
        requires
            self.spec_valid(),
        ensures
            r == self.spec_to_bits(),
    {
        match self {
            RMUX::Unset => 0,
            RMUX::I(i) => {
                twohot_bits(3, 7, i as u32)
            },
        }
    }
}

impl Default for RMUX {
    fn default() -> (r: Self)
        ensures
            r == RMUX::Unset,
    {
        RMUX::Unset
    }
}

/// Decoding the bits of a valid `RMUX` gives it back, and the bits fit in 10 bits.
pub proof fn lemma_rmux_roundtrip(x: RMUX)
    requires
        x.spec_valid(),
    ensures
        RMUX::spec_from_bits(x.spec_to_bits()) == Some(x),
        x.spec_to_bits() < 1024,
{
    lemma_shift_table();
    match x {
        RMUX::Unset => {},
        RMUX::I(i) => {
                lemma_twohot_roundtrip(3, 7, i as u32);
                lemma_twohot_shape(3, 7, i as u32, 0);
        },
    }
}
/// Access to the general-purpose routing of a logic, routing-only or BRAM tile
#[derive(Clone, Copy, PartialEq, Eq, Debug, Hash, Structural)]
pub struct GenericRoutingRef {
    pub family: Family,
    pub p: TilePos,
}

impl GenericRoutingRef {
    /// Can this handle be used to access this bitstream?
    pub open spec fn spec_attached(self, v: BitstreamView) -> bool {
        &&& v.logic_ready()
        &&& v.family == self.family
        &&& (spec_tile_type(self.family, self.p) == TileType::Logic || spec_tile_type(
            self.family,
            self.p,
        ) == TileType::RoutingOnly || spec_tile_type(self.family, self.p) == TileType::BRAM)
    }
}

impl TileRefTrait for GenericRoutingRef {
    open spec fn spec_family(&self) -> Family {
        self.family
    }

    open spec fn spec_pos(&self) -> TilePos {
        self.p
    }

    open spec fn spec_tile_type(&self) -> TileType {
        spec_tile_type(self.family, self.p)
    }

    fn family(&self) -> (r: Family) {
        self.family
    }

    fn tile_type(&self) -> (r: TileType) {
        self.family.get_tile_type(self.p)
    }

    fn pos(&self) -> (r: TilePos) {
        self.p
    }

    fn as_base_tile(self) -> (r: TileRef) {
        TileRef { family: self.family, p: self.p }
    }
}

/// Read access to `RMUX`es
pub trait GenericRoutingRefTrait {
    /// The tile whose `RMUX`es are accessed
    spec fn spec_routing_pos(&self) -> TilePos;

    /// Is the tile a BRAM tile (whose bits are scooted right by 1)?
    spec fn spec_routing_is_bram(&self) -> bool;

    /// Can this handle be used to access the routing of this bitstream?
    spec fn spec_routing_attached(&self, v: BitstreamView) -> bool;

    /// Read `RMUX` number `rmux_idx`
    fn rmux(&self, b: &Bitstream, rmux_idx: u8) -> (r: RMUX)
        requires
            self.spec_routing_attached(b@),
            rmux_idx < 96,
            RMUX::spec_from_bits(
                spec_read_field(
                    b@,
                    self.spec_routing_pos(),
                    (RMUXRef { is_bram: self.spec_routing_is_bram(), i: rmux_idx }),
                    10,
                ),
            ) is Some,
        ensures
            Some(r) == RMUX::spec_from_bits(
                spec_read_field(
                    b@,
                    self.spec_routing_pos(),
                    (RMUXRef { is_bram: self.spec_routing_is_bram(), i: rmux_idx }),
                    10,
                ),
            ),
    ;
}

/// Write access to `RMUX`es
pub trait GenericRoutingRefMutTrait: GenericRoutingRefTrait {
    /// Write `RMUX` number `rmux_idx`
    fn set_rmux(&self, b: &mut Bitstream, rmux_idx: u8, val: RMUX)
        requires
            self.spec_routing_attached(old(b)@),
            rmux_idx < 96,
            val.spec_valid(),
        ensures
            final(b)@ == spec_write_value(
                old(b)@,
                self.spec_routing_pos(),
                (RMUXRef { is_bram: self.spec_routing_is_bram(), i: rmux_idx }),
                10,
                val.spec_to_bits(),
            ),
            self.spec_routing_attached(final(b)@),
            spec_same_aux(old(b)@, final(b)@),
    ;
}

/// Is there room for an `RMUX` block in this tile?
pub open spec fn spec_routing_tile_ok(v: BitstreamView, tile: TilePos, is_bram: bool) -> bool {
    &&& v.logic_ready()
    &&& (spec_tile_type(v.family, tile) == TileType::Logic || spec_tile_type(v.family, tile)
        == TileType::RoutingOnly || spec_tile_type(v.family, tile) == TileType::BRAM)
}

/// Read an `RMUX` of a logic, routing-only or BRAM tile
pub fn read_rmux(b: &Bitstream, tile: TilePos, is_bram: bool, rmux_idx: u8) -> (r: RMUX)
    requires
        spec_routing_tile_ok(b@, tile, is_bram),
        rmux_idx < 96,
        RMUX::spec_from_bits(spec_read_field(b@, tile, (RMUXRef { is_bram, i: rmux_idx }), 10)) is Some,
    ensures
        Some(r) == RMUX::spec_from_bits(spec_read_field(b@, tile, (RMUXRef { is_bram, i: rmux_idx }), 10)),
{
    let fp = RMUXRef { is_bram, i: rmux_idx };
    proof {
        lemma_field_fits(b@.family, tile, fp, 10);
    }
    let bits = read_field(b, tile, &fp, 10);
    match RMUX::from_bits(bits) {
        Some(x) => x,
        None => RMUX::Unset,
    }
}

/// Write an `RMUX` of a logic, routing-only or BRAM tile
pub fn write_rmux(b: &mut Bitstream, tile: TilePos, is_bram: bool, rmux_idx: u8, val: RMUX)
    requires
        spec_routing_tile_ok(old(b)@, tile, is_bram),
        rmux_idx < 96,
        val.spec_valid(),
    ensures
        final(b)@ == spec_write_value(old(b)@, tile, (RMUXRef { is_bram, i: rmux_idx }), 10, val.spec_to_bits()),
        spec_routing_tile_ok(final(b)@, tile, is_bram),
        spec_same_aux(old(b)@, final(b)@),
{
    let fp = RMUXRef { is_bram, i: rmux_idx };
    proof {
        lemma_field_fits(b@.family, tile, fp, 10);
    }
    write_field(b, tile, &fp, 10, val.to_bits());
}

impl GenericRoutingRefTrait for GenericRoutingRef {
    open spec fn spec_routing_pos(&self) -> TilePos {
        self.p
    }

    open spec fn spec_routing_is_bram(&self) -> bool {
        spec_tile_type(self.family, self.p) == TileType::BRAM
    }

    open spec fn spec_routing_attached(&self, v: BitstreamView) -> bool {
        self.spec_attached(v)
    }

    fn rmux(&self, b: &Bitstream, rmux_idx: u8) -> (r: RMUX) {
        let is_bram = self.tile_type() == TileType::BRAM;
        read_rmux(b, self.p, is_bram, rmux_idx)
    }
}

impl GenericRoutingRefMutTrait for GenericRoutingRef {
    fn set_rmux(&self, b: &mut Bitstream, rmux_idx: u8, val: RMUX) {
        let is_bram = self.tile_type() == TileType::BRAM;
        write_rmux(b, self.p, is_bram, rmux_idx, val);
    }
}

/// Writing an `RMUX` and reading it back gives the written setting.
pub proof fn lemma_rmux_write_read(v: BitstreamView, tile: TilePos, is_bram: bool, rmux_idx: u8, val: RMUX)
    requires
        spec_routing_tile_ok(v, tile, is_bram),
        rmux_idx < 96,
        val.spec_valid(),
    ensures
        RMUX::spec_from_bits(
            spec_read_field(
                spec_write_value(v, tile, (RMUXRef { is_bram, i: rmux_idx }), 10, val.spec_to_bits()),
                tile,
                (RMUXRef { is_bram, i: rmux_idx }),
                10,
            ),
        ) == Some(val),
{
    let fp = RMUXRef { is_bram, i: rmux_idx };
    lemma_field_fits(v.family, tile, fp, 10);
    lemma_rmux_roundtrip(val);
    crate::bitfield::lemma_fits_bits_iff_lt(val.spec_to_bits(), 10);
    lemma_shift_table();
    crate::field::lemma_write_read_value(v, tile, fp, 10, val.spec_to_bits());
}

} // verus!
