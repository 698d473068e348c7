//! Interface to external hard IP blocks
//!
//! Hard IP tiles exist at the edges of the array, similar to I/O tiles.
//! However, IP tiles do not need two stages of "global" → "local" → IP
//! and instead directly picks wires from the interconnect to send to the IP.
//!
//! Each wire can come from either general-purpose interconnect or global interconnect,
//! and they all have a programmable invert bit.
//!
//! ## Top hard IP cells
//!
//! Top-edge hard IP interfaces have up to 12 wires to the IP and 12 wires from the IP.
//!
//! Each wire going _to_ the IP can chose from _any_ of the `T4Y` wires entering the tile
//! (or from one of the global clock lines).
//!
//! Each wire coming _from_ the IP can drive up 2 possible outputs, the "corresponding" one
//! or the "neighboring" one. For example, wire `0` from the IP can drive either `T4Y` wire `0` or `1`.
//! Likewise, wire `1` from the IP can also drive either `T4Y` wire `0` or `1`.
//! IP wires `2` and `3` can drive `T4Y` wires `2` or `3`, and so on.
//! Because you usually want to be able to use _all_ the wires, this effectively gives
//! two _useful_ choices of "go straight" or "swap pair" for each group of 2 wires.
//!
//! ## Left/right hard IP cells
//!
//! Top-edge hard IP interfaces have up to 20 wires to the IP and 20 wires from the IP.
//!
//! For the first 12 of these wires, each of them can chose from _any_ of the
//! `T4X` wires entering the tile (or from one of the global clock lines).
//! For the remaining 8 wires, each of them can chose from _any_ of the
//! `T1` neighbor wires entering the tile (or from one of the global clock lines).
//!
//! The first 12 output wires drive onto `T4X` outputs, either "straight" or "swapped"
//! (just like in top hard IP cells). The remaining 8 output wires drive onto `T1` neighbor wires.
//! Because 8 is half of 16, each of these wires drives _2_ `T1` wires
//! (in order, so output `12` drives `T1` wires `0` and `1`, `13` drives `2` and `3`, etc).

use vstd::prelude::*;

use crate::bitmux::{
    lemma_shift_table, lemma_twohot_roundtrip, lemma_twohot_shape, spec_twohot, spec_twohot_decode,
    twohot_bits, twohot_decode,
};
use crate::chips::{spec_tile_type, Family};
use crate::container::{spec_same_aux, Bitstream, BitstreamView};
use crate::coordinates::{TilePos, TileRelativeBitPos};
use crate::field::{
    lemma_field_fits, read_field, spec_read_field, spec_write_value, write_field, BitAt,
    FieldPositionCalculator,
};
use crate::tiles::{GlobalToLocalMux, Mux2, TileRef, TileRefTrait, TileType};

verus! {

/// A mux with 13 choices and an optional invert
#[derive(Clone, Copy, PartialEq, Eq, Debug, Hash, Structural)]
pub enum Mux13Inv {
    /// Constant 1
    VCC,
    /// Constant 0
    GND,
    /// Choice `i`, optionally inverted
    I { invert: bool, i: u8 },
}

impl Mux13Inv {
    /// The setting held by the bits of the field, if they hold a valid one
    pub open spec fn spec_from_bits(bits: u32) -> Option<Self> {
        let invert = (bits / 256) % 2 == 1;
        let low = bits % 256;
        if low == 0 {
            if invert {
                Some(Self::GND)
            } else {
                Some(Self::VCC)
            }
        } else if low == 128 {
            Some(Self::I { invert, i: 12 })
        } else {
            match spec_twohot_decode(3, 4, low) {
                Some(v) => Some(Self::I { invert, i: v as u8 }),
                None => None,
            }
        }
    }

    /// Can this setting be written?
    pub open spec fn spec_valid(self) -> bool {
        match self {
            Self::I { i, .. } => i < 12 || i == 12,
            _ => true,
        }
    }

    /// The bits of the choice, without the invert bit
    pub open spec fn spec_choice_bits(i: u8) -> u32 {
        if i == 12 {
            128
        } else {
            spec_twohot(4, i as u32)
        }
    }

    /// The bits that hold this setting
    pub open spec fn spec_to_bits(self) -> u32 {
        match self {
            Self::VCC => 0,
            Self::GND => 256,
            Self::I { invert, i } => if invert {
                (Self::spec_choice_bits(i) + 256) as u32
            } else {
                Self::spec_choice_bits(i)
            },
        }
    }

    /// Decode the bits of the field, which hold a setting
    pub fn from_bits(bits: u32) -> (r: Self)
        requires
            Self::spec_from_bits(bits) is Some,
        ensures
            Some(r) == Self::spec_from_bits(bits),
    {
        let invert = (bits / 256) % 2 == 1;
        let low = bits % 256;
        if low == 0 {
            if invert {
                return Self::GND;
            } else {
                return Self::VCC;
            }
        }
        if low == 128 {
            return Self::I { invert, i: 12 };
        }
        match twohot_decode(3, 4, low) {
            Some(v) => Self::I { invert, i: v as u8 },
            // not reached: the bits hold a setting
            None => Self::VCC,
        }
    }

    /// Encode the setting into the bits of the field
    pub fn to_bits(self) -> (r: u32)
        requires
            self.spec_valid(),
        ensures
            r == self.spec_to_bits(),
    {
        match self {
            Self::VCC => 0,
            Self::GND => 256,
            Self::I { invert, i } => {
                let choice = if i == 12 {
                    128
                } else {
                    twohot_bits(3, 4, i as u32)
                };
                proof {
                    lemma_shift_table();
                    if i < 12 {
                        lemma_twohot_shape(3, 4, i as u32, 0);
                    }
                }
                if invert {
                    choice + 256
                } else {
                    choice
                }
            },
        }
    }
}

impl Default for Mux13Inv {
    fn default() -> (r: Self)
        ensures
            r == Self::VCC,
    {
        Self::VCC
    }
}

/// Decoding the bits of a valid `Mux13Inv` gives it back, and the bits fit in 9 bits.
pub proof fn lemma_mux13_inv_roundtrip(x: Mux13Inv)
    requires
        x.spec_valid(),
    ensures
        Mux13Inv::spec_from_bits(x.spec_to_bits()) == Some(x),
        x.spec_to_bits() < 512,
{
    lemma_shift_table();
    match x {
        Mux13Inv::I { invert, i } => {
            if i != 12 {
                    lemma_twohot_roundtrip(3, 4, i as u32);
                    lemma_twohot_shape(3, 4, i as u32, 7);
            }
        },
        _ => {},
    }
}
/// A mux with 17 choices and an optional invert
///
/// The `inverted` argument of its encoding functions controls if the sense of the
/// "invert" bit is flipped relative to the "default" (where 0 = do not invert).
#[derive(Clone, Copy, PartialEq, Eq, Debug, Hash, Structural)]
pub enum Mux17InvGeneric {
    /// Constant 1
    VCC,
    /// Constant 0
    GND,
    /// Choice `i`, optionally inverted
    I { invert: bool, i: u8 },
}

impl Mux17InvGeneric {
    /// The setting held by the bits of the field, if they hold a valid one
    pub open spec fn spec_from_bits(bits: u32, inverted: bool) -> Option<Self> {
        let invert = ((bits / 512) % 2 == 1) != inverted;
        let low = bits % 512;
        if low == 0 {
            if invert {
                Some(Self::GND)
            } else {
                Some(Self::VCC)
            }
        } else if low == 256 {
            Some(Self::I { invert, i: 16 })
        } else {
            match spec_twohot_decode(4, 4, low) {
                Some(v) => Some(Self::I { invert, i: v as u8 }),
                None => None,
            }
        }
    }

    /// Can this setting be written?
    pub open spec fn spec_valid(self) -> bool {
        match self {
            Self::I { i, .. } => i < 16 || i == 16,
            _ => true,
        }
    }

    /// The bits of the choice, without the invert bit
    pub open spec fn spec_choice_bits(i: u8) -> u32 {
        if i == 16 {
            256
        } else {
            spec_twohot(4, i as u32)
        }
    }

    /// The bits that hold this setting
    pub open spec fn spec_to_bits(self, inverted: bool) -> u32 {
        match self {
            Self::VCC => if inverted {
                512
            } else {
                0
            },
            Self::GND => if inverted {
                0
            } else {
                512
            },
            Self::I { invert, i } => if (invert != inverted) {
                (Self::spec_choice_bits(i) + 512) as u32
            } else {
                Self::spec_choice_bits(i)
            },
        }
    }

    /// Decode the bits of the field, which hold a setting
    pub fn from_bits(bits: u32, inverted: bool) -> (r: Self)
        requires
            Self::spec_from_bits(bits, inverted) is Some,
        ensures
            Some(r) == Self::spec_from_bits(bits, inverted),
    {
        let invert = ((bits / 512) % 2 == 1) != inverted;
        let low = bits % 512;
        if low == 0 {
            if invert {
                return Self::GND;
            } else {
                return Self::VCC;
            }
        }
        if low == 256 {
            return Self::I { invert, i: 16 };
        }
        match twohot_decode(4, 4, low) {
            Some(v) => Self::I { invert, i: v as u8 },
            // not reached: the bits hold a setting
            None => Self::VCC,
        }
    }

    /// Encode the setting into the bits of the field
    pub fn to_bits(self, inverted: bool) -> (r: u32)
        requires
            self.spec_valid(),
        ensures
            r == self.spec_to_bits(inverted),
    {
        match self {
            Self::VCC => if inverted {
                    512
                } else {
                    0
                },
            Self::GND => if inverted {
                    0
                } else {
                    512
                },
            Self::I { invert, i } => {
                let choice = if i == 16 {
                    256
                } else {
                    twohot_bits(4, 4, i as u32)
                };
                proof {
                    lemma_shift_table();
                    if i < 16 {
                        lemma_twohot_shape(4, 4, i as u32, 0);
                    }
                }
                if (invert != inverted) {
                    choice + 512
                } else {
                    choice
                }
            },
        }
    }
}

impl Default for Mux17InvGeneric {
    fn default() -> (r: Self)
        ensures
            r == Self::VCC,
    {
        Self::VCC
    }
}

/// Decoding the bits of a valid `Mux17InvGeneric` gives it back, and the bits fit in 10 bits.
pub proof fn lemma_mux17_inv_generic_roundtrip(x: Mux17InvGeneric, inverted: bool)
    requires
        x.spec_valid(),
    ensures
        Mux17InvGeneric::spec_from_bits(x.spec_to_bits(inverted), inverted) == Some(x),
        x.spec_to_bits(inverted) < 1024,
{
    lemma_shift_table();
    match x {
        Mux17InvGeneric::I { invert, i } => {
            if i != 16 {
                    lemma_twohot_roundtrip(4, 4, i as u32);
                    lemma_twohot_shape(4, 4, i as u32, 8);
            }
        },
        _ => {},
    }
}

/// A mux with 17 choices and an optional invert (encoded with `inverted` false)
pub type Mux17Inv = Mux17InvGeneric;

/// The row of an instance of a top hard IP mux: 2 columns of 6, and within each column a
/// gap of 2 rows between the top 3 and bottom 3
pub open spec fn spec_top_ip_row(i: u8) -> int {
    let w = i % 6;
    54 + w * 2 + if w >= 3 { 2int } else { 0 }
}

fn top_ip_row(i: u8) -> (r: u8)
    requires
        i < 12,
    ensures
        r == spec_top_ip_row(i),
{
    let w = i % 6;
    54 + w * 2 + if w >= 3 {
        2
    } else {
        0
    }
}

/// The block of bits of one top hard IP input mux: the cell `(x, y)` of bit `biti`
pub open spec fn spec_top_ip_cell(biti: int) -> (int, int) {
    if biti == 0 {
        (0, 0)
    } else if biti == 1 {
        (0, 1)
    } else if biti == 2 {
        (1, 0)
    } else if biti == 3 {
        (1, 1)
    } else if biti == 4 {
        (2, 0)
    } else if biti == 5 {
        (2, 1)
    } else if biti == 6 {
        (3, 0)
    } else if biti == 7 {
        (3, 1)
    } else {
        (6, 1)
    }
}

fn top_ip_cell(biti: usize) -> (r: (u8, u8))
    requires
        biti < 9,
    ensures
        r.0 == spec_top_ip_cell(biti as int).0,
        r.1 == spec_top_ip_cell(biti as int).1,
{
    match biti {
        0 => (0, 0),
        1 => (0, 1),
        2 => (1, 0),
        3 => (1, 1),
        4 => (2, 0),
        5 => (2, 1),
        6 => (3, 0),
        7 => (3, 1),
        _ => (6, 1),
    }
}

proof fn lemma_top_ip_cell()
    ensures
        forall|i: int| 0 <= i < 9 ==> 0 <= (#[trigger] spec_top_ip_cell(i)).0 <= 6 && 0 <= spec_top_ip_cell(i).1 <= 1,
        forall|i: int, j: int| 0 <= i < j < 9 ==> #[trigger] spec_top_ip_cell(i) != #[trigger] spec_top_ip_cell(j),
{
    assert forall|i: int, j: int| 0 <= i < j < 9 implies #[trigger] spec_top_ip_cell(i) != #[trigger] spec_top_ip_cell(j) by {
        if i == 0 {
        } else if i == 1 {
        } else if i == 2 {
        } else if i == 3 {
        } else if i == 4 {
        } else if i == 5 {
        } else if i == 6 {
        } else if i == 7 {
        } else if i == 8 {
        }
    }
}

/// Where the bits of top hard IP input mux `i` sit
///
/// The second column has its bits mirrored horizontally.
pub struct TopIPToExtMux {
    pub i: u8,
}

impl FieldPositionCalculator for TopIPToExtMux {
    open spec fn spec_valid(&self) -> bool {
        self.i < 12
    }

    open spec fn spec_nbits(&self) -> nat {
        9
    }

    open spec fn spec_bit_pos(&self, biti: int) -> TileRelativeBitPos {
        let (xbase, dy) = spec_top_ip_cell(biti);
        TileRelativeBitPos {
            y: (spec_top_ip_row(self.i) + dy) as u8,
            x: (if self.i < 6 { xbase } else { 29 - xbase }) as u8,
        }
    }

    open spec fn spec_width(&self) -> int {
        30
    }

    open spec fn spec_height(&self) -> int {
        68
    }

    proof fn lemma_layout(&self) {
        lemma_top_ip_cell();
    }

    fn get_bit_pos(&self, biti: usize) -> (r: TileRelativeBitPos) {
        proof {
            lemma_top_ip_cell();
        }
        let (xbase, dy) = top_ip_cell(biti);
        TileRelativeBitPos {
            y: top_ip_row(self.i) + dy,
            x: if self.i < 6 {
                xbase
            } else {
                29 - xbase
            },
        }
    }
}

/// Where the bit of top hard IP output mux `i` sits
pub struct TopIPFromExtMux {
    pub i: u8,
}

impl FieldPositionCalculator for TopIPFromExtMux {
    open spec fn spec_valid(&self) -> bool {
        self.i < 12
    }

    open spec fn spec_nbits(&self) -> nat {
        1
    }

    open spec fn spec_bit_pos(&self, biti: int) -> TileRelativeBitPos {
        TileRelativeBitPos { y: spec_top_ip_row(self.i) as u8, x: if self.i < 6 { 30 } else { 32 } }
    }

    open spec fn spec_width(&self) -> int {
        33
    }

    open spec fn spec_height(&self) -> int {
        68
    }

    proof fn lemma_layout(&self) {
    }

    fn get_bit_pos(&self, biti: usize) -> (r: TileRelativeBitPos) {
        TileRelativeBitPos {
            y: top_ip_row(self.i),
            x: if self.i < 6 {
                30
            } else {
                32
            },
        }
    }
}

/// Where the bits of top hard IP global-to-local mux `i` sit (mirrored in the second column)
pub struct TopIPGlobal2Local {
    pub i: u8,
}

impl FieldPositionCalculator for TopIPGlobal2Local {
    open spec fn spec_valid(&self) -> bool {
        self.i < 12
    }

    open spec fn spec_nbits(&self) -> nat {
        6
    }

    open spec fn spec_bit_pos(&self, biti: int) -> TileRelativeBitPos {
        TileRelativeBitPos {
            y: spec_top_ip_row(self.i) as u8,
            x: (if self.i < 6 { 9 + biti } else { 20 - biti }) as u8,
        }
    }

    open spec fn spec_width(&self) -> int {
        21
    }

    open spec fn spec_height(&self) -> int {
        68
    }

    proof fn lemma_layout(&self) {
    }

    fn get_bit_pos(&self, biti: usize) -> (r: TileRelativeBitPos) {
        TileRelativeBitPos {
            y: top_ip_row(self.i),
            x: if self.i < 6 {
                9 + biti as u8
            } else {
                20 - biti as u8
            },
        }
    }
}

/// The block of bits of one left/right hard IP 13-input mux: the cell `(x, y)` of bit `biti`
pub open spec fn spec_lr_ip13_cell(biti: int) -> (int, int) {
    if biti == 0 {
        (4, 0)
    } else if biti == 1 {
        (4, 1)
    } else if biti == 2 {
        (3, 0)
    } else if biti == 3 {
        (3, 1)
    } else if biti == 4 {
        (2, 0)
    } else if biti == 5 {
        (2, 1)
    } else if biti == 6 {
        (1, 0)
    } else if biti == 7 {
        (1, 1)
    } else {
        (0, 0)
    }
}

fn lr_ip13_cell(biti: usize) -> (r: (u8, u8))
    requires
        biti < 9,
    ensures
        r.0 == spec_lr_ip13_cell(biti as int).0,
        r.1 == spec_lr_ip13_cell(biti as int).1,
{
    match biti {
        0 => (4, 0),
        1 => (4, 1),
        2 => (3, 0),
        3 => (3, 1),
        4 => (2, 0),
        5 => (2, 1),
        6 => (1, 0),
        7 => (1, 1),
        _ => (0, 0),
    }
}

proof fn lemma_lr_ip13_cell()
    ensures
        forall|i: int| 0 <= i < 9 ==> 0 <= (#[trigger] spec_lr_ip13_cell(i)).0 <= 4 && 0 <= spec_lr_ip13_cell(i).1 <= 1,
        forall|i: int, j: int| 0 <= i < j < 9 ==> #[trigger] spec_lr_ip13_cell(i) != #[trigger] spec_lr_ip13_cell(j),
{
    assert forall|i: int, j: int| 0 <= i < j < 9 implies #[trigger] spec_lr_ip13_cell(i) != #[trigger] spec_lr_ip13_cell(j) by {
        if i == 0 {
        } else if i == 1 {
        } else if i == 2 {
        } else if i == 3 {
        } else if i == 4 {
        } else if i == 5 {
        } else if i == 6 {
        } else if i == 7 {
        } else if i == 8 {
        }
    }
}

/// The block of bits of one left/right hard IP 17-input mux: the cell `(x, y)` of bit `biti`
pub open spec fn spec_lr_ip17_cell(biti: int) -> (int, int) {
    if biti == 0 {
        (4, 2)
    } else if biti == 1 {
        (4, 0)
    } else if biti == 2 {
        (3, 2)
    } else if biti == 3 {
        (3, 0)
    } else if biti == 4 {
        (0, 2)
    } else if biti == 5 {
        (2, 2)
    } else if biti == 6 {
        (2, 0)
    } else if biti == 7 {
        (1, 0)
    } else if biti == 8 {
        (1, 2)
    } else {
        (0, 0)
    }
}

fn lr_ip17_cell(biti: usize) -> (r: (u8, u8))
    requires
        biti < 10,
    ensures
        r.0 == spec_lr_ip17_cell(biti as int).0,
        r.1 == spec_lr_ip17_cell(biti as int).1,
{
    match biti {
        0 => (4, 2),
        1 => (4, 0),
        2 => (3, 2),
        3 => (3, 0),
        4 => (0, 2),
        5 => (2, 2),
        6 => (2, 0),
        7 => (1, 0),
        8 => (1, 2),
        _ => (0, 0),
    }
}

proof fn lemma_lr_ip17_cell()
    ensures
        forall|i: int| 0 <= i < 10 ==> 0 <= (#[trigger] spec_lr_ip17_cell(i)).0 <= 4 && 0 <= spec_lr_ip17_cell(i).1 <= 2,
        forall|i: int, j: int| 0 <= i < j < 10 ==> #[trigger] spec_lr_ip17_cell(i) != #[trigger] spec_lr_ip17_cell(j),
{
    assert forall|i: int, j: int| 0 <= i < j < 10 implies #[trigger] spec_lr_ip17_cell(i) != #[trigger] spec_lr_ip17_cell(j) by {
        if i == 0 {
        } else if i == 1 {
        } else if i == 2 {
        } else if i == 3 {
        } else if i == 4 {
        } else if i == 5 {
        } else if i == 6 {
        } else if i == 7 {
        } else if i == 8 {
        } else if i == 9 {
        }
    }
}

/// Where the bits of left/right hard IP 13-input mux `i` sit (the last two after the
/// mid-tile gap)
pub struct LeftRightIPToExtMux13 {
    pub i: u8,
}

impl FieldPositionCalculator for LeftRightIPToExtMux13 {
    open spec fn spec_valid(&self) -> bool {
        self.i < 12
    }

    open spec fn spec_nbits(&self) -> nat {
        9
    }

    open spec fn spec_bit_pos(&self, biti: int) -> TileRelativeBitPos {
        let (dx, dy) = spec_lr_ip13_cell(biti);
        TileRelativeBitPos {
            y: (12 + self.i * 2 + dy + if self.i >= 10 { 4int } else { 0 }) as u8,
            x: (9 + dx) as u8,
        }
    }

    open spec fn spec_width(&self) -> int {
        14
    }

    open spec fn spec_height(&self) -> int {
        40
    }

    proof fn lemma_layout(&self) {
        lemma_lr_ip13_cell();
    }

    fn get_bit_pos(&self, biti: usize) -> (r: TileRelativeBitPos) {
        proof {
            lemma_lr_ip13_cell();
        }
        let (dx, dy) = lr_ip13_cell(biti);
        let mut y = 12 + self.i * 2 + dy;
        if self.i >= 10 {
            y = y + 4;
        }
        TileRelativeBitPos { y, x: 9 + dx }
    }
}

/// Where the bits of left/right hard IP 17-input mux `i` sit
///
/// Even and odd instances alternate being mirrored vertically.
pub struct LeftRightIPToExtMux17 {
    pub i: u8,
}

impl FieldPositionCalculator for LeftRightIPToExtMux17 {
    open spec fn spec_valid(&self) -> bool {
        self.i < 8
    }

    open spec fn spec_nbits(&self) -> nat {
        10
    }

    open spec fn spec_bit_pos(&self, biti: int) -> TileRelativeBitPos {
        let (dx, ybase) = spec_lr_ip17_cell(biti);
        let y = if self.i % 2 == 0 {
            40 + (self.i / 2) * 6 + ybase
        } else {
            45 + (self.i / 2) * 6 - ybase
        };
        TileRelativeBitPos { y: y as u8, x: (9 + dx) as u8 }
    }

    open spec fn spec_width(&self) -> int {
        14
    }

    open spec fn spec_height(&self) -> int {
        64
    }

    proof fn lemma_layout(&self) {
        lemma_lr_ip17_cell();
    }

    fn get_bit_pos(&self, biti: usize) -> (r: TileRelativeBitPos) {
        proof {
            lemma_lr_ip17_cell();
        }
        let (dx, ybase) = lr_ip17_cell(biti);
        let y = if self.i % 2 == 0 {
            40 + (self.i / 2) * 6 + ybase
        } else {
            45 + (self.i / 2) * 6 - ybase
        };
        TileRelativeBitPos { y, x: 9 + dx }
    }
}

/// The row of left/right hard IP global-to-local mux `i`: the first 10 in a regular
/// pattern, the others scattered around
pub open spec fn spec_lr_ip_g2l_row(i: u8) -> u8 {
    if i <= 9 {
        (12 + i * 2) as u8
    } else if i == 10 {
        36
    } else if i == 11 {
        38
    } else if i == 12 {
        40
    } else if i == 13 {
        45
    } else if i == 14 {
        46
    } else if i == 15 {
        51
    } else if i == 16 {
        52
    } else if i == 17 {
        57
    } else if i == 18 {
        58
    } else {
        63
    }
}

fn lr_ip_g2l_row(i: u8) -> (r: u8)
    requires
        i < 20,
    ensures
        r == spec_lr_ip_g2l_row(i),
{
    if i <= 9 {
        12 + i * 2
    } else if i == 10 {
        36
    } else if i == 11 {
        38
    } else if i == 12 {
        40
    } else if i == 13 {
        45
    } else if i == 14 {
        46
    } else if i == 15 {
        51
    } else if i == 16 {
        52
    } else if i == 17 {
        57
    } else if i == 18 {
        58
    } else {
        63
    }
}

/// Where the bits of left/right hard IP global-to-local mux `i` sit
pub struct LeftRightIPGlobal2Local {
    pub i: u8,
}

impl FieldPositionCalculator for LeftRightIPGlobal2Local {
    open spec fn spec_valid(&self) -> bool {
        self.i < 20
    }

    open spec fn spec_nbits(&self) -> nat {
        6
    }

    open spec fn spec_bit_pos(&self, biti: int) -> TileRelativeBitPos {
        TileRelativeBitPos { y: spec_lr_ip_g2l_row(self.i), x: (19 - biti) as u8 }
    }

    open spec fn spec_width(&self) -> int {
        20
    }

    open spec fn spec_height(&self) -> int {
        64
    }

    proof fn lemma_layout(&self) {
    }

    fn get_bit_pos(&self, biti: usize) -> (r: TileRelativeBitPos) {
        TileRelativeBitPos { y: lr_ip_g2l_row(self.i), x: 19 - biti as u8 }
    }
}

/// Access to a top hard IP tile
#[derive(Clone, Copy, PartialEq, Eq, Debug, Hash, Structural)]
pub struct TopIPTileRef {
    pub family: Family,
    pub p: TilePos,
}

impl TopIPTileRef {
    /// Can this handle be used to access this bitstream?
    pub open spec fn spec_attached(self, v: BitstreamView) -> bool {
        &&& v.logic_ready()
        &&& v.family == self.family
        &&& spec_tile_type(self.family, self.p) == TileType::TopIP
    }
}

impl TileRefTrait for TopIPTileRef {
    open spec fn spec_family(&self) -> Family {
        self.family
    }

    open spec fn spec_pos(&self) -> TilePos {
        self.p
    }

    open spec fn spec_tile_type(&self) -> TileType {
        TileType::TopIP
    }

    fn family(&self) -> (r: Family) {
        self.family
    }

    fn tile_type(&self) -> (r: TileType) {
        TileType::TopIP
    }

    fn pos(&self) -> (r: TilePos) {
        self.p
    }

    fn as_base_tile(self) -> (r: TileRef) {
        TileRef { family: self.family, p: self.p }
    }
}

impl TopIPTileRef {
    pub fn to_ip(&self, b: &Bitstream, idx: u8) -> (r: Mux13Inv)
        requires
            self.spec_attached(b@),
            idx < 12,
            Mux13Inv::spec_from_bits(spec_read_field(b@, self.p, (TopIPToExtMux { i: idx }), 9)) is Some,
        ensures
            Some(r) == Mux13Inv::spec_from_bits(spec_read_field(b@, self.p, (TopIPToExtMux { i: idx }), 9)),
    {
        let fp = TopIPToExtMux { i: idx };
        proof {
            lemma_field_fits(b@.family, self.p, fp, 9);
        }
        let bits = read_field(b, self.p, &fp, 9);
        Mux13Inv::from_bits(bits)
    }


    /// Write the field read by [`to_ip`](Self::to_ip)
    pub fn set_to_ip(&self, b: &mut Bitstream, idx: u8, val: Mux13Inv)
        requires
            self.spec_attached(old(b)@),
            idx < 12,
            val.spec_valid(),
        ensures
            final(b)@ == spec_write_value(old(b)@, self.p, (TopIPToExtMux { i: idx }), 9, val.spec_to_bits()),
            self.spec_attached(final(b)@),
            spec_same_aux(old(b)@, final(b)@),
    {
        let fp = TopIPToExtMux { i: idx };
        proof {
            lemma_field_fits(b@.family, self.p, fp, 9);
        }
        write_field(b, self.p, &fp, 9, val.to_bits());
    }

    pub fn from_ip(&self, b: &Bitstream, idx: u8) -> (r: Mux2)
        requires
            self.spec_attached(b@),
            idx < 12,
            Mux2::spec_from_bits(spec_read_field(b@, self.p, (TopIPFromExtMux { i: idx }), 1)) is Some,
        ensures
            Some(r) == Mux2::spec_from_bits(spec_read_field(b@, self.p, (TopIPFromExtMux { i: idx }), 1)),
    {
        let fp = TopIPFromExtMux { i: idx };
        proof {
            lemma_field_fits(b@.family, self.p, fp, 1);
        }
        let bits = read_field(b, self.p, &fp, 1);
        Mux2::from_bits(bits)
    }


    /// Write the field read by [`from_ip`](Self::from_ip)
    pub fn set_from_ip(&self, b: &mut Bitstream, idx: u8, val: Mux2)
        requires
            self.spec_attached(old(b)@),
            idx < 12,
        ensures
            final(b)@ == spec_write_value(old(b)@, self.p, (TopIPFromExtMux { i: idx }), 1, val.spec_to_bits()),
            self.spec_attached(final(b)@),
            spec_same_aux(old(b)@, final(b)@),
    {
        let fp = TopIPFromExtMux { i: idx };
        proof {
            lemma_field_fits(b@.family, self.p, fp, 1);
        }
        write_field(b, self.p, &fp, 1, val.to_bits());
    }

    pub fn global_to_local(&self, b: &Bitstream, idx: u8) -> (r: GlobalToLocalMux)
        requires
            self.spec_attached(b@),
            idx < 12,
            GlobalToLocalMux::spec_from_bits(spec_read_field(b@, self.p, (TopIPGlobal2Local { i: idx }), 6)) is Some,
        ensures
            Some(r) == GlobalToLocalMux::spec_from_bits(spec_read_field(b@, self.p, (TopIPGlobal2Local { i: idx }), 6)),
    {
        let fp = TopIPGlobal2Local { i: idx };
        proof {
            lemma_field_fits(b@.family, self.p, fp, 6);
        }
        let bits = read_field(b, self.p, &fp, 6);
        GlobalToLocalMux::from_bits(bits)
    }


    /// Write the field read by [`global_to_local`](Self::global_to_local)
    pub fn set_global_to_local(&self, b: &mut Bitstream, idx: u8, val: GlobalToLocalMux)
        requires
            self.spec_attached(old(b)@),
            idx < 12,
            val.spec_valid(),
        ensures
            final(b)@ == spec_write_value(old(b)@, self.p, (TopIPGlobal2Local { i: idx }), 6, val.spec_to_bits()),
            self.spec_attached(final(b)@),
            spec_same_aux(old(b)@, final(b)@),
    {
        let fp = TopIPGlobal2Local { i: idx };
        proof {
            lemma_field_fits(b@.family, self.p, fp, 6);
        }
        write_field(b, self.p, &fp, 6, val.to_bits());
    }
}

/// Access to a left/right hard IP tile
#[derive(Clone, Copy, PartialEq, Eq, Debug, Hash, Structural)]
pub struct LeftRightIPTileRef {
    pub family: Family,
    pub p: TilePos,
}

impl LeftRightIPTileRef {
    /// Can this handle be used to access this bitstream?
    pub open spec fn spec_attached(self, v: BitstreamView) -> bool {
        &&& v.logic_ready()
        &&& v.family == self.family
        &&& spec_tile_type(self.family, self.p) == TileType::LeftRightIP
    }
}

impl TileRefTrait for LeftRightIPTileRef {
    open spec fn spec_family(&self) -> Family {
        self.family
    }

    open spec fn spec_pos(&self) -> TilePos {
        self.p
    }

    open spec fn spec_tile_type(&self) -> TileType {
        TileType::LeftRightIP
    }

    fn family(&self) -> (r: Family) {
        self.family
    }

    fn tile_type(&self) -> (r: TileType) {
        TileType::LeftRightIP
    }

    fn pos(&self) -> (r: TilePos) {
        self.p
    }

    fn as_base_tile(self) -> (r: TileRef) {
        TileRef { family: self.family, p: self.p }
    }
}

impl LeftRightIPTileRef {
    pub fn to_ip_13(&self, b: &Bitstream, idx: u8) -> (r: Mux13Inv)
        requires
            self.spec_attached(b@),
            idx < 12,
            Mux13Inv::spec_from_bits(spec_read_field(b@, self.p, (LeftRightIPToExtMux13 { i: idx }), 9)) is Some,
        ensures
            Some(r) == Mux13Inv::spec_from_bits(spec_read_field(b@, self.p, (LeftRightIPToExtMux13 { i: idx }), 9)),
    {
        let fp = LeftRightIPToExtMux13 { i: idx };
        proof {
            lemma_field_fits(b@.family, self.p, fp, 9);
        }
        let bits = read_field(b, self.p, &fp, 9);
        Mux13Inv::from_bits(bits)
    }


    /// Write the field read by [`to_ip_13`](Self::to_ip_13)
    pub fn set_to_ip_13(&self, b: &mut Bitstream, idx: u8, val: Mux13Inv)
        requires
            self.spec_attached(old(b)@),
            idx < 12,
            val.spec_valid(),
        ensures
            final(b)@ == spec_write_value(old(b)@, self.p, (LeftRightIPToExtMux13 { i: idx }), 9, val.spec_to_bits()),
            self.spec_attached(final(b)@),
            spec_same_aux(old(b)@, final(b)@),
    {
        let fp = LeftRightIPToExtMux13 { i: idx };
        proof {
            lemma_field_fits(b@.family, self.p, fp, 9);
        }
        write_field(b, self.p, &fp, 9, val.to_bits());
    }

    pub fn to_ip_17(&self, b: &Bitstream, idx: u8) -> (r: Mux17InvGeneric)
        requires
            self.spec_attached(b@),
            idx < 8,
            Mux17InvGeneric::spec_from_bits(spec_read_field(b@, self.p, (LeftRightIPToExtMux17 { i: idx }), 10), false) is Some,
        ensures
            Some(r) == Mux17InvGeneric::spec_from_bits(spec_read_field(b@, self.p, (LeftRightIPToExtMux17 { i: idx }), 10), false),
    {
        let fp = LeftRightIPToExtMux17 { i: idx };
        proof {
            lemma_field_fits(b@.family, self.p, fp, 10);
        }
        let bits = read_field(b, self.p, &fp, 10);
        Mux17InvGeneric::from_bits(bits, false)
    }


    /// Write the field read by [`to_ip_17`](Self::to_ip_17)
    pub fn set_to_ip_17(&self, b: &mut Bitstream, idx: u8, val: Mux17InvGeneric)
        requires
            self.spec_attached(old(b)@),
            idx < 8,
            val.spec_valid(),
        ensures
            final(b)@ == spec_write_value(old(b)@, self.p, (LeftRightIPToExtMux17 { i: idx }), 10, val.spec_to_bits(false)),
            self.spec_attached(final(b)@),
            spec_same_aux(old(b)@, final(b)@),
    {
        let fp = LeftRightIPToExtMux17 { i: idx };
        proof {
            lemma_field_fits(b@.family, self.p, fp, 10);
        }
        write_field(b, self.p, &fp, 10, val.to_bits(false));
    }

    pub fn from_ip(&self, b: &Bitstream, idx: u8) -> (r: Mux2)
        requires
            self.spec_attached(b@),
            idx < 12,
            Mux2::spec_from_bits(spec_read_field(b@, self.p, (BitAt { x: 12, y: idx }), 1)) is Some,
        ensures
            Some(r) == Mux2::spec_from_bits(spec_read_field(b@, self.p, (BitAt { x: 12, y: idx }), 1)),
    {
        let fp = BitAt { x: 12, y: idx };
        proof {
            lemma_field_fits(b@.family, self.p, fp, 1);
        }
        let bits = read_field(b, self.p, &fp, 1);
        Mux2::from_bits(bits)
    }


    /// Write the field read by [`from_ip`](Self::from_ip)
    pub fn set_from_ip(&self, b: &mut Bitstream, idx: u8, val: Mux2)
        requires
            self.spec_attached(old(b)@),
            idx < 12,
        ensures
            final(b)@ == spec_write_value(old(b)@, self.p, (BitAt { x: 12, y: idx }), 1, val.spec_to_bits()),
            self.spec_attached(final(b)@),
            spec_same_aux(old(b)@, final(b)@),
    {
        let fp = BitAt { x: 12, y: idx };
        proof {
            lemma_field_fits(b@.family, self.p, fp, 1);
        }
        write_field(b, self.p, &fp, 1, val.to_bits());
    }

    pub fn global_to_local(&self, b: &Bitstream, idx: u8) -> (r: GlobalToLocalMux)
        requires
            self.spec_attached(b@),
            idx < 20,
            GlobalToLocalMux::spec_from_bits(spec_read_field(b@, self.p, (LeftRightIPGlobal2Local { i: idx }), 6)) is Some,
        ensures
            Some(r) == GlobalToLocalMux::spec_from_bits(spec_read_field(b@, self.p, (LeftRightIPGlobal2Local { i: idx }), 6)),
    {
        let fp = LeftRightIPGlobal2Local { i: idx };
        proof {
            lemma_field_fits(b@.family, self.p, fp, 6);
        }
        let bits = read_field(b, self.p, &fp, 6);
        GlobalToLocalMux::from_bits(bits)
    }


    /// Write the field read by [`global_to_local`](Self::global_to_local)
    pub fn set_global_to_local(&self, b: &mut Bitstream, idx: u8, val: GlobalToLocalMux)
        requires
            self.spec_attached(old(b)@),
            idx < 20,
            val.spec_valid(),
        ensures
            final(b)@ == spec_write_value(old(b)@, self.p, (LeftRightIPGlobal2Local { i: idx }), 6, val.spec_to_bits()),
            self.spec_attached(final(b)@),
            spec_same_aux(old(b)@, final(b)@),
    {
        let fp = LeftRightIPGlobal2Local { i: idx };
        proof {
            lemma_field_fits(b@.family, self.p, fp, 6);
        }
        write_field(b, self.p, &fp, 6, val.to_bits());
    }
}

} // verus!
