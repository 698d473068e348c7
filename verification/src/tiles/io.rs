//! I/O tiles
//!
//! Each IO tile drives a few IOs (4 in a top/bottom IO tile, 6 in a left/right one).
//! Signals come from the interconnect through local lines, and from global wires
//! through global-to-local muxes. Local-to-IO muxes then select (and optionally invert)
//! each IO's signals: data out, output enable, clock enables, and clears.

use vstd::prelude::*;

use crate::bitmux::{
    lemma_shift_table, lemma_twohot_roundtrip, lemma_twohot_shape, spec_twohot, spec_twohot_decode,
    twohot_bits, twohot_decode,
};
use crate::bitfield::{lemma_bits_value_one, lemma_fits_bits_iff_lt};
use crate::chips::{spec_tile_type, Family};
use crate::container::{spec_same_aux, Bitstream, BitstreamView};
use crate::coordinates::{TilePos, TileRelativeBitPos};
use crate::field::{
    lemma_field_fits, lemma_write_read_value, read_field, spec_read_field, spec_write_value,
    write_field, BitAt, FieldPositionCalculator,
};
use crate::tiles::logic::OMUX;
use crate::tiles::{GlobalToLocalMux, TileRef, TileRefTrait, TileType};

verus! {

/// A top/bottom IO local line mux: unprogrammed, or one of 7 inputs
#[derive(Clone, Copy, PartialEq, Eq, Debug, Hash, Structural)]
pub enum TopBottomIOLocalMux {
    /// Not programmed
    Unset,
    /// Input `i`
    I(u8),
}

impl TopBottomIOLocalMux {
    /// The setting held by the bits of the field, if they hold a valid one
    pub open spec fn spec_from_bits(bits: u32) -> Option<TopBottomIOLocalMux> {
        if bits == 0 {
            Some(TopBottomIOLocalMux::Unset)
        } else if bits == 32 {
            Some(TopBottomIOLocalMux::I(6))
        } else {
            match spec_twohot_decode(2, 3, bits) {
                Some(v) => Some(TopBottomIOLocalMux::I(v as u8)),
                None => None,
            }
        }
    }

    /// Can this setting be written?
    pub open spec fn spec_valid(self) -> bool {
        match self {
            TopBottomIOLocalMux::Unset => true,
            TopBottomIOLocalMux::I(i) => i < 6 || i == 6,
        }
    }

    /// The bits that hold this setting
    pub open spec fn spec_to_bits(self) -> u32 {
        match self {
            TopBottomIOLocalMux::Unset => 0,
            TopBottomIOLocalMux::I(i) => if i == 6 {
                32
            } else {
                spec_twohot(3, i as u32)
            },
        }
    }

    /// Decode the bits of the field, which hold a setting
    pub fn from_bits(bits: u32) -> (r: TopBottomIOLocalMux)
        requires
            TopBottomIOLocalMux::spec_from_bits(bits) is Some,
        ensures
            Some(r) == TopBottomIOLocalMux::spec_from_bits(bits),
    {
        if bits == 0 {
            return TopBottomIOLocalMux::Unset;
        }
        if bits == 32 {
            return TopBottomIOLocalMux::I(6);
        }
        match twohot_decode(2, 3, bits) {
            Some(v) => TopBottomIOLocalMux::I(v as u8),
            // not reached: the bits hold a setting
            None => TopBottomIOLocalMux::Unset,
        }
    }

    /// Encode the setting into the bits of the field
    pub fn to_bits(self) -> (r: u32)
        requires
            self.spec_valid(),
        ensures
            r == self.spec_to_bits(),
    {
        match self {
            TopBottomIOLocalMux::Unset => 0,
            TopBottomIOLocalMux::I(i) => {
                if i == 6 {
                    32
                } else {
                    twohot_bits(2, 3, i as u32)
                }
            },
        }
    }
}

impl Default for TopBottomIOLocalMux {
    fn default() -> (r: Self)
        ensures
            r == TopBottomIOLocalMux::Unset,
    {
        TopBottomIOLocalMux::Unset
    }
}

/// Decoding the bits of a valid `TopBottomIOLocalMux` gives it back, and the bits fit in 6 bits.
pub proof fn lemma_top_bottom_io_local_mux_roundtrip(x: TopBottomIOLocalMux)
    requires
        x.spec_valid(),
    ensures
        TopBottomIOLocalMux::spec_from_bits(x.spec_to_bits()) == Some(x),
        x.spec_to_bits() < 64,
{
    lemma_shift_table();
    match x {
        TopBottomIOLocalMux::Unset => {},
        TopBottomIOLocalMux::I(i) => {
            if i != 6 {
                    lemma_twohot_roundtrip(2, 3, i as u32);
                    lemma_twohot_shape(2, 3, i as u32, 5);
            }
        },
    }
}
/// A left/right IO local line mux: unprogrammed, or one of 9 inputs
#[derive(Clone, Copy, PartialEq, Eq, Debug, Hash, Structural)]
pub enum LeftRightIOLocalMux {
    /// Not programmed
    Unset,
    /// Input `i`
    I(u8),
}

impl LeftRightIOLocalMux {
    /// The setting held by the bits of the field, if they hold a valid one
    pub open spec fn spec_from_bits(bits: u32) -> Option<LeftRightIOLocalMux> {
        if bits == 0 {
            Some(LeftRightIOLocalMux::Unset)
        } else if bits == 64 {
            Some(LeftRightIOLocalMux::I(8))
        } else {
            match spec_twohot_decode(2, 4, bits) {
                Some(v) => Some(LeftRightIOLocalMux::I(v as u8)),
                None => None,
            }
        }
    }

    /// Can this setting be written?
    pub open spec fn spec_valid(self) -> bool {
        match self {
            LeftRightIOLocalMux::Unset => true,
            LeftRightIOLocalMux::I(i) => i < 8 || i == 8,
        }
    }

    /// The bits that hold this setting
    pub open spec fn spec_to_bits(self) -> u32 {
        match self {
            LeftRightIOLocalMux::Unset => 0,
            LeftRightIOLocalMux::I(i) => if i == 8 {
                64
            } else {
                spec_twohot(4, i as u32)
            },
        }
    }

    /// Decode the bits of the field, which hold a setting
    pub fn from_bits(bits: u32) -> (r: LeftRightIOLocalMux)
        requires
            LeftRightIOLocalMux::spec_from_bits(bits) is Some,
        ensures
            Some(r) == LeftRightIOLocalMux::spec_from_bits(bits),
    {
        if bits == 0 {
            return LeftRightIOLocalMux::Unset;
        }
        if bits == 64 {
            return LeftRightIOLocalMux::I(8);
        }
        match twohot_decode(2, 4, bits) {
            Some(v) => LeftRightIOLocalMux::I(v as u8),
            // not reached: the bits hold a setting
            None => LeftRightIOLocalMux::Unset,
        }
    }

    /// Encode the setting into the bits of the field
    pub fn to_bits(self) -> (r: u32)
        requires
            self.spec_valid(),
        ensures
            r == self.spec_to_bits(),
    {
        match self {
            LeftRightIOLocalMux::Unset => 0,
            LeftRightIOLocalMux::I(i) => {
                if i == 8 {
                    64
                } else {
                    twohot_bits(2, 4, i as u32)
                }
            },
        }
    }
}

impl Default for LeftRightIOLocalMux {
    fn default() -> (r: Self)
        ensures
            r == LeftRightIOLocalMux::Unset,
    {
        LeftRightIOLocalMux::Unset
    }
}

/// Decoding the bits of a valid `LeftRightIOLocalMux` gives it back, and the bits fit in 7 bits.
pub proof fn lemma_left_right_io_local_mux_roundtrip(x: LeftRightIOLocalMux)
    requires
        x.spec_valid(),
    ensures
        LeftRightIOLocalMux::spec_from_bits(x.spec_to_bits()) == Some(x),
        x.spec_to_bits() < 128,
{
    lemma_shift_table();
    match x {
        LeftRightIOLocalMux::Unset => {},
        LeftRightIOLocalMux::I(i) => {
            if i != 8 {
                    lemma_twohot_roundtrip(2, 4, i as u32);
                    lemma_twohot_shape(2, 4, i as u32, 6);
            }
        },
    }
}
/// A mux from local lines to an IO clock: unprogrammed, or one of 8 inputs
#[derive(Clone, Copy, PartialEq, Eq, Debug, Hash, Structural)]
pub enum IOLocalToClockMux {
    /// Not programmed
    Unset,
    /// Input `i`
    I(u8),
}

impl IOLocalToClockMux {
    /// The setting held by the bits of the field, if they hold a valid one
    pub open spec fn spec_from_bits(bits: u32) -> Option<IOLocalToClockMux> {
        if bits == 0 {
            Some(IOLocalToClockMux::Unset)
        } else {
            match spec_twohot_decode(2, 4, bits) {
                Some(v) => Some(IOLocalToClockMux::I(v as u8)),
                None => None,
            }
        }
    }

    /// Can this setting be written?
    pub open spec fn spec_valid(self) -> bool {
        match self {
            IOLocalToClockMux::Unset => true,
            IOLocalToClockMux::I(i) => i < 8,
        }
    }

    /// The bits that hold this setting
    pub open spec fn spec_to_bits(self) -> u32 {
        match self {
            IOLocalToClockMux::Unset => 0,
            IOLocalToClockMux::I(i) => spec_twohot(4, i as u32),
        }
    }

    /// Decode the bits of the field, which hold a setting
    pub fn from_bits(bits: u32) -> (r: IOLocalToClockMux)
        requires
            IOLocalToClockMux::spec_from_bits(bits) is Some,
        ensures
            Some(r) == IOLocalToClockMux::spec_from_bits(bits),
    {
        if bits == 0 {
            return IOLocalToClockMux::Unset;
        }
        match twohot_decode(2, 4, bits) {
            Some(v) => IOLocalToClockMux::I(v as u8),
            // not reached: the bits hold a setting
            None => IOLocalToClockMux::Unset,
        }
    }

    /// Encode the setting into the bits of the field
    pub fn to_bits(self) -> (r: u32)
        requires
            self.spec_valid(),
        ensures
            r == self.spec_to_bits(),
    {
        match self {
            IOLocalToClockMux::Unset => 0,
            IOLocalToClockMux::I(i) => {
                twohot_bits(2, 4, i as u32)
            },
        }
    }
}

impl Default for IOLocalToClockMux {
    fn default() -> (r: Self)
        ensures
            r == IOLocalToClockMux::Unset,
    {
        IOLocalToClockMux::Unset
    }
}

/// Decoding the bits of a valid `IOLocalToClockMux` gives it back, and the bits fit in 6 bits.
pub proof fn lemma_io_local_to_clock_mux_roundtrip(x: IOLocalToClockMux)
    requires
        x.spec_valid(),
    ensures
        IOLocalToClockMux::spec_from_bits(x.spec_to_bits()) == Some(x),
        x.spec_to_bits() < 64,
{
    lemma_shift_table();
    match x {
        IOLocalToClockMux::Unset => {},
        IOLocalToClockMux::I(i) => {
                lemma_twohot_roundtrip(2, 4, i as u32);
                lemma_twohot_shape(2, 4, i as u32, 0);
        },
    }
}
/// A mux from local lines to an IO signal, with an optional invert
#[derive(Clone, Copy, PartialEq, Eq, Debug, Hash, Structural)]
pub enum LocalToIOMux {
    /// Constant 1
    VCC,
    /// Constant 0
    GND,
    /// Choice `i`, optionally inverted
    I { invert: bool, i: u8 },
}

impl LocalToIOMux {
    /// The setting held by the bits of the field, if they hold a valid one
    pub open spec fn spec_from_bits(bits: u32) -> Option<Self> {
        let invert = (bits / 64) % 2 == 1;
        let low = bits % 64;
        if low == 0 {
            if invert {
                Some(Self::GND)
            } else {
                Some(Self::VCC)
            }
        } else {
            match spec_twohot_decode(2, 4, low) {
                Some(v) => Some(Self::I { invert, i: v as u8 }),
                None => None,
            }
        }
    }

    /// Can this setting be written?
    pub open spec fn spec_valid(self) -> bool {
        match self {
            Self::I { i, .. } => i < 8,
            _ => true,
        }
    }

    /// The bits of the choice, without the invert bit
    pub open spec fn spec_choice_bits(i: u8) -> u32 {
        spec_twohot(4, i as u32)
    }

    /// The bits that hold this setting
    pub open spec fn spec_to_bits(self) -> u32 {
        match self {
            Self::VCC => 0,
            Self::GND => 64,
            Self::I { invert, i } => if invert {
                (Self::spec_choice_bits(i) + 64) as u32
            } else {
                Self::spec_choice_bits(i)
            },
        }
    }

    /// Decode the bits of the field, which hold a setting
    pub fn from_bits(bits: u32) -> (r: Self)
        requires
            Self::spec_from_bits(bits) is Some,
        ensures
            Some(r) == Self::spec_from_bits(bits),
    {
        let invert = (bits / 64) % 2 == 1;
        let low = bits % 64;
        if low == 0 {
            if invert {
                return Self::GND;
            } else {
                return Self::VCC;
            }
        }
        match twohot_decode(2, 4, low) {
            Some(v) => Self::I { invert, i: v as u8 },
            // not reached: the bits hold a setting
            None => Self::VCC,
        }
    }

    /// Encode the setting into the bits of the field
    pub fn to_bits(self) -> (r: u32)
        requires
            self.spec_valid(),
        ensures
            r == self.spec_to_bits(),
    {
        match self {
            Self::VCC => 0,
            Self::GND => 64,
            Self::I { invert, i } => {
                let choice = twohot_bits(2, 4, i as u32);
                proof {
                    lemma_shift_table();
                    if i < 8 {
                        lemma_twohot_shape(2, 4, i as u32, 0);
                    }
                }
                if invert {
                    choice + 64
                } else {
                    choice
                }
            },
        }
    }
}

impl Default for LocalToIOMux {
    fn default() -> (r: Self)
        ensures
            r == Self::VCC,
    {
        Self::VCC
    }
}

/// Decoding the bits of a valid `LocalToIOMux` gives it back, and the bits fit in 7 bits.
pub proof fn lemma_local_to_io_mux_roundtrip(x: LocalToIOMux)
    requires
        x.spec_valid(),
    ensures
        LocalToIOMux::spec_from_bits(x.spec_to_bits()) == Some(x),
        x.spec_to_bits() < 128,
{
    lemma_shift_table();
    match x {
        LocalToIOMux::I { invert, i } => {
                lemma_twohot_roundtrip(2, 4, i as u32);
                lemma_twohot_shape(2, 4, i as u32, 0);
        },
        _ => {},
    }
}

/// The clock of an IO
#[derive(Clone, Copy, PartialEq, Eq, Debug, Hash, Structural)]
pub enum IOClockMux {
    /// Constant 1
    VCC,
    /// Constant 0
    GND,
    /// The global-to-local mux, optionally inverted
    ViaGlobalToLocal { invert: bool },
    /// The local-to-clock mux, optionally inverted
    ViaLocalToClock { invert: bool },
}

impl IOClockMux {
    /// The setting held by the bits of the field, if valid
    pub open spec fn spec_from_bits(bits: u32) -> Option<IOClockMux> {
        let invert = (bits / 4) % 2 == 1;
        let low = bits % 4;
        if low == 1 {
            Some(IOClockMux::ViaLocalToClock { invert })
        } else if low == 2 {
            Some(IOClockMux::ViaGlobalToLocal { invert })
        } else if low == 0 {
            if invert {
                Some(IOClockMux::GND)
            } else {
                Some(IOClockMux::VCC)
            }
        } else {
            None
        }
    }

    /// The bits that hold this setting
    pub open spec fn spec_to_bits(self) -> u32 {
        match self {
            IOClockMux::VCC => 0,
            IOClockMux::GND => 4,
            IOClockMux::ViaLocalToClock { invert } => if invert {
                5
            } else {
                1
            },
            IOClockMux::ViaGlobalToLocal { invert } => if invert {
                6
            } else {
                2
            },
        }
    }

    /// Decode the bits of the field, which hold a setting
    pub fn from_bits(bits: u32) -> (r: IOClockMux)
        requires
            IOClockMux::spec_from_bits(bits) is Some,
        ensures
            Some(r) == IOClockMux::spec_from_bits(bits),
    {
        let invert = (bits / 4) % 2 == 1;
        let low = bits % 4;
        if low == 1 {
            IOClockMux::ViaLocalToClock { invert }
        } else if low == 2 {
            IOClockMux::ViaGlobalToLocal { invert }
        } else if invert {
            IOClockMux::GND
        } else {
            IOClockMux::VCC
        }
    }

    /// Encode the setting into the bits of the field
    pub fn to_bits(self) -> (r: u32)
        ensures
            r == self.spec_to_bits(),
    {
        match self {
            IOClockMux::VCC => 0,
            IOClockMux::GND => 4,
            IOClockMux::ViaLocalToClock { invert } => if invert {
                5
            } else {
                1
            },
            IOClockMux::ViaGlobalToLocal { invert } => if invert {
                6
            } else {
                2
            },
        }
    }
}

impl Default for IOClockMux {
    fn default() -> (r: Self)
        ensures
            r == IOClockMux::VCC,
    {
        IOClockMux::VCC
    }
}

/// Decoding the bits of an `IOClockMux` gives it back, and the bits fit in 3 bits.
pub proof fn lemma_io_clock_mux_roundtrip(x: IOClockMux)
    ensures
        IOClockMux::spec_from_bits(x.spec_to_bits()) == Some(x),
        x.spec_to_bits() < 8,
{
}

/// The block of bits of one top/bottom IO local line mux: the cell `(x, y)` of bit `biti`
pub open spec fn spec_tb_local_line_cell(biti: int) -> (int, int) {
    if biti == 0 {
        (2, 0)
    } else if biti == 1 {
        (2, 1)
    } else if biti == 2 {
        (1, 0)
    } else if biti == 3 {
        (0, 0)
    } else if biti == 4 {
        (1, 1)
    } else {
        (0, 1)
    }
}

fn tb_local_line_cell(biti: usize) -> (r: (u8, u8))
    requires
        biti < 6,
    ensures
        r.0 == spec_tb_local_line_cell(biti as int).0,
        r.1 == spec_tb_local_line_cell(biti as int).1,
{
    match biti {
        0 => (2, 0),
        1 => (2, 1),
        2 => (1, 0),
        3 => (0, 0),
        4 => (1, 1),
        _ => (0, 1),
    }
}

proof fn lemma_tb_local_line_cell()
    ensures
        forall|i: int| 0 <= i < 6 ==> 0 <= (#[trigger] spec_tb_local_line_cell(i)).0 <= 2 && 0 <= spec_tb_local_line_cell(i).1 <= 1,
        forall|i: int, j: int| 0 <= i < j < 6 ==> #[trigger] spec_tb_local_line_cell(i) != #[trigger] spec_tb_local_line_cell(j),
{
    assert forall|i: int, j: int| 0 <= i < j < 6 implies #[trigger] spec_tb_local_line_cell(i) != #[trigger] spec_tb_local_line_cell(j) by {
        if i == 0 {
        } else if i == 1 {
        } else if i == 2 {
        } else if i == 3 {
        } else if i == 4 {
        } else if i == 5 {
        }
    }
}


/// The row of top/bottom IO local line mux `w` (of a column of 8): the first 4 count
/// down, the second 4 count *up* (without flipping vertically)
pub open spec fn spec_tb_local_line_row(w: int) -> int {
    if w < 4 {
        2 + 2 * w
    } else {
        20 - 2 * (w - 4)
    }
}

/// Mirror a row of a bottom IO tile
pub open spec fn spec_tb_mirror(is_bottom: bool, y: int) -> int {
    if is_bottom {
        21 - y
    } else {
        y
    }
}

fn tb_mirror(is_bottom: bool, y: u8) -> (r: u8)
    requires
        y <= 21,
    ensures
        r == spec_tb_mirror(is_bottom, y as int),
{
    if is_bottom {
        21 - y
    } else {
        y
    }
}

/// Where the bits of top/bottom IO local line mux `i` sit (4 columns of 8)
pub struct TopBottomIOLocalLine {
    pub is_bottom: bool,
    pub i: u8,
}

impl FieldPositionCalculator for TopBottomIOLocalLine {
    open spec fn spec_valid(&self) -> bool {
        self.i < 32
    }

    open spec fn spec_nbits(&self) -> nat {
        6
    }

    open spec fn spec_bit_pos(&self, biti: int) -> TileRelativeBitPos {
        let col = self.i / 8;
        let w = self.i % 8;
        let (xbase, dy) = spec_tb_local_line_cell(biti);
        // the odd columns are mirrored horizontally, with a 1-column gap between cols 1 and 2
        let x = if col == 0 {
            xbase
        } else if col == 1 {
            5 - xbase
        } else if col == 2 {
            7 + xbase
        } else {
            12 - xbase
        };
        TileRelativeBitPos {
            y: spec_tb_mirror(self.is_bottom, spec_tb_local_line_row(w as int) + dy) as u8,
            x: x as u8,
        }
    }

    open spec fn spec_width(&self) -> int {
        13
    }

    open spec fn spec_height(&self) -> int {
        22
    }

    proof fn lemma_layout(&self) {
        lemma_tb_local_line_cell();
    }

    fn get_bit_pos(&self, biti: usize) -> (r: TileRelativeBitPos) {
        proof {
            lemma_tb_local_line_cell();
        }
        let col = self.i / 8;
        let w = self.i % 8;
        let (xbase, dy) = tb_local_line_cell(biti);
        let x = if col == 0 {
            xbase
        } else if col == 1 {
            5 - xbase
        } else if col == 2 {
            7 + xbase
        } else {
            12 - xbase
        };
        let ybase = if w < 4 {
            2 + 2 * w
        } else {
            20 - 2 * (w - 4)
        };
        TileRelativeBitPos { y: tb_mirror(self.is_bottom, ybase + dy), x }
    }
}

/// The block of bits of one left/right IO local line mux: the cell `(x, y)` of bit `biti`
pub open spec fn spec_lr_local_line_cell(biti: int) -> (int, int) {
    if biti == 0 {
        (0, 0)
    } else if biti == 1 {
        (0, 1)
    } else if biti == 2 {
        (1, 0)
    } else if biti == 3 {
        (1, 1)
    } else if biti == 4 {
        (2, 0)
    } else if biti == 5 {
        (2, 1)
    } else {
        (3, 0)
    }
}

fn lr_local_line_cell(biti: usize) -> (r: (u8, u8))
    requires
        biti < 7,
    ensures
        r.0 == spec_lr_local_line_cell(biti as int).0,
        r.1 == spec_lr_local_line_cell(biti as int).1,
{
    match biti {
        0 => (0, 0),
        1 => (0, 1),
        2 => (1, 0),
        3 => (1, 1),
        4 => (2, 0),
        5 => (2, 1),
        _ => (3, 0),
    }
}

proof fn lemma_lr_local_line_cell()
    ensures
        forall|i: int| 0 <= i < 7 ==> 0 <= (#[trigger] spec_lr_local_line_cell(i)).0 <= 3 && 0 <= spec_lr_local_line_cell(i).1 <= 1,
        forall|i: int, j: int| 0 <= i < j < 7 ==> #[trigger] spec_lr_local_line_cell(i) != #[trigger] spec_lr_local_line_cell(j),
{
    assert forall|i: int, j: int| 0 <= i < j < 7 implies #[trigger] spec_lr_local_line_cell(i) != #[trigger] spec_lr_local_line_cell(j) by {
        if i == 0 {
        } else if i == 1 {
        } else if i == 2 {
        } else if i == 3 {
        } else if i == 4 {
        } else if i == 5 {
        } else if i == 6 {
        }
    }
}


/// The column (right-hand or not) and row of left/right IO local line mux `i`: two
/// columns of 24, in a slightly rearranged order
pub open spec fn spec_lr_local_line_slot(i: u8) -> (bool, int) {
    if i <= 11 {
        (true, i as int)
    } else if i <= 23 {
        (false, i - 6)
    } else if i <= 35 {
        (true, i - 12)
    } else if i <= 41 {
        (false, i - 36)
    } else {
        (false, i - 24)
    }
}

fn lr_local_line_slot(i: u8) -> (r: (bool, u8))
    requires
        i < 48,
    ensures
        r.0 == spec_lr_local_line_slot(i).0,
        r.1 == spec_lr_local_line_slot(i).1,
{
    if i <= 11 {
        (true, i)
    } else if i <= 23 {
        (false, i - 6)
    } else if i <= 35 {
        (true, i - 12)
    } else if i <= 41 {
        (false, i - 36)
    } else {
        (false, i - 24)
    }
}

/// Where the bits of left/right IO local line mux `i` sit
pub struct LeftRightIOLocalLine {
    pub i: u8,
}

impl FieldPositionCalculator for LeftRightIOLocalLine {
    open spec fn spec_valid(&self) -> bool {
        self.i < 48
    }

    open spec fn spec_nbits(&self) -> nat {
        7
    }

    open spec fn spec_bit_pos(&self, biti: int) -> TileRelativeBitPos {
        let (rhs, row) = spec_lr_local_line_slot(self.i);
        // there is a large gap in the middle
        let ybase = row * 2 + if row >= 12 { 20int } else { 0 };
        let (xbase, dy) = spec_lr_local_line_cell(biti);
        TileRelativeBitPos {
            y: (ybase + dy) as u8,
            x: (if rhs { 16 + xbase } else { 15 - xbase }) as u8,
        }
    }

    open spec fn spec_width(&self) -> int {
        20
    }

    open spec fn spec_height(&self) -> int {
        68
    }

    proof fn lemma_layout(&self) {
        lemma_lr_local_line_cell();
    }

    fn get_bit_pos(&self, biti: usize) -> (r: TileRelativeBitPos) {
        proof {
            lemma_lr_local_line_cell();
        }
        let (rhs, row) = lr_local_line_slot(self.i);
        let ybase = row * 2 + if row >= 12 {
            20
        } else {
            0
        };
        let (xbase, dy) = lr_local_line_cell(biti);
        TileRelativeBitPos {
            y: ybase + dy,
            x: if rhs {
                16 + xbase
            } else {
                15 - xbase
            },
        }
    }
}

/// The position of top/bottom IO global-to-local mux `i` (in this permuted order)
pub open spec fn spec_tb_g2l_base(i: u8) -> (int, int) {
    if i == 0 {
        (15, 10)
    } else if i == 1 {
        (15, 13)
    } else if i == 2 {
        (15, 11)
    } else if i == 3 {
        (15, 12)
    } else if i == 4 {
        (23, 10)
    } else if i == 5 {
        (23, 13)
    } else if i == 6 {
        (23, 11)
    } else {
        (23, 12)
    }
}

fn tb_g2l_base(i: u8) -> (r: (u8, u8))
    ensures
        r.0 == spec_tb_g2l_base(i).0,
        r.1 == spec_tb_g2l_base(i).1,
{
    if i == 0 {
        (15, 10)
    } else if i == 1 {
        (15, 13)
    } else if i == 2 {
        (15, 11)
    } else if i == 3 {
        (15, 12)
    } else if i == 4 {
        (23, 10)
    } else if i == 5 {
        (23, 13)
    } else if i == 6 {
        (23, 11)
    } else {
        (23, 12)
    }
}

/// Where the bits of top/bottom IO global-to-local mux `i` sit (linear bits)
pub struct TopBottomIOGlobal2Local {
    pub is_bottom: bool,
    pub i: u8,
}

impl FieldPositionCalculator for TopBottomIOGlobal2Local {
    open spec fn spec_valid(&self) -> bool {
        self.i < 8
    }

    open spec fn spec_nbits(&self) -> nat {
        6
    }

    open spec fn spec_bit_pos(&self, biti: int) -> TileRelativeBitPos {
        let (xbase, y) = spec_tb_g2l_base(self.i);
        TileRelativeBitPos { y: spec_tb_mirror(self.is_bottom, y) as u8, x: (xbase + biti) as u8 }
    }

    open spec fn spec_width(&self) -> int {
        29
    }

    open spec fn spec_height(&self) -> int {
        22
    }

    proof fn lemma_layout(&self) {
    }

    fn get_bit_pos(&self, biti: usize) -> (r: TileRelativeBitPos) {
        let (xbase, y) = tb_g2l_base(self.i);
        TileRelativeBitPos { y: tb_mirror(self.is_bottom, y), x: xbase + biti as u8 }
    }
}

/// The row of left/right IO global-to-local mux pair `k`
pub open spec fn spec_lr_g2l_row(k: u8) -> u8 {
    if k == 0 {
        24
    } else if k == 1 {
        27
    } else if k == 2 {
        28
    } else if k == 3 {
        39
    } else if k == 4 {
        40
    } else {
        43
    }
}

fn lr_g2l_row(k: u8) -> (r: u8)
    ensures
        r == spec_lr_g2l_row(k),
{
    if k == 0 {
        24
    } else if k == 1 {
        27
    } else if k == 2 {
        28
    } else if k == 3 {
        39
    } else if k == 4 {
        40
    } else {
        43
    }
}

/// Where the bits of left/right IO global-to-local mux `i` sit
pub struct LeftRightIOGlobal2Local {
    pub i: u8,
}

impl FieldPositionCalculator for LeftRightIOGlobal2Local {
    open spec fn spec_valid(&self) -> bool {
        self.i < 12
    }

    open spec fn spec_nbits(&self) -> nat {
        6
    }

    open spec fn spec_bit_pos(&self, biti: int) -> TileRelativeBitPos {
        // the right-hand column has the evens, "fanning out" from the center
        TileRelativeBitPos {
            y: spec_lr_g2l_row(self.i / 2),
            x: (if self.i % 2 == 0 { 12 + biti } else { 11 - biti }) as u8,
        }
    }

    open spec fn spec_width(&self) -> int {
        18
    }

    open spec fn spec_height(&self) -> int {
        44
    }

    proof fn lemma_layout(&self) {
    }

    fn get_bit_pos(&self, biti: usize) -> (r: TileRelativeBitPos) {
        TileRelativeBitPos {
            y: lr_g2l_row(self.i / 2),
            x: if self.i % 2 == 0 {
                12 + biti as u8
            } else {
                11 - biti as u8
            },
        }
    }
}

/// The block of bits of one IO local-to-clock mux: the cell `(x, y)` of bit `biti`
pub open spec fn spec_l2c_cell(biti: int) -> (int, int) {
    if biti == 0 {
        (2, 0)
    } else if biti == 1 {
        (2, 1)
    } else if biti == 2 {
        (1, 0)
    } else if biti == 3 {
        (1, 1)
    } else if biti == 4 {
        (0, 0)
    } else {
        (0, 1)
    }
}

fn l2c_cell(biti: usize) -> (r: (u8, u8))
    requires
        biti < 6,
    ensures
        r.0 == spec_l2c_cell(biti as int).0,
        r.1 == spec_l2c_cell(biti as int).1,
{
    match biti {
        0 => (2, 0),
        1 => (2, 1),
        2 => (1, 0),
        3 => (1, 1),
        4 => (0, 0),
        _ => (0, 1),
    }
}

proof fn lemma_l2c_cell()
    ensures
        forall|i: int| 0 <= i < 6 ==> 0 <= (#[trigger] spec_l2c_cell(i)).0 <= 2 && 0 <= spec_l2c_cell(i).1 <= 1,
        forall|i: int, j: int| 0 <= i < j < 6 ==> #[trigger] spec_l2c_cell(i) != #[trigger] spec_l2c_cell(j),
{
    assert forall|i: int, j: int| 0 <= i < j < 6 implies #[trigger] spec_l2c_cell(i) != #[trigger] spec_l2c_cell(j) by {
        if i == 0 {
        } else if i == 1 {
        } else if i == 2 {
        } else if i == 3 {
        } else if i == 4 {
        } else if i == 5 {
        }
    }
}


/// The base position and horizontal flip of top/bottom IO local-to-clock mux `i`
/// (4 columns of 2, out of order)
pub open spec fn spec_tb_l2c_base(i: u8) -> (int, int, bool) {
    if i == 0 {
        (0, 10, false)
    } else if i == 1 {
        (0, 12, false)
    } else if i == 2 {
        (7, 10, false)
    } else if i == 3 {
        (7, 12, false)
    } else if i == 4 {
        (5, 10, true)
    } else if i == 5 {
        (5, 12, true)
    } else if i == 6 {
        (12, 10, true)
    } else {
        (12, 12, true)
    }
}

fn tb_l2c_base(i: u8) -> (r: (u8, u8, bool))
    ensures
        r.0 == spec_tb_l2c_base(i).0,
        r.1 == spec_tb_l2c_base(i).1,
        r.2 == spec_tb_l2c_base(i).2,
{
    if i == 0 {
        (0, 10, false)
    } else if i == 1 {
        (0, 12, false)
    } else if i == 2 {
        (7, 10, false)
    } else if i == 3 {
        (7, 12, false)
    } else if i == 4 {
        (5, 10, true)
    } else if i == 5 {
        (5, 12, true)
    } else if i == 6 {
        (12, 10, true)
    } else {
        (12, 12, true)
    }
}

/// Where the bits of top/bottom IO local-to-clock mux `i` sit
pub struct TopBottomIOLocal2Clk {
    pub is_bottom: bool,
    pub i: u8,
}

impl FieldPositionCalculator for TopBottomIOLocal2Clk {
    open spec fn spec_valid(&self) -> bool {
        self.i < 8
    }

    open spec fn spec_nbits(&self) -> nat {
        6
    }

    open spec fn spec_bit_pos(&self, biti: int) -> TileRelativeBitPos {
        let (xbase, ybase, flip) = spec_tb_l2c_base(self.i);
        let (xoffs, dy) = spec_l2c_cell(biti);
        TileRelativeBitPos {
            y: spec_tb_mirror(self.is_bottom, ybase + dy) as u8,
            x: (if flip { xbase - xoffs } else { xbase + xoffs }) as u8,
        }
    }

    open spec fn spec_width(&self) -> int {
        13
    }

    open spec fn spec_height(&self) -> int {
        22
    }

    proof fn lemma_layout(&self) {
        lemma_l2c_cell();
    }

    fn get_bit_pos(&self, biti: usize) -> (r: TileRelativeBitPos) {
        proof {
            lemma_l2c_cell();
        }
        let (xbase, ybase, flip) = tb_l2c_base(self.i);
        let (xoffs, dy) = l2c_cell(biti);
        TileRelativeBitPos {
            y: tb_mirror(self.is_bottom, ybase + dy),
            x: if flip {
                xbase - xoffs
            } else {
                xbase + xoffs
            },
        }
    }
}

/// The base position and horizontal flip of left/right IO local-to-clock mux `i`
/// (*3* chunks)
pub open spec fn spec_lr_l2c_base(i: u8) -> (int, int, bool) {
    if i <= 3 {
        (10, 16 + 2 * i, true)
    } else if i <= 7 {
        (5, 16 + 2 * (i - 4), false)
    } else {
        (5, 44 + 2 * (i - 8), false)
    }
}

fn lr_l2c_base(i: u8) -> (r: (u8, u8, bool))
    requires
        i < 12,
    ensures
        r.0 == spec_lr_l2c_base(i).0,
        r.1 == spec_lr_l2c_base(i).1,
        r.2 == spec_lr_l2c_base(i).2,
{
    if i <= 3 {
        (10, 16 + 2 * i, true)
    } else if i <= 7 {
        (5, 16 + 2 * (i - 4), false)
    } else {
        (5, 44 + 2 * (i - 8), false)
    }
}

/// Where the bits of left/right IO local-to-clock mux `i` sit
pub struct LeftRightIOLocal2Clk {
    pub i: u8,
}

impl FieldPositionCalculator for LeftRightIOLocal2Clk {
    open spec fn spec_valid(&self) -> bool {
        self.i < 12
    }

    open spec fn spec_nbits(&self) -> nat {
        6
    }

    open spec fn spec_bit_pos(&self, biti: int) -> TileRelativeBitPos {
        let (xbase, ybase, flip) = spec_lr_l2c_base(self.i);
        let (xoffs, dy) = spec_l2c_cell(biti);
        TileRelativeBitPos {
            y: (ybase + dy) as u8,
            x: (if flip { xbase - xoffs } else { xbase + xoffs }) as u8,
        }
    }

    open spec fn spec_width(&self) -> int {
        11
    }

    open spec fn spec_height(&self) -> int {
        52
    }

    proof fn lemma_layout(&self) {
        lemma_l2c_cell();
    }

    fn get_bit_pos(&self, biti: usize) -> (r: TileRelativeBitPos) {
        proof {
            lemma_l2c_cell();
        }
        let (xbase, ybase, flip) = lr_l2c_base(self.i);
        let (xoffs, dy) = l2c_cell(biti);
        TileRelativeBitPos {
            y: ybase + dy,
            x: if flip {
                xbase - xoffs
            } else {
                xbase + xoffs
            },
        }
    }
}

/// The block of bits of one local-to-IO mux: the cell `(x, y)` of bit `biti`
pub open spec fn spec_l2io_cell(biti: int) -> (int, int) {
    if biti == 0 {
        (3, 0)
    } else if biti == 1 {
        (3, 1)
    } else if biti == 2 {
        (2, 0)
    } else if biti == 3 {
        (2, 1)
    } else if biti == 4 {
        (1, 0)
    } else if biti == 5 {
        (1, 1)
    } else {
        (0, 1)
    }
}

fn l2io_cell(biti: usize) -> (r: (u8, u8))
    requires
        biti < 7,
    ensures
        r.0 == spec_l2io_cell(biti as int).0,
        r.1 == spec_l2io_cell(biti as int).1,
{
    match biti {
        0 => (3, 0),
        1 => (3, 1),
        2 => (2, 0),
        3 => (2, 1),
        4 => (1, 0),
        5 => (1, 1),
        _ => (0, 1),
    }
}

proof fn lemma_l2io_cell()
    ensures
        forall|i: int| 0 <= i < 7 ==> 0 <= (#[trigger] spec_l2io_cell(i)).0 <= 3 && 0 <= spec_l2io_cell(i).1 <= 1,
        forall|i: int, j: int| 0 <= i < j < 7 ==> #[trigger] spec_l2io_cell(i) != #[trigger] spec_l2io_cell(j),
{
    assert forall|i: int, j: int| 0 <= i < j < 7 implies #[trigger] spec_l2io_cell(i) != #[trigger] spec_l2io_cell(j) by {
        if i == 0 {
        } else if i == 1 {
        } else if i == 2 {
        } else if i == 3 {
        } else if i == 4 {
        } else if i == 5 {
        } else if i == 6 {
        }
    }
}


/// Where the bits of top/bottom IO local-to-IO mux `i` sit (3 columns of 8)
pub struct TopBottomIOLocal2IO {
    pub is_bottom: bool,
    pub i: u8,
}

impl FieldPositionCalculator for TopBottomIOLocal2IO {
    open spec fn spec_valid(&self) -> bool {
        self.i < 24
    }

    open spec fn spec_nbits(&self) -> nat {
        7
    }

    open spec fn spec_bit_pos(&self, biti: int) -> TileRelativeBitPos {
        let col = self.i / 8;
        let w = self.i % 8;
        // each column counts down, with a gap of 4 rows in the middle
        let ybase = 2 + 2 * w + if w >= 4 { 4int } else { 0 };
        let (xbase, dy) = spec_l2io_cell(biti);
        // the middle column is mirrored horizontally
        let x = if col == 0 {
            15 + xbase
        } else if col == 1 {
            22 - xbase
        } else {
            23 + xbase
        };
        TileRelativeBitPos { y: spec_tb_mirror(self.is_bottom, ybase + dy) as u8, x: x as u8 }
    }

    open spec fn spec_width(&self) -> int {
        27
    }

    open spec fn spec_height(&self) -> int {
        22
    }

    proof fn lemma_layout(&self) {
        lemma_l2io_cell();
    }

    fn get_bit_pos(&self, biti: usize) -> (r: TileRelativeBitPos) {
        proof {
            lemma_l2io_cell();
        }
        let col = self.i / 8;
        let w = self.i % 8;
        let ybase = 2 + 2 * w + if w >= 4 {
            4
        } else {
            0
        };
        let (xbase, dy) = l2io_cell(biti);
        let x = if col == 0 {
            15 + xbase
        } else if col == 1 {
            22 - xbase
        } else {
            23 + xbase
        };
        TileRelativeBitPos { y: tb_mirror(self.is_bottom, ybase + dy), x }
    }
}

/// The column (right-hand or not) and base row of left/right IO local-to-IO mux `i`:
/// two columns of 16 and 20, mainly in blocks of 8
pub open spec fn spec_lr_l2io_slot(i: u8) -> (bool, int) {
    if i <= 7 {
        (false, 2 * i)
    } else if i <= 15 {
        (false, 52 + 2 * (i - 8))
    } else if i <= 23 {
        (true, 2 * (i - 16))
    } else {
        (true, 44 + 2 * (i - 24))
    }
}

fn lr_l2io_slot(i: u8) -> (r: (bool, u8))
    requires
        i < 36,
    ensures
        r.0 == spec_lr_l2io_slot(i).0,
        r.1 == spec_lr_l2io_slot(i).1,
{
    if i <= 7 {
        (false, 2 * i)
    } else if i <= 15 {
        (false, 52 + 2 * (i - 8))
    } else if i <= 23 {
        (true, 2 * (i - 16))
    } else {
        (true, 44 + 2 * (i - 24))
    }
}

/// Where the bits of left/right IO local-to-IO mux `i` sit
pub struct LeftRightIOLocal2IO {
    pub i: u8,
}

impl FieldPositionCalculator for LeftRightIOLocal2IO {
    open spec fn spec_valid(&self) -> bool {
        self.i < 36
    }

    open spec fn spec_nbits(&self) -> nat {
        7
    }

    open spec fn spec_bit_pos(&self, biti: int) -> TileRelativeBitPos {
        let (rhs, ybase) = spec_lr_l2io_slot(self.i);
        let (xbase, dy) = spec_l2io_cell(biti);
        // the right column is mirrored horizontally
        TileRelativeBitPos {
            y: (ybase + dy) as u8,
            x: (if !rhs { 4 + xbase } else { 11 - xbase }) as u8,
        }
    }

    open spec fn spec_width(&self) -> int {
        12
    }

    open spec fn spec_height(&self) -> int {
        68
    }

    proof fn lemma_layout(&self) {
        lemma_l2io_cell();
    }

    fn get_bit_pos(&self, biti: usize) -> (r: TileRelativeBitPos) {
        proof {
            lemma_l2io_cell();
        }
        let (rhs, ybase) = lr_l2io_slot(self.i);
        let (xbase, dy) = l2io_cell(biti);
        TileRelativeBitPos {
            y: ybase + dy,
            x: if !rhs {
                4 + xbase
            } else {
                11 - xbase
            },
        }
    }
}

/// The bag of bits of the top/bottom IO clock muxes: the cell `(x, y)` of bit `biti`
pub open spec fn spec_tb_clk_cell(biti: int) -> (int, int) {
    if biti == 0 {
        (0, 8)
    } else if biti == 1 {
        (1, 8)
    } else if biti == 2 {
        (6, 11)
    } else if biti == 3 {
        (0, 15)
    } else if biti == 4 {
        (1, 15)
    } else if biti == 5 {
        (6, 12)
    } else if biti == 6 {
        (6, 8)
    } else if biti == 7 {
        (5, 8)
    } else if biti == 8 {
        (6, 10)
    } else if biti == 9 {
        (6, 15)
    } else if biti == 10 {
        (5, 15)
    } else if biti == 11 {
        (6, 13)
    } else if biti == 12 {
        (0, 9)
    } else if biti == 13 {
        (1, 9)
    } else if biti == 14 {
        (5, 11)
    } else if biti == 15 {
        (0, 14)
    } else if biti == 16 {
        (1, 14)
    } else if biti == 17 {
        (5, 12)
    } else if biti == 18 {
        (6, 9)
    } else if biti == 19 {
        (5, 9)
    } else if biti == 20 {
        (5, 10)
    } else if biti == 21 {
        (6, 14)
    } else if biti == 22 {
        (5, 14)
    } else {
        (5, 13)
    }
}

fn tb_clk_cell(biti: usize) -> (r: (u8, u8))
    requires
        biti < 24,
    ensures
        r.0 == spec_tb_clk_cell(biti as int).0,
        r.1 == spec_tb_clk_cell(biti as int).1,
{
    match biti {
        0 => (0, 8),
        1 => (1, 8),
        2 => (6, 11),
        3 => (0, 15),
        4 => (1, 15),
        5 => (6, 12),
        6 => (6, 8),
        7 => (5, 8),
        8 => (6, 10),
        9 => (6, 15),
        10 => (5, 15),
        11 => (6, 13),
        12 => (0, 9),
        13 => (1, 9),
        14 => (5, 11),
        15 => (0, 14),
        16 => (1, 14),
        17 => (5, 12),
        18 => (6, 9),
        19 => (5, 9),
        20 => (5, 10),
        21 => (6, 14),
        22 => (5, 14),
        _ => (5, 13),
    }
}

proof fn lemma_tb_clk_cell()
    ensures
        forall|i: int| 0 <= i < 24 ==> 0 <= (#[trigger] spec_tb_clk_cell(i)).0 <= 6 && 0 <= spec_tb_clk_cell(i).1 <= 15,
        forall|i: int, j: int| 0 <= i < j < 24 ==> #[trigger] spec_tb_clk_cell(i) != #[trigger] spec_tb_clk_cell(j),
{
    assert forall|i: int, j: int| 0 <= i < j < 24 implies #[trigger] spec_tb_clk_cell(i) != #[trigger] spec_tb_clk_cell(j) by {
        if i == 0 {
        } else if i == 1 {
        } else if i == 2 {
        } else if i == 3 {
        } else if i == 4 {
        } else if i == 5 {
        } else if i == 6 {
        } else if i == 7 {
        } else if i == 8 {
        } else if i == 9 {
        } else if i == 10 {
        } else if i == 11 {
        } else if i == 12 {
        } else if i == 13 {
        } else if i == 14 {
        } else if i == 15 {
        } else if i == 16 {
        } else if i == 17 {
        } else if i == 18 {
        } else if i == 19 {
        } else if i == 20 {
        } else if i == 21 {
        } else if i == 22 {
        } else if i == 23 {
        }
    }
}


/// Where the bits of top/bottom IO clock mux `i` sit
pub struct TopBottomIOClockMux {
    pub is_bottom: bool,
    pub i: u8,
}

impl FieldPositionCalculator for TopBottomIOClockMux {
    open spec fn spec_valid(&self) -> bool {
        self.i < 8
    }

    open spec fn spec_nbits(&self) -> nat {
        3
    }

    open spec fn spec_bit_pos(&self, biti: int) -> TileRelativeBitPos {
        let (dx, y) = spec_tb_clk_cell(self.i * 3 + biti);
        TileRelativeBitPos { y: spec_tb_mirror(self.is_bottom, y) as u8, x: (27 + dx) as u8 }
    }

    open spec fn spec_width(&self) -> int {
        34
    }

    open spec fn spec_height(&self) -> int {
        22
    }

    proof fn lemma_layout(&self) {
        lemma_tb_clk_cell();
    }

    fn get_bit_pos(&self, biti: usize) -> (r: TileRelativeBitPos) {
        proof {
            lemma_tb_clk_cell();
        }
        let (dx, y) = tb_clk_cell(self.i as usize * 3 + biti);
        TileRelativeBitPos { y: tb_mirror(self.is_bottom, y), x: 27 + dx }
    }
}

/// The bag of bits of the left/right IO clock muxes: the cell `(x, y)` of bit `biti`
pub open spec fn spec_lr_clk_cell(biti: int) -> (int, int) {
    if biti == 0 {
        (0, 0)
    } else if biti == 1 {
        (1, 0)
    } else if biti == 2 {
        (2, 0)
    } else if biti == 3 {
        (0, 1)
    } else if biti == 4 {
        (1, 1)
    } else if biti == 5 {
        (3, 0)
    } else if biti == 6 {
        (0, 2)
    } else if biti == 7 {
        (1, 2)
    } else if biti == 8 {
        (3, 3)
    } else if biti == 9 {
        (0, 3)
    } else if biti == 10 {
        (1, 3)
    } else if biti == 11 {
        (2, 3)
    } else if biti == 12 {
        (0, 4)
    } else if biti == 13 {
        (1, 4)
    } else if biti == 14 {
        (2, 4)
    } else if biti == 15 {
        (0, 5)
    } else if biti == 16 {
        (1, 5)
    } else if biti == 17 {
        (3, 4)
    } else if biti == 18 {
        (0, 14)
    } else if biti == 19 {
        (1, 14)
    } else if biti == 20 {
        (3, 15)
    } else if biti == 21 {
        (0, 15)
    } else if biti == 22 {
        (1, 15)
    } else if biti == 23 {
        (2, 15)
    } else if biti == 24 {
        (0, 16)
    } else if biti == 25 {
        (1, 16)
    } else if biti == 26 {
        (2, 16)
    } else if biti == 27 {
        (0, 17)
    } else if biti == 28 {
        (1, 17)
    } else if biti == 29 {
        (3, 16)
    } else if biti == 30 {
        (0, 18)
    } else if biti == 31 {
        (1, 18)
    } else if biti == 32 {
        (3, 19)
    } else if biti == 33 {
        (0, 19)
    } else if biti == 34 {
        (1, 19)
    } else {
        (2, 19)
    }
}

fn lr_clk_cell(biti: usize) -> (r: (u8, u8))
    requires
        biti < 36,
    ensures
        r.0 == spec_lr_clk_cell(biti as int).0,
        r.1 == spec_lr_clk_cell(biti as int).1,
{
    match biti {
        0 => (0, 0),
        1 => (1, 0),
        2 => (2, 0),
        3 => (0, 1),
        4 => (1, 1),
        5 => (3, 0),
        6 => (0, 2),
        7 => (1, 2),
        8 => (3, 3),
        9 => (0, 3),
        10 => (1, 3),
        11 => (2, 3),
        12 => (0, 4),
        13 => (1, 4),
        14 => (2, 4),
        15 => (0, 5),
        16 => (1, 5),
        17 => (3, 4),
        18 => (0, 14),
        19 => (1, 14),
        20 => (3, 15),
        21 => (0, 15),
        22 => (1, 15),
        23 => (2, 15),
        24 => (0, 16),
        25 => (1, 16),
        26 => (2, 16),
        27 => (0, 17),
        28 => (1, 17),
        29 => (3, 16),
        30 => (0, 18),
        31 => (1, 18),
        32 => (3, 19),
        33 => (0, 19),
        34 => (1, 19),
        _ => (2, 19),
    }
}

proof fn lemma_lr_clk_cell()
    ensures
        forall|i: int| 0 <= i < 36 ==> 0 <= (#[trigger] spec_lr_clk_cell(i)).0 <= 3 && 0 <= spec_lr_clk_cell(i).1 <= 19,
        forall|i: int, j: int| 0 <= i < j < 36 ==> #[trigger] spec_lr_clk_cell(i) != #[trigger] spec_lr_clk_cell(j),
{
    assert forall|i: int, j: int| 0 <= i < j < 36 implies #[trigger] spec_lr_clk_cell(i) != #[trigger] spec_lr_clk_cell(j) by {
        if i == 0 {
        } else if i == 1 {
        } else if i == 2 {
        } else if i == 3 {
        } else if i == 4 {
        } else if i == 5 {
        } else if i == 6 {
        } else if i == 7 {
        } else if i == 8 {
        } else if i == 9 {
        } else if i == 10 {
        } else if i == 11 {
        } else if i == 12 {
        } else if i == 13 {
        } else if i == 14 {
        } else if i == 15 {
        } else if i == 16 {
        } else if i == 17 {
        } else if i == 18 {
        } else if i == 19 {
        } else if i == 20 {
        } else if i == 21 {
        } else if i == 22 {
        } else if i == 23 {
        } else if i == 24 {
        } else if i == 25 {
        } else if i == 26 {
        } else if i == 27 {
        } else if i == 28 {
        } else if i == 29 {
        } else if i == 30 {
        } else if i == 31 {
        } else if i == 32 {
        } else if i == 33 {
        } else if i == 34 {
        } else if i == 35 {
        }
    }
}


/// Where the bits of left/right IO clock mux `i` sit
pub struct LeftRightIOClockMux {
    pub i: u8,
}

impl FieldPositionCalculator for LeftRightIOClockMux {
    open spec fn spec_valid(&self) -> bool {
        self.i < 12
    }

    open spec fn spec_nbits(&self) -> nat {
        3
    }

    open spec fn spec_bit_pos(&self, biti: int) -> TileRelativeBitPos {
        let (dx, dy) = spec_lr_clk_cell(self.i * 3 + biti);
        TileRelativeBitPos { y: (24 + dy) as u8, x: (2 + dx) as u8 }
    }

    open spec fn spec_width(&self) -> int {
        6
    }

    open spec fn spec_height(&self) -> int {
        44
    }

    proof fn lemma_layout(&self) {
        lemma_lr_clk_cell();
    }

    fn get_bit_pos(&self, biti: usize) -> (r: TileRelativeBitPos) {
        proof {
            lemma_lr_clk_cell();
        }
        let (dx, dy) = lr_clk_cell(self.i as usize * 3 + biti);
        TileRelativeBitPos { y: 24 + dy, x: 2 + dx }
    }
}

/// The position of top/bottom IO output mux `i`
pub open spec fn spec_tb_out_pos(i: u8) -> (u8, u8) {
    if i == 0 {
        (27, 0)
    } else if i == 1 {
        (27, 1)
    } else if i == 2 {
        (33, 0)
    } else if i == 3 {
        (32, 0)
    } else if i == 4 {
        (28, 0)
    } else if i == 5 {
        (28, 1)
    } else if i == 6 {
        (33, 1)
    } else {
        (32, 1)
    }
}

fn tb_out_pos(i: u8) -> (r: (u8, u8))
    ensures
        r == spec_tb_out_pos(i),
{
    if i == 0 {
        (27, 0)
    } else if i == 1 {
        (27, 1)
    } else if i == 2 {
        (33, 0)
    } else if i == 3 {
        (32, 0)
    } else if i == 4 {
        (28, 0)
    } else if i == 5 {
        (28, 1)
    } else if i == 6 {
        (33, 1)
    } else {
        (32, 1)
    }
}

/// Where the bit of top/bottom IO output mux `i` sits
pub struct TopBottomIOOutMux {
    pub is_bottom: bool,
    pub i: u8,
}

impl FieldPositionCalculator for TopBottomIOOutMux {
    open spec fn spec_valid(&self) -> bool {
        self.i < 8
    }

    open spec fn spec_nbits(&self) -> nat {
        1
    }

    open spec fn spec_bit_pos(&self, biti: int) -> TileRelativeBitPos {
        let (x, y) = spec_tb_out_pos(self.i);
        TileRelativeBitPos { y: spec_tb_mirror(self.is_bottom, y as int) as u8, x }
    }

    open spec fn spec_width(&self) -> int {
        34
    }

    open spec fn spec_height(&self) -> int {
        22
    }

    proof fn lemma_layout(&self) {
    }

    fn get_bit_pos(&self, biti: usize) -> (r: TileRelativeBitPos) {
        let (x, y) = tb_out_pos(self.i);
        TileRelativeBitPos { y: tb_mirror(self.is_bottom, y), x }
    }
}

/// The row of left/right IO output mux `i`
pub open spec fn spec_lr_out_row(i: u8) -> u8 {
    if i == 0 {
        0
    } else if i == 1 {
        2
    } else if i == 2 {
        10
    } else if i == 3 {
        12
    } else if i == 4 {
        18
    } else if i == 5 {
        20
    } else if i == 6 {
        44
    } else if i == 7 {
        46
    } else if i == 8 {
        48
    } else if i == 9 {
        50
    } else if i == 10 {
        58
    } else {
        60
    }
}

fn lr_out_row(i: u8) -> (r: u8)
    ensures
        r == spec_lr_out_row(i),
{
    if i == 0 {
        0
    } else if i == 1 {
        2
    } else if i == 2 {
        10
    } else if i == 3 {
        12
    } else if i == 4 {
        18
    } else if i == 5 {
        20
    } else if i == 6 {
        44
    } else if i == 7 {
        46
    } else if i == 8 {
        48
    } else if i == 9 {
        50
    } else if i == 10 {
        58
    } else {
        60
    }
}

/// Where the bits of the input data delay of top/bottom IO `i` sit
pub struct TopBottomIOInDaDelay {
    pub is_bottom: bool,
    pub i: u8,
}

impl FieldPositionCalculator for TopBottomIOInDaDelay {
    open spec fn spec_valid(&self) -> bool {
        self.i < 4
    }

    open spec fn spec_nbits(&self) -> nat {
        3
    }

    open spec fn spec_bit_pos(&self, biti: int) -> TileRelativeBitPos {
        let xbase = if self.i < 2 { 4int } else { 21 };
        let y = self.i % 2;
        TileRelativeBitPos {
            y: spec_tb_mirror(self.is_bottom, y as int) as u8,
            x: (xbase - biti) as u8,
        }
    }

    open spec fn spec_width(&self) -> int {
        22
    }

    open spec fn spec_height(&self) -> int {
        22
    }

    proof fn lemma_layout(&self) {
    }

    fn get_bit_pos(&self, biti: usize) -> (r: TileRelativeBitPos) {
        let xbase: u8 = if self.i < 2 {
            4
        } else {
            21
        };
        let y = self.i % 2;
        TileRelativeBitPos { y: tb_mirror(self.is_bottom, y), x: xbase - biti as u8 }
    }
}

/// Where the bits of the input data delay of left/right IO `i` sit
pub struct LeftRightIOInDaDelay {
    pub i: u8,
}

impl FieldPositionCalculator for LeftRightIOInDaDelay {
    open spec fn spec_valid(&self) -> bool {
        self.i < 6
    }

    open spec fn spec_nbits(&self) -> nat {
        3
    }

    open spec fn spec_bit_pos(&self, biti: int) -> TileRelativeBitPos {
        let (x, dy) = if biti == 0 {
            (1int, 6int)
        } else if biti == 1 {
            (0, 6)
        } else {
            (1, 7)
        };
        TileRelativeBitPos { y: (self.i * 10 + dy) as u8, x: x as u8 }
    }

    open spec fn spec_width(&self) -> int {
        2
    }

    open spec fn spec_height(&self) -> int {
        58
    }

    proof fn lemma_layout(&self) {
    }

    fn get_bit_pos(&self, biti: usize) -> (r: TileRelativeBitPos) {
        let (x, dy): (u8, u8) = if biti == 0 {
            (1, 6)
        } else if biti == 1 {
            (0, 6)
        } else {
            (1, 7)
        };
        TileRelativeBitPos { y: self.i * 10 + dy, x }
    }
}

/// Read access to the fields common to all IO tiles
pub trait IOTileCommon {
    /// Can this handle be used to access this bitstream?
    spec fn spec_io_attached(&self, v: BitstreamView) -> bool;

    /// The number of IOs of the tile
    spec fn spec_num_ios(&self) -> nat;

    /// The bits of global-to-local mux `idx`
    spec fn spec_g2l_bits(&self, v: BitstreamView, idx: u8) -> u32;

    /// The bitstream after writing `bits` into global-to-local mux `idx`
    spec fn spec_g2l_write(&self, v: BitstreamView, idx: u8, bits: u32) -> BitstreamView;

    /// The bits of local-to-clock mux `idx`
    spec fn spec_l2c_bits(&self, v: BitstreamView, idx: u8) -> u32;

    /// The bitstream after writing `bits` into local-to-clock mux `idx`
    spec fn spec_l2c_write(&self, v: BitstreamView, idx: u8, bits: u32) -> BitstreamView;

    /// The bits of local-to-IO mux `custom_idx` (in this library's own numbering)
    spec fn spec_l2io_bits(&self, v: BitstreamView, custom_idx: u8) -> u32;

    /// The bitstream after writing `bits` into local-to-IO mux `custom_idx` (in this library's own numbering)
    spec fn spec_l2io_write(&self, v: BitstreamView, custom_idx: u8, bits: u32) -> BitstreamView;

    /// The bits of clock mux `idx` (2 per IO: output, then input)
    spec fn spec_clk_bits(&self, v: BitstreamView, idx: u8) -> u32;

    /// The bitstream after writing `bits` into clock mux `idx` (2 per IO: output, then input)
    spec fn spec_clk_write(&self, v: BitstreamView, idx: u8, bits: u32) -> BitstreamView;

    /// The bit of output mux `out_idx` of IO `io_idx`
    spec fn spec_out_bits(&self, v: BitstreamView, io_idx: u8, out_idx: u8) -> u32;

    /// The bitstream after writing `bits` into output mux `out_idx` of IO `io_idx`
    spec fn spec_out_write(&self, v: BitstreamView, io_idx: u8, out_idx: u8, bits: u32) -> BitstreamView;

    /// The 3 bits of the input data delay of IO `io_idx`
    spec fn spec_delay_bits(&self, v: BitstreamView, io_idx: u8) -> u32;

    /// The bitstream after writing `bits` into the input data delay of IO `io_idx`
    spec fn spec_delay_write(&self, v: BitstreamView, io_idx: u8, bits: u32) -> BitstreamView;

    /// The local-to-IO mux that drives signal `kind` of IO `io_idx`: 0 data out, 1 output
    /// enable, 2 output clock enable, 3 input clock enable, 4 async clear, 5 sync clear
    spec fn spec_l2io_index(&self, kind: u8, io_idx: u8) -> u8;

    /// A tile has at most 6 IOs.
    proof fn lemma_io_bounds(&self)
        ensures
            self.spec_num_ios() <= 6,
    ;

    /// The number of IOs of the tile
    fn num_ios(&self) -> (r: u8)
        ensures
            r == self.spec_num_ios(),
    ;

    /// The local-to-IO mux that drives signal `kind` of IO `io_idx`
    fn l2io_index(&self, kind: u8, io_idx: u8) -> (r: u8)
        requires
            kind < 6,
            io_idx < self.spec_num_ios(),
        ensures
            r == self.spec_l2io_index(kind, io_idx),
            r < 6 * self.spec_num_ios(),
    ;

    /// Read global-to-local mux `idx`
    fn global_to_local(&self, b: &Bitstream, idx: u8) -> (r: GlobalToLocalMux)
        requires
            self.spec_io_attached(b@),
            idx < 2 * self.spec_num_ios(),
            GlobalToLocalMux::spec_from_bits(self.spec_g2l_bits(b@, idx)) is Some,
        ensures
            Some(r) == GlobalToLocalMux::spec_from_bits(self.spec_g2l_bits(b@, idx)),
    ;

    /// Read local-to-clock mux `idx`
    fn local_to_clock(&self, b: &Bitstream, idx: u8) -> (r: IOLocalToClockMux)
        requires
            self.spec_io_attached(b@),
            idx < 2 * self.spec_num_ios(),
            IOLocalToClockMux::spec_from_bits(self.spec_l2c_bits(b@, idx)) is Some,
        ensures
            Some(r) == IOLocalToClockMux::spec_from_bits(self.spec_l2c_bits(b@, idx)),
    ;

    /// Read local-to-IO mux `custom_idx` (in this library's own numbering)
    fn local_to_io(&self, b: &Bitstream, custom_idx: u8) -> (r: LocalToIOMux)
        requires
            self.spec_io_attached(b@),
            custom_idx < 6 * self.spec_num_ios(),
            LocalToIOMux::spec_from_bits(self.spec_l2io_bits(b@, custom_idx)) is Some,
        ensures
            Some(r) == LocalToIOMux::spec_from_bits(self.spec_l2io_bits(b@, custom_idx)),
    ;

    /// Read clock mux `idx` (2 per IO: output, then input)
    fn clock_mux(&self, b: &Bitstream, idx: u8) -> (r: IOClockMux)
        requires
            self.spec_io_attached(b@),
            idx < 2 * self.spec_num_ios(),
            IOClockMux::spec_from_bits(self.spec_clk_bits(b@, idx)) is Some,
        ensures
            Some(r) == IOClockMux::spec_from_bits(self.spec_clk_bits(b@, idx)),
    ;

    /// Read output mux `out_idx` of IO `io_idx` (2 per IO)
    fn out_mux(&self, b: &Bitstream, io_idx: u8, out_idx: u8) -> (r: OMUX)
        requires
            self.spec_io_attached(b@),
            io_idx < self.spec_num_ios(),
            out_idx < 2,
        ensures
            Some(r) == OMUX::spec_from_bits(self.spec_out_bits(b@, io_idx, out_idx)),
    ;

    /// Read the input data delay of IO `io_idx`
    fn in_data_delay(&self, b: &Bitstream, io_idx: u8) -> (r: u8)
        requires
            self.spec_io_attached(b@),
            io_idx < self.spec_num_ios(),
        ensures
            r == self.spec_delay_bits(b@, io_idx) as u8,
    ;

    /// The output clock global-to-local mux of IO `io_idx`
    fn out_clock_global_to_local(&self, b: &Bitstream, io_idx: u8) -> (r: GlobalToLocalMux)
        requires
            self.spec_io_attached(b@),
            io_idx < self.spec_num_ios(),
            GlobalToLocalMux::spec_from_bits(self.spec_g2l_bits(b@, (io_idx * 2 + 0) as u8)) is Some,
        ensures
            Some(r) == GlobalToLocalMux::spec_from_bits(self.spec_g2l_bits(b@, (io_idx * 2 + 0) as u8)),
    {
        proof {
            self.lemma_io_bounds();
        }
        self.global_to_local(b, io_idx * 2 + 0)
    }

    /// The input clock global-to-local mux of IO `io_idx`
    fn in_clock_global_to_local(&self, b: &Bitstream, io_idx: u8) -> (r: GlobalToLocalMux)
        requires
            self.spec_io_attached(b@),
            io_idx < self.spec_num_ios(),
            GlobalToLocalMux::spec_from_bits(self.spec_g2l_bits(b@, (io_idx * 2 + 1) as u8)) is Some,
        ensures
            Some(r) == GlobalToLocalMux::spec_from_bits(self.spec_g2l_bits(b@, (io_idx * 2 + 1) as u8)),
    {
        proof {
            self.lemma_io_bounds();
        }
        self.global_to_local(b, io_idx * 2 + 1)
    }

    /// The output clock local-to-clock mux of IO `io_idx`
    fn out_clock_local_to_clock(&self, b: &Bitstream, io_idx: u8) -> (r: IOLocalToClockMux)
        requires
            self.spec_io_attached(b@),
            io_idx < self.spec_num_ios(),
            IOLocalToClockMux::spec_from_bits(self.spec_l2c_bits(b@, (io_idx * 2 + 0) as u8)) is Some,
        ensures
            Some(r) == IOLocalToClockMux::spec_from_bits(self.spec_l2c_bits(b@, (io_idx * 2 + 0) as u8)),
    {
        proof {
            self.lemma_io_bounds();
        }
        self.local_to_clock(b, io_idx * 2 + 0)
    }

    /// The input clock local-to-clock mux of IO `io_idx`
    fn in_clock_local_to_clock(&self, b: &Bitstream, io_idx: u8) -> (r: IOLocalToClockMux)
        requires
            self.spec_io_attached(b@),
            io_idx < self.spec_num_ios(),
            IOLocalToClockMux::spec_from_bits(self.spec_l2c_bits(b@, (io_idx * 2 + 1) as u8)) is Some,
        ensures
            Some(r) == IOLocalToClockMux::spec_from_bits(self.spec_l2c_bits(b@, (io_idx * 2 + 1) as u8)),
    {
        proof {
            self.lemma_io_bounds();
        }
        self.local_to_clock(b, io_idx * 2 + 1)
    }

    /// The output clock of IO `io_idx`
    fn out_clock_choice(&self, b: &Bitstream, io_idx: u8) -> (r: IOClockMux)
        requires
            self.spec_io_attached(b@),
            io_idx < self.spec_num_ios(),
            IOClockMux::spec_from_bits(self.spec_clk_bits(b@, (io_idx * 2 + 0) as u8)) is Some,
        ensures
            Some(r) == IOClockMux::spec_from_bits(self.spec_clk_bits(b@, (io_idx * 2 + 0) as u8)),
    {
        proof {
            self.lemma_io_bounds();
        }
        self.clock_mux(b, io_idx * 2 + 0)
    }

    /// The input clock of IO `io_idx`
    fn in_clock_choice(&self, b: &Bitstream, io_idx: u8) -> (r: IOClockMux)
        requires
            self.spec_io_attached(b@),
            io_idx < self.spec_num_ios(),
            IOClockMux::spec_from_bits(self.spec_clk_bits(b@, (io_idx * 2 + 1) as u8)) is Some,
        ensures
            Some(r) == IOClockMux::spec_from_bits(self.spec_clk_bits(b@, (io_idx * 2 + 1) as u8)),
    {
        proof {
            self.lemma_io_bounds();
        }
        self.clock_mux(b, io_idx * 2 + 1)
    }

    /// The local-to-IO mux of the data out of IO `io_idx`
    fn local_to_io_out(&self, b: &Bitstream, io_idx: u8) -> (r: LocalToIOMux)
        requires
            self.spec_io_attached(b@),
            io_idx < self.spec_num_ios(),
            LocalToIOMux::spec_from_bits(self.spec_l2io_bits(b@, self.spec_l2io_index(0, io_idx))) is Some,
        ensures
            Some(r) == LocalToIOMux::spec_from_bits(self.spec_l2io_bits(b@, self.spec_l2io_index(0, io_idx))),
    {
        let i = self.l2io_index(0, io_idx);
        self.local_to_io(b, i)
    }

    /// The local-to-IO mux of the output enable of IO `io_idx`
    fn local_to_io_oe(&self, b: &Bitstream, io_idx: u8) -> (r: LocalToIOMux)
        requires
            self.spec_io_attached(b@),
            io_idx < self.spec_num_ios(),
            LocalToIOMux::spec_from_bits(self.spec_l2io_bits(b@, self.spec_l2io_index(1, io_idx))) is Some,
        ensures
            Some(r) == LocalToIOMux::spec_from_bits(self.spec_l2io_bits(b@, self.spec_l2io_index(1, io_idx))),
    {
        let i = self.l2io_index(1, io_idx);
        self.local_to_io(b, i)
    }

    /// The local-to-IO mux of the output clock enable of IO `io_idx`
    fn local_to_out_clk_en(&self, b: &Bitstream, io_idx: u8) -> (r: LocalToIOMux)
        requires
            self.spec_io_attached(b@),
            io_idx < self.spec_num_ios(),
            LocalToIOMux::spec_from_bits(self.spec_l2io_bits(b@, self.spec_l2io_index(2, io_idx))) is Some,
        ensures
            Some(r) == LocalToIOMux::spec_from_bits(self.spec_l2io_bits(b@, self.spec_l2io_index(2, io_idx))),
    {
        let i = self.l2io_index(2, io_idx);
        self.local_to_io(b, i)
    }

    /// The local-to-IO mux of the input clock enable of IO `io_idx`
    fn local_to_in_clk_en(&self, b: &Bitstream, io_idx: u8) -> (r: LocalToIOMux)
        requires
            self.spec_io_attached(b@),
            io_idx < self.spec_num_ios(),
            LocalToIOMux::spec_from_bits(self.spec_l2io_bits(b@, self.spec_l2io_index(3, io_idx))) is Some,
        ensures
            Some(r) == LocalToIOMux::spec_from_bits(self.spec_l2io_bits(b@, self.spec_l2io_index(3, io_idx))),
    {
        let i = self.l2io_index(3, io_idx);
        self.local_to_io(b, i)
    }

    /// The local-to-IO mux of the async clear of IO `io_idx`
    fn local_to_async_clear(&self, b: &Bitstream, io_idx: u8) -> (r: LocalToIOMux)
        requires
            self.spec_io_attached(b@),
            io_idx < self.spec_num_ios(),
            LocalToIOMux::spec_from_bits(self.spec_l2io_bits(b@, self.spec_l2io_index(4, io_idx))) is Some,
        ensures
            Some(r) == LocalToIOMux::spec_from_bits(self.spec_l2io_bits(b@, self.spec_l2io_index(4, io_idx))),
    {
        let i = self.l2io_index(4, io_idx);
        self.local_to_io(b, i)
    }

    /// The local-to-IO mux of the sync clear of IO `io_idx`
    fn local_to_sync_clear(&self, b: &Bitstream, io_idx: u8) -> (r: LocalToIOMux)
        requires
            self.spec_io_attached(b@),
            io_idx < self.spec_num_ios(),
            LocalToIOMux::spec_from_bits(self.spec_l2io_bits(b@, self.spec_l2io_index(5, io_idx))) is Some,
        ensures
            Some(r) == LocalToIOMux::spec_from_bits(self.spec_l2io_bits(b@, self.spec_l2io_index(5, io_idx))),
    {
        let i = self.l2io_index(5, io_idx);
        self.local_to_io(b, i)
    }
}

/// Write access to the fields common to all IO tiles
pub trait IOTileCommonMut: IOTileCommon {

    /// Write global-to-local mux `idx`
    fn set_global_to_local(&self, b: &mut Bitstream, idx: u8, val: GlobalToLocalMux)
        requires
            self.spec_io_attached(old(b)@),
            idx < 2 * self.spec_num_ios(),
            val.spec_valid(),
        ensures
            final(b)@ == self.spec_g2l_write(old(b)@, idx, val.spec_to_bits()),
            self.spec_io_attached(final(b)@),
            spec_same_aux(old(b)@, final(b)@),
    ;

    /// Writing global-to-local mux `idx` and reading it back gives the written bits.
    proof fn lemma_g2l_write_read(&self, v: BitstreamView, idx: u8, bits: u32)
        requires
            self.spec_io_attached(v),
            idx < 2 * self.spec_num_ios(),
            bits < 64,
        ensures
            self.spec_g2l_bits(self.spec_g2l_write(v, idx, bits), idx) == bits,
    ;

    /// Write local-to-clock mux `idx`
    fn set_local_to_clock(&self, b: &mut Bitstream, idx: u8, val: IOLocalToClockMux)
        requires
            self.spec_io_attached(old(b)@),
            idx < 2 * self.spec_num_ios(),
            val.spec_valid(),
        ensures
            final(b)@ == self.spec_l2c_write(old(b)@, idx, val.spec_to_bits()),
            self.spec_io_attached(final(b)@),
            spec_same_aux(old(b)@, final(b)@),
    ;

    /// Writing local-to-clock mux `idx` and reading it back gives the written bits.
    proof fn lemma_l2c_write_read(&self, v: BitstreamView, idx: u8, bits: u32)
        requires
            self.spec_io_attached(v),
            idx < 2 * self.spec_num_ios(),
            bits < 64,
        ensures
            self.spec_l2c_bits(self.spec_l2c_write(v, idx, bits), idx) == bits,
    ;

    /// Write local-to-IO mux `custom_idx` (in this library's own numbering)
    fn set_local_to_io(&self, b: &mut Bitstream, custom_idx: u8, val: LocalToIOMux)
        requires
            self.spec_io_attached(old(b)@),
            custom_idx < 6 * self.spec_num_ios(),
            val.spec_valid(),
        ensures
            final(b)@ == self.spec_l2io_write(old(b)@, custom_idx, val.spec_to_bits()),
            self.spec_io_attached(final(b)@),
            spec_same_aux(old(b)@, final(b)@),
    ;

    /// Writing local-to-IO mux `custom_idx` (in this library's own numbering) and reading it back gives the written bits.
    proof fn lemma_l2io_write_read(&self, v: BitstreamView, custom_idx: u8, bits: u32)
        requires
            self.spec_io_attached(v),
            custom_idx < 6 * self.spec_num_ios(),
            bits < 128,
        ensures
            self.spec_l2io_bits(self.spec_l2io_write(v, custom_idx, bits), custom_idx) == bits,
    ;

    /// Write clock mux `idx` (2 per IO: output, then input)
    fn set_clock_mux(&self, b: &mut Bitstream, idx: u8, val: IOClockMux)
        requires
            self.spec_io_attached(old(b)@),
            idx < 2 * self.spec_num_ios(),
        ensures
            final(b)@ == self.spec_clk_write(old(b)@, idx, val.spec_to_bits()),
            self.spec_io_attached(final(b)@),
            spec_same_aux(old(b)@, final(b)@),
    ;

    /// Writing clock mux `idx` (2 per IO: output, then input) and reading it back gives the written bits.
    proof fn lemma_clk_write_read(&self, v: BitstreamView, idx: u8, bits: u32)
        requires
            self.spec_io_attached(v),
            idx < 2 * self.spec_num_ios(),
            bits < 8,
        ensures
            self.spec_clk_bits(self.spec_clk_write(v, idx, bits), idx) == bits,
    ;

    /// Write output mux `out_idx` of IO `io_idx`
    fn set_out_mux(&self, b: &mut Bitstream, io_idx: u8, out_idx: u8, val: OMUX)
        requires
            self.spec_io_attached(old(b)@),
            io_idx < self.spec_num_ios(),
            out_idx < 2,
        ensures
            final(b)@ == self.spec_out_write(old(b)@, io_idx, out_idx, val.spec_to_bits()),
            self.spec_io_attached(final(b)@),
            spec_same_aux(old(b)@, final(b)@),
    ;

    /// Write the input data delay of IO `io_idx` (a 3-bit value)
    fn set_in_data_delay(&self, b: &mut Bitstream, io_idx: u8, val: u8)
        requires
            self.spec_io_attached(old(b)@),
            io_idx < self.spec_num_ios(),
            val < 8,
        ensures
            final(b)@ == self.spec_delay_write(old(b)@, io_idx, val as u32),
            self.spec_io_attached(final(b)@),
            spec_same_aux(old(b)@, final(b)@),
    ;

    /// Write the output clock global-to-local mux of IO `io_idx`
    fn set_out_clock_global_to_local(&self, b: &mut Bitstream, io_idx: u8, val: GlobalToLocalMux)
        requires
            self.spec_io_attached(old(b)@),
            io_idx < self.spec_num_ios(),
            val.spec_valid(),
        ensures
            final(b)@ == self.spec_g2l_write(old(b)@, (io_idx * 2 + 0) as u8, val.spec_to_bits()),
            self.spec_io_attached(final(b)@),
            spec_same_aux(old(b)@, final(b)@),
    {
        proof {
            self.lemma_io_bounds();
        }
        self.set_global_to_local(b, io_idx * 2 + 0, val)
    }

    /// Write the input clock global-to-local mux of IO `io_idx`
    fn set_in_clock_global_to_local(&self, b: &mut Bitstream, io_idx: u8, val: GlobalToLocalMux)
        requires
            self.spec_io_attached(old(b)@),
            io_idx < self.spec_num_ios(),
            val.spec_valid(),
        ensures
            final(b)@ == self.spec_g2l_write(old(b)@, (io_idx * 2 + 1) as u8, val.spec_to_bits()),
            self.spec_io_attached(final(b)@),
            spec_same_aux(old(b)@, final(b)@),
    {
        proof {
            self.lemma_io_bounds();
        }
        self.set_global_to_local(b, io_idx * 2 + 1, val)
    }

    /// Write the output clock local-to-clock mux of IO `io_idx`
    fn set_out_clock_local_to_clock(&self, b: &mut Bitstream, io_idx: u8, val: IOLocalToClockMux)
        requires
            self.spec_io_attached(old(b)@),
            io_idx < self.spec_num_ios(),
            val.spec_valid(),
        ensures
            final(b)@ == self.spec_l2c_write(old(b)@, (io_idx * 2 + 0) as u8, val.spec_to_bits()),
            self.spec_io_attached(final(b)@),
            spec_same_aux(old(b)@, final(b)@),
    {
        proof {
            self.lemma_io_bounds();
        }
        self.set_local_to_clock(b, io_idx * 2 + 0, val)
    }

    /// Write the input clock local-to-clock mux of IO `io_idx`
    fn set_in_clock_local_to_clock(&self, b: &mut Bitstream, io_idx: u8, val: IOLocalToClockMux)
        requires
            self.spec_io_attached(old(b)@),
            io_idx < self.spec_num_ios(),
            val.spec_valid(),
        ensures
            final(b)@ == self.spec_l2c_write(old(b)@, (io_idx * 2 + 1) as u8, val.spec_to_bits()),
            self.spec_io_attached(final(b)@),
            spec_same_aux(old(b)@, final(b)@),
    {
        proof {
            self.lemma_io_bounds();
        }
        self.set_local_to_clock(b, io_idx * 2 + 1, val)
    }

    /// Write the output clock of IO `io_idx`
    fn set_out_clock_choice(&self, b: &mut Bitstream, io_idx: u8, val: IOClockMux)
        requires
            self.spec_io_attached(old(b)@),
            io_idx < self.spec_num_ios(),
        ensures
            final(b)@ == self.spec_clk_write(old(b)@, (io_idx * 2 + 0) as u8, val.spec_to_bits()),
            self.spec_io_attached(final(b)@),
            spec_same_aux(old(b)@, final(b)@),
    {
        proof {
            self.lemma_io_bounds();
        }
        self.set_clock_mux(b, io_idx * 2 + 0, val)
    }

    /// Write the input clock of IO `io_idx`
    fn set_in_clock_choice(&self, b: &mut Bitstream, io_idx: u8, val: IOClockMux)
        requires
            self.spec_io_attached(old(b)@),
            io_idx < self.spec_num_ios(),
        ensures
            final(b)@ == self.spec_clk_write(old(b)@, (io_idx * 2 + 1) as u8, val.spec_to_bits()),
            self.spec_io_attached(final(b)@),
            spec_same_aux(old(b)@, final(b)@),
    {
        proof {
            self.lemma_io_bounds();
        }
        self.set_clock_mux(b, io_idx * 2 + 1, val)
    }

    /// Write the local-to-IO mux of the data out of IO `io_idx`
    fn set_local_to_io_out(&self, b: &mut Bitstream, io_idx: u8, val: LocalToIOMux)
        requires
            self.spec_io_attached(old(b)@),
            io_idx < self.spec_num_ios(),
            val.spec_valid(),
        ensures
            final(b)@ == self.spec_l2io_write(old(b)@, self.spec_l2io_index(0, io_idx), val.spec_to_bits()),
            self.spec_io_attached(final(b)@),
            spec_same_aux(old(b)@, final(b)@),
    {
        let i = self.l2io_index(0, io_idx);
        self.set_local_to_io(b, i, val)
    }

    /// Write the local-to-IO mux of the output enable of IO `io_idx`
    fn set_local_to_io_oe(&self, b: &mut Bitstream, io_idx: u8, val: LocalToIOMux)
        requires
            self.spec_io_attached(old(b)@),
            io_idx < self.spec_num_ios(),
            val.spec_valid(),
        ensures
            final(b)@ == self.spec_l2io_write(old(b)@, self.spec_l2io_index(1, io_idx), val.spec_to_bits()),
            self.spec_io_attached(final(b)@),
            spec_same_aux(old(b)@, final(b)@),
    {
        let i = self.l2io_index(1, io_idx);
        self.set_local_to_io(b, i, val)
    }

    /// Write the local-to-IO mux of the output clock enable of IO `io_idx`
    fn set_local_to_out_clk_en(&self, b: &mut Bitstream, io_idx: u8, val: LocalToIOMux)
        requires
            self.spec_io_attached(old(b)@),
            io_idx < self.spec_num_ios(),
            val.spec_valid(),
        ensures
            final(b)@ == self.spec_l2io_write(old(b)@, self.spec_l2io_index(2, io_idx), val.spec_to_bits()),
            self.spec_io_attached(final(b)@),
            spec_same_aux(old(b)@, final(b)@),
    {
        let i = self.l2io_index(2, io_idx);
        self.set_local_to_io(b, i, val)
    }

    /// Write the local-to-IO mux of the input clock enable of IO `io_idx`
    fn set_local_to_in_clk_en(&self, b: &mut Bitstream, io_idx: u8, val: LocalToIOMux)
        requires
            self.spec_io_attached(old(b)@),
            io_idx < self.spec_num_ios(),
            val.spec_valid(),
        ensures
            final(b)@ == self.spec_l2io_write(old(b)@, self.spec_l2io_index(3, io_idx), val.spec_to_bits()),
            self.spec_io_attached(final(b)@),
            spec_same_aux(old(b)@, final(b)@),
    {
        let i = self.l2io_index(3, io_idx);
        self.set_local_to_io(b, i, val)
    }

    /// Write the local-to-IO mux of the async clear of IO `io_idx`
    fn set_local_to_async_clear(&self, b: &mut Bitstream, io_idx: u8, val: LocalToIOMux)
        requires
            self.spec_io_attached(old(b)@),
            io_idx < self.spec_num_ios(),
            val.spec_valid(),
        ensures
            final(b)@ == self.spec_l2io_write(old(b)@, self.spec_l2io_index(4, io_idx), val.spec_to_bits()),
            self.spec_io_attached(final(b)@),
            spec_same_aux(old(b)@, final(b)@),
    {
        let i = self.l2io_index(4, io_idx);
        self.set_local_to_io(b, i, val)
    }

    /// Write the local-to-IO mux of the sync clear of IO `io_idx`
    fn set_local_to_sync_clear(&self, b: &mut Bitstream, io_idx: u8, val: LocalToIOMux)
        requires
            self.spec_io_attached(old(b)@),
            io_idx < self.spec_num_ios(),
            val.spec_valid(),
        ensures
            final(b)@ == self.spec_l2io_write(old(b)@, self.spec_l2io_index(5, io_idx), val.spec_to_bits()),
            self.spec_io_attached(final(b)@),
            spec_same_aux(old(b)@, final(b)@),
    {
        let i = self.l2io_index(5, io_idx);
        self.set_local_to_io(b, i, val)
    }
}
/// Access to a top/bottom IO tile
///
/// The bits of a bottom IO tile (at `y == 0`) are mirrored vertically.
#[derive(Clone, Copy, PartialEq, Eq, Debug, Hash, Structural)]
pub struct TopBottomIOTileRef {
    pub family: Family,
    pub p: TilePos,
}

impl TopBottomIOTileRef {
    /// Can this handle be used to access this bitstream?
    pub open spec fn spec_attached(self, v: BitstreamView) -> bool {
        &&& v.logic_ready()
        &&& v.family == self.family
        &&& spec_tile_type(self.family, self.p) == TileType::TopBottomIO
    }
}

impl TileRefTrait for TopBottomIOTileRef {
    open spec fn spec_family(&self) -> Family {
        self.family
    }

    open spec fn spec_pos(&self) -> TilePos {
        self.p
    }

    open spec fn spec_tile_type(&self) -> TileType {
        TileType::TopBottomIO
    }

    fn family(&self) -> (r: Family) {
        self.family
    }

    fn tile_type(&self) -> (r: TileType) {
        TileType::TopBottomIO
    }

    fn pos(&self) -> (r: TilePos) {
        self.p
    }

    fn as_base_tile(self) -> (r: TileRef) {
        TileRef { family: self.family, p: self.p }
    }
}

impl TopBottomIOTileRef {
    pub fn local_line(&self, b: &Bitstream, idx: u8) -> (r: TopBottomIOLocalMux)
        requires
            self.spec_attached(b@),
            idx < 32,
            TopBottomIOLocalMux::spec_from_bits(spec_read_field(b@, self.p, (TopBottomIOLocalLine { is_bottom: self.p.y == 0, i: idx }), 6)) is Some,
        ensures
            Some(r) == TopBottomIOLocalMux::spec_from_bits(spec_read_field(b@, self.p, (TopBottomIOLocalLine { is_bottom: self.p.y == 0, i: idx }), 6)),
    {
        let fp = TopBottomIOLocalLine { is_bottom: self.p.y == 0, i: idx };
        proof {
            lemma_field_fits(b@.family, self.p, fp, 6);
        }
        let bits = read_field(b, self.p, &fp, 6);
        TopBottomIOLocalMux::from_bits(bits)
    }


    /// Write the field read by [`local_line`](Self::local_line)
    pub fn set_local_line(&self, b: &mut Bitstream, idx: u8, val: TopBottomIOLocalMux)
        requires
            self.spec_attached(old(b)@),
            idx < 32,
            val.spec_valid(),
        ensures
            final(b)@ == spec_write_value(old(b)@, self.p, (TopBottomIOLocalLine { is_bottom: self.p.y == 0, i: idx }), 6, val.spec_to_bits()),
            self.spec_attached(final(b)@),
            spec_same_aux(old(b)@, final(b)@),
    {
        let fp = TopBottomIOLocalLine { is_bottom: self.p.y == 0, i: idx };
        proof {
            lemma_field_fits(b@.family, self.p, fp, 6);
        }
        write_field(b, self.p, &fp, 6, val.to_bits());
    }
}

impl IOTileCommon for TopBottomIOTileRef {
    open spec fn spec_io_attached(&self, v: BitstreamView) -> bool {
        self.spec_attached(v)
    }

    open spec fn spec_num_ios(&self) -> nat {
        4
    }

    open spec fn spec_g2l_bits(&self, v: BitstreamView, idx: u8) -> u32 {
        spec_read_field(v, self.p, (TopBottomIOGlobal2Local { is_bottom: self.p.y == 0, i: idx }), 6)
    }

    open spec fn spec_g2l_write(&self, v: BitstreamView, idx: u8, bits: u32) -> BitstreamView {
        spec_write_value(v, self.p, (TopBottomIOGlobal2Local { is_bottom: self.p.y == 0, i: idx }), 6, bits)
    }

    open spec fn spec_l2c_bits(&self, v: BitstreamView, idx: u8) -> u32 {
        spec_read_field(v, self.p, (TopBottomIOLocal2Clk { is_bottom: self.p.y == 0, i: idx }), 6)
    }

    open spec fn spec_l2c_write(&self, v: BitstreamView, idx: u8, bits: u32) -> BitstreamView {
        spec_write_value(v, self.p, (TopBottomIOLocal2Clk { is_bottom: self.p.y == 0, i: idx }), 6, bits)
    }

    open spec fn spec_l2io_bits(&self, v: BitstreamView, custom_idx: u8) -> u32 {
        spec_read_field(v, self.p, (TopBottomIOLocal2IO { is_bottom: self.p.y == 0, i: custom_idx }), 7)
    }

    open spec fn spec_l2io_write(&self, v: BitstreamView, custom_idx: u8, bits: u32) -> BitstreamView {
        spec_write_value(v, self.p, (TopBottomIOLocal2IO { is_bottom: self.p.y == 0, i: custom_idx }), 7, bits)
    }

    open spec fn spec_clk_bits(&self, v: BitstreamView, idx: u8) -> u32 {
        spec_read_field(v, self.p, (TopBottomIOClockMux { is_bottom: self.p.y == 0, i: idx }), 3)
    }

    open spec fn spec_clk_write(&self, v: BitstreamView, idx: u8, bits: u32) -> BitstreamView {
        spec_write_value(v, self.p, (TopBottomIOClockMux { is_bottom: self.p.y == 0, i: idx }), 3, bits)
    }

    open spec fn spec_out_bits(&self, v: BitstreamView, io_idx: u8, out_idx: u8) -> u32 {
        spec_read_field(v, self.p, (TopBottomIOOutMux { is_bottom: self.p.y == 0, i: (io_idx * 2 + out_idx) as u8 }), 1)
    }

    open spec fn spec_out_write(&self, v: BitstreamView, io_idx: u8, out_idx: u8, bits: u32) -> BitstreamView {
        spec_write_value(v, self.p, (TopBottomIOOutMux { is_bottom: self.p.y == 0, i: (io_idx * 2 + out_idx) as u8 }), 1, bits)
    }

    open spec fn spec_delay_bits(&self, v: BitstreamView, io_idx: u8) -> u32 {
        spec_read_field(v, self.p, (TopBottomIOInDaDelay { is_bottom: self.p.y == 0, i: io_idx }), 3)
    }

    open spec fn spec_delay_write(&self, v: BitstreamView, io_idx: u8, bits: u32) -> BitstreamView {
        spec_write_value(v, self.p, (TopBottomIOInDaDelay { is_bottom: self.p.y == 0, i: io_idx }), 3, bits)
    }

    open spec fn spec_l2io_index(&self, kind: u8, io_idx: u8) -> u8 {
        let t: (u8, u8, u8, u8) = if kind == 0 {
            (0, 1, 7, 6)
        } else if kind == 1 {
            (2, 3, 5, 4)
        } else if kind == 2 {
            (10, 11, 13, 12)
        } else if kind == 3 {
            (8, 9, 15, 14)
        } else if kind == 4 {
            (16, 17, 23, 22)
        } else {
            (18, 19, 21, 20)
        };
        if io_idx == 0 {
            t.0
        } else if io_idx == 1 {
            t.1
        } else if io_idx == 2 {
            t.2
        } else {
            t.3
        }
    }

    proof fn lemma_io_bounds(&self) {
    }

    fn num_ios(&self) -> (r: u8) {
        4
    }

    fn l2io_index(&self, kind: u8, io_idx: u8) -> (r: u8) {
        let t: (u8, u8, u8, u8) = if kind == 0 {
            (0, 1, 7, 6)
        } else if kind == 1 {
            (2, 3, 5, 4)
        } else if kind == 2 {
            (10, 11, 13, 12)
        } else if kind == 3 {
            (8, 9, 15, 14)
        } else if kind == 4 {
            (16, 17, 23, 22)
        } else {
            (18, 19, 21, 20)
        };
        if io_idx == 0 {
            t.0
        } else if io_idx == 1 {
            t.1
        } else if io_idx == 2 {
            t.2
        } else {
            t.3
        }
    }

    fn global_to_local(&self, b: &Bitstream, idx: u8) -> (r: GlobalToLocalMux) {
        let is_bottom = self.p.y == 0;
        let fp = TopBottomIOGlobal2Local { is_bottom, i: idx };
        proof {
            lemma_field_fits(b@.family, self.p, fp, 6);
        }
        let bits = read_field(b, self.p, &fp, 6);
        GlobalToLocalMux::from_bits(bits)
    }

    fn local_to_clock(&self, b: &Bitstream, idx: u8) -> (r: IOLocalToClockMux) {
        let is_bottom = self.p.y == 0;
        let fp = TopBottomIOLocal2Clk { is_bottom, i: idx };
        proof {
            lemma_field_fits(b@.family, self.p, fp, 6);
        }
        let bits = read_field(b, self.p, &fp, 6);
        IOLocalToClockMux::from_bits(bits)
    }

    fn local_to_io(&self, b: &Bitstream, custom_idx: u8) -> (r: LocalToIOMux) {
        let is_bottom = self.p.y == 0;
        let fp = TopBottomIOLocal2IO { is_bottom, i: custom_idx };
        proof {
            lemma_field_fits(b@.family, self.p, fp, 7);
        }
        let bits = read_field(b, self.p, &fp, 7);
        LocalToIOMux::from_bits(bits)
    }

    fn clock_mux(&self, b: &Bitstream, idx: u8) -> (r: IOClockMux) {
        let is_bottom = self.p.y == 0;
        let fp = TopBottomIOClockMux { is_bottom, i: idx };
        proof {
            lemma_field_fits(b@.family, self.p, fp, 3);
        }
        let bits = read_field(b, self.p, &fp, 3);
        IOClockMux::from_bits(bits)
    }

    fn out_mux(&self, b: &Bitstream, io_idx: u8, out_idx: u8) -> (r: OMUX) {
        let is_bottom = self.p.y == 0;
        let fp = TopBottomIOOutMux { is_bottom, i: io_idx * 2 + out_idx };
        proof {
            lemma_field_fits(b@.family, self.p, fp, 1);
        }
        let bits = read_field(b, self.p, &fp, 1);
        proof {
            lemma_bits_value_one(crate::field::spec_field_bits(b@, self.p, crate::field::spec_positions(fp, 1)));
        }
        OMUX::from_bits(bits)
    }

    fn in_data_delay(&self, b: &Bitstream, io_idx: u8) -> (r: u8) {
        let is_bottom = self.p.y == 0;
        let fp = TopBottomIOInDaDelay { is_bottom, i: io_idx };
        proof {
            lemma_field_fits(b@.family, self.p, fp, 3);
        }
        read_field(b, self.p, &fp, 3) as u8
    }
}

impl IOTileCommonMut for TopBottomIOTileRef {
    fn set_global_to_local(&self, b: &mut Bitstream, idx: u8, val: GlobalToLocalMux) {
        let is_bottom = self.p.y == 0;
        let fp = TopBottomIOGlobal2Local { is_bottom, i: idx };
        proof {
            lemma_field_fits(b@.family, self.p, fp, 6);
        }
        write_field(b, self.p, &fp, 6, val.to_bits());
    }

    proof fn lemma_g2l_write_read(&self, v: BitstreamView, idx: u8, bits: u32) {
        let fp = TopBottomIOGlobal2Local { is_bottom: self.p.y == 0, i: idx };
        lemma_field_fits(v.family, self.p, fp, 6);
        lemma_fits_bits_iff_lt(bits, 6);
        lemma_shift_table();
        lemma_write_read_value(v, self.p, fp, 6, bits);
    }

    fn set_local_to_clock(&self, b: &mut Bitstream, idx: u8, val: IOLocalToClockMux) {
        let is_bottom = self.p.y == 0;
        let fp = TopBottomIOLocal2Clk { is_bottom, i: idx };
        proof {
            lemma_field_fits(b@.family, self.p, fp, 6);
        }
        write_field(b, self.p, &fp, 6, val.to_bits());
    }

    proof fn lemma_l2c_write_read(&self, v: BitstreamView, idx: u8, bits: u32) {
        let fp = TopBottomIOLocal2Clk { is_bottom: self.p.y == 0, i: idx };
        lemma_field_fits(v.family, self.p, fp, 6);
        lemma_fits_bits_iff_lt(bits, 6);
        lemma_shift_table();
        lemma_write_read_value(v, self.p, fp, 6, bits);
    }

    fn set_local_to_io(&self, b: &mut Bitstream, custom_idx: u8, val: LocalToIOMux) {
        let is_bottom = self.p.y == 0;
        let fp = TopBottomIOLocal2IO { is_bottom, i: custom_idx };
        proof {
            lemma_field_fits(b@.family, self.p, fp, 7);
        }
        write_field(b, self.p, &fp, 7, val.to_bits());
    }

    proof fn lemma_l2io_write_read(&self, v: BitstreamView, custom_idx: u8, bits: u32) {
        let fp = TopBottomIOLocal2IO { is_bottom: self.p.y == 0, i: custom_idx };
        lemma_field_fits(v.family, self.p, fp, 7);
        lemma_fits_bits_iff_lt(bits, 7);
        lemma_shift_table();
        lemma_write_read_value(v, self.p, fp, 7, bits);
    }

    fn set_clock_mux(&self, b: &mut Bitstream, idx: u8, val: IOClockMux) {
        let is_bottom = self.p.y == 0;
        let fp = TopBottomIOClockMux { is_bottom, i: idx };
        proof {
            lemma_field_fits(b@.family, self.p, fp, 3);
        }
        write_field(b, self.p, &fp, 3, val.to_bits());
    }

    proof fn lemma_clk_write_read(&self, v: BitstreamView, idx: u8, bits: u32) {
        let fp = TopBottomIOClockMux { is_bottom: self.p.y == 0, i: idx };
        lemma_field_fits(v.family, self.p, fp, 3);
        lemma_fits_bits_iff_lt(bits, 3);
        lemma_shift_table();
        lemma_write_read_value(v, self.p, fp, 3, bits);
    }

    fn set_out_mux(&self, b: &mut Bitstream, io_idx: u8, out_idx: u8, val: OMUX) {
        let is_bottom = self.p.y == 0;
        let fp = TopBottomIOOutMux { is_bottom, i: io_idx * 2 + out_idx };
        proof {
            lemma_field_fits(b@.family, self.p, fp, 1);
        }
        write_field(b, self.p, &fp, 1, val.to_bits());
    }

    fn set_in_data_delay(&self, b: &mut Bitstream, io_idx: u8, val: u8) {
        let is_bottom = self.p.y == 0;
        let fp = TopBottomIOInDaDelay { is_bottom, i: io_idx };
        proof {
            lemma_field_fits(b@.family, self.p, fp, 3);
        }
        write_field(b, self.p, &fp, 3, val as u32);
    }
}
/// Access to a left/right IO tile
#[derive(Clone, Copy, PartialEq, Eq, Debug, Hash, Structural)]
pub struct LeftRightIOTileRef {
    pub family: Family,
    pub p: TilePos,
}

impl LeftRightIOTileRef {
    /// Can this handle be used to access this bitstream?
    pub open spec fn spec_attached(self, v: BitstreamView) -> bool {
        &&& v.logic_ready()
        &&& v.family == self.family
        &&& spec_tile_type(self.family, self.p) == TileType::LeftRightIO
    }
}

impl TileRefTrait for LeftRightIOTileRef {
    open spec fn spec_family(&self) -> Family {
        self.family
    }

    open spec fn spec_pos(&self) -> TilePos {
        self.p
    }

    open spec fn spec_tile_type(&self) -> TileType {
        TileType::LeftRightIO
    }

    fn family(&self) -> (r: Family) {
        self.family
    }

    fn tile_type(&self) -> (r: TileType) {
        TileType::LeftRightIO
    }

    fn pos(&self) -> (r: TilePos) {
        self.p
    }

    fn as_base_tile(self) -> (r: TileRef) {
        TileRef { family: self.family, p: self.p }
    }
}

impl LeftRightIOTileRef {
    pub fn local_line(&self, b: &Bitstream, idx: u8) -> (r: LeftRightIOLocalMux)
        requires
            self.spec_attached(b@),
            idx < 48,
            LeftRightIOLocalMux::spec_from_bits(spec_read_field(b@, self.p, (LeftRightIOLocalLine { i: idx }), 7)) is Some,
        ensures
            Some(r) == LeftRightIOLocalMux::spec_from_bits(spec_read_field(b@, self.p, (LeftRightIOLocalLine { i: idx }), 7)),
    {
        let fp = LeftRightIOLocalLine { i: idx };
        proof {
            lemma_field_fits(b@.family, self.p, fp, 7);
        }
        let bits = read_field(b, self.p, &fp, 7);
        LeftRightIOLocalMux::from_bits(bits)
    }


    /// Write the field read by [`local_line`](Self::local_line)
    pub fn set_local_line(&self, b: &mut Bitstream, idx: u8, val: LeftRightIOLocalMux)
        requires
            self.spec_attached(old(b)@),
            idx < 48,
            val.spec_valid(),
        ensures
            final(b)@ == spec_write_value(old(b)@, self.p, (LeftRightIOLocalLine { i: idx }), 7, val.spec_to_bits()),
            self.spec_attached(final(b)@),
            spec_same_aux(old(b)@, final(b)@),
    {
        let fp = LeftRightIOLocalLine { i: idx };
        proof {
            lemma_field_fits(b@.family, self.p, fp, 7);
        }
        write_field(b, self.p, &fp, 7, val.to_bits());
    }
}

impl IOTileCommon for LeftRightIOTileRef {
    open spec fn spec_io_attached(&self, v: BitstreamView) -> bool {
        self.spec_attached(v)
    }

    open spec fn spec_num_ios(&self) -> nat {
        6
    }

    open spec fn spec_g2l_bits(&self, v: BitstreamView, idx: u8) -> u32 {
        spec_read_field(v, self.p, (LeftRightIOGlobal2Local { i: idx }), 6)
    }

    open spec fn spec_g2l_write(&self, v: BitstreamView, idx: u8, bits: u32) -> BitstreamView {
        spec_write_value(v, self.p, (LeftRightIOGlobal2Local { i: idx }), 6, bits)
    }

    open spec fn spec_l2c_bits(&self, v: BitstreamView, idx: u8) -> u32 {
        spec_read_field(v, self.p, (LeftRightIOLocal2Clk { i: idx }), 6)
    }

    open spec fn spec_l2c_write(&self, v: BitstreamView, idx: u8, bits: u32) -> BitstreamView {
        spec_write_value(v, self.p, (LeftRightIOLocal2Clk { i: idx }), 6, bits)
    }

    open spec fn spec_l2io_bits(&self, v: BitstreamView, custom_idx: u8) -> u32 {
        spec_read_field(v, self.p, (LeftRightIOLocal2IO { i: custom_idx }), 7)
    }

    open spec fn spec_l2io_write(&self, v: BitstreamView, custom_idx: u8, bits: u32) -> BitstreamView {
        spec_write_value(v, self.p, (LeftRightIOLocal2IO { i: custom_idx }), 7, bits)
    }

    open spec fn spec_clk_bits(&self, v: BitstreamView, idx: u8) -> u32 {
        spec_read_field(v, self.p, (LeftRightIOClockMux { i: idx }), 3)
    }

    open spec fn spec_clk_write(&self, v: BitstreamView, idx: u8, bits: u32) -> BitstreamView {
        spec_write_value(v, self.p, (LeftRightIOClockMux { i: idx }), 3, bits)
    }

    open spec fn spec_out_bits(&self, v: BitstreamView, io_idx: u8, out_idx: u8) -> u32 {
        spec_read_field(v, self.p, (BitAt { x: 3, y: spec_lr_out_row((io_idx * 2 + out_idx) as u8) }), 1)
    }

    open spec fn spec_out_write(&self, v: BitstreamView, io_idx: u8, out_idx: u8, bits: u32) -> BitstreamView {
        spec_write_value(v, self.p, (BitAt { x: 3, y: spec_lr_out_row((io_idx * 2 + out_idx) as u8) }), 1, bits)
    }

    open spec fn spec_delay_bits(&self, v: BitstreamView, io_idx: u8) -> u32 {
        spec_read_field(v, self.p, (LeftRightIOInDaDelay { i: io_idx }), 3)
    }

    open spec fn spec_delay_write(&self, v: BitstreamView, io_idx: u8, bits: u32) -> BitstreamView {
        spec_write_value(v, self.p, (LeftRightIOInDaDelay { i: io_idx }), 3, bits)
    }

    open spec fn spec_l2io_index(&self, kind: u8, io_idx: u8) -> u8 {
        if kind == 0 {
            (16 + io_idx) as u8
        } else if kind == 3 {
            (30 + io_idx) as u8
        } else if kind == 4 {
            (8 + io_idx) as u8
        } else {
            let t: (u8, u8, u8, u8, u8, u8) = if kind == 1 {
                (22, 23, 0, 1, 2, 3)
            } else if kind == 2 {
                (4, 5, 6, 7, 28, 29)
            } else {
                (14, 15, 24, 25, 26, 27)
            };
            if io_idx == 0 {
                t.0
            } else if io_idx == 1 {
                t.1
            } else if io_idx == 2 {
                t.2
            } else if io_idx == 3 {
                t.3
            } else if io_idx == 4 {
                t.4
            } else {
                t.5
            }
        }
    }

    proof fn lemma_io_bounds(&self) {
    }

    fn num_ios(&self) -> (r: u8) {
        6
    }

    fn l2io_index(&self, kind: u8, io_idx: u8) -> (r: u8) {
        if kind == 0 {
            16 + io_idx
        } else if kind == 3 {
            30 + io_idx
        } else if kind == 4 {
            8 + io_idx
        } else {
            let t: (u8, u8, u8, u8, u8, u8) = if kind == 1 {
                (22, 23, 0, 1, 2, 3)
            } else if kind == 2 {
                (4, 5, 6, 7, 28, 29)
            } else {
                (14, 15, 24, 25, 26, 27)
            };
            if io_idx == 0 {
                t.0
            } else if io_idx == 1 {
                t.1
            } else if io_idx == 2 {
                t.2
            } else if io_idx == 3 {
                t.3
            } else if io_idx == 4 {
                t.4
            } else {
                t.5
            }
        }
    }

    fn global_to_local(&self, b: &Bitstream, idx: u8) -> (r: GlobalToLocalMux) {
        let fp = LeftRightIOGlobal2Local { i: idx };
        proof {
            lemma_field_fits(b@.family, self.p, fp, 6);
        }
        let bits = read_field(b, self.p, &fp, 6);
        GlobalToLocalMux::from_bits(bits)
    }

    fn local_to_clock(&self, b: &Bitstream, idx: u8) -> (r: IOLocalToClockMux) {
        let fp = LeftRightIOLocal2Clk { i: idx };
        proof {
            lemma_field_fits(b@.family, self.p, fp, 6);
        }
        let bits = read_field(b, self.p, &fp, 6);
        IOLocalToClockMux::from_bits(bits)
    }

    fn local_to_io(&self, b: &Bitstream, custom_idx: u8) -> (r: LocalToIOMux) {
        let fp = LeftRightIOLocal2IO { i: custom_idx };
        proof {
            lemma_field_fits(b@.family, self.p, fp, 7);
        }
        let bits = read_field(b, self.p, &fp, 7);
        LocalToIOMux::from_bits(bits)
    }

    fn clock_mux(&self, b: &Bitstream, idx: u8) -> (r: IOClockMux) {
        let fp = LeftRightIOClockMux { i: idx };
        proof {
            lemma_field_fits(b@.family, self.p, fp, 3);
        }
        let bits = read_field(b, self.p, &fp, 3);
        IOClockMux::from_bits(bits)
    }

    fn out_mux(&self, b: &Bitstream, io_idx: u8, out_idx: u8) -> (r: OMUX) {
        let fp = BitAt { x: 3, y: lr_out_row(io_idx * 2 + out_idx) };
        proof {
            lemma_field_fits(b@.family, self.p, fp, 1);
        }
        let bits = read_field(b, self.p, &fp, 1);
        proof {
            lemma_bits_value_one(crate::field::spec_field_bits(b@, self.p, crate::field::spec_positions(fp, 1)));
        }
        OMUX::from_bits(bits)
    }

    fn in_data_delay(&self, b: &Bitstream, io_idx: u8) -> (r: u8) {
        let fp = LeftRightIOInDaDelay { i: io_idx };
        proof {
            lemma_field_fits(b@.family, self.p, fp, 3);
        }
        read_field(b, self.p, &fp, 3) as u8
    }
}

impl IOTileCommonMut for LeftRightIOTileRef {
    fn set_global_to_local(&self, b: &mut Bitstream, idx: u8, val: GlobalToLocalMux) {
        let fp = LeftRightIOGlobal2Local { i: idx };
        proof {
            lemma_field_fits(b@.family, self.p, fp, 6);
        }
        write_field(b, self.p, &fp, 6, val.to_bits());
    }

    proof fn lemma_g2l_write_read(&self, v: BitstreamView, idx: u8, bits: u32) {
        let fp = LeftRightIOGlobal2Local { i: idx };
        lemma_field_fits(v.family, self.p, fp, 6);
        lemma_fits_bits_iff_lt(bits, 6);
        lemma_shift_table();
        lemma_write_read_value(v, self.p, fp, 6, bits);
    }

    fn set_local_to_clock(&self, b: &mut Bitstream, idx: u8, val: IOLocalToClockMux) {
        let fp = LeftRightIOLocal2Clk { i: idx };
        proof {
            lemma_field_fits(b@.family, self.p, fp, 6);
        }
        write_field(b, self.p, &fp, 6, val.to_bits());
    }

    proof fn lemma_l2c_write_read(&self, v: BitstreamView, idx: u8, bits: u32) {
        let fp = LeftRightIOLocal2Clk { i: idx };
        lemma_field_fits(v.family, self.p, fp, 6);
        lemma_fits_bits_iff_lt(bits, 6);
        lemma_shift_table();
        lemma_write_read_value(v, self.p, fp, 6, bits);
    }

    fn set_local_to_io(&self, b: &mut Bitstream, custom_idx: u8, val: LocalToIOMux) {
        let fp = LeftRightIOLocal2IO { i: custom_idx };
        proof {
            lemma_field_fits(b@.family, self.p, fp, 7);
        }
        write_field(b, self.p, &fp, 7, val.to_bits());
    }

    proof fn lemma_l2io_write_read(&self, v: BitstreamView, custom_idx: u8, bits: u32) {
        let fp = LeftRightIOLocal2IO { i: custom_idx };
        lemma_field_fits(v.family, self.p, fp, 7);
        lemma_fits_bits_iff_lt(bits, 7);
        lemma_shift_table();
        lemma_write_read_value(v, self.p, fp, 7, bits);
    }

    fn set_clock_mux(&self, b: &mut Bitstream, idx: u8, val: IOClockMux) {
        let fp = LeftRightIOClockMux { i: idx };
        proof {
            lemma_field_fits(b@.family, self.p, fp, 3);
        }
        write_field(b, self.p, &fp, 3, val.to_bits());
    }

    proof fn lemma_clk_write_read(&self, v: BitstreamView, idx: u8, bits: u32) {
        let fp = LeftRightIOClockMux { i: idx };
        lemma_field_fits(v.family, self.p, fp, 3);
        lemma_fits_bits_iff_lt(bits, 3);
        lemma_shift_table();
        lemma_write_read_value(v, self.p, fp, 3, bits);
    }

    fn set_out_mux(&self, b: &mut Bitstream, io_idx: u8, out_idx: u8, val: OMUX) {
        let fp = BitAt { x: 3, y: lr_out_row(io_idx * 2 + out_idx) };
        proof {
            lemma_field_fits(b@.family, self.p, fp, 1);
        }
        write_field(b, self.p, &fp, 1, val.to_bits());
    }

    fn set_in_data_delay(&self, b: &mut Bitstream, io_idx: u8, val: u8) {
        let fp = LeftRightIOInDaDelay { i: io_idx };
        proof {
            lemma_field_fits(b@.family, self.p, fp, 3);
        }
        write_field(b, self.p, &fp, 3, val as u32);
    }
}

} // verus!
