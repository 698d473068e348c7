//! Inputs from routing to logic or BRAM
//!
//! This defines common mux bit related stuff,
//! but it defers the actual accessor functions to the logic/BRAM tiles.
//! This is because the _logical_ purpose of the inputs is very different.

use vstd::prelude::*;

use crate::bitmux::{
    lemma_shift_table, lemma_twohot_roundtrip, lemma_twohot_shape, spec_twohot, spec_twohot_decode,
    twohot_bits, twohot_decode,
};
use crate::coordinates::TileRelativeBitPos;
use crate::field::FieldPositionCalculator;

verus! {

/// The 6 wide by 2 high block of bits of one `IMUX`: the cell `(x, y)` of bit `biti`
pub open spec fn spec_imux_cell(biti: int) -> (int, int) {
    if biti == 0 {
        (0, 0)
    } else if biti == 1 {
        (0, 1)
    } else if biti == 2 {
        (1, 0)
    } else if biti == 3 {
        (1, 1)
    } else if biti == 4 {
        (2, 0)
    } else if biti == 5 {
        (2, 1)
    } else if biti == 6 {
        (3, 0)
    } else if biti == 7 {
        (3, 1)
    } else if biti == 8 {
        (4, 0)
    } else if biti == 9 {
        (5, 0)
    } else if biti == 10 {
        (5, 1)
    } else {
        (4, 1)
    }
}

fn imux_cell(biti: usize) -> (r: (u8, u8))
    requires
        biti < 12,
    ensures
        r.0 == spec_imux_cell(biti as int).0,
        r.1 == spec_imux_cell(biti as int).1,
{
    match biti {
        0 => (0, 0),
        1 => (0, 1),
        2 => (1, 0),
        3 => (1, 1),
        4 => (2, 0),
        5 => (2, 1),
        6 => (3, 0),
        7 => (3, 1),
        8 => (4, 0),
        9 => (5, 0),
        10 => (5, 1),
        _ => (4, 1),
    }
}

proof fn lemma_imux_cell()
    ensures
        forall|i: int| 0 <= i < 12 ==> 0 <= (#[trigger] spec_imux_cell(i)).0 <= 5 && 0 <= spec_imux_cell(i).1 <= 1,
        forall|i: int, j: int| 0 <= i < j < 12 ==> #[trigger] spec_imux_cell(i) != #[trigger] spec_imux_cell(j),
{
    assert forall|i: int, j: int| 0 <= i < j < 12 implies #[trigger] spec_imux_cell(i) != #[trigger] spec_imux_cell(j) by {
        if i == 0 {
        } else if i == 1 {
        } else if i == 2 {
        } else if i == 3 {
        } else if i == 4 {
        } else if i == 5 {
        } else if i == 6 {
        } else if i == 7 {
        } else if i == 8 {
        } else if i == 9 {
        } else if i == 10 {
        } else if i == 11 {
        }
    }
}

/// Where the bits of `IMUX` `i` sit
///
/// There are 64 IMUXes per tile, which we _logically_ group as 16x 4 in logic tiles,
/// but which are _physically_ grouped as 2 columns of 32 (with a gap in the middle).
/// The second column also has its bits mirrored relative to the first column.
pub struct IMUXRef {
    pub is_bram: bool,
    pub i: u8,
}

impl FieldPositionCalculator for IMUXRef {
    open spec fn spec_valid(&self) -> bool {
        self.i < 64
    }

    open spec fn spec_nbits(&self) -> nat {
        12
    }

    open spec fn spec_bit_pos(&self, biti: int) -> TileRelativeBitPos {
        let row = self.i / 2;
        let col = self.i % 2;
        // these tiles all have a 4-row gap in the middle for global routing bits
        let y_offs = row * 2 + if self.i >= 32 { 4int } else { 0 };
        let (xbase, dy) = spec_imux_cell(biti);
        // + 15 to skip over RMUX
        let x = (if col == 0 { xbase } else { 11 - xbase }) + 15;
        TileRelativeBitPos {
            y: (y_offs + dy) as u8,
            x: (x + if self.is_bram { 1int } else { 0 }) as u8,
        }
    }

    open spec fn spec_width(&self) -> int {
        28
    }

    open spec fn spec_height(&self) -> int {
        68
    }

    proof fn lemma_layout(&self) {
        lemma_imux_cell();
    }

    fn get_bit_pos(&self, biti: usize) -> (r: TileRelativeBitPos) {
        proof {
            lemma_imux_cell();
        }
        let row = self.i / 2;
        let col = self.i % 2;
        let mut y_offs: u8 = row * 2;
        if self.i >= 32 {
            y_offs = y_offs + 4;
        }
        let (xbase, dy) = imux_cell(biti);
        let mut x: u8 = if col == 0 {
            xbase
        } else {
            11 - xbase
        } + 15;
        if self.is_bram {
            x = x + 1;
        }
        TileRelativeBitPos { y: y_offs + dy, x }
    }
}

/// A mux routing a local line into a LUT or BRAM input
///
/// It is either unprogrammed or selects one of 27 inputs, by a "two-hot" code of
/// 3 outer and 9 inner choices.
#[derive(Clone, Copy, PartialEq, Eq, Debug, Hash, Structural)]
pub enum IMUX {
    /// Not programmed
    Unset,
    /// Input `i`
    I(u8),
}

impl IMUX {
    /// The setting held by the bits of the field, if they hold a valid one
    pub open spec fn spec_from_bits(bits: u32) -> Option<IMUX> {
        if bits == 0 {
            Some(IMUX::Unset)
        } else {
            match spec_twohot_decode(3, 9, bits) {
                Some(v) => Some(IMUX::I(v as u8)),
                None => None,
            }
        }
    }

    /// Can this setting be written?
    pub open spec fn spec_valid(self) -> bool {
        match self {
            IMUX::Unset => true,
            IMUX::I(i) => i < 27,
        }
    }

    /// The bits that hold this setting
    pub open spec fn spec_to_bits(self) -> u32 {
        match self {
            IMUX::Unset => 0,
            IMUX::I(i) => spec_twohot(9, i as u32),
        }
    }

    /// Decode the bits of the field, which hold a setting
    pub fn from_bits(bits: u32) -> (r: IMUX)
        requires
            IMUX::spec_from_bits(bits) is Some,
        ensures
            Some(r) == IMUX::spec_from_bits(bits),
    {
        if bits == 0 {
            return IMUX::Unset;
        }
        match twohot_decode(3, 9, bits) {
            Some(v) => IMUX::I(v as u8),
            // not reached: the bits hold a setting
            None => IMUX::Unset,
        }
    }

    /// Encode the setting into the bits of the field
    pub fn to_bits(self) -> (r: u32)
        requires
            self.spec_valid(),
        ensures
            r == self.spec_to_bits(),
    {
        match self {
            IMUX::Unset => 0,
            IMUX::I(i) => {
                twohot_bits(3, 9, i as u32)
            },
        }
    }
}

impl Default for IMUX {
    fn default() -> (r: Self)
        ensures
            r == IMUX::Unset,
    {
        IMUX::Unset
    }
}

/// Decoding the bits of a valid `IMUX` gives it back, and the bits fit in 12 bits.
pub proof fn lemma_imux_roundtrip(x: IMUX)
    requires
        x.spec_valid(),
    ensures
        IMUX::spec_from_bits(x.spec_to_bits()) == Some(x),
        x.spec_to_bits() < 4096,
{
    lemma_shift_table();
    match x {
        IMUX::Unset => {},
        IMUX::I(i) => {
                lemma_twohot_roundtrip(3, 9, i as u32);
                lemma_twohot_shape(3, 9, i as u32, 0);
        },
    }
}

} // verus!
