//! Settings which control the IO pad ring
//!
//! The pad ring settings of the AGRV2K are in array group 1 chain 0, 10 bits per pad
//! (with a few gaps), counting down from the end of the array.

use vstd::prelude::*;

use crate::bitfield::{bit_of, bits_value, fits_bits, get_bit_of, lemma_fits_bits_iff_lt, push_bit};
use crate::bitmux::lemma_shift_table;
use crate::container::{spec_chain_len, spec_with_chain, Bitstream, BitstreamView};
use crate::coordinates::TilePos;

verus! {

/// The index (in array group 1 chain 0) of the first setting bit of pad `pad_i`
pub open spec fn spec_pad_bit_index(pad_i: u8) -> int {
    let p = pad_i as int;
    833 - (p * 10 + (if p >= 22 { 2int } else { 0 }) + (if p >= 38 { 1int } else { 0 }) + (if p >= 40 {
        10int
    } else {
        0
    }) + (if p >= 43 { 13int } else { 0 }) + (if p >= 52 { 15int } else { 0 }) + (if p >= 59 {
        3int
    } else {
        0
    }))
}

/// The index (in array group 1 chain 0) of the first setting bit of pad `pad_i`
///
/// The gaps are for wakeup, boot0, osc, mipi_rx, mipi_tx and usb.
pub fn pad_i_to_bit_i(pad_i: u8) -> (r: usize)
    requires
        pad_i < 79,
    ensures
        r == spec_pad_bit_index(pad_i),
        9 <= r <= 833,
{
    let mut base_offset: usize = pad_i as usize * 10;
    if pad_i >= 22 {
        base_offset += 2;  // wakeup
    }
    if pad_i >= 38 {
        base_offset += 1;  // boot0
    }
    if pad_i >= 40 {
        base_offset += 10;  // osc
    }
    if pad_i >= 43 {
        base_offset += 13;  // mipi_rx
    }
    if pad_i >= 52 {
        base_offset += 15;  // mipi_tx
    }
    if pad_i >= 59 {
        base_offset += 3;  // usb
    }
    833 - base_offset
}

/// The number of pads in the pad ring
pub const PADRING_LEN: u8 = 79;

/// The IO tile and site of pad `pad_i` of the pad ring
pub open spec fn spec_padring_to_tile(pad_i: u8) -> (TilePos, u8) {
    if pad_i == 0 {
        (TilePos { x: 14, y: 13 }, 0)
    } else if pad_i == 1 {
        (TilePos { x: 14, y: 13 }, 2)
    } else if pad_i == 2 {
        (TilePos { x: 15, y: 13 }, 0)
    } else if pad_i == 3 {
        (TilePos { x: 15, y: 13 }, 2)
    } else if pad_i == 4 {
        (TilePos { x: 15, y: 13 }, 3)
    } else if pad_i == 5 {
        (TilePos { x: 16, y: 13 }, 0)
    } else if pad_i == 6 {
        (TilePos { x: 16, y: 13 }, 1)
    } else if pad_i == 7 {
        (TilePos { x: 16, y: 13 }, 2)
    } else if pad_i == 8 {
        (TilePos { x: 16, y: 13 }, 3)
    } else if pad_i == 9 {
        (TilePos { x: 17, y: 13 }, 0)
    } else if pad_i == 10 {
        (TilePos { x: 17, y: 13 }, 1)
    } else if pad_i == 11 {
        (TilePos { x: 17, y: 13 }, 2)
    } else if pad_i == 12 {
        (TilePos { x: 17, y: 13 }, 3)
    } else if pad_i == 13 {
        (TilePos { x: 18, y: 13 }, 0)
    } else if pad_i == 14 {
        (TilePos { x: 18, y: 13 }, 1)
    } else if pad_i == 15 {
        (TilePos { x: 18, y: 13 }, 2)
    } else if pad_i == 16 {
        (TilePos { x: 18, y: 13 }, 3)
    } else if pad_i == 17 {
        (TilePos { x: 19, y: 13 }, 0)
    } else if pad_i == 18 {
        (TilePos { x: 19, y: 13 }, 1)
    } else if pad_i == 19 {
        (TilePos { x: 19, y: 13 }, 2)
    } else if pad_i == 20 {
        (TilePos { x: 19, y: 13 }, 3)
    } else if pad_i == 21 {
        (TilePos { x: 20, y: 13 }, 1)
    } else if pad_i == 22 {
        (TilePos { x: 20, y: 13 }, 2)
    } else if pad_i == 23 {
        (TilePos { x: 20, y: 13 }, 3)
    } else if pad_i == 24 {
        (TilePos { x: 22, y: 3 }, 0)
    } else if pad_i == 25 {
        (TilePos { x: 22, y: 3 }, 1)
    } else if pad_i == 26 {
        (TilePos { x: 22, y: 3 }, 2)
    } else if pad_i == 27 {
        (TilePos { x: 22, y: 3 }, 3)
    } else if pad_i == 28 {
        (TilePos { x: 22, y: 2 }, 3)
    } else if pad_i == 29 {
        (TilePos { x: 22, y: 2 }, 5)
    } else if pad_i == 30 {
        (TilePos { x: 22, y: 1 }, 0)
    } else if pad_i == 31 {
        (TilePos { x: 22, y: 1 }, 2)
    } else if pad_i == 32 {
        (TilePos { x: 22, y: 1 }, 3)
    } else if pad_i == 33 {
        (TilePos { x: 22, y: 1 }, 4)
    } else if pad_i == 34 {
        (TilePos { x: 20, y: 0 }, 2)
    } else if pad_i == 35 {
        (TilePos { x: 20, y: 0 }, 0)
    } else if pad_i == 36 {
        (TilePos { x: 19, y: 0 }, 3)
    } else if pad_i == 37 {
        (TilePos { x: 19, y: 0 }, 1)
    } else if pad_i == 38 {
        (TilePos { x: 18, y: 0 }, 1)
    } else if pad_i == 39 {
        (TilePos { x: 18, y: 0 }, 0)
    } else if pad_i == 40 {
        (TilePos { x: 17, y: 0 }, 2)
    } else if pad_i == 41 {
        (TilePos { x: 17, y: 0 }, 1)
    } else if pad_i == 42 {
        (TilePos { x: 17, y: 0 }, 0)
    } else if pad_i == 43 {
        (TilePos { x: 8, y: 0 }, 3)
    } else if pad_i == 44 {
        (TilePos { x: 8, y: 0 }, 2)
    } else if pad_i == 45 {
        (TilePos { x: 8, y: 0 }, 1)
    } else if pad_i == 46 {
        (TilePos { x: 8, y: 0 }, 0)
    } else if pad_i == 47 {
        (TilePos { x: 7, y: 0 }, 3)
    } else if pad_i == 48 {
        (TilePos { x: 7, y: 0 }, 1)
    } else if pad_i == 49 {
        (TilePos { x: 7, y: 0 }, 0)
    } else if pad_i == 50 {
        (TilePos { x: 6, y: 0 }, 3)
    } else if pad_i == 51 {
        (TilePos { x: 6, y: 0 }, 0)
    } else if pad_i == 52 {
        (TilePos { x: 1, y: 0 }, 3)
    } else if pad_i == 53 {
        (TilePos { x: 1, y: 0 }, 2)
    } else if pad_i == 54 {
        (TilePos { x: 1, y: 0 }, 1)
    } else if pad_i == 55 {
        (TilePos { x: 1, y: 0 }, 0)
    } else if pad_i == 56 {
        (TilePos { x: 0, y: 1 }, 5)
    } else if pad_i == 57 {
        (TilePos { x: 0, y: 1 }, 4)
    } else if pad_i == 58 {
        (TilePos { x: 0, y: 1 }, 3)
    } else if pad_i == 59 {
        (TilePos { x: 0, y: 1 }, 2)
    } else if pad_i == 60 {
        (TilePos { x: 0, y: 1 }, 0)
    } else if pad_i == 61 {
        (TilePos { x: 0, y: 2 }, 5)
    } else if pad_i == 62 {
        (TilePos { x: 0, y: 2 }, 4)
    } else if pad_i == 63 {
        (TilePos { x: 0, y: 2 }, 3)
    } else if pad_i == 64 {
        (TilePos { x: 0, y: 2 }, 2)
    } else if pad_i == 65 {
        (TilePos { x: 0, y: 2 }, 1)
    } else if pad_i == 66 {
        (TilePos { x: 0, y: 2 }, 0)
    } else if pad_i == 67 {
        (TilePos { x: 0, y: 3 }, 5)
    } else if pad_i == 68 {
        (TilePos { x: 0, y: 3 }, 4)
    } else if pad_i == 69 {
        (TilePos { x: 0, y: 3 }, 3)
    } else if pad_i == 70 {
        (TilePos { x: 0, y: 3 }, 2)
    } else if pad_i == 71 {
        (TilePos { x: 0, y: 3 }, 1)
    } else if pad_i == 72 {
        (TilePos { x: 0, y: 3 }, 0)
    } else if pad_i == 73 {
        (TilePos { x: 0, y: 4 }, 5)
    } else if pad_i == 74 {
        (TilePos { x: 0, y: 4 }, 4)
    } else if pad_i == 75 {
        (TilePos { x: 0, y: 4 }, 3)
    } else if pad_i == 76 {
        (TilePos { x: 0, y: 4 }, 2)
    } else if pad_i == 77 {
        (TilePos { x: 0, y: 4 }, 1)
    } else {
        (TilePos { x: 0, y: 4 }, 0)
    }
}

/// Map from pad ring control bit internal index to IO tile coordinate and site
///
/// The pads go along the top edge, then the right, bottom and left edges.
pub fn padring_to_tile(pad_i: u8) -> (r: (TilePos, u8))
    requires
        pad_i < 79,
    ensures
        r == spec_padring_to_tile(pad_i),
{
    match pad_i {
        0 => (TilePos { x: 14, y: 13 }, 0),
        1 => (TilePos { x: 14, y: 13 }, 2),
        2 => (TilePos { x: 15, y: 13 }, 0),
        3 => (TilePos { x: 15, y: 13 }, 2),
        4 => (TilePos { x: 15, y: 13 }, 3),
        5 => (TilePos { x: 16, y: 13 }, 0),
        6 => (TilePos { x: 16, y: 13 }, 1),
        7 => (TilePos { x: 16, y: 13 }, 2),
        8 => (TilePos { x: 16, y: 13 }, 3),
        9 => (TilePos { x: 17, y: 13 }, 0),
        10 => (TilePos { x: 17, y: 13 }, 1),
        11 => (TilePos { x: 17, y: 13 }, 2),
        12 => (TilePos { x: 17, y: 13 }, 3),
        13 => (TilePos { x: 18, y: 13 }, 0),
        14 => (TilePos { x: 18, y: 13 }, 1),
        15 => (TilePos { x: 18, y: 13 }, 2),
        16 => (TilePos { x: 18, y: 13 }, 3),
        17 => (TilePos { x: 19, y: 13 }, 0),
        18 => (TilePos { x: 19, y: 13 }, 1),
        19 => (TilePos { x: 19, y: 13 }, 2),
        20 => (TilePos { x: 19, y: 13 }, 3),
        21 => (TilePos { x: 20, y: 13 }, 1),
        22 => (TilePos { x: 20, y: 13 }, 2),
        23 => (TilePos { x: 20, y: 13 }, 3),
        24 => (TilePos { x: 22, y: 3 }, 0),
        25 => (TilePos { x: 22, y: 3 }, 1),
        26 => (TilePos { x: 22, y: 3 }, 2),
        27 => (TilePos { x: 22, y: 3 }, 3),
        28 => (TilePos { x: 22, y: 2 }, 3),
        29 => (TilePos { x: 22, y: 2 }, 5),
        30 => (TilePos { x: 22, y: 1 }, 0),
        31 => (TilePos { x: 22, y: 1 }, 2),
        32 => (TilePos { x: 22, y: 1 }, 3),
        33 => (TilePos { x: 22, y: 1 }, 4),
        34 => (TilePos { x: 20, y: 0 }, 2),
        35 => (TilePos { x: 20, y: 0 }, 0),
        36 => (TilePos { x: 19, y: 0 }, 3),
        37 => (TilePos { x: 19, y: 0 }, 1),
        38 => (TilePos { x: 18, y: 0 }, 1),
        39 => (TilePos { x: 18, y: 0 }, 0),
        40 => (TilePos { x: 17, y: 0 }, 2),
        41 => (TilePos { x: 17, y: 0 }, 1),
        42 => (TilePos { x: 17, y: 0 }, 0),
        43 => (TilePos { x: 8, y: 0 }, 3),
        44 => (TilePos { x: 8, y: 0 }, 2),
        45 => (TilePos { x: 8, y: 0 }, 1),
        46 => (TilePos { x: 8, y: 0 }, 0),
        47 => (TilePos { x: 7, y: 0 }, 3),
        48 => (TilePos { x: 7, y: 0 }, 1),
        49 => (TilePos { x: 7, y: 0 }, 0),
        50 => (TilePos { x: 6, y: 0 }, 3),
        51 => (TilePos { x: 6, y: 0 }, 0),
        52 => (TilePos { x: 1, y: 0 }, 3),
        53 => (TilePos { x: 1, y: 0 }, 2),
        54 => (TilePos { x: 1, y: 0 }, 1),
        55 => (TilePos { x: 1, y: 0 }, 0),
        56 => (TilePos { x: 0, y: 1 }, 5),
        57 => (TilePos { x: 0, y: 1 }, 4),
        58 => (TilePos { x: 0, y: 1 }, 3),
        59 => (TilePos { x: 0, y: 1 }, 2),
        60 => (TilePos { x: 0, y: 1 }, 0),
        61 => (TilePos { x: 0, y: 2 }, 5),
        62 => (TilePos { x: 0, y: 2 }, 4),
        63 => (TilePos { x: 0, y: 2 }, 3),
        64 => (TilePos { x: 0, y: 2 }, 2),
        65 => (TilePos { x: 0, y: 2 }, 1),
        66 => (TilePos { x: 0, y: 2 }, 0),
        67 => (TilePos { x: 0, y: 3 }, 5),
        68 => (TilePos { x: 0, y: 3 }, 4),
        69 => (TilePos { x: 0, y: 3 }, 3),
        70 => (TilePos { x: 0, y: 3 }, 2),
        71 => (TilePos { x: 0, y: 3 }, 1),
        72 => (TilePos { x: 0, y: 3 }, 0),
        73 => (TilePos { x: 0, y: 4 }, 5),
        74 => (TilePos { x: 0, y: 4 }, 4),
        75 => (TilePos { x: 0, y: 4 }, 3),
        76 => (TilePos { x: 0, y: 4 }, 2),
        77 => (TilePos { x: 0, y: 4 }, 1),
        _ => (TilePos { x: 0, y: 4 }, 0),
    }
}

/// The drive strength of a pad
///
/// It is not known if other values are valid.
#[derive(Clone, Copy, PartialEq, Eq, Debug, Hash, Structural)]
pub enum DriveStrength {
    _0MA,
    _2MA,
    _4MA,
    _8MA,
    _16MA,
    _30MA,
}

impl DriveStrength {
    /// The setting held by the bits of the field, if they hold a valid one
    pub open spec fn spec_from_bits(bits: u32) -> Option<DriveStrength> {
        if bits == 0 {
            Some(DriveStrength::_0MA)
        } else if bits == 1 {
            Some(DriveStrength::_2MA)
        } else if bits == 2 {
            Some(DriveStrength::_4MA)
        } else if bits == 4 {
            Some(DriveStrength::_8MA)
        } else if bits == 8 {
            Some(DriveStrength::_16MA)
        } else if bits == 15 {
            Some(DriveStrength::_30MA)
        } else {
            None
        }
    }

    /// The bits that hold this setting
    pub open spec fn spec_to_bits(self) -> u32 {
        match self {
            DriveStrength::_0MA => 0,
            DriveStrength::_2MA => 1,
            DriveStrength::_4MA => 2,
            DriveStrength::_8MA => 4,
            DriveStrength::_16MA => 8,
            DriveStrength::_30MA => 15,
        }
    }

    /// Decode the bits of the field, which hold a setting
    pub fn from_bits(bits: u32) -> (r: DriveStrength)
        requires
            DriveStrength::spec_from_bits(bits) is Some,
        ensures
            Some(r) == DriveStrength::spec_from_bits(bits),
    {
        if bits == 0 {
            DriveStrength::_0MA
        } else if bits == 1 {
            DriveStrength::_2MA
        } else if bits == 2 {
            DriveStrength::_4MA
        } else if bits == 4 {
            DriveStrength::_8MA
        } else if bits == 8 {
            DriveStrength::_16MA
        } else {
            DriveStrength::_30MA
        }
    }

    /// Encode the setting into the bits of the field
    pub fn to_bits(self) -> (r: u32)
        ensures
            r == self.spec_to_bits(),
    {
        match self {
            DriveStrength::_0MA => 0,
            DriveStrength::_2MA => 1,
            DriveStrength::_4MA => 2,
            DriveStrength::_8MA => 4,
            DriveStrength::_16MA => 8,
            DriveStrength::_30MA => 15,
        }
    }
}

impl Default for DriveStrength {
    fn default() -> (r: Self)
        ensures
            r == DriveStrength::_4MA,
    {
        DriveStrength::_4MA
    }
}

/// Decoding the bits of a `DriveStrength` gives it back, and the bits fit in 4 bits.
pub proof fn lemma_drive_strength_roundtrip(x: DriveStrength)
    ensures
        DriveStrength::spec_from_bits(x.spec_to_bits()) == Some(x),
        x.spec_to_bits() < 16,
{
}
/// The termination of a pad
#[derive(Clone, Copy, PartialEq, Eq, Debug, Hash, Structural)]
pub enum PullUpDown {
    /// No pull-up or pull-down
    NoPull,
    Down,
    Up,
    Keeper,
}

impl PullUpDown {
    /// The setting held by the bits of the field, if they hold a valid one
    pub open spec fn spec_from_bits(bits: u32) -> Option<PullUpDown> {
        if bits == 0 {
            Some(PullUpDown::NoPull)
        } else if bits == 1 {
            Some(PullUpDown::Down)
        } else if bits == 2 {
            Some(PullUpDown::Up)
        } else if bits == 3 {
            Some(PullUpDown::Keeper)
        } else {
            None
        }
    }

    /// The bits that hold this setting
    pub open spec fn spec_to_bits(self) -> u32 {
        match self {
            PullUpDown::NoPull => 0,
            PullUpDown::Down => 1,
            PullUpDown::Up => 2,
            PullUpDown::Keeper => 3,
        }
    }

    /// Decode the bits of the field, which hold a setting
    pub fn from_bits(bits: u32) -> (r: PullUpDown)
        requires
            PullUpDown::spec_from_bits(bits) is Some,
        ensures
            Some(r) == PullUpDown::spec_from_bits(bits),
    {
        if bits == 0 {
            PullUpDown::NoPull
        } else if bits == 1 {
            PullUpDown::Down
        } else if bits == 2 {
            PullUpDown::Up
        } else {
            PullUpDown::Keeper
        }
    }

    /// Encode the setting into the bits of the field
    pub fn to_bits(self) -> (r: u32)
        ensures
            r == self.spec_to_bits(),
    {
        match self {
            PullUpDown::NoPull => 0,
            PullUpDown::Down => 1,
            PullUpDown::Up => 2,
            PullUpDown::Keeper => 3,
        }
    }
}

impl Default for PullUpDown {
    fn default() -> (r: Self)
        ensures
            r == PullUpDown::NoPull,
    {
        PullUpDown::NoPull
    }
}

/// Decoding the bits of a `PullUpDown` gives it back, and the bits fit in 2 bits.
pub proof fn lemma_pull_up_down_roundtrip(x: PullUpDown)
    ensures
        PullUpDown::spec_from_bits(x.spec_to_bits()) == Some(x),
        x.spec_to_bits() < 4,
{
}

/// A pad's termination is two settings bits: a pull-down bit (bit `spec_pad_bit_index(p) -
/// 8`) and a pull-up bit (the bit below it). Writing termination `t` sets the pull-down bit
/// exactly for `Down` and `Keeper` and the pull-up bit exactly for `Up` and `Keeper`.
pub proof fn lemma_pad_termination_write_bits(v: BitstreamView, pad_i: u8, t: PullUpDown)
    requires
        spec_pads_ready(v),
        pad_i < 79,
    ensures
        spec_with_pad_bits(v, spec_pad_bit_index(pad_i) - 8, 2, t.spec_to_bits()).arrays[1][0][spec_pad_bit_index(pad_i) - 8]
            == (t == PullUpDown::Down || t == PullUpDown::Keeper),
        spec_with_pad_bits(v, spec_pad_bit_index(pad_i) - 8, 2, t.spec_to_bits()).arrays[1][0][spec_pad_bit_index(pad_i) - 9]
            == (t == PullUpDown::Up || t == PullUpDown::Keeper),
{
    assert(bit_of(0u32, 0u32) == false && bit_of(0u32, 1u32) == false && bit_of(1u32, 0u32) == true
        && bit_of(1u32, 1u32) == false && bit_of(2u32, 0u32) == false && bit_of(2u32, 1u32) == true
        && bit_of(3u32, 0u32) == true && bit_of(3u32, 1u32) == true) by (bit_vector);
}

/// Reading a pad's termination: the pull-up bit alone reads as `Up`, the pull-down bit
/// alone as `Down`, both as `Keeper` and neither as `NoPull`.
pub proof fn lemma_pad_termination_read_bits(v: BitstreamView, pad_i: u8)
    requires
        spec_pads_ready(v),
        pad_i < 79,
    ensures
        PullUpDown::spec_from_bits(spec_pad_bits(v, spec_pad_bit_index(pad_i) - 8, 2)) == Some(
            if v.arrays[1][0][spec_pad_bit_index(pad_i) - 8] && v.arrays[1][0][spec_pad_bit_index(pad_i) - 9] {
                PullUpDown::Keeper
            } else if v.arrays[1][0][spec_pad_bit_index(pad_i) - 8] {
                PullUpDown::Down
            } else if v.arrays[1][0][spec_pad_bit_index(pad_i) - 9] {
                PullUpDown::Up
            } else {
                PullUpDown::NoPull
            },
        ),
{
    let base = spec_pad_bit_index(pad_i) - 8;
    let s = Seq::new(2, |i: int| v.arrays[1][0][base - i]);
    crate::bitfield::lemma_bits_value_one(s.drop_last());
    assert(s.drop_last()[0] == v.arrays[1][0][base]);
    assert(s.last() == v.arrays[1][0][base - 1]);
    assert(0u32 | (1u32 << 1u32) == 2u32 && 1u32 | (1u32 << 1u32) == 3u32) by (bit_vector);
}

/// The current of a drive strength, in mA
pub open spec fn spec_drive_milliamps(d: DriveStrength) -> nat {
    match d {
        DriveStrength::_0MA => 0,
        DriveStrength::_2MA => 2,
        DriveStrength::_4MA => 4,
        DriveStrength::_8MA => 8,
        DriveStrength::_16MA => 16,
        DriveStrength::_30MA => 30,
    }
}

/// The drive strength bits count in units of 2 mA, one bit for each of 2, 4, 8 and 16 mA;
/// 30 mA sets all four bits. Reading the bits back gives the same drive strength.
pub proof fn lemma_drive_strength_code(d: DriveStrength)
    ensures
        d != DriveStrength::_30MA ==> 2 * d.spec_to_bits() == spec_drive_milliamps(d),
        d != DriveStrength::_30MA && d != DriveStrength::_0MA ==> (d.spec_to_bits() == 1 || d.spec_to_bits()
            == 2 || d.spec_to_bits() == 4 || d.spec_to_bits() == 8),
        d == DriveStrength::_30MA ==> d.spec_to_bits() == 15,
        forall|e: DriveStrength| #[trigger] e.spec_to_bits() == d.spec_to_bits() ==> e == d,
        DriveStrength::spec_from_bits(d.spec_to_bits()) == Some(d),
{
}

/// Are the pad ring settings loaded?
pub open spec fn spec_pads_ready(v: BitstreamView) -> bool {
    &&& v.wf()
    &&& v.arrays[1][0].len() == spec_chain_len(v.family, 1, 0)
}

/// The `n` bits of the pad ring settings counting down from `base`, packed least
/// significant first
pub open spec fn spec_pad_bits(v: BitstreamView, base: int, n: nat) -> u32 {
    bits_value(Seq::new(n, |i: int| v.arrays[1][0][base - i]))
}

/// The pad ring settings with the `n` bits counting down from `base` replaced by the `n`
/// low bits of `val`
pub open spec fn spec_with_pad_bits(v: BitstreamView, base: int, n: nat, val: u32) -> BitstreamView {
    let s = v.arrays[1][0];
    BitstreamView {
        arrays: spec_with_chain(
            v.arrays,
            1,
            0,
            Seq::new(
                s.len(),
                |k: int| if base - n < k <= base { bit_of(val, (base - k) as u32) } else { s[k] },
            ),
        ),
        ..v
    }
}

/// Does pad `p` hold a valid drive strength and a valid termination?
pub open spec fn spec_pad_valid(v: BitstreamView, p: u8) -> bool {
    &&& DriveStrength::spec_from_bits(spec_pad_bits(v, spec_pad_bit_index(p) - 4, 4)) is Some
    &&& PullUpDown::spec_from_bits(spec_pad_bits(v, spec_pad_bit_index(p) - 8, 2)) is Some
}

/// Does pad `p` hold a valid drive strength and a valid termination?
pub fn pad_valid(b: &Bitstream, p: u8) -> (r: bool)
    requires
        spec_pads_ready(b@),
        p < 79,
    ensures
        r == spec_pad_valid(b@, p),
{
    let base = pad_i_to_bit_i(p);
    let d = read_pad_bits(b, base - 4, 4);
    let t = read_pad_bits(b, base - 8, 2);
    (d == 0 || d == 1 || d == 2 || d == 4 || d == 8 || d == 15) && t < 4
}

fn read_pad_bits(b: &Bitstream, base: usize, n: usize) -> (r: u32)
    requires
        spec_pads_ready(b@),
        n <= 4,
        n <= base + 1,
        base <= 833,
    ensures
        r == spec_pad_bits(b@, base as int, n as nat),
{
    let mut ret: u32 = 0;
    let mut i: usize = 0;
    while i < n
        invariant
            i <= n,
            n <= 4,
            n <= base + 1,
            base <= 833,
            spec_pads_ready(b@),
            ret == spec_pad_bits(b@, base as int, i as nat),
        decreases n - i,
    {
        let bit = b.get_aux_array_bit(1, 0, base - i);
        proof {
            let s1 = Seq::new((i + 1) as nat, |k: int| b@.arrays[1][0][base - k]);
            assert(s1.drop_last() =~= Seq::new(i as nat, |k: int| b@.arrays[1][0][base - k]));
        }
        ret = push_bit(ret, i as u32, bit);
        i = i + 1;
    }
    ret
}

fn write_pad_bits(b: &mut Bitstream, base: usize, n: usize, val: u32)
    requires
        spec_pads_ready(old(b)@),
        n <= 4,
        n <= base + 1,
        base <= 833,
    ensures
        final(b)@ == spec_with_pad_bits(old(b)@, base as int, n as nat, val),
        spec_pads_ready(final(b)@),
        final(b)@.arrays[0][0] == old(b)@.arrays[0][0],
{
    let ghost v0 = b@;
    let mut i: usize = 0;
    proof {
        assert(spec_with_pad_bits(v0, base as int, 0, val).arrays[1][0] =~= v0.arrays[1][0]);
        assert(spec_with_pad_bits(v0, base as int, 0, val).arrays[1] =~= v0.arrays[1]);
        assert(spec_with_pad_bits(v0, base as int, 0, val).arrays =~= v0.arrays);
    }
    while i < n
        invariant
            i <= n,
            n <= 4,
            n <= base + 1,
            base <= 833,
            spec_pads_ready(v0),
            b@ == spec_with_pad_bits(v0, base as int, i as nat, val),
        decreases n - i,
    {
        let bit = get_bit_of(val, i as u32);
        let ghost before = b@;
        b.set_aux_array_bit(1, 0, base - i, bit);
        proof {
            let after = spec_with_pad_bits(v0, base as int, (i + 1) as nat, val);
            assert(b@.arrays[1][0] =~= after.arrays[1][0]);
            assert(b@.arrays[1] =~= after.arrays[1]);
            assert(b@.arrays =~= after.arrays);
        }
        i = i + 1;
    }
    proof {
        let w = b@;
        assert forall|g: int, c: int|
            0 <= g < w.arrays.len() && 0 <= c < w.arrays[g].len() implies (#[trigger] w.arrays[g][c]).len()
            == 0 || w.arrays[g][c].len() == spec_chain_len(w.family, g, c) by {
            if g == 1 && c == 0 {
            } else {
                assert(w.arrays[g][c] == v0.arrays[g][c]);
            }
        }
    }
}

/// Writing pad ring bits and reading them back gives the written value (its `n` low bits).
pub proof fn lemma_pad_bits_write_read(v: BitstreamView, base: int, n: nat, val: u32)
    requires
        spec_pads_ready(v),
        n <= 4,
        n <= base + 1,
        base <= 833,
        fits_bits(val, n as u32),
    ensures
        spec_pad_bits(spec_with_pad_bits(v, base, n, val), base, n) == val,
{
    let w = spec_with_pad_bits(v, base, n, val);
    assert(Seq::new(n, |i: int| w.arrays[1][0][base - i]) =~= crate::bitfield::value_bits(val, n));
    crate::bitfield::lemma_value_bits_roundtrip(val, n);
}

/// Access to the pad ring settings
pub trait PadRingExt {
    /// The bitstream whose pad ring is accessed
    spec fn spec_pads(&self) -> BitstreamView;

    fn pad_input_en(&self, pad_i: u8) -> (r: bool)
        requires
            spec_pads_ready(self.spec_pads()),
            pad_i < 79,
        ensures
            r == self.spec_pads().arrays[1][0][spec_pad_bit_index(pad_i)],
    ;

    fn pad_drive_strength(&self, pad_i: u8) -> (r: DriveStrength)
        requires
            spec_pads_ready(self.spec_pads()),
            pad_i < 79,
            DriveStrength::spec_from_bits(spec_pad_bits(self.spec_pads(), spec_pad_bit_index(pad_i) - 4, 4)) is Some,
        ensures
            Some(r) == DriveStrength::spec_from_bits(spec_pad_bits(self.spec_pads(), spec_pad_bit_index(pad_i) - 4, 4)),
    ;

    fn pad_termination(&self, pad_i: u8) -> (r: PullUpDown)
        requires
            spec_pads_ready(self.spec_pads()),
            pad_i < 79,
            PullUpDown::spec_from_bits(spec_pad_bits(self.spec_pads(), spec_pad_bit_index(pad_i) - 8, 2)) is Some,
        ensures
            Some(r) == PullUpDown::spec_from_bits(spec_pad_bits(self.spec_pads(), spec_pad_bit_index(pad_i) - 8, 2)),
    ;

    fn pad_open_drain(&self, pad_i: u8) -> (r: bool)
        requires
            spec_pads_ready(self.spec_pads()),
            pad_i < 79,
        ensures
            r == self.spec_pads().arrays[1][0][spec_pad_bit_index(pad_i) - 3],
    ;

    fn pad_reduced_slew(&self, pad_i: u8) -> (r: bool)
        requires
            spec_pads_ready(self.spec_pads()),
            pad_i < 79,
        ensures
            r == self.spec_pads().arrays[1][0][spec_pad_bit_index(pad_i) - 2],
    ;

    fn pad_pullup_to_fabric(&self, pad_i: u8) -> (r: bool)
        requires
            spec_pads_ready(self.spec_pads()),
            pad_i < 79,
        ensures
            r == self.spec_pads().arrays[1][0][spec_pad_bit_index(pad_i) - 1],
    ;

    fn set_pad_input_en(&mut self, pad_i: u8, val: bool)
        requires
            spec_pads_ready(old(self).spec_pads()),
            pad_i < 79,
        ensures
            final(self).spec_pads() == spec_with_pad_bits(old(self).spec_pads(), spec_pad_bit_index(pad_i), 1, if val { 1u32 } else { 0u32 }),
            spec_pads_ready(final(self).spec_pads()),
            final(self).spec_pads().arrays[0][0] == old(self).spec_pads().arrays[0][0],
    ;

    fn set_pad_drive_strength(&mut self, pad_i: u8, val: DriveStrength)
        requires
            spec_pads_ready(old(self).spec_pads()),
            pad_i < 79,
        ensures
            final(self).spec_pads() == spec_with_pad_bits(old(self).spec_pads(), spec_pad_bit_index(pad_i) - 4, 4, val.spec_to_bits()),
            spec_pads_ready(final(self).spec_pads()),
            final(self).spec_pads().arrays[0][0] == old(self).spec_pads().arrays[0][0],
    ;

    fn set_pad_termination(&mut self, pad_i: u8, val: PullUpDown)
        requires
            spec_pads_ready(old(self).spec_pads()),
            pad_i < 79,
        ensures
            final(self).spec_pads() == spec_with_pad_bits(old(self).spec_pads(), spec_pad_bit_index(pad_i) - 8, 2, val.spec_to_bits()),
            spec_pads_ready(final(self).spec_pads()),
            final(self).spec_pads().arrays[0][0] == old(self).spec_pads().arrays[0][0],
    ;

    fn set_pad_open_drain(&mut self, pad_i: u8, val: bool)
        requires
            spec_pads_ready(old(self).spec_pads()),
            pad_i < 79,
        ensures
            final(self).spec_pads() == spec_with_pad_bits(old(self).spec_pads(), spec_pad_bit_index(pad_i) - 3, 1, if val { 1u32 } else { 0u32 }),
            spec_pads_ready(final(self).spec_pads()),
            final(self).spec_pads().arrays[0][0] == old(self).spec_pads().arrays[0][0],
    ;

    fn set_pad_reduced_slew(&mut self, pad_i: u8, val: bool)
        requires
            spec_pads_ready(old(self).spec_pads()),
            pad_i < 79,
        ensures
            final(self).spec_pads() == spec_with_pad_bits(old(self).spec_pads(), spec_pad_bit_index(pad_i) - 2, 1, if val { 1u32 } else { 0u32 }),
            spec_pads_ready(final(self).spec_pads()),
            final(self).spec_pads().arrays[0][0] == old(self).spec_pads().arrays[0][0],
    ;

    fn set_pad_pullup_to_fabric(&mut self, pad_i: u8, val: bool)
        requires
            spec_pads_ready(old(self).spec_pads()),
            pad_i < 79,
        ensures
            final(self).spec_pads() == spec_with_pad_bits(old(self).spec_pads(), spec_pad_bit_index(pad_i) - 1, 1, if val { 1u32 } else { 0u32 }),
            spec_pads_ready(final(self).spec_pads()),
            final(self).spec_pads().arrays[0][0] == old(self).spec_pads().arrays[0][0],
    ;
}

impl PadRingExt for Bitstream {
    open spec fn spec_pads(&self) -> BitstreamView {
        self@
    }

    fn pad_input_en(&self, pad_i: u8) -> (r: bool) {
        let biti = pad_i_to_bit_i(pad_i);
        self.get_aux_array_bit(1, 0, biti)
    }

    fn pad_drive_strength(&self, pad_i: u8) -> (r: DriveStrength) {
        let biti_base = pad_i_to_bit_i(pad_i) - 4;
        DriveStrength::from_bits(read_pad_bits(self, biti_base, 4))
    }

    fn pad_termination(&self, pad_i: u8) -> (r: PullUpDown) {
        let biti_base = pad_i_to_bit_i(pad_i) - 8;
        PullUpDown::from_bits(read_pad_bits(self, biti_base, 2))
    }

    fn pad_open_drain(&self, pad_i: u8) -> (r: bool) {
        let biti = pad_i_to_bit_i(pad_i) - 3;
        self.get_aux_array_bit(1, 0, biti)
    }

    fn pad_reduced_slew(&self, pad_i: u8) -> (r: bool) {
        let biti = pad_i_to_bit_i(pad_i) - 2;
        self.get_aux_array_bit(1, 0, biti)
    }

    fn pad_pullup_to_fabric(&self, pad_i: u8) -> (r: bool) {
        let biti = pad_i_to_bit_i(pad_i) - 1;
        self.get_aux_array_bit(1, 0, biti)
    }

    fn set_pad_input_en(&mut self, pad_i: u8, val: bool) {
        let biti = pad_i_to_bit_i(pad_i);
        write_pad_bits(self, biti, 1, if val {
            1
        } else {
            0
        });
    }

    fn set_pad_drive_strength(&mut self, pad_i: u8, val: DriveStrength) {
        let biti_base = pad_i_to_bit_i(pad_i) - 4;
        write_pad_bits(self, biti_base, 4, val.to_bits());
    }

    fn set_pad_termination(&mut self, pad_i: u8, val: PullUpDown) {
        let biti_base = pad_i_to_bit_i(pad_i) - 8;
        write_pad_bits(self, biti_base, 2, val.to_bits());
    }

    fn set_pad_open_drain(&mut self, pad_i: u8, val: bool) {
        let biti = pad_i_to_bit_i(pad_i) - 3;
        write_pad_bits(self, biti, 1, if val {
            1
        } else {
            0
        });
    }

    fn set_pad_reduced_slew(&mut self, pad_i: u8, val: bool) {
        let biti = pad_i_to_bit_i(pad_i) - 2;
        write_pad_bits(self, biti, 1, if val {
            1
        } else {
            0
        });
    }

    fn set_pad_pullup_to_fabric(&mut self, pad_i: u8, val: bool) {
        let biti = pad_i_to_bit_i(pad_i) - 1;
        write_pad_bits(self, biti, 1, if val {
            1
        } else {
            0
        });
    }
}

/// Setting a pad's drive strength and reading it back gives the same drive strength.
pub proof fn lemma_pad_drive_strength_write_read(v: BitstreamView, pad_i: u8, val: DriveStrength)
    requires
        spec_pads_ready(v),
        pad_i < 79,
    ensures
        DriveStrength::spec_from_bits(
            spec_pad_bits(
                spec_with_pad_bits(v, spec_pad_bit_index(pad_i) - 4, 4, val.spec_to_bits()),
                spec_pad_bit_index(pad_i) - 4,
                4,
            ),
        ) == Some(val),
{
    lemma_drive_strength_roundtrip(val);
    lemma_fits_bits_iff_lt(val.spec_to_bits(), 4);
    lemma_shift_table();
    lemma_pad_bits_write_read(v, spec_pad_bit_index(pad_i) - 4, 4, val.spec_to_bits());
}

/// Setting a pad's termination and reading it back gives the same termination.
pub proof fn lemma_pad_termination_write_read(v: BitstreamView, pad_i: u8, val: PullUpDown)
    requires
        spec_pads_ready(v),
        pad_i < 79,
    ensures
        PullUpDown::spec_from_bits(
            spec_pad_bits(
                spec_with_pad_bits(v, spec_pad_bit_index(pad_i) - 8, 2, val.spec_to_bits()),
                spec_pad_bit_index(pad_i) - 8,
                2,
            ),
        ) == Some(val),
{
    lemma_pull_up_down_roundtrip(val);
    lemma_fits_bits_iff_lt(val.spec_to_bits(), 2);
    lemma_shift_table();
    lemma_pad_bits_write_read(v, spec_pad_bit_index(pad_i) - 8, 2, val.spec_to_bits());
}

} // verus!
