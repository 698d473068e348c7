//! Clocking resources (PLL, clock distribution)

use vstd::prelude::*;

use crate::chips::{spec_tile_type, Family};
use crate::container::{
    lemma_aux_bits_write_read, spec_aux_bits, spec_chain_len, spec_same_aux, spec_with_aux_bits,
    Bitstream, BitstreamView,
};
use crate::coordinates::{TilePos, TileRelativeBitPos};
use crate::field::{
    lemma_field_fits, read_field, spec_read_field, spec_write_value, write_field, BitAt, ColDown,
    FieldPositionCalculator, RowUp,
};
use crate::tiles::hard_ip::{Mux13Inv, Mux17InvGeneric};
use crate::tiles::{GlobalToLocalMux, Mux2, TileRef, TileRefTrait, TileType};

verus! {

/// Access to a PLL tile
#[derive(Clone, Copy, PartialEq, Eq, Debug, Hash, Structural)]
pub struct PLLTileRef {
    pub family: Family,
    pub p: TilePos,
}

impl PLLTileRef {
    /// Can this handle be used to access this bitstream?
    pub open spec fn spec_attached(self, v: BitstreamView) -> bool {
        &&& v.logic_ready()
        &&& v.family == self.family
        &&& spec_tile_type(self.family, self.p) == TileType::PLL
    }
}

impl TileRefTrait for PLLTileRef {
    open spec fn spec_family(&self) -> Family {
        self.family
    }

    open spec fn spec_pos(&self) -> TilePos {
        self.p
    }

    open spec fn spec_tile_type(&self) -> TileType {
        TileType::PLL
    }

    fn family(&self) -> (r: Family) {
        self.family
    }

    fn tile_type(&self) -> (r: TileType) {
        TileType::PLL
    }

    fn pos(&self) -> (r: TilePos) {
        self.p
    }

    fn as_base_tile(self) -> (r: TileRef) {
        TileRef { family: self.family, p: self.p }
    }
}

/// The row of PLL mux `i` (with a gap in the middle)
pub open spec fn spec_pll_row(i: u8) -> int {
    20 + 2 * i + if i >= 6 { 4int } else { 0 }
}

fn pll_row(i: u8) -> (r: u8)
    requires
        i < 11,
    ensures
        r == spec_pll_row(i),
{
    20 + 2 * i + if i >= 6 {
        4
    } else {
        0
    }
}

/// The block of bits of one mux into the PLL: the cell `(x, y)` of bit `biti`
pub open spec fn spec_pll_cell(biti: int) -> (int, int) {
    if biti == 0 {
        (4, 0)
    } else if biti == 1 {
        (4, 1)
    } else if biti == 2 {
        (3, 0)
    } else if biti == 3 {
        (3, 1)
    } else if biti == 4 {
        (2, 0)
    } else if biti == 5 {
        (2, 1)
    } else if biti == 6 {
        (1, 0)
    } else if biti == 7 {
        (1, 1)
    } else {
        (0, 0)
    }
}

fn pll_cell(biti: usize) -> (r: (u8, u8))
    requires
        biti < 9,
    ensures
        r.0 == spec_pll_cell(biti as int).0,
        r.1 == spec_pll_cell(biti as int).1,
{
    match biti {
        0 => (4, 0),
        1 => (4, 1),
        2 => (3, 0),
        3 => (3, 1),
        4 => (2, 0),
        5 => (2, 1),
        6 => (1, 0),
        7 => (1, 1),
        _ => (0, 0),
    }
}

proof fn lemma_pll_cell()
    ensures
        forall|i: int| 0 <= i < 9 ==> 0 <= (#[trigger] spec_pll_cell(i)).0 <= 4 && 0 <= spec_pll_cell(i).1 <= 1,
        forall|i: int, j: int| 0 <= i < j < 9 ==> #[trigger] spec_pll_cell(i) != #[trigger] spec_pll_cell(j),
{
    assert forall|i: int, j: int| 0 <= i < j < 9 implies #[trigger] spec_pll_cell(i) != #[trigger] spec_pll_cell(j) by {
        if i == 0 {
        } else if i == 1 {
        } else if i == 2 {
        } else if i == 3 {
        } else if i == 4 {
        } else if i == 5 {
        } else if i == 6 {
        } else if i == 7 {
        } else if i == 8 {
        }
    }
}

/// Where the bits of mux `i` into the PLL sit
pub struct PLLWireTo {
    pub i: u8,
}

impl FieldPositionCalculator for PLLWireTo {
    open spec fn spec_valid(&self) -> bool {
        self.i < 11
    }

    open spec fn spec_nbits(&self) -> nat {
        9
    }

    open spec fn spec_bit_pos(&self, biti: int) -> TileRelativeBitPos {
        let (dx, dy) = spec_pll_cell(biti);
        TileRelativeBitPos { y: (spec_pll_row(self.i) + dy) as u8, x: (9 + dx) as u8 }
    }

    open spec fn spec_width(&self) -> int {
        14
    }

    open spec fn spec_height(&self) -> int {
        46
    }

    proof fn lemma_layout(&self) {
        lemma_pll_cell();
    }

    fn get_bit_pos(&self, biti: usize) -> (r: TileRelativeBitPos) {
        proof {
            lemma_pll_cell();
        }
        let (dx, dy) = pll_cell(biti);
        TileRelativeBitPos { y: pll_row(self.i) + dy, x: 9 + dx }
    }
}

/// Where the bits of PLL global-to-local mux `i` sit
pub struct PLLGlobal2Local {
    pub i: u8,
}

impl FieldPositionCalculator for PLLGlobal2Local {
    open spec fn spec_valid(&self) -> bool {
        self.i < 11
    }

    open spec fn spec_nbits(&self) -> nat {
        6
    }

    open spec fn spec_bit_pos(&self, biti: int) -> TileRelativeBitPos {
        TileRelativeBitPos { y: spec_pll_row(self.i) as u8, x: (19 - biti) as u8 }
    }

    open spec fn spec_width(&self) -> int {
        20
    }

    open spec fn spec_height(&self) -> int {
        46
    }

    proof fn lemma_layout(&self) {
    }

    fn get_bit_pos(&self, biti: usize) -> (r: TileRelativeBitPos) {
        TileRelativeBitPos { y: pll_row(self.i), x: 19 - biti as u8 }
    }
}

impl PLLTileRef {
    /// Can this handle be used to access the PLL settings (in array group 1 chain 1)?
    pub open spec fn spec_aux_attached(self, v: BitstreamView) -> bool {
        &&& self.spec_attached(v)
        &&& v.arrays[1][1].len() == spec_chain_len(v.family, 1, 1)
    }

    /// Read `n` bits of the PLL settings, starting at bit `start`
    fn pll_bits(&self, b: &Bitstream, start: usize, n: usize) -> (r: u8)
        requires
            self.spec_aux_attached(b@),
            start + n <= 239,
            n <= 8,
        ensures
            r == spec_aux_bits(b@, 1, 1, start as int, n as nat) as u8,
    {
        b.get_aux_array_bits(1, 1, start..start + n) as u8
    }

    /// Write `n` bits of the PLL settings, starting at bit `start`
    fn set_pll_bits(&self, b: &mut Bitstream, start: usize, n: usize, val: u8)
        requires
            self.spec_aux_attached(old(b)@),
            start + n <= 239,
            n <= 8,
        ensures
            final(b)@ == spec_with_aux_bits(old(b)@, 1, 1, start as int, n as nat, val as u32),
            self.spec_aux_attached(final(b)@),
    {
        proof {
            lemma_aux_bits_write_read(b@, 1, 1, start as int, n as nat, val as u32);
        }
        b.set_aux_array_bits(1, 1, start..start + n, val as u32);
    }

    /// Read one bit of the PLL settings
    fn pll_bit(&self, b: &Bitstream, biti: usize) -> (r: bool)
        requires
            self.spec_aux_attached(b@),
            biti < 239,
        ensures
            r == b@.arrays[1][1][biti as int],
    {
        b.get_aux_array_bit(1, 1, biti)
    }

    /// Write one bit of the PLL settings
    fn set_pll_bit(&self, b: &mut Bitstream, biti: usize, val: bool)
        requires
            self.spec_aux_attached(old(b)@),
            biti < 239,
        ensures
            final(b)@ == spec_with_aux_bits(old(b)@, 1, 1, biti as int, 1, if val { 1u32 } else { 0u32 }),
            self.spec_aux_attached(final(b)@),
    {
        self.set_pll_bits(b, biti, 1, if val {
            1
        } else {
            0
        });
    }
    pub fn fb_phase_coarse(&self, b: &Bitstream) -> (r: u8)
        requires
            self.spec_aux_attached(b@),
        ensures
            r == spec_aux_bits(b@, 1, 1, 23, 8) as u8,
    {
        self.pll_bits(b, 23, 8)
    }

    /// Write the field read by [`fb_phase_coarse`](Self::fb_phase_coarse)
    pub fn set_fb_phase_coarse(&self, b: &mut Bitstream, val: u8)
        requires
            self.spec_aux_attached(old(b)@),
            val < 256,
        ensures
            final(b)@ == spec_with_aux_bits(old(b)@, 1, 1, 23, 8, val as u32),
            self.spec_aux_attached(final(b)@),
    {
        self.set_pll_bits(b, 23, 8, val)
    }

    pub fn fb_phase_fine(&self, b: &Bitstream) -> (r: u8)
        requires
            self.spec_aux_attached(b@),
        ensures
            r == spec_aux_bits(b@, 1, 1, 20, 3) as u8,
    {
        self.pll_bits(b, 20, 3)
    }

    /// Write the field read by [`fb_phase_fine`](Self::fb_phase_fine)
    pub fn set_fb_phase_fine(&self, b: &mut Bitstream, val: u8)
        requires
            self.spec_aux_attached(old(b)@),
            val < 8,
        ensures
            final(b)@ == spec_with_aux_bits(old(b)@, 1, 1, 20, 3, val as u32),
            self.spec_aux_attached(final(b)@),
    {
        self.set_pll_bits(b, 20, 3, val)
    }

    pub fn out_phase_coarse(&self, b: &Bitstream, idx: u8) -> (r: u8)
        requires
            self.spec_aux_attached(b@),
            idx < 5,
        ensures
            r == spec_aux_bits(b@, 1, 1, 35 + 13 * idx, 8) as u8,
    {
        self.pll_bits(b, 35 + 13 * idx as usize, 8)
    }

    /// Write the field read by [`out_phase_coarse`](Self::out_phase_coarse)
    pub fn set_out_phase_coarse(&self, b: &mut Bitstream, idx: u8, val: u8)
        requires
            self.spec_aux_attached(old(b)@),
            idx < 5,
            val < 256,
        ensures
            final(b)@ == spec_with_aux_bits(old(b)@, 1, 1, 35 + 13 * idx, 8, val as u32),
            self.spec_aux_attached(final(b)@),
    {
        self.set_pll_bits(b, 35 + 13 * idx as usize, 8, val)
    }

    pub fn out_phase_fine(&self, b: &Bitstream, idx: u8) -> (r: u8)
        requires
            self.spec_aux_attached(b@),
            idx < 5,
        ensures
            r == spec_aux_bits(b@, 1, 1, 31 + 13 * idx, 3) as u8,
    {
        self.pll_bits(b, 31 + 13 * idx as usize, 3)
    }

    /// Write the field read by [`out_phase_fine`](Self::out_phase_fine)
    pub fn set_out_phase_fine(&self, b: &mut Bitstream, idx: u8, val: u8)
        requires
            self.spec_aux_attached(old(b)@),
            idx < 5,
            val < 8,
        ensures
            final(b)@ == spec_with_aux_bits(old(b)@, 1, 1, 31 + 13 * idx, 3, val as u32),
            self.spec_aux_attached(final(b)@),
    {
        self.set_pll_bits(b, 31 + 13 * idx as usize, 3, val)
    }

    pub fn out_enable(&self, b: &Bitstream, idx: u8) -> (r: bool)
        requires
            self.spec_aux_attached(b@),
            idx < 5,
        ensures
            r == b@.arrays[1][1][34 + 13 * idx],
    {
        self.pll_bit(b, 34 + 13 * idx as usize)
    }

    /// Write the field read by [`out_enable`](Self::out_enable)
    pub fn set_out_enable(&self, b: &mut Bitstream, idx: u8, val: bool)
        requires
            self.spec_aux_attached(old(b)@),
            idx < 5,
        ensures
            final(b)@ == spec_with_aux_bits(old(b)@, 1, 1, 34 + 13 * idx, 1, if val { 1u32 } else { 0u32 }),
            self.spec_aux_attached(final(b)@),
    {
        self.set_pll_bit(b, 34 + 13 * idx as usize, val)
    }

    pub fn out_cascade(&self, b: &Bitstream, idx: u8) -> (r: bool)
        requires
            self.spec_aux_attached(b@),
            0 < idx < 5,
        ensures
            r == b@.arrays[1][1][30 + 13 * idx],
    {
        self.pll_bit(b, 30 + 13 * idx as usize)
    }

    /// Write the field read by [`out_cascade`](Self::out_cascade)
    pub fn set_out_cascade(&self, b: &mut Bitstream, idx: u8, val: bool)
        requires
            self.spec_aux_attached(old(b)@),
            0 < idx < 5,
        ensures
            final(b)@ == spec_with_aux_bits(old(b)@, 1, 1, 30 + 13 * idx, 1, if val { 1u32 } else { 0u32 }),
            self.spec_aux_attached(final(b)@),
    {
        self.set_pll_bit(b, 30 + 13 * idx as usize, val)
    }

    /// The lo time of the divider of output `idx`
    pub fn out_div_lo_time(&self, b: &Bitstream, idx: u8) -> (r: u8)
        requires
            self.spec_aux_attached(b@),
            idx < 5,
        ensures
            r == spec_aux_bits(b@, 1, 1, 95 + 18 * (4 - idx), 8) as u8,
    {
        self.pll_bits(b, 95 + 18 * (4 - idx as usize), 8)
    }

    /// Write the field read by [`out_div_lo_time`](Self::out_div_lo_time)
    pub fn set_out_div_lo_time(&self, b: &mut Bitstream, idx: u8, val: u8)
        requires
            self.spec_aux_attached(old(b)@),
            idx < 5,
            val < 256,
        ensures
            final(b)@ == spec_with_aux_bits(old(b)@, 1, 1, 95 + 18 * (4 - idx), 8, val as u32),
            self.spec_aux_attached(final(b)@),
    {
        self.set_pll_bits(b, 95 + 18 * (4 - idx as usize), 8, val)
    }

    /// The lo time of the feedback divider
    pub fn fb_div_lo_time(&self, b: &Bitstream) -> (r: u8)
        requires
            self.spec_aux_attached(b@),
        ensures
            r == spec_aux_bits(b@, 1, 1, 185, 8) as u8,
    {
        self.pll_bits(b, 185, 8)
    }

    /// Write the field read by [`fb_div_lo_time`](Self::fb_div_lo_time)
    pub fn set_fb_div_lo_time(&self, b: &mut Bitstream, val: u8)
        requires
            self.spec_aux_attached(old(b)@),
            val < 256,
        ensures
            final(b)@ == spec_with_aux_bits(old(b)@, 1, 1, 185, 8, val as u32),
            self.spec_aux_attached(final(b)@),
    {
        self.set_pll_bits(b, 185, 8, val)
    }

    /// The lo time of the input divider
    pub fn in_div_lo_time(&self, b: &Bitstream) -> (r: u8)
        requires
            self.spec_aux_attached(b@),
        ensures
            r == spec_aux_bits(b@, 1, 1, 203, 8) as u8,
    {
        self.pll_bits(b, 203, 8)
    }

    /// Write the field read by [`in_div_lo_time`](Self::in_div_lo_time)
    pub fn set_in_div_lo_time(&self, b: &mut Bitstream, val: u8)
        requires
            self.spec_aux_attached(old(b)@),
            val < 256,
        ensures
            final(b)@ == spec_with_aux_bits(old(b)@, 1, 1, 203, 8, val as u32),
            self.spec_aux_attached(final(b)@),
    {
        self.set_pll_bits(b, 203, 8, val)
    }

    /// The hi time of the divider of output `idx`
    pub fn out_div_hi_time(&self, b: &Bitstream, idx: u8) -> (r: u8)
        requires
            self.spec_aux_attached(b@),
            idx < 5,
        ensures
            r == spec_aux_bits(b@, 1, 1, 104 + 18 * (4 - idx), 8) as u8,
    {
        self.pll_bits(b, 104 + 18 * (4 - idx as usize), 8)
    }

    /// Write the field read by [`out_div_hi_time`](Self::out_div_hi_time)
    pub fn set_out_div_hi_time(&self, b: &mut Bitstream, idx: u8, val: u8)
        requires
            self.spec_aux_attached(old(b)@),
            idx < 5,
            val < 256,
        ensures
            final(b)@ == spec_with_aux_bits(old(b)@, 1, 1, 104 + 18 * (4 - idx), 8, val as u32),
            self.spec_aux_attached(final(b)@),
    {
        self.set_pll_bits(b, 104 + 18 * (4 - idx as usize), 8, val)
    }

    /// The hi time of the feedback divider
    pub fn fb_div_hi_time(&self, b: &Bitstream) -> (r: u8)
        requires
            self.spec_aux_attached(b@),
        ensures
            r == spec_aux_bits(b@, 1, 1, 194, 8) as u8,
    {
        self.pll_bits(b, 194, 8)
    }

    /// Write the field read by [`fb_div_hi_time`](Self::fb_div_hi_time)
    pub fn set_fb_div_hi_time(&self, b: &mut Bitstream, val: u8)
        requires
            self.spec_aux_attached(old(b)@),
            val < 256,
        ensures
            final(b)@ == spec_with_aux_bits(old(b)@, 1, 1, 194, 8, val as u32),
            self.spec_aux_attached(final(b)@),
    {
        self.set_pll_bits(b, 194, 8, val)
    }

    /// The hi time of the input divider
    pub fn in_div_hi_time(&self, b: &Bitstream) -> (r: u8)
        requires
            self.spec_aux_attached(b@),
        ensures
            r == spec_aux_bits(b@, 1, 1, 212, 8) as u8,
    {
        self.pll_bits(b, 212, 8)
    }

    /// Write the field read by [`in_div_hi_time`](Self::in_div_hi_time)
    pub fn set_in_div_hi_time(&self, b: &mut Bitstream, val: u8)
        requires
            self.spec_aux_attached(old(b)@),
            val < 256,
        ensures
            final(b)@ == spec_with_aux_bits(old(b)@, 1, 1, 212, 8, val as u32),
            self.spec_aux_attached(final(b)@),
    {
        self.set_pll_bits(b, 212, 8, val)
    }

    /// The duty cycle adjustment (trim) of the divider of output `idx`
    pub fn out_div_duty_cycle_adjust(&self, b: &Bitstream, idx: u8) -> (r: bool)
        requires
            self.spec_aux_attached(b@),
            idx < 5,
        ensures
            r == b@.arrays[1][1][13 + 18 * (4 - idx)],
    {
        self.pll_bit(b, 13 + 18 * (4 - idx as usize))
    }

    /// Write the field read by [`out_div_duty_cycle_adjust`](Self::out_div_duty_cycle_adjust)
    pub fn set_out_div_duty_cycle_adjust(&self, b: &mut Bitstream, idx: u8, val: bool)
        requires
            self.spec_aux_attached(old(b)@),
            idx < 5,
        ensures
            final(b)@ == spec_with_aux_bits(old(b)@, 1, 1, 13 + 18 * (4 - idx), 1, if val { 1u32 } else { 0u32 }),
            self.spec_aux_attached(final(b)@),
    {
        self.set_pll_bit(b, 13 + 18 * (4 - idx as usize), val)
    }

    /// The duty cycle adjustment (trim) of the feedback divider
    pub fn fb_div_duty_cycle_adjust(&self, b: &Bitstream) -> (r: bool)
        requires
            self.spec_aux_attached(b@),
        ensures
            r == b@.arrays[1][1][103],
    {
        self.pll_bit(b, 103)
    }

    /// Write the field read by [`fb_div_duty_cycle_adjust`](Self::fb_div_duty_cycle_adjust)
    pub fn set_fb_div_duty_cycle_adjust(&self, b: &mut Bitstream, val: bool)
        requires
            self.spec_aux_attached(old(b)@),
        ensures
            final(b)@ == spec_with_aux_bits(old(b)@, 1, 1, 103, 1, if val { 1u32 } else { 0u32 }),
            self.spec_aux_attached(final(b)@),
    {
        self.set_pll_bit(b, 103, val)
    }

    /// The duty cycle adjustment (trim) of the input divider
    pub fn in_div_duty_cycle_adjust(&self, b: &Bitstream) -> (r: bool)
        requires
            self.spec_aux_attached(b@),
        ensures
            r == b@.arrays[1][1][121],
    {
        self.pll_bit(b, 121)
    }

    /// Write the field read by [`in_div_duty_cycle_adjust`](Self::in_div_duty_cycle_adjust)
    pub fn set_in_div_duty_cycle_adjust(&self, b: &mut Bitstream, val: bool)
        requires
            self.spec_aux_attached(old(b)@),
        ensures
            final(b)@ == spec_with_aux_bits(old(b)@, 1, 1, 121, 1, if val { 1u32 } else { 0u32 }),
            self.spec_aux_attached(final(b)@),
    {
        self.set_pll_bit(b, 121, val)
    }

    /// The bypass of the divider of output `idx`
    pub fn out_div_bypass(&self, b: &Bitstream, idx: u8) -> (r: bool)
        requires
            self.spec_aux_attached(b@),
            idx < 5,
        ensures
            r == b@.arrays[1][1][22 + 18 * (4 - idx)],
    {
        self.pll_bit(b, 22 + 18 * (4 - idx as usize))
    }

    /// Write the field read by [`out_div_bypass`](Self::out_div_bypass)
    pub fn set_out_div_bypass(&self, b: &mut Bitstream, idx: u8, val: bool)
        requires
            self.spec_aux_attached(old(b)@),
            idx < 5,
        ensures
            final(b)@ == spec_with_aux_bits(old(b)@, 1, 1, 22 + 18 * (4 - idx), 1, if val { 1u32 } else { 0u32 }),
            self.spec_aux_attached(final(b)@),
    {
        self.set_pll_bit(b, 22 + 18 * (4 - idx as usize), val)
    }

    /// The bypass of the feedback divider
    pub fn fb_div_bypass(&self, b: &Bitstream) -> (r: bool)
        requires
            self.spec_aux_attached(b@),
        ensures
            r == b@.arrays[1][1][112],
    {
        self.pll_bit(b, 112)
    }

    /// Write the field read by [`fb_div_bypass`](Self::fb_div_bypass)
    pub fn set_fb_div_bypass(&self, b: &mut Bitstream, val: bool)
        requires
            self.spec_aux_attached(old(b)@),
        ensures
            final(b)@ == spec_with_aux_bits(old(b)@, 1, 1, 112, 1, if val { 1u32 } else { 0u32 }),
            self.spec_aux_attached(final(b)@),
    {
        self.set_pll_bit(b, 112, val)
    }

    /// The bypass of the input divider
    pub fn in_div_bypass(&self, b: &Bitstream) -> (r: bool)
        requires
            self.spec_aux_attached(b@),
        ensures
            r == b@.arrays[1][1][130],
    {
        self.pll_bit(b, 130)
    }

    /// Write the field read by [`in_div_bypass`](Self::in_div_bypass)
    pub fn set_in_div_bypass(&self, b: &mut Bitstream, val: bool)
        requires
            self.spec_aux_attached(old(b)@),
        ensures
            final(b)@ == spec_with_aux_bits(old(b)@, 1, 1, 130, 1, if val { 1u32 } else { 0u32 }),
            self.spec_aux_attached(final(b)@),
    {
        self.set_pll_bit(b, 130, val)
    }

    pub fn vco_div2(&self, b: &Bitstream) -> (r: bool)
        requires
            self.spec_aux_attached(b@),
        ensures
            r == b@.arrays[1][1][229],
    {
        self.pll_bit(b, 229)
    }

    /// Write the field read by [`vco_div2`](Self::vco_div2)
    pub fn set_vco_div2(&self, b: &mut Bitstream, val: bool)
        requires
            self.spec_aux_attached(old(b)@),
        ensures
            final(b)@ == spec_with_aux_bits(old(b)@, 1, 1, 229, 1, if val { 1u32 } else { 0u32 }),
            self.spec_aux_attached(final(b)@),
    {
        self.set_pll_bit(b, 229, val)
    }

    pub fn analog_icp(&self, b: &Bitstream) -> (r: u8)
        requires
            self.spec_aux_attached(b@),
        ensures
            r == spec_aux_bits(b@, 1, 1, 221, 3) as u8,
    {
        self.pll_bits(b, 221, 3)
    }

    /// Write the field read by [`analog_icp`](Self::analog_icp)
    pub fn set_analog_icp(&self, b: &mut Bitstream, val: u8)
        requires
            self.spec_aux_attached(old(b)@),
            val < 8,
        ensures
            final(b)@ == spec_with_aux_bits(old(b)@, 1, 1, 221, 3, val as u32),
            self.spec_aux_attached(final(b)@),
    {
        self.set_pll_bits(b, 221, 3, val)
    }

    pub fn analog_rlpf(&self, b: &Bitstream) -> (r: u8)
        requires
            self.spec_aux_attached(b@),
        ensures
            r == spec_aux_bits(b@, 1, 1, 230, 2) as u8,
    {
        self.pll_bits(b, 230, 2)
    }

    /// Write the field read by [`analog_rlpf`](Self::analog_rlpf)
    pub fn set_analog_rlpf(&self, b: &mut Bitstream, val: u8)
        requires
            self.spec_aux_attached(old(b)@),
            val < 4,
        ensures
            final(b)@ == spec_with_aux_bits(old(b)@, 1, 1, 230, 2, val as u32),
            self.spec_aux_attached(final(b)@),
    {
        self.set_pll_bits(b, 230, 2, val)
    }

    pub fn analog_rref(&self, b: &Bitstream) -> (r: u8)
        requires
            self.spec_aux_attached(b@),
        ensures
            r == spec_aux_bits(b@, 1, 1, 232, 2) as u8,
    {
        self.pll_bits(b, 232, 2)
    }

    /// Write the field read by [`analog_rref`](Self::analog_rref)
    pub fn set_analog_rref(&self, b: &mut Bitstream, val: u8)
        requires
            self.spec_aux_attached(old(b)@),
            val < 4,
        ensures
            final(b)@ == spec_with_aux_bits(old(b)@, 1, 1, 232, 2, val as u32),
            self.spec_aux_attached(final(b)@),
    {
        self.set_pll_bits(b, 232, 2, val)
    }

    pub fn analog_rvi(&self, b: &Bitstream) -> (r: u8)
        requires
            self.spec_aux_attached(b@),
        ensures
            r == spec_aux_bits(b@, 1, 1, 234, 2) as u8,
    {
        self.pll_bits(b, 234, 2)
    }

    /// Write the field read by [`analog_rvi`](Self::analog_rvi)
    pub fn set_analog_rvi(&self, b: &mut Bitstream, val: u8)
        requires
            self.spec_aux_attached(old(b)@),
            val < 4,
        ensures
            final(b)@ == spec_with_aux_bits(old(b)@, 1, 1, 234, 2, val as u32),
            self.spec_aux_attached(final(b)@),
    {
        self.set_pll_bits(b, 234, 2, val)
    }

    pub fn analog_ivco(&self, b: &Bitstream) -> (r: u8)
        requires
            self.spec_aux_attached(b@),
        ensures
            r == spec_aux_bits(b@, 1, 1, 236, 3) as u8,
    {
        self.pll_bits(b, 236, 3)
    }

    /// Write the field read by [`analog_ivco`](Self::analog_ivco)
    pub fn set_analog_ivco(&self, b: &mut Bitstream, val: u8)
        requires
            self.spec_aux_attached(old(b)@),
            val < 8,
        ensures
            final(b)@ == spec_with_aux_bits(old(b)@, 1, 1, 236, 3, val as u32),
            self.spec_aux_attached(final(b)@),
    {
        self.set_pll_bits(b, 236, 3, val)
    }

    /// This is undocumented
    pub fn reg_ctrl(&self, b: &Bitstream) -> (r: u8)
        requires
            self.spec_aux_attached(b@),
        ensures
            r == spec_aux_bits(b@, 1, 1, 0, 2) as u8,
    {
        self.pll_bits(b, 0, 2)
    }

    /// Write the field read by [`reg_ctrl`](Self::reg_ctrl)
    pub fn set_reg_ctrl(&self, b: &mut Bitstream, val: u8)
        requires
            self.spec_aux_attached(old(b)@),
            val < 4,
        ensures
            final(b)@ == spec_with_aux_bits(old(b)@, 1, 1, 0, 2, val as u32),
            self.spec_aux_attached(final(b)@),
    {
        self.set_pll_bits(b, 0, 2, val)
    }

    pub fn enabled(&self, b: &Bitstream) -> (r: bool)
        requires
            self.spec_aux_attached(b@),
        ensures
            r == b@.arrays[1][1][2],
    {
        self.pll_bit(b, 2)
    }

    /// Write the field read by [`enabled`](Self::enabled)
    pub fn set_enabled(&self, b: &mut Bitstream, val: bool)
        requires
            self.spec_aux_attached(old(b)@),
        ensures
            final(b)@ == spec_with_aux_bits(old(b)@, 1, 1, 2, 1, if val { 1u32 } else { 0u32 }),
            self.spec_aux_attached(final(b)@),
    {
        self.set_pll_bit(b, 2, val)
    }

    pub fn clock_feedback_mux(&self, b: &Bitstream) -> (r: u8)
        requires
            self.spec_aux_attached(b@),
        ensures
            r == spec_aux_bits(b@, 1, 1, 3, 2) as u8,
    {
        self.pll_bits(b, 3, 2)
    }

    /// Write the field read by [`clock_feedback_mux`](Self::clock_feedback_mux)
    pub fn set_clock_feedback_mux(&self, b: &mut Bitstream, val: u8)
        requires
            self.spec_aux_attached(old(b)@),
            val < 4,
        ensures
            final(b)@ == spec_with_aux_bits(old(b)@, 1, 1, 3, 2, val as u32),
            self.spec_aux_attached(final(b)@),
    {
        self.set_pll_bits(b, 3, 2, val)
    }

    pub fn feedback_delay(&self, b: &Bitstream) -> (r: u8)
        requires
            self.spec_aux_attached(b@),
        ensures
            r == spec_aux_bits(b@, 1, 1, 5, 3) as u8,
    {
        self.pll_bits(b, 5, 3)
    }

    /// Write the field read by [`feedback_delay`](Self::feedback_delay)
    pub fn set_feedback_delay(&self, b: &mut Bitstream, val: u8)
        requires
            self.spec_aux_attached(old(b)@),
            val < 8,
        ensures
            final(b)@ == spec_with_aux_bits(old(b)@, 1, 1, 5, 3, val as u32),
            self.spec_aux_attached(final(b)@),
    {
        self.set_pll_bits(b, 5, 3, val)
    }

    pub fn clock_mux_0(&self, b: &Bitstream) -> (r: u8)
        requires
            self.spec_aux_attached(b@),
        ensures
            r == spec_aux_bits(b@, 1, 1, 8, 3) as u8,
    {
        self.pll_bits(b, 8, 3)
    }

    /// Write the field read by [`clock_mux_0`](Self::clock_mux_0)
    pub fn set_clock_mux_0(&self, b: &mut Bitstream, val: u8)
        requires
            self.spec_aux_attached(old(b)@),
            val < 8,
        ensures
            final(b)@ == spec_with_aux_bits(old(b)@, 1, 1, 8, 3, val as u32),
            self.spec_aux_attached(final(b)@),
    {
        self.set_pll_bits(b, 8, 3, val)
    }

    /// The AGRV2K doesn't have this
    pub fn clock_mux_1(&self, b: &Bitstream) -> (r: u8)
        requires
            self.spec_aux_attached(b@),
        ensures
            r == spec_aux_bits(b@, 1, 1, 11, 3) as u8,
    {
        self.pll_bits(b, 11, 3)
    }

    /// Write the field read by [`clock_mux_1`](Self::clock_mux_1)
    pub fn set_clock_mux_1(&self, b: &mut Bitstream, val: u8)
        requires
            self.spec_aux_attached(old(b)@),
            val < 8,
        ensures
            final(b)@ == spec_with_aux_bits(old(b)@, 1, 1, 11, 3, val as u32),
            self.spec_aux_attached(final(b)@),
    {
        self.set_pll_bits(b, 11, 3, val)
    }

    pub fn gclk_mux(&self, b: &Bitstream) -> (r: u8)
        requires
            self.spec_aux_attached(b@),
        ensures
            r == spec_aux_bits(b@, 1, 1, 14, 3) as u8,
    {
        self.pll_bits(b, 14, 3)
    }

    /// Write the field read by [`gclk_mux`](Self::gclk_mux)
    pub fn set_gclk_mux(&self, b: &mut Bitstream, val: u8)
        requires
            self.spec_aux_attached(old(b)@),
            val < 8,
        ensures
            final(b)@ == spec_with_aux_bits(old(b)@, 1, 1, 14, 3, val as u32),
            self.spec_aux_attached(final(b)@),
    {
        self.set_pll_bits(b, 14, 3, val)
    }

    pub fn use_internal_fb(&self, b: &Bitstream) -> (r: bool)
        requires
            self.spec_aux_attached(b@),
        ensures
            r == b@.arrays[1][1][17],
    {
        self.pll_bit(b, 17)
    }

    /// Write the field read by [`use_internal_fb`](Self::use_internal_fb)
    pub fn set_use_internal_fb(&self, b: &mut Bitstream, val: bool)
        requires
            self.spec_aux_attached(old(b)@),
        ensures
            final(b)@ == spec_with_aux_bits(old(b)@, 1, 1, 17, 1, if val { 1u32 } else { 0u32 }),
            self.spec_aux_attached(final(b)@),
    {
        self.set_pll_bit(b, 17, val)
    }

    /// This bit is stored inverted
    pub fn enable_dedicated_out_n(&self, b: &Bitstream) -> (r: bool)
        requires
            self.spec_aux_attached(b@),
        ensures
            r == !b@.arrays[1][1][18],
    {
        !self.pll_bit(b, 18)
    }

    /// Write the field read by [`enable_dedicated_out_n`](Self::enable_dedicated_out_n)
    pub fn set_enable_dedicated_out_n(&self, b: &mut Bitstream, val: bool)
        requires
            self.spec_aux_attached(old(b)@),
        ensures
            final(b)@ == spec_with_aux_bits(old(b)@, 1, 1, 18, 1, if val { 0u32 } else { 1u32 }),
            self.spec_aux_attached(final(b)@),
    {
        self.set_pll_bit(b, 18, !val)
    }

    /// This bit is stored inverted
    pub fn enable_dedicated_out_p(&self, b: &Bitstream) -> (r: bool)
        requires
            self.spec_aux_attached(b@),
        ensures
            r == !b@.arrays[1][1][19],
    {
        !self.pll_bit(b, 19)
    }

    /// Write the field read by [`enable_dedicated_out_p`](Self::enable_dedicated_out_p)
    pub fn set_enable_dedicated_out_p(&self, b: &mut Bitstream, val: bool)
        requires
            self.spec_aux_attached(old(b)@),
        ensures
            final(b)@ == spec_with_aux_bits(old(b)@, 1, 1, 19, 1, if val { 0u32 } else { 1u32 }),
            self.spec_aux_attached(final(b)@),
    {
        self.set_pll_bit(b, 19, !val)
    }

    pub fn to_pll(&self, b: &Bitstream, idx: u8) -> (r: Mux13Inv)
        requires
            self.spec_attached(b@),
            idx < 11,
            Mux13Inv::spec_from_bits(spec_read_field(b@, self.p, (PLLWireTo { i: idx }), 9)) is Some,
        ensures
            Some(r) == Mux13Inv::spec_from_bits(spec_read_field(b@, self.p, (PLLWireTo { i: idx }), 9)),
    {
        let fp = PLLWireTo { i: idx };
        proof {
            lemma_field_fits(b@.family, self.p, fp, 9);
        }
        let bits = read_field(b, self.p, &fp, 9);
        Mux13Inv::from_bits(bits)
    }


    /// Write the field read by [`to_pll`](Self::to_pll)
    pub fn set_to_pll(&self, b: &mut Bitstream, idx: u8, val: Mux13Inv)
        requires
            self.spec_attached(old(b)@),
            idx < 11,
            val.spec_valid(),
        ensures
            final(b)@ == spec_write_value(old(b)@, self.p, (PLLWireTo { i: idx }), 9, val.spec_to_bits()),
            self.spec_attached(final(b)@),
            spec_same_aux(old(b)@, final(b)@),
    {
        let fp = PLLWireTo { i: idx };
        proof {
            lemma_field_fits(b@.family, self.p, fp, 9);
        }
        write_field(b, self.p, &fp, 9, val.to_bits());
    }

    pub fn global_to_local(&self, b: &Bitstream, idx: u8) -> (r: GlobalToLocalMux)
        requires
            self.spec_attached(b@),
            idx < 11,
            GlobalToLocalMux::spec_from_bits(spec_read_field(b@, self.p, (PLLGlobal2Local { i: idx }), 6)) is Some,
        ensures
            Some(r) == GlobalToLocalMux::spec_from_bits(spec_read_field(b@, self.p, (PLLGlobal2Local { i: idx }), 6)),
    {
        let fp = PLLGlobal2Local { i: idx };
        proof {
            lemma_field_fits(b@.family, self.p, fp, 6);
        }
        let bits = read_field(b, self.p, &fp, 6);
        GlobalToLocalMux::from_bits(bits)
    }


    /// Write the field read by [`global_to_local`](Self::global_to_local)
    pub fn set_global_to_local(&self, b: &mut Bitstream, idx: u8, val: GlobalToLocalMux)
        requires
            self.spec_attached(old(b)@),
            idx < 11,
            val.spec_valid(),
        ensures
            final(b)@ == spec_write_value(old(b)@, self.p, (PLLGlobal2Local { i: idx }), 6, val.spec_to_bits()),
            self.spec_attached(final(b)@),
            spec_same_aux(old(b)@, final(b)@),
    {
        let fp = PLLGlobal2Local { i: idx };
        proof {
            lemma_field_fits(b@.family, self.p, fp, 6);
        }
        write_field(b, self.p, &fp, 6, val.to_bits());
    }
}

/// The clock enable signals in a GCLKSW tile have an opposite sense invert bit
/// (encoded with `inverted` true)
pub type InvertedMux17Inv = Mux17InvGeneric;

/// Access to a GCLKSW tile
#[derive(Clone, Copy, PartialEq, Eq, Debug, Hash, Structural)]
pub struct GCLKSWTileRef {
    pub family: Family,
    pub p: TilePos,
}

impl GCLKSWTileRef {
    /// Can this handle be used to access this bitstream?
    pub open spec fn spec_attached(self, v: BitstreamView) -> bool {
        &&& v.logic_ready()
        &&& v.family == self.family
        &&& spec_tile_type(self.family, self.p) == TileType::GCLKSW
    }
}

impl TileRefTrait for GCLKSWTileRef {
    open spec fn spec_family(&self) -> Family {
        self.family
    }

    open spec fn spec_pos(&self) -> TilePos {
        self.p
    }

    open spec fn spec_tile_type(&self) -> TileType {
        TileType::GCLKSW
    }

    fn family(&self) -> (r: Family) {
        self.family
    }

    fn tile_type(&self) -> (r: TileType) {
        TileType::GCLKSW
    }

    fn pos(&self) -> (r: TilePos) {
        self.p
    }

    fn as_base_tile(self) -> (r: TileRef) {
        TileRef { family: self.family, p: self.p }
    }
}
/// The block of bits of one fabric-to-clock mux: the cell `(x, y)` of bit `biti`
pub open spec fn spec_gclksw_f2c_cell(biti: int) -> (int, int) {
    if biti == 0 {
        (4, 2)
    } else if biti == 1 {
        (4, 0)
    } else if biti == 2 {
        (3, 2)
    } else if biti == 3 {
        (3, 0)
    } else if biti == 4 {
        (1, 2)
    } else if biti == 5 {
        (2, 2)
    } else if biti == 6 {
        (2, 0)
    } else if biti == 7 {
        (1, 0)
    } else if biti == 8 {
        (0, 0)
    } else {
        (0, 2)
    }
}

fn gclksw_f2c_cell(biti: usize) -> (r: (u8, u8))
    requires
        biti < 10,
    ensures
        r.0 == spec_gclksw_f2c_cell(biti as int).0,
        r.1 == spec_gclksw_f2c_cell(biti as int).1,
{
    match biti {
        0 => (4, 2),
        1 => (4, 0),
        2 => (3, 2),
        3 => (3, 0),
        4 => (1, 2),
        5 => (2, 2),
        6 => (2, 0),
        7 => (1, 0),
        8 => (0, 0),
        _ => (0, 2),
    }
}

proof fn lemma_gclksw_f2c_cell()
    ensures
        forall|i: int| 0 <= i < 10 ==> 0 <= (#[trigger] spec_gclksw_f2c_cell(i)).0 <= 4 && 0 <= spec_gclksw_f2c_cell(i).1 <= 2,
        forall|i: int, j: int| 0 <= i < j < 10 ==> #[trigger] spec_gclksw_f2c_cell(i) != #[trigger] spec_gclksw_f2c_cell(j),
{
    assert forall|i: int, j: int| 0 <= i < j < 10 implies #[trigger] spec_gclksw_f2c_cell(i) != #[trigger] spec_gclksw_f2c_cell(j) by {
        if i == 0 {
        } else if i == 1 {
        } else if i == 2 {
        } else if i == 3 {
        } else if i == 4 {
        } else if i == 5 {
        } else if i == 6 {
        } else if i == 7 {
        } else if i == 8 {
        } else if i == 9 {
        }
    }
}

/// The block of bits of one clock enable mux: the cell `(x, y)` of bit `biti`
pub open spec fn spec_gclksw_en_cell(biti: int) -> (int, int) {
    if biti == 0 {
        (4, 0)
    } else if biti == 1 {
        (4, 2)
    } else if biti == 2 {
        (3, 0)
    } else if biti == 3 {
        (3, 2)
    } else if biti == 4 {
        (1, 0)
    } else if biti == 5 {
        (2, 0)
    } else if biti == 6 {
        (2, 2)
    } else if biti == 7 {
        (1, 2)
    } else if biti == 8 {
        (0, 2)
    } else {
        (0, 0)
    }
}

fn gclksw_en_cell(biti: usize) -> (r: (u8, u8))
    requires
        biti < 10,
    ensures
        r.0 == spec_gclksw_en_cell(biti as int).0,
        r.1 == spec_gclksw_en_cell(biti as int).1,
{
    match biti {
        0 => (4, 0),
        1 => (4, 2),
        2 => (3, 0),
        3 => (3, 2),
        4 => (1, 0),
        5 => (2, 0),
        6 => (2, 2),
        7 => (1, 2),
        8 => (0, 2),
        _ => (0, 0),
    }
}

proof fn lemma_gclksw_en_cell()
    ensures
        forall|i: int| 0 <= i < 10 ==> 0 <= (#[trigger] spec_gclksw_en_cell(i)).0 <= 4 && 0 <= spec_gclksw_en_cell(i).1 <= 2,
        forall|i: int, j: int| 0 <= i < j < 10 ==> #[trigger] spec_gclksw_en_cell(i) != #[trigger] spec_gclksw_en_cell(j),
{
    assert forall|i: int, j: int| 0 <= i < j < 10 implies #[trigger] spec_gclksw_en_cell(i) != #[trigger] spec_gclksw_en_cell(j) by {
        if i == 0 {
        } else if i == 1 {
        } else if i == 2 {
        } else if i == 3 {
        } else if i == 4 {
        } else if i == 5 {
        } else if i == 6 {
        } else if i == 7 {
        } else if i == 8 {
        } else if i == 9 {
        }
    }
}

/// Where the bits of GCLKSW fabric-to-clock mux (`enable` false) or clock enable mux
/// (`enable` true) `i` sit (with a gap in the middle)
pub struct GCLKSWMux17 {
    pub enable: bool,
    pub i: u8,
}

impl FieldPositionCalculator for GCLKSWMux17 {
    open spec fn spec_valid(&self) -> bool {
        self.i < 6
    }

    open spec fn spec_nbits(&self) -> nat {
        10
    }

    open spec fn spec_bit_pos(&self, biti: int) -> TileRelativeBitPos {
        let ybase = (if self.enable { 17int } else { 14 }) + 6 * self.i + if self.i >= 3 { 4int } else { 0 };
        let (dx, dy) = if self.enable {
            spec_gclksw_en_cell(biti)
        } else {
            spec_gclksw_f2c_cell(biti)
        };
        TileRelativeBitPos { y: (ybase + dy) as u8, x: (6 + dx) as u8 }
    }

    open spec fn spec_width(&self) -> int {
        11
    }

    open spec fn spec_height(&self) -> int {
        54
    }

    proof fn lemma_layout(&self) {
        lemma_gclksw_en_cell();
        lemma_gclksw_f2c_cell();
    }

    fn get_bit_pos(&self, biti: usize) -> (r: TileRelativeBitPos) {
        proof {
            lemma_gclksw_en_cell();
            lemma_gclksw_f2c_cell();
        }
        let ybase: u8 = (if self.enable {
            17
        } else {
            14
        }) + 6 * self.i + if self.i >= 3 {
            4
        } else {
            0
        };
        let (dx, dy) = if self.enable {
            gclksw_en_cell(biti)
        } else {
            gclksw_f2c_cell(biti)
        };
        TileRelativeBitPos { y: ybase + dy, x: 6 + dx }
    }
}

/// The row of GCLKSW global-to-local mux `i`
pub open spec fn spec_gclksw_g2l_row(i: u8) -> u8 {
    if i == 0 {
        20
    } else if i == 1 {
        23
    } else if i == 2 {
        24
    } else if i == 3 {
        27
    } else if i == 4 {
        28
    } else if i == 5 {
        31
    } else if i == 6 {
        36
    } else if i == 7 {
        39
    } else if i == 8 {
        40
    } else if i == 9 {
        43
    } else if i == 10 {
        44
    } else {
        47
    }
}

fn gclksw_g2l_row(i: u8) -> (r: u8)
    ensures
        r == spec_gclksw_g2l_row(i),
{
    if i == 0 {
        20
    } else if i == 1 {
        23
    } else if i == 2 {
        24
    } else if i == 3 {
        27
    } else if i == 4 {
        28
    } else if i == 5 {
        31
    } else if i == 6 {
        36
    } else if i == 7 {
        39
    } else if i == 8 {
        40
    } else if i == 9 {
        43
    } else if i == 10 {
        44
    } else {
        47
    }
}

/// The row of GCLKSW clock-to-fabric mux `i`
pub open spec fn spec_gclksw_c2f_row(i: u8) -> u8 {
    if i == 0 {
        20
    } else if i == 1 {
        22
    } else if i == 2 {
        44
    } else {
        46
    }
}

fn gclksw_c2f_row(i: u8) -> (r: u8)
    ensures
        r == spec_gclksw_c2f_row(i),
{
    if i == 0 {
        20
    } else if i == 1 {
        22
    } else if i == 2 {
        44
    } else {
        46
    }
}

/// The row of GCLKSW clock enable register setting `i`
pub open spec fn spec_gclksw_cen_row(i: u8) -> u8 {
    if i == 0 {
        3
    } else if i == 1 {
        9
    } else if i == 2 {
        15
    } else if i == 3 {
        21
    } else if i == 4 {
        27
    } else {
        43
    }
}

fn gclksw_cen_row(i: u8) -> (r: u8)
    ensures
        r == spec_gclksw_cen_row(i),
{
    if i == 0 {
        3
    } else if i == 1 {
        9
    } else if i == 2 {
        15
    } else if i == 3 {
        21
    } else if i == 4 {
        27
    } else {
        43
    }
}

/// A global clock distribution mux with 4 choices
#[derive(Clone, Copy, PartialEq, Eq, Debug, Hash, Structural)]
pub struct GCLKMux4(pub u8);

impl GCLKMux4 {
    /// The setting held by the bits of the field
    pub open spec fn spec_from_bits(bits: u32) -> GCLKMux4 {
        GCLKMux4((bits % 256) as u8)
    }

    /// Can this setting be written?
    pub open spec fn spec_valid(self) -> bool {
        self.0 < 4
    }

    /// The bits that hold this setting
    pub open spec fn spec_to_bits(self) -> u32 {
        self.0 as u32
    }

    /// Decode the bits of the field
    pub fn from_bits(bits: u32) -> (r: GCLKMux4)
        ensures
            r == GCLKMux4::spec_from_bits(bits),
    {
        GCLKMux4((bits % 256) as u8)
    }

    /// Encode the setting into the bits of the field
    pub fn to_bits(self) -> (r: u32)
        requires
            self.spec_valid(),
        ensures
            r == self.spec_to_bits(),
    {
        self.0 as u32
    }
}

impl Default for GCLKMux4 {
    fn default() -> (r: Self)
        ensures
            r == GCLKMux4(0),
    {
        GCLKMux4(0)
    }
}

/// Decoding the bits of a valid `GCLKMux4` gives it back, and the bits fit in 2 bits.
pub proof fn lemma_gclk_mux4_roundtrip(x: GCLKMux4)
    requires
        x.spec_valid(),
    ensures
        GCLKMux4::spec_from_bits(x.spec_to_bits()) == x,
        x.spec_to_bits() < 4,
{
}

impl GCLKSWTileRef {
    pub fn fabric_to_clock(&self, b: &Bitstream, idx: u8) -> (r: Mux17InvGeneric)
        requires
            self.spec_attached(b@),
            idx < 6,
            Mux17InvGeneric::spec_from_bits(spec_read_field(b@, self.p, (GCLKSWMux17 { enable: false, i: idx }), 10), false) is Some,
        ensures
            Some(r) == Mux17InvGeneric::spec_from_bits(spec_read_field(b@, self.p, (GCLKSWMux17 { enable: false, i: idx }), 10), false),
    {
        let fp = GCLKSWMux17 { enable: false, i: idx };
        proof {
            lemma_field_fits(b@.family, self.p, fp, 10);
        }
        let bits = read_field(b, self.p, &fp, 10);
        Mux17InvGeneric::from_bits(bits, false)
    }


    /// Write the field read by [`fabric_to_clock`](Self::fabric_to_clock)
    pub fn set_fabric_to_clock(&self, b: &mut Bitstream, idx: u8, val: Mux17InvGeneric)
        requires
            self.spec_attached(old(b)@),
            idx < 6,
            val.spec_valid(),
        ensures
            final(b)@ == spec_write_value(old(b)@, self.p, (GCLKSWMux17 { enable: false, i: idx }), 10, val.spec_to_bits(false)),
            self.spec_attached(final(b)@),
            spec_same_aux(old(b)@, final(b)@),
    {
        let fp = GCLKSWMux17 { enable: false, i: idx };
        proof {
            lemma_field_fits(b@.family, self.p, fp, 10);
        }
        write_field(b, self.p, &fp, 10, val.to_bits(false));
    }

    pub fn clock_enable(&self, b: &Bitstream, idx: u8) -> (r: Mux17InvGeneric)
        requires
            self.spec_attached(b@),
            idx < 6,
            Mux17InvGeneric::spec_from_bits(spec_read_field(b@, self.p, (GCLKSWMux17 { enable: true, i: idx }), 10), true) is Some,
        ensures
            Some(r) == Mux17InvGeneric::spec_from_bits(spec_read_field(b@, self.p, (GCLKSWMux17 { enable: true, i: idx }), 10), true),
    {
        let fp = GCLKSWMux17 { enable: true, i: idx };
        proof {
            lemma_field_fits(b@.family, self.p, fp, 10);
        }
        let bits = read_field(b, self.p, &fp, 10);
        Mux17InvGeneric::from_bits(bits, true)
    }


    /// Write the field read by [`clock_enable`](Self::clock_enable)
    pub fn set_clock_enable(&self, b: &mut Bitstream, idx: u8, val: Mux17InvGeneric)
        requires
            self.spec_attached(old(b)@),
            idx < 6,
            val.spec_valid(),
        ensures
            final(b)@ == spec_write_value(old(b)@, self.p, (GCLKSWMux17 { enable: true, i: idx }), 10, val.spec_to_bits(true)),
            self.spec_attached(final(b)@),
            spec_same_aux(old(b)@, final(b)@),
    {
        let fp = GCLKSWMux17 { enable: true, i: idx };
        proof {
            lemma_field_fits(b@.family, self.p, fp, 10);
        }
        write_field(b, self.p, &fp, 10, val.to_bits(true));
    }

    pub fn global_to_local(&self, b: &Bitstream, idx: u8) -> (r: GlobalToLocalMux)
        requires
            self.spec_attached(b@),
            idx < 12,
            GlobalToLocalMux::spec_from_bits(spec_read_field(b@, self.p, (RowUp { x: 12, y: spec_gclksw_g2l_row(idx), len: 6 }), 6)) is Some,
        ensures
            Some(r) == GlobalToLocalMux::spec_from_bits(spec_read_field(b@, self.p, (RowUp { x: 12, y: spec_gclksw_g2l_row(idx), len: 6 }), 6)),
    {
        let fp = RowUp { x: 12, y: gclksw_g2l_row(idx), len: 6 };
        proof {
            lemma_field_fits(b@.family, self.p, fp, 6);
        }
        let bits = read_field(b, self.p, &fp, 6);
        GlobalToLocalMux::from_bits(bits)
    }


    /// Write the field read by [`global_to_local`](Self::global_to_local)
    pub fn set_global_to_local(&self, b: &mut Bitstream, idx: u8, val: GlobalToLocalMux)
        requires
            self.spec_attached(old(b)@),
            idx < 12,
            val.spec_valid(),
        ensures
            final(b)@ == spec_write_value(old(b)@, self.p, (RowUp { x: 12, y: spec_gclksw_g2l_row(idx), len: 6 }), 6, val.spec_to_bits()),
            self.spec_attached(final(b)@),
            spec_same_aux(old(b)@, final(b)@),
    {
        let fp = RowUp { x: 12, y: gclksw_g2l_row(idx), len: 6 };
        proof {
            lemma_field_fits(b@.family, self.p, fp, 6);
        }
        write_field(b, self.p, &fp, 6, val.to_bits());
    }

    pub fn clock_to_fabric(&self, b: &Bitstream, idx: u8) -> (r: Mux2)
        requires
            self.spec_attached(b@),
            idx < 4,
            Mux2::spec_from_bits(spec_read_field(b@, self.p, (BitAt { x: 0, y: spec_gclksw_c2f_row(idx) }), 1)) is Some,
        ensures
            Some(r) == Mux2::spec_from_bits(spec_read_field(b@, self.p, (BitAt { x: 0, y: spec_gclksw_c2f_row(idx) }), 1)),
    {
        let fp = BitAt { x: 0, y: gclksw_c2f_row(idx) };
        proof {
            lemma_field_fits(b@.family, self.p, fp, 1);
        }
        let bits = read_field(b, self.p, &fp, 1);
        Mux2::from_bits(bits)
    }


    /// Write the field read by [`clock_to_fabric`](Self::clock_to_fabric)
    pub fn set_clock_to_fabric(&self, b: &mut Bitstream, idx: u8, val: Mux2)
        requires
            self.spec_attached(old(b)@),
            idx < 4,
        ensures
            final(b)@ == spec_write_value(old(b)@, self.p, (BitAt { x: 0, y: spec_gclksw_c2f_row(idx) }), 1, val.spec_to_bits()),
            self.spec_attached(final(b)@),
            spec_same_aux(old(b)@, final(b)@),
    {
        let fp = BitAt { x: 0, y: gclksw_c2f_row(idx) };
        proof {
            lemma_field_fits(b@.family, self.p, fp, 1);
        }
        write_field(b, self.p, &fp, 1, val.to_bits());
    }

    pub fn cen_is_registered(&self, b: &Bitstream, idx: u8) -> (r: bool)
        requires
            self.spec_attached(b@),
            idx < 6,
        ensures
            r == (spec_read_field(b@, self.p, (BitAt { x: 0, y: spec_gclksw_cen_row(idx) }), 1) == 1),
    {
        let fp = BitAt { x: 0, y: gclksw_cen_row(idx) };
        proof {
            lemma_field_fits(b@.family, self.p, fp, 1);
        }
        let bits = read_field(b, self.p, &fp, 1);
        bits == 1
    }


    /// Write the field read by [`cen_is_registered`](Self::cen_is_registered)
    pub fn set_cen_is_registered(&self, b: &mut Bitstream, idx: u8, val: bool)
        requires
            self.spec_attached(old(b)@),
            idx < 6,
        ensures
            final(b)@ == spec_write_value(old(b)@, self.p, (BitAt { x: 0, y: spec_gclksw_cen_row(idx) }), 1, if val { 1u32 } else { 0u32 }),
            self.spec_attached(final(b)@),
            spec_same_aux(old(b)@, final(b)@),
    {
        let fp = BitAt { x: 0, y: gclksw_cen_row(idx) };
        proof {
            lemma_field_fits(b@.family, self.p, fp, 1);
        }
        write_field(b, self.p, &fp, 1, if val {
            1
        } else {
            0
        });
    }

    pub fn clock_dist_mux(&self, b: &Bitstream, idx: u8) -> (r: GCLKMux4)
        requires
            self.spec_attached(b@),
            idx < 5,
        ensures
            r == GCLKMux4::spec_from_bits(spec_read_field(b@, self.p, (ColDown { x: 0, y: (7 + 6 * idx) as u8, len: 2 }), 2)),
    {
        let fp = ColDown { x: 0, y: 7 + 6 * idx, len: 2 };
        proof {
            lemma_field_fits(b@.family, self.p, fp, 2);
        }
        let bits = read_field(b, self.p, &fp, 2);
        GCLKMux4::from_bits(bits)
    }


    /// Write the field read by [`clock_dist_mux`](Self::clock_dist_mux)
    pub fn set_clock_dist_mux(&self, b: &mut Bitstream, idx: u8, val: GCLKMux4)
        requires
            self.spec_attached(old(b)@),
            idx < 5,
            val.spec_valid(),
        ensures
            final(b)@ == spec_write_value(old(b)@, self.p, (ColDown { x: 0, y: (7 + 6 * idx) as u8, len: 2 }), 2, val.spec_to_bits()),
            self.spec_attached(final(b)@),
            spec_same_aux(old(b)@, final(b)@),
    {
        let fp = ColDown { x: 0, y: 7 + 6 * idx, len: 2 };
        proof {
            lemma_field_fits(b@.family, self.p, fp, 2);
        }
        write_field(b, self.p, &fp, 2, val.to_bits());
    }
}

} // verus!
