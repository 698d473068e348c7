//! The settings of a fresh bitstream
//!
//! A new bitstream starts out with every bit zero, and then gets the settings that the
//! vendor tools write by default: known all-1 regions of the main array, IOs driven with
//! 0s and a default drive strength, unused hard IP inputs tied low, and PLL analog
//! settings.

use vstd::prelude::*;

use crate::chips::{spec_tile_type, Family};
use crate::container::{
    lemma_aux_bits_frame, lemma_aux_bits_write_read, spec_aux_bits, spec_blank, spec_chain_len,
    spec_same_aux, spec_with_aux_bits, spec_with_chain, Bitstream, BitstreamView,
};
use crate::coordinates::{GlobalBitPos, TilePos};
use crate::dumptext::{lemma_default_pads_dump_empty, spec_pads_dump, spec_pads_valid};
use crate::field::spec_write_value;
use crate::padring::{
    lemma_pad_drive_strength_write_read, padring_to_tile, spec_pad_bit_index, spec_pad_bits,
    spec_padring_to_tile, spec_pads_ready, spec_with_pad_bits, DriveStrength, PadRingExt,
    PullUpDown,
};
use crate::tiles::clocking::{PLLTileRef, PLLWireTo};
use crate::tiles::hard_ip::{
    LeftRightIPToExtMux13, LeftRightIPToExtMux17, LeftRightIPTileRef, Mux13Inv, Mux17InvGeneric,
    TopIPTileRef, TopIPToExtMux,
};
use crate::tiles::io::{
    IOClockMux, IOTileCommon, IOTileCommonMut, LeftRightIOTileRef, LocalToIOMux, TopBottomIOTileRef,
};
use crate::tiles::{TileRefTrait, TileType};

verus! {

/// Is main-array position `k` (row `k / 928`, stored right to left) inside the rectangle
/// of rows `y0 .. y1` and columns `x0 .. x1`?
pub open spec fn spec_in_rect(k: int, y0: int, y1: int, x0: int, x1: int) -> bool {
    let y = k / 928;
    let xr = k % 928;
    &&& xr <= 919
    &&& y0 <= y < y1
    &&& x0 <= 919 - xr < x1
}

/// The bitstream with every main-array bit of a rectangle set to 1
pub open spec fn spec_with_ones(v: BitstreamView, y0: int, y1: int, x0: int, x1: int) -> BitstreamView {
    let s = v.arrays[0][0];
    BitstreamView {
        arrays: spec_with_chain(
            v.arrays,
            0,
            0,
            Seq::new(s.len(), |k: int| if spec_in_rect(k, y0, y1, x0, x1) { true } else { s[k] }),
        ),
        ..v
    }
}

/// Set every main-array bit of the rectangle of rows `y0 .. y1` and columns `x0 .. x1`
fn fill_ones(b: &mut Bitstream, y0: u32, y1: u32, x0: u32, x1: u32)
    requires
        old(b)@.logic_ready(),
        old(b)@.family == Family::AGRV2K,
        y0 <= y1 <= 860,
        x0 <= x1 <= 920,
    ensures
        final(b)@ == spec_with_ones(old(b)@, y0 as int, y1 as int, x0 as int, x1 as int),
        final(b)@.logic_ready(),
        spec_same_aux(old(b)@, final(b)@),
{
    let ghost v0 = b@;
    let ghost s0 = v0.arrays[0][0];
    let mut y = y0;
    proof {
        assert(spec_with_ones(v0, y0 as int, y0 as int, x0 as int, x1 as int).arrays[0][0] =~= s0);
        assert(spec_with_ones(v0, y0 as int, y0 as int, x0 as int, x1 as int).arrays[0] =~= v0.arrays[0]);
        assert(spec_with_ones(v0, y0 as int, y0 as int, x0 as int, x1 as int).arrays =~= v0.arrays);
    }
    while y < y1
        invariant
            y0 <= y <= y1 <= 860,
            x0 <= x1 <= 920,
            v0.logic_ready(),
            v0.family == Family::AGRV2K,
            s0 == v0.arrays[0][0],
            b@ == spec_with_ones(v0, y0 as int, y as int, x0 as int, x1 as int),
        decreases y1 - y,
    {
        let mut x = x0;
        while x < x1
            invariant
                y0 <= y < y1 <= 860,
                x0 <= x <= x1 <= 920,
                v0.logic_ready(),
                v0.family == Family::AGRV2K,
                s0 == v0.arrays[0][0],
                b@.logic_ready(),
                spec_same_aux(v0, b@),
                b@.arrays[0][0] == Seq::new(
                    s0.len(),
                    |k: int|
                        if spec_in_rect(k, y0 as int, y as int, x0 as int, x1 as int) || spec_in_rect(
                            k,
                            y as int,
                            y + 1,
                            x0 as int,
                            x as int,
                        ) {
                            true
                        } else {
                            s0[k]
                        },
                ),
            decreases x1 - x,
        {
            let ghost before = b@.arrays[0][0];
            b.set_logic_array_bit(GlobalBitPos { y, x }, true);
            proof {
                let idx = y * 928 + (919 - x);
                assert(idx / 928 == y);
                assert(idx % 928 == 919 - x);
                assert(b@.arrays[0][0] =~= Seq::new(
                    s0.len(),
                    |k: int|
                        if spec_in_rect(k, y0 as int, y as int, x0 as int, x1 as int) || spec_in_rect(
                            k,
                            y as int,
                            y + 1,
                            x0 as int,
                            x + 1,
                        ) {
                            true
                        } else {
                            s0[k]
                        },
                ));
            }
            x = x + 1;
        }
        proof {
            let target = spec_with_ones(v0, y0 as int, y + 1, x0 as int, x1 as int);
            assert(b@.arrays[0][0] =~= target.arrays[0][0]);
            assert(b@.arrays[0] =~= target.arrays[0]);
            assert(b@.arrays[1] =~= target.arrays[1]);
            assert(b@.arrays =~= target.arrays);
        }
        y = y + 1;
    }
}

/// Agreeing on everything but the main array is transitive.
pub proof fn lemma_same_aux_trans(a: BitstreamView, b: BitstreamView, c: BitstreamView)
    requires
        spec_same_aux(a, b),
        spec_same_aux(b, c),
    ensures
        spec_same_aux(a, c),
{
    assert forall|g: int, k: int|
        0 <= g < a.arrays.len() && 0 <= k < a.arrays[g].len() && (g != 0 || k != 0) implies (
        #[trigger] c.arrays[g][k]) == a.arrays[g][k] by {
        assert(b.arrays[g][k] == a.arrays[g][k]);
    }
}

/// The bitstream after driving IO `io` of an IO tile with 0s: both clocks and every
/// local-to-IO signal tied to ground
pub open spec fn spec_wipe_io<T: IOTileCommon>(t: T, v: BitstreamView, io: u8) -> BitstreamView {
    let gnd_clk = IOClockMux::GND.spec_to_bits();
    let gnd = LocalToIOMux::GND.spec_to_bits();
    let v1 = t.spec_clk_write(v, (io * 2) as u8, gnd_clk);
    let v2 = t.spec_clk_write(v1, (io * 2 + 1) as u8, gnd_clk);
    let v3 = t.spec_l2io_write(v2, t.spec_l2io_index(0, io), gnd);
    let v4 = t.spec_l2io_write(v3, t.spec_l2io_index(1, io), gnd);
    let v5 = t.spec_l2io_write(v4, t.spec_l2io_index(2, io), gnd);
    let v6 = t.spec_l2io_write(v5, t.spec_l2io_index(3, io), gnd);
    let v7 = t.spec_l2io_write(v6, t.spec_l2io_index(4, io), gnd);
    t.spec_l2io_write(v7, t.spec_l2io_index(5, io), gnd)
}

/// Drive IO `io_i` of an IO tile with 0s
pub fn wipe_io_tile<T: IOTileCommonMut>(tile: &T, b: &mut Bitstream, io_i: u8)
    requires
        tile.spec_io_attached(old(b)@),
        io_i < tile.spec_num_ios(),
    ensures
        final(b)@ == spec_wipe_io(*tile, old(b)@, io_i),
        tile.spec_io_attached(final(b)@),
        spec_same_aux(old(b)@, final(b)@),
{
    let ghost v0 = b@;
    tile.set_out_clock_choice(b, io_i, IOClockMux::GND);
    let ghost v1 = b@;
    tile.set_in_clock_choice(b, io_i, IOClockMux::GND);
    let ghost v2 = b@;
    tile.set_local_to_io_out(b, io_i, LocalToIOMux::GND);
    let ghost v3 = b@;
    tile.set_local_to_io_oe(b, io_i, LocalToIOMux::GND);
    let ghost v4 = b@;
    tile.set_local_to_out_clk_en(b, io_i, LocalToIOMux::GND);
    let ghost v5 = b@;
    tile.set_local_to_in_clk_en(b, io_i, LocalToIOMux::GND);
    let ghost v6 = b@;
    tile.set_local_to_async_clear(b, io_i, LocalToIOMux::GND);
    let ghost v7 = b@;
    tile.set_local_to_sync_clear(b, io_i, LocalToIOMux::GND);
    proof {
        lemma_same_aux_trans(v0, v1, v2);
        lemma_same_aux_trans(v0, v2, v3);
        lemma_same_aux_trans(v0, v3, v4);
        lemma_same_aux_trans(v0, v4, v5);
        lemma_same_aux_trans(v0, v5, v6);
        lemma_same_aux_trans(v0, v6, v7);
        lemma_same_aux_trans(v0, v7, b@);
    }
}

/// Every pad of the pad ring sits on an IO of an IO tile.
pub proof fn lemma_padring_tiles(pad_i: u8)
    requires
        pad_i < 79,
    ensures
        ({
            let (tile, io) = spec_padring_to_tile(pad_i);
            ||| spec_tile_type(Family::AGRV2K, tile) == TileType::TopBottomIO && io < 4
            ||| spec_tile_type(Family::AGRV2K, tile) == TileType::LeftRightIO && io < 6
        }),
{
}

/// The bitstream after driving the IO of pad `pad_i` with 0s and giving the pad its
/// default drive strength
pub open spec fn spec_pad_default(v: BitstreamView, pad_i: u8) -> BitstreamView {
    let (tile, io) = spec_padring_to_tile(pad_i);
    let v1 = if spec_tile_type(v.family, tile) == TileType::TopBottomIO {
        spec_wipe_io(TopBottomIOTileRef { family: v.family, p: tile }, v, io)
    } else {
        spec_wipe_io(LeftRightIOTileRef { family: v.family, p: tile }, v, io)
    };
    spec_with_pad_bits(v1, spec_pad_bit_index(pad_i) - 4, 4, DriveStrength::_4MA.spec_to_bits())
}

/// The bitstream after giving pads `0 .. n` their defaults, in order
pub open spec fn spec_pad_defaults(v: BitstreamView, n: nat) -> BitstreamView
    decreases n,
{
    if n == 0 {
        v
    } else {
        spec_pad_default(spec_pad_defaults(v, (n - 1) as nat), (n - 1) as u8)
    }
}

/// Is this an AGRV2K bitstream whose every array is loaded?
pub open spec fn spec_all_ready(v: BitstreamView) -> bool {
    &&& v.family == Family::AGRV2K
    &&& v.logic_ready()
    &&& spec_pads_ready(v)
    &&& v.arrays[1][1].len() == spec_chain_len(v.family, 1, 1)
}

/// Changing only the main array keeps a bitstream ready for writing.
pub proof fn lemma_all_ready_same_aux(v: BitstreamView, w: BitstreamView)
    requires
        spec_all_ready(v),
        spec_same_aux(v, w),
        w.logic_ready(),
    ensures
        spec_all_ready(w),
{
}

/// Is bit `k` of the pad ring settings one of the drive strength bits of pad `p`?
pub open spec fn spec_in_drive_bits(p: u8, k: int) -> bool {
    spec_pad_bit_index(p) - 8 < k <= spec_pad_bit_index(p) - 4
}

/// Is bit `k` of the pad ring settings outside the drive strength bits of every pad?
pub open spec fn spec_outside_drives(k: int) -> bool {
    forall|p: u8| p < 79 ==> !#[trigger] spec_in_drive_bits(p, k)
}

/// The settings bits of a later pad all lie below those of an earlier one.
proof fn lemma_pad_index_gap(p: u8, j: u8)
    requires
        p < j < 79,
    ensures
        spec_pad_bit_index(j) + 10 <= spec_pad_bit_index(p),
{
}

#[verifier::spinoff_prover]
#[verifier::rlimit(40)]
fn pad_defaults(b: &mut Bitstream)
    requires
        spec_all_ready(old(b)@),
    ensures
        final(b)@ == spec_pad_defaults(old(b)@, 79),
        spec_all_ready(final(b)@),
        final(b)@.user_id == old(b)@.user_id,
        forall|p: u8|
            p < 79 ==> DriveStrength::spec_from_bits(
                #[trigger] spec_pad_bits(final(b)@, spec_pad_bit_index(p) - 4, 4),
            ) == Some(DriveStrength::_4MA),
        forall|k: int|
            0 <= k < old(b)@.arrays[1][0].len() && spec_outside_drives(k) ==> #[trigger] final(b)@.arrays[1][0][k]
                == old(b)@.arrays[1][0][k],
{
    let ghost v0 = b@;
    let mut pad_i: u8 = 0;
    while pad_i < 79
        invariant
            pad_i <= 79,
            b@ == spec_pad_defaults(v0, pad_i as nat),
            spec_all_ready(b@),
            spec_all_ready(v0),
            b@.user_id == v0.user_id,
            forall|p: u8|
                p < pad_i ==> DriveStrength::spec_from_bits(
                    #[trigger] spec_pad_bits(b@, spec_pad_bit_index(p) - 4, 4),
                ) == Some(DriveStrength::_4MA),
            forall|k: int|
                0 <= k < v0.arrays[1][0].len() && spec_outside_drives(k) ==> #[trigger] b@.arrays[1][0][k]
                    == v0.arrays[1][0][k],
        decreases 79 - pad_i,
    {
        let (tile_pos, io_i) = padring_to_tile(pad_i);
        proof {
            lemma_padring_tiles(pad_i);
        }
        let ghost before = b@;
        match b.tile(tile_pos) {
            Some(tile) => {
                if tile.tile_type() == TileType::TopBottomIO {
                    let t = tile.as_topbottom_io_tile();
                    wipe_io_tile(&t, b, io_i);
                } else {
                    let t = tile.as_leftright_io_tile();
                    wipe_io_tile(&t, b, io_i);
                }
            },
            None => {},
        }
        proof {
            lemma_all_ready_same_aux(before, b@);
        }
        let ghost mid = b@;
        b.set_pad_drive_strength(pad_i, DriveStrength::default());
        proof {
            lemma_pad_drive_strength_write_read(mid, pad_i, DriveStrength::_4MA);
            assert forall|p: u8| p < pad_i + 1 implies DriveStrength::spec_from_bits(
                #[trigger] spec_pad_bits(b@, spec_pad_bit_index(p) - 4, 4),
            ) == Some(DriveStrength::_4MA) by {
                if p < pad_i {
                    lemma_pad_index_gap(p, pad_i);
                    let base = spec_pad_bit_index(p) - 4;
                    assert(mid.arrays[1][0] == before.arrays[1][0]);
                    assert(Seq::new(4, |i: int| b@.arrays[1][0][base - i]) =~= Seq::new(
                        4,
                        |i: int| before.arrays[1][0][base - i],
                    ));
                    assert(spec_pad_bits(b@, base, 4) == spec_pad_bits(before, base, 4));
                } else {
                    assert(p == pad_i);
                    assert(b@ == spec_with_pad_bits(mid, spec_pad_bit_index(pad_i) - 4, 4, DriveStrength::_4MA.spec_to_bits()));
                }
            }
            assert forall|k: int|
                0 <= k < v0.arrays[1][0].len() && spec_outside_drives(k) implies #[trigger] b@.arrays[1][0][k]
                == v0.arrays[1][0][k] by {
                assert(!spec_in_drive_bits(pad_i, k));
                assert(before.arrays[1][0][k] == v0.arrays[1][0][k]);
            }
        }
        pad_i = pad_i + 1;
    }
}

/// The bitstream after tying inputs `0 .. n` of the top hard IP tile at column `x` to ground
pub open spec fn spec_top_ip_ties(v: BitstreamView, x: u8, n: nat) -> BitstreamView
    decreases n,
{
    if n == 0 {
        v
    } else {
        spec_write_value(
            spec_top_ip_ties(v, x, (n - 1) as nat),
            TilePos { x, y: 5 },
            TopIPToExtMux { i: (n - 1) as u8 },
            9,
            Mux13Inv::GND.spec_to_bits(),
        )
    }
}

/// The number of MCU interface inputs actually used in the top hard IP tile at column `x`
pub open spec fn spec_top_ip_used(x: u8) -> nat {
    if x == 4 {
        9
    } else {
        8
    }
}

/// The bitstream after tying the used inputs of the top hard IP tiles at columns
/// `1 ..= k` to ground
pub open spec fn spec_top_ips(v: BitstreamView, k: nat) -> BitstreamView
    decreases k,
{
    if k == 0 {
        v
    } else {
        spec_top_ip_ties(spec_top_ips(v, (k - 1) as nat), k as u8, spec_top_ip_used(k as u8))
    }
}

/// The number of 17-input MCU interface inputs actually used in the left/right hard IP
/// tile at row `y`
pub open spec fn spec_lr_ip_used(y: u8) -> nat {
    if y == 12 {
        3
    } else if y == 11 {
        7
    } else if y == 10 || y == 9 || y == 8 {
        3
    } else if y == 7 {
        2
    } else {
        4
    }
}

/// The bitstream after tying 13-input muxes `0 .. n` of the left/right hard IP tile at row
/// `y` (in column 13) to ground
pub open spec fn spec_lr_ip13_ties(v: BitstreamView, y: u8, n: nat) -> BitstreamView
    decreases n,
{
    if n == 0 {
        v
    } else {
        spec_write_value(
            spec_lr_ip13_ties(v, y, (n - 1) as nat),
            TilePos { x: 13, y },
            LeftRightIPToExtMux13 { i: (n - 1) as u8 },
            9,
            Mux13Inv::GND.spec_to_bits(),
        )
    }
}

/// The bitstream after tying 17-input muxes `0 .. n` of the left/right hard IP tile at row
/// `y` (in column 13) to ground
pub open spec fn spec_lr_ip17_ties(v: BitstreamView, y: u8, n: nat) -> BitstreamView
    decreases n,
{
    if n == 0 {
        v
    } else {
        spec_write_value(
            spec_lr_ip17_ties(v, y, (n - 1) as nat),
            TilePos { x: 13, y },
            LeftRightIPToExtMux17 { i: (n - 1) as u8 },
            10,
            Mux17InvGeneric::GND.spec_to_bits(false),
        )
    }
}

/// The bitstream after tying the MCU interface inputs of the left/right hard IP tiles at
/// rows `5 .. 5 + k` to ground
pub open spec fn spec_lr_ips(v: BitstreamView, k: nat) -> BitstreamView
    decreases k,
{
    if k == 0 {
        v
    } else {
        let y = (4 + k) as u8;
        spec_lr_ip17_ties(spec_lr_ip13_ties(spec_lr_ips(v, (k - 1) as nat), y, 12), y, spec_lr_ip_used(y))
    }
}

/// The bitstream after tying inputs `0 .. n` of the PLL to ground
pub open spec fn spec_pll_ties(v: BitstreamView, n: nat) -> BitstreamView
    decreases n,
{
    if n == 0 {
        v
    } else {
        spec_write_value(
            spec_pll_ties(v, (n - 1) as nat),
            TilePos { x: 22, y: 5 },
            PLLWireTo { i: (n - 1) as u8 },
            9,
            Mux13Inv::GND.spec_to_bits(),
        )
    }
}

/// The PLL analog settings of a new bitstream
pub open spec fn spec_pll_analog(v: BitstreamView) -> BitstreamView {
    let v1 = spec_with_aux_bits(v, 1, 1, 221, 3, 4);
    let v2 = spec_with_aux_bits(v1, 1, 1, 230, 2, 1);
    let v3 = spec_with_aux_bits(v2, 1, 1, 232, 2, 1);
    let v4 = spec_with_aux_bits(v3, 1, 1, 234, 2, 1);
    spec_with_aux_bits(v4, 1, 1, 236, 3, 2)
}

fn top_ip_ties(b: &mut Bitstream)
    requires
        spec_all_ready(old(b)@),
    ensures
        final(b)@ == spec_top_ips(old(b)@, 12),
        spec_all_ready(final(b)@),
        spec_same_aux(old(b)@, final(b)@),
{
    let ghost v0 = b@;
    let mut x: u8 = 1;
    while x < 13
        invariant
            1 <= x <= 13,
            b@ == spec_top_ips(v0, (x - 1) as nat),
            spec_all_ready(b@),
            spec_same_aux(v0, b@),
        decreases 13 - x,
    {
        let tile = TilePos { y: 5, x };
        let t = match b.tile_mut(tile) {
            Some(t) => t.as_top_ip_tile(),
            None => TopIPTileRef { family: b.family(), p: tile },
        };
        let num_pins_actually_used: u8 = if x == 4 {
            9
        } else {
            8
        };
        let ghost start = b@;
        let mut i: u8 = 0;
        while i < num_pins_actually_used
            invariant
                1 <= x < 13,
                i <= num_pins_actually_used,
                num_pins_actually_used == spec_top_ip_used(x),
                t == (TopIPTileRef { family: Family::AGRV2K, p: TilePos { y: 5, x } }),
                spec_all_ready(start),
                b@ == spec_top_ip_ties(start, x, i as nat),
                spec_all_ready(b@),
                spec_same_aux(v0, b@),
            decreases num_pins_actually_used - i,
        {
            let ghost before = b@;
            t.set_to_ip(b, i, Mux13Inv::GND);
            proof {
                lemma_all_ready_same_aux(before, b@);
                lemma_same_aux_trans(v0, before, b@);
            }
            i = i + 1;
        }
        x = x + 1;
    }
}

fn lr_ip_ties(b: &mut Bitstream)
    requires
        spec_all_ready(old(b)@),
    ensures
        final(b)@ == spec_lr_ips(old(b)@, 8),
        spec_all_ready(final(b)@),
        spec_same_aux(old(b)@, final(b)@),
{
    let ghost v0 = b@;
    let mut y: u8 = 5;
    while y < 13
        invariant
            5 <= y <= 13,
            b@ == spec_lr_ips(v0, (y - 5) as nat),
            spec_all_ready(b@),
            spec_same_aux(v0, b@),
        decreases 13 - y,
    {
        let tile = TilePos { y, x: 13 };
        let t = match b.tile_mut(tile) {
            Some(t) => t.as_leftright_ip_tile(),
            None => LeftRightIPTileRef { family: b.family(), p: tile },
        };
        let ghost start = b@;
        let mut i: u8 = 0;
        while i < 12
            invariant
                5 <= y < 13,
                i <= 12,
                t == (LeftRightIPTileRef { family: Family::AGRV2K, p: TilePos { y, x: 13 } }),
                spec_all_ready(start),
                b@ == spec_lr_ip13_ties(start, y, i as nat),
                spec_all_ready(b@),
                spec_same_aux(v0, b@),
            decreases 12 - i,
        {
            let ghost before = b@;
            t.set_to_ip_13(b, i, Mux13Inv::GND);
            proof {
                lemma_all_ready_same_aux(before, b@);
                lemma_same_aux_trans(v0, before, b@);
            }
            i = i + 1;
        }
        let num_pins_actually_used: u8 = match y {
            12 => 3,
            11 => 7,
            10 => 3,
            9 => 3,
            8 => 3,
            7 => 2,
            6 => 4,
            _ => 4,
        };
        let ghost mid = b@;
        let mut i: u8 = 0;
        while i < num_pins_actually_used
            invariant
                5 <= y < 13,
                i <= num_pins_actually_used,
                num_pins_actually_used == spec_lr_ip_used(y),
                t == (LeftRightIPTileRef { family: Family::AGRV2K, p: TilePos { y, x: 13 } }),
                spec_all_ready(mid),
                b@ == spec_lr_ip17_ties(mid, y, i as nat),
                spec_all_ready(b@),
                spec_same_aux(v0, b@),
            decreases num_pins_actually_used - i,
        {
            let ghost before = b@;
            t.set_to_ip_17(b, i, Mux17InvGeneric::GND);
            proof {
                lemma_all_ready_same_aux(before, b@);
                lemma_same_aux_trans(v0, before, b@);
            }
            i = i + 1;
        }
        y = y + 1;
    }
}

fn pll_defaults(b: &mut Bitstream)
    requires
        spec_all_ready(old(b)@),
    ensures
        final(b)@ == spec_pll_analog(spec_pll_ties(old(b)@, 11)),
        spec_all_ready(final(b)@),
        final(b)@.user_id == old(b)@.user_id,
        final(b)@.arrays[1][0] == old(b)@.arrays[1][0],
        spec_aux_bits(final(b)@, 1, 1, 221, 3) == 4,
        spec_aux_bits(final(b)@, 1, 1, 230, 2) == 1,
        spec_aux_bits(final(b)@, 1, 1, 232, 2) == 1,
        spec_aux_bits(final(b)@, 1, 1, 234, 2) == 1,
        spec_aux_bits(final(b)@, 1, 1, 236, 3) == 2,
{
    let ghost v0 = b@;
    let tile = TilePos { y: 5, x: 22 };
    let t = match b.tile_mut(tile) {
        Some(t) => t.as_pll_tile(),
        None => PLLTileRef { family: b.family(), p: tile },
    };
    let mut i: u8 = 0;
    while i < 11
        invariant
            i <= 11,
            t == (PLLTileRef { family: Family::AGRV2K, p: TilePos { y: 5, x: 22 } }),
            spec_all_ready(v0),
            b@ == spec_pll_ties(v0, i as nat),
            spec_all_ready(b@),
            spec_same_aux(v0, b@),
        decreases 11 - i,
    {
        let ghost before = b@;
        t.set_to_pll(b, i, Mux13Inv::GND);
        proof {
            lemma_all_ready_same_aux(before, b@);
            lemma_same_aux_trans(v0, before, b@);
        }
        i = i + 1;
    }
    // PLL analog settings
    let ghost w0 = b@;
    t.set_analog_icp(b, 4);
    let ghost w1 = b@;
    t.set_analog_rlpf(b, 1);
    let ghost w2 = b@;
    t.set_analog_rref(b, 1);
    let ghost w3 = b@;
    t.set_analog_rvi(b, 1);
    let ghost w4 = b@;
    t.set_analog_ivco(b, 2);
    proof {
        assert(4u32 & crate::bitfield::mask_low(3) == 4 && 1u32 & crate::bitfield::mask_low(2) == 1
            && 2u32 & crate::bitfield::mask_low(3) == 2) by (bit_vector);
        lemma_aux_bits_write_read(w0, 1, 1, 221, 3, 4);
        lemma_aux_bits_write_read(w1, 1, 1, 230, 2, 1);
        lemma_aux_bits_write_read(w2, 1, 1, 232, 2, 1);
        lemma_aux_bits_write_read(w3, 1, 1, 234, 2, 1);
        lemma_aux_bits_write_read(w4, 1, 1, 236, 3, 2);
        lemma_aux_bits_frame(w1, 1, 1, 230, 2, 1, 221, 3);
        lemma_aux_bits_frame(w2, 1, 1, 232, 2, 1, 221, 3);
        lemma_aux_bits_frame(w3, 1, 1, 234, 2, 1, 221, 3);
        lemma_aux_bits_frame(w4, 1, 1, 236, 3, 2, 221, 3);
        lemma_aux_bits_frame(w2, 1, 1, 232, 2, 1, 230, 2);
        lemma_aux_bits_frame(w3, 1, 1, 234, 2, 1, 230, 2);
        lemma_aux_bits_frame(w4, 1, 1, 236, 3, 2, 230, 2);
        lemma_aux_bits_frame(w3, 1, 1, 234, 2, 1, 232, 2);
        lemma_aux_bits_frame(w4, 1, 1, 236, 3, 2, 232, 2);
        lemma_aux_bits_frame(w4, 1, 1, 236, 3, 2, 234, 2);
    }
}

/// A settings bit of pad `p` other than its drive strength bits is no drive strength bit
/// of any pad.
proof fn lemma_outside_drives(p: u8, k: int)
    requires
        p < 79,
        spec_pad_bit_index(p) - 10 < k <= spec_pad_bit_index(p),
        !spec_in_drive_bits(p, k),
    ensures
        spec_outside_drives(k),
{
    assert forall|j: u8| j < 79 implies !#[trigger] spec_in_drive_bits(j, k) by {
        if j < p {
            lemma_pad_index_gap(j, p);
        } else if p < j {
            lemma_pad_index_gap(p, j);
        }
    }
}

/// The pads of a new bitstream: every pad drives 4 mA, has no termination, has its input
/// off, is push-pull with fast slew and has no pull-up to the fabric.
proof fn lemma_new_pad_defaults(v0: BitstreamView, v4: BitstreamView, v5: BitstreamView, r: BitstreamView)
    requires
        v0 == spec_blank(Family::AGRV2K),
        spec_same_aux(v0, v4),
        spec_all_ready(v4),
        r.arrays[1][0] == v5.arrays[1][0],
        forall|p: u8|
            p < 79 ==> DriveStrength::spec_from_bits(
                #[trigger] spec_pad_bits(v5, spec_pad_bit_index(p) - 4, 4),
            ) == Some(DriveStrength::_4MA),
        forall|k: int|
            0 <= k < v4.arrays[1][0].len() && spec_outside_drives(k) ==> #[trigger] v5.arrays[1][0][k]
                == v4.arrays[1][0][k],
    ensures
        forall|p: u8|
            p < 79 ==> DriveStrength::spec_from_bits(
                #[trigger] spec_pad_bits(r, spec_pad_bit_index(p) - 4, 4),
            ) == Some(DriveStrength::_4MA),
        forall|p: u8|
            p < 79 ==> PullUpDown::spec_from_bits(
                #[trigger] spec_pad_bits(r, spec_pad_bit_index(p) - 8, 2),
            ) == Some(PullUpDown::NoPull),
        forall|p: u8|
            p < 79 ==> {
                let k = #[trigger] spec_pad_bit_index(p);
                &&& !r.arrays[1][0][k]
                &&& !r.arrays[1][0][k - 1]
                &&& !r.arrays[1][0][k - 2]
                &&& !r.arrays[1][0][k - 3]
            },
{
    assert(v4.arrays[1][0] == v0.arrays[1][0]);
    assert forall|p: u8| p < 79 implies DriveStrength::spec_from_bits(
        #[trigger] spec_pad_bits(r, spec_pad_bit_index(p) - 4, 4),
    ) == Some(DriveStrength::_4MA) by {
        let base = spec_pad_bit_index(p) - 4;
        assert(Seq::new(4, |i: int| r.arrays[1][0][base - i]) =~= Seq::new(
            4,
            |i: int| v5.arrays[1][0][base - i],
        ));
        assert(spec_pad_bits(r, base, 4) == spec_pad_bits(v5, base, 4));
    }
    assert forall|p: u8| p < 79 implies PullUpDown::spec_from_bits(
        #[trigger] spec_pad_bits(r, spec_pad_bit_index(p) - 8, 2),
    ) == Some(PullUpDown::NoPull) by {
        let base = spec_pad_bit_index(p) - 8;
        let bs = Seq::new(2, |i: int| r.arrays[1][0][base - i]);
        lemma_outside_drives(p, base);
        lemma_outside_drives(p, base - 1);
        assert(v5.arrays[1][0][base] == v4.arrays[1][0][base]);
        assert(v5.arrays[1][0][base - 1] == v4.arrays[1][0][base - 1]);
        assert(!bs[0] && !bs[1]);
        crate::bitfield::lemma_bits_value_all_clear(bs);
    }
    assert forall|p: u8| p < 79 implies {
        let k = #[trigger] spec_pad_bit_index(p);
        &&& !r.arrays[1][0][k]
        &&& !r.arrays[1][0][k - 1]
        &&& !r.arrays[1][0][k - 2]
        &&& !r.arrays[1][0][k - 3]
    } by {
        let k = spec_pad_bit_index(p);
        lemma_outside_drives(p, k);
        lemma_outside_drives(p, k - 1);
        lemma_outside_drives(p, k - 2);
        lemma_outside_drives(p, k - 3);
        assert(v5.arrays[1][0][k] == v4.arrays[1][0][k]);
        assert(v5.arrays[1][0][k - 1] == v4.arrays[1][0][k - 1]);
        assert(v5.arrays[1][0][k - 2] == v4.arrays[1][0][k - 2]);
        assert(v5.arrays[1][0][k - 3] == v4.arrays[1][0][k - 3]);
    }
}

/// The settings of a new bitstream of family `f`
pub open spec fn spec_new_bitstream(f: Family) -> BitstreamView {
    let v0 = spec_blank(f);
    // big top-left MCU hole: rows 0 .. 22 + 7 * 68, columns 0 .. 20 + 12 * 36
    let v1 = spec_with_ones(v0, 0, 498, 0, 452);
    // empty IOs above the wide BRAM column: columns 20 + 12 * 36 .. + 180
    let v2 = spec_with_ones(v1, 0, 22, 452, 632);
    // top-right: columns 20 + 12 * 36 + 180 + 7 * 36 .. + 36
    let v3 = spec_with_ones(v2, 0, 22, 884, 920);
    // bottom-right: rows 22 + 12 * 68 .. + 22
    let v4 = spec_with_ones(v3, 838, 860, 884, 920);
    // every IO that exists is driven with 0s and has the default drive strength
    let v5 = spec_pad_defaults(v4, 79);
    // maybe-MIPI IOs are also driven low, and so are the bits of BOOT0
    let v6 = spec_wipe_io(TopBottomIOTileRef { family: f, p: TilePos { y: 0, x: 2 } }, v5, 0);
    let v7 = spec_wipe_io(TopBottomIOTileRef { family: f, p: TilePos { y: 0, x: 9 } }, v6, 0);
    let v8 = spec_wipe_io(TopBottomIOTileRef { family: f, p: TilePos { y: 0, x: 18 } }, v7, 3);
    // the MCU interface
    let v9 = spec_top_ips(v8, 12);
    let v10 = spec_lr_ips(v9, 8);
    // the PLL
    spec_pll_analog(spec_pll_ties(v10, 11))
}

impl Bitstream {
    /// A new bitstream of family `family`, with the settings that the vendor tools write
    /// by default
    pub fn new(family: Family) -> (r: Bitstream)
        ensures
            r@ == spec_new_bitstream(family),
            spec_all_ready(r@),
            r@.complete(),
            r@.user_id == 0xffff,
            spec_aux_bits(r@, 1, 1, 221, 3) == 4,
            spec_aux_bits(r@, 1, 1, 230, 2) == 1,
            spec_aux_bits(r@, 1, 1, 232, 2) == 1,
            spec_aux_bits(r@, 1, 1, 234, 2) == 1,
            spec_aux_bits(r@, 1, 1, 236, 3) == 2,
            forall|p: u8|
                p < 79 ==> DriveStrength::spec_from_bits(
                    #[trigger] spec_pad_bits(r@, spec_pad_bit_index(p) - 4, 4),
                ) == Some(DriveStrength::_4MA),
            forall|p: u8|
                p < 79 ==> PullUpDown::spec_from_bits(
                    #[trigger] spec_pad_bits(r@, spec_pad_bit_index(p) - 8, 2),
                ) == Some(PullUpDown::NoPull),
            forall|p: u8|
                p < 79 ==> {
                    let k = #[trigger] spec_pad_bit_index(p);
                    &&& !r@.arrays[1][0][k]
                    &&& !r@.arrays[1][0][k - 1]
                    &&& !r@.arrays[1][0][k - 2]
                    &&& !r@.arrays[1][0][k - 3]
                },
            spec_pads_valid(r@, 79),
            spec_pads_dump(r@, 79) == Seq::<Seq<char>>::empty(),
    {
        let mut ret = Bitstream::new_blank(family);
        match family {
            Family::AGRV2K => {
                // Fill a bunch of known all-1 bits
                let ghost v0 = ret@;
                // Big top-left MCU hole
                fill_ones(&mut ret, 0, 22 + 7 * 68, 0, 20 + 12 * 36);
                let ghost v1 = ret@;
                // Empty IOs above wide BRAM column
                fill_ones(&mut ret, 0, 22, 20 + 12 * 36, 20 + 12 * 36 + 180);
                let ghost v2 = ret@;
                // Top-right
                fill_ones(
                    &mut ret,
                    0,
                    22,
                    20 + 12 * 36 + 180 + 7 * 36,
                    20 + 12 * 36 + 180 + 7 * 36 + 36,
                );
                let ghost v3 = ret@;
                // Bottom-right
                fill_ones(
                    &mut ret,
                    22 + 12 * 68,
                    22 + 12 * 68 + 22,
                    20 + 12 * 36 + 180 + 7 * 36,
                    20 + 12 * 36 + 180 + 7 * 36 + 36,
                );
                proof {
                    lemma_same_aux_trans(v0, v1, v2);
                    lemma_same_aux_trans(v0, v2, v3);
                    lemma_same_aux_trans(v0, v3, ret@);
                }

                // By default, apparently all IOs which _exist_ are driven with 0s on their
                // signals, and they default to a particular drive strength
                let ghost v4 = ret@;
                pad_defaults(&mut ret);

                // These maybe-MIPI IOs are also driven low
                let ghost v5 = ret@;
                let t = TopBottomIOTileRef { family, p: TilePos { y: 0, x: 2 } };
                wipe_io_tile(&t, &mut ret, 0);
                let ghost v6 = ret@;
                let t = TopBottomIOTileRef { family, p: TilePos { y: 0, x: 9 } };
                wipe_io_tile(&t, &mut ret, 0);
                let ghost v7 = ret@;
                // The vendor tool clears these bits corresponding to BOOT0
                let t = TopBottomIOTileRef { family, p: TilePos { y: 0, x: 18 } };
                wipe_io_tile(&t, &mut ret, 3);
                proof {
                    lemma_all_ready_same_aux(v5, v6);
                    lemma_all_ready_same_aux(v6, v7);
                    lemma_all_ready_same_aux(v7, ret@);
                }

                // Clear out bits to the MCU interface
                let ghost v8 = ret@;
                top_ip_ties(&mut ret);
                let ghost v9 = ret@;
                lr_ip_ties(&mut ret);
                let ghost v10 = ret@;

                // Clear out bits to PLL, and the PLL analog settings
                pll_defaults(&mut ret);
                proof {
                    lemma_same_aux_trans(v5, v6, v7);
                    lemma_same_aux_trans(v5, v7, v8);
                    lemma_same_aux_trans(v5, v8, v9);
                    lemma_same_aux_trans(v5, v9, v10);
                    assert(ret@.arrays[1][0] == v5.arrays[1][0]);
                    lemma_new_pad_defaults(v0, v4, v5, ret@);
                    lemma_default_pads_dump_empty(ret@, 79);
                }
            },
        }
        ret
    }
}

} // verus!
