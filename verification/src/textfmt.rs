//! The text form of settings, as a dump shows them
//!
//! Muxes without inversion show as `<unset>` or `#i`, muxes with inversion as `VCC`,
//! `GND`, `#i` or `!#i`, and the other settings by a word. Whatever a dump shows of a
//! setting that the pack format reads, reading gives back the same setting.

use vstd::prelude::*;
use vstd::slice::slice_to_vec;

use crate::padring::{DriveStrength, PullUpDown};
use crate::routedb::{Direction, WireType};
use crate::textparse::{
    all_digits, is_digit, is_space, spec_ascii_lower, spec_clock_mode_from_text,
    spec_digits_value, spec_drive_strength_from_text, spec_eq_ignore_case,
    spec_global_to_local_from_text, spec_input_c_mode_from_text, spec_is_gnd, spec_is_vcc,
    spec_kmux_from_text, spec_mux2_from_text, spec_mux2_inv_from_text, spec_mux3_inv_from_text,
    spec_mux_input, spec_omux_from_text, spec_parse_dec, spec_parse_inv, spec_parse_noinv,
    spec_port_width_from_text, spec_pull_up_down_from_text, spec_rmux_from_text,
    spec_tmux_from_text, spec_trim, spec_trim_end, spec_trim_start, spec_unset_text,
};
use crate::tiles::bram9k::{ClockMode, KMUX, PortWidth, TMUX};
use crate::tiles::generic_routing::RMUX;
use crate::tiles::hard_ip::{Mux13Inv, Mux17InvGeneric};
use crate::tiles::io::{IOClockMux, IOLocalToClockMux, LeftRightIOLocalMux, LocalToIOMux, TopBottomIOLocalMux};
use crate::tiles::local_lines::IMUX;
use crate::tiles::logic::{InputCMode, OMUX};
use crate::tiles::{GlobalToLocalMux, Mux2, Mux2Inv, Mux3Inv};

verus! {

/// The character of decimal digit `d`
pub open spec fn spec_digit_char(d: nat) -> char {
    if d == 0 {
        '0'
    } else if d == 1 {
        '1'
    } else if d == 2 {
        '2'
    } else if d == 3 {
        '3'
    } else if d == 4 {
        '4'
    } else if d == 5 {
        '5'
    } else if d == 6 {
        '6'
    } else if d == 7 {
        '7'
    } else if d == 8 {
        '8'
    } else {
        '9'
    }
}

/// `n` in decimal, without leading zeros
pub open spec fn spec_dec_text(n: nat) -> Seq<char>
    decreases n,
{
    if n < 10 {
        seq![spec_digit_char(n)]
    } else {
        spec_dec_text(n / 10).push(spec_digit_char(n % 10))
    }
}

/// `#i`
pub open spec fn spec_index_text(i: u8) -> Seq<char> {
    seq!['#'] + spec_dec_text(i as nat)
}

/// `#i`, after `!` when inverted
pub open spec fn spec_inv_index_text(invert: bool, i: u8) -> Seq<char> {
    if invert {
        seq!['!'] + spec_index_text(i)
    } else {
        spec_index_text(i)
    }
}

/// `VCC`
pub open spec fn spec_vcc_text() -> Seq<char> {
    seq!['V', 'C', 'C']
}

/// `GND`
pub open spec fn spec_gnd_text() -> Seq<char> {
    seq!['G', 'N', 'D']
}

fn digit_char(d: u32) -> (r: char)
    requires
        d < 10,
    ensures
        r == spec_digit_char(d as nat),
{
    if d == 0 {
        '0'
    } else if d == 1 {
        '1'
    } else if d == 2 {
        '2'
    } else if d == 3 {
        '3'
    } else if d == 4 {
        '4'
    } else if d == 5 {
        '5'
    } else if d == 6 {
        '6'
    } else if d == 7 {
        '7'
    } else if d == 8 {
        '8'
    } else {
        '9'
    }
}

/// Append `n` in decimal
pub fn push_dec(out: &mut Vec<char>, n: u32)
    ensures
        final(out)@ == old(out)@ + spec_dec_text(n as nat),
    decreases n,
{
    if n < 10 {
        out.push(digit_char(n));
    } else {
        push_dec(out, n / 10);
        out.push(digit_char(n % 10));
        proof {
            assert(old(out)@ + spec_dec_text(n as nat / 10) + seq![spec_digit_char(n as nat % 10)]
                =~= old(out)@ + spec_dec_text(n as nat));
        }
    }
}

fn unset_text() -> (r: Vec<char>)
    ensures
        r@ == spec_unset_text(),
{
    let w = ['<', 'u', 'n', 's', 'e', 't', '>'];
    proof {
        assert(w@ =~= spec_unset_text());
    }
    slice_to_vec(&w)
}

fn vcc_text() -> (r: Vec<char>)
    ensures
        r@ == spec_vcc_text(),
{
    let w = ['V', 'C', 'C'];
    proof {
        assert(w@ =~= spec_vcc_text());
    }
    slice_to_vec(&w)
}

fn gnd_text() -> (r: Vec<char>)
    ensures
        r@ == spec_gnd_text(),
{
    let w = ['G', 'N', 'D'];
    proof {
        assert(w@ =~= spec_gnd_text());
    }
    slice_to_vec(&w)
}

fn index_text(i: u8) -> (r: Vec<char>)
    ensures
        r@ == spec_index_text(i),
{
    let mut v: Vec<char> = Vec::new();
    v.push('#');
    push_dec(&mut v, i as u32);
    proof {
        assert(seq!['#'] =~= Seq::<char>::empty().push('#'));
    }
    v
}

fn inv_index_text(invert: bool, i: u8) -> (r: Vec<char>)
    ensures
        r@ == spec_inv_index_text(invert, i),
{
    let mut v: Vec<char> = Vec::new();
    if invert {
        v.push('!');
    }
    v.push('#');
    push_dec(&mut v, i as u32);
    proof {
        if invert {
            assert(v@ =~= seq!['!'] + spec_index_text(i));
        } else {
            assert(v@ =~= spec_index_text(i));
        }
    }
    v
}

/// The text of an `IOClockMux`: `VCC`, `GND`, or `[!]glb2loc` or `[!]loc2clk`
pub open spec fn spec_io_clock_mux_text(x: IOClockMux) -> Seq<char> {
    match x {
        IOClockMux::VCC => spec_vcc_text(),
        IOClockMux::GND => spec_gnd_text(),
        IOClockMux::ViaGlobalToLocal { invert } => (if invert {
            seq!['!']
        } else {
            Seq::empty()
        }) + seq!['g', 'l', 'b', '2', 'l', 'o', 'c'],
        IOClockMux::ViaLocalToClock { invert } => (if invert {
            seq!['!']
        } else {
            Seq::empty()
        }) + seq!['l', 'o', 'c', '2', 'c', 'l', 'k'],
    }
}

impl IOClockMux {
    /// The text of the setting, as a dump shows it
    pub fn to_text(&self) -> (r: Vec<char>)
        ensures
            r@ == spec_io_clock_mux_text(*self),
    {
        match *self {
            IOClockMux::VCC => vcc_text(),
            IOClockMux::GND => gnd_text(),
            IOClockMux::ViaGlobalToLocal { invert } => {
                let mut v: Vec<char> = Vec::new();
                if invert {
                    v.push('!');
                }
                let w = ['g', 'l', 'b', '2', 'l', 'o', 'c'];
                let mut k: usize = 0;
                while k < 7
                    invariant
                        k <= 7,
                        v@ == (if invert {
                            seq!['!']
                        } else {
                            Seq::empty()
                        }) + w@.subrange(0, k as int),
                    decreases 7 - k,
                {
                    v.push(w[k]);
                    k = k + 1;
                }
                proof {
                    assert(w@ =~= seq!['g', 'l', 'b', '2', 'l', 'o', 'c']);
                    assert(w@.subrange(0, 7) =~= w@);
                }
                v
            },
            IOClockMux::ViaLocalToClock { invert } => {
                let mut v: Vec<char> = Vec::new();
                if invert {
                    v.push('!');
                }
                let w = ['l', 'o', 'c', '2', 'c', 'l', 'k'];
                let mut k: usize = 0;
                while k < 7
                    invariant
                        k <= 7,
                        v@ == (if invert {
                            seq!['!']
                        } else {
                            Seq::empty()
                        }) + w@.subrange(0, k as int),
                    decreases 7 - k,
                {
                    v.push(w[k]);
                    k = k + 1;
                }
                proof {
                    assert(w@ =~= seq!['l', 'o', 'c', '2', 'c', 'l', 'k']);
                    assert(w@.subrange(0, 7) =~= w@);
                }
                v
            },
        }
    }
}

/// The text of a `GlobalToLocalMux`: `<unset>` or `#i`
pub open spec fn spec_global_to_local_text(x: GlobalToLocalMux) -> Seq<char> {
    match x {
        GlobalToLocalMux::Unset => spec_unset_text(),
        GlobalToLocalMux::I(i) => spec_index_text(i),
    }
}

impl GlobalToLocalMux {
    /// The text of the setting, as a dump shows it
    pub fn to_text(&self) -> (r: Vec<char>)
        ensures
            r@ == spec_global_to_local_text(*self),
    {
        match *self {
            GlobalToLocalMux::Unset => unset_text(),
            GlobalToLocalMux::I(i) => index_text(i),
        }
    }
}

/// The text of a `TMUX`: `<unset>` or `#i`
pub open spec fn spec_tmux_text(x: TMUX) -> Seq<char> {
    match x {
        TMUX::Unset => spec_unset_text(),
        TMUX::I(i) => spec_index_text(i),
    }
}

impl TMUX {
    /// The text of the setting, as a dump shows it
    pub fn to_text(&self) -> (r: Vec<char>)
        ensures
            r@ == spec_tmux_text(*self),
    {
        match *self {
            TMUX::Unset => unset_text(),
            TMUX::I(i) => index_text(i),
        }
    }
}

/// The text of an `RMUX`: `<unset>` or `#i`
pub open spec fn spec_rmux_text(x: RMUX) -> Seq<char> {
    match x {
        RMUX::Unset => spec_unset_text(),
        RMUX::I(i) => spec_index_text(i),
    }
}

impl RMUX {
    /// The text of the setting, as a dump shows it
    pub fn to_text(&self) -> (r: Vec<char>)
        ensures
            r@ == spec_rmux_text(*self),
    {
        match *self {
            RMUX::Unset => unset_text(),
            RMUX::I(i) => index_text(i),
        }
    }
}

/// The text of an `IMUX`: `<unset>` or `#i`
pub open spec fn spec_imux_text(x: IMUX) -> Seq<char> {
    match x {
        IMUX::Unset => spec_unset_text(),
        IMUX::I(i) => spec_index_text(i),
    }
}

impl IMUX {
    /// The text of the setting, as a dump shows it
    pub fn to_text(&self) -> (r: Vec<char>)
        ensures
            r@ == spec_imux_text(*self),
    {
        match *self {
            IMUX::Unset => unset_text(),
            IMUX::I(i) => index_text(i),
        }
    }
}

/// The text of a `TopBottomIOLocalMux`: `<unset>` or `#i`
pub open spec fn spec_top_bottom_io_local_text(x: TopBottomIOLocalMux) -> Seq<char> {
    match x {
        TopBottomIOLocalMux::Unset => spec_unset_text(),
        TopBottomIOLocalMux::I(i) => spec_index_text(i),
    }
}

impl TopBottomIOLocalMux {
    /// The text of the setting, as a dump shows it
    pub fn to_text(&self) -> (r: Vec<char>)
        ensures
            r@ == spec_top_bottom_io_local_text(*self),
    {
        match *self {
            TopBottomIOLocalMux::Unset => unset_text(),
            TopBottomIOLocalMux::I(i) => index_text(i),
        }
    }
}

/// The text of a `LeftRightIOLocalMux`: `<unset>` or `#i`
pub open spec fn spec_left_right_io_local_text(x: LeftRightIOLocalMux) -> Seq<char> {
    match x {
        LeftRightIOLocalMux::Unset => spec_unset_text(),
        LeftRightIOLocalMux::I(i) => spec_index_text(i),
    }
}

impl LeftRightIOLocalMux {
    /// The text of the setting, as a dump shows it
    pub fn to_text(&self) -> (r: Vec<char>)
        ensures
            r@ == spec_left_right_io_local_text(*self),
    {
        match *self {
            LeftRightIOLocalMux::Unset => unset_text(),
            LeftRightIOLocalMux::I(i) => index_text(i),
        }
    }
}

/// The text of an `IOLocalToClockMux`: `<unset>` or `#i`
pub open spec fn spec_io_local_to_clock_text(x: IOLocalToClockMux) -> Seq<char> {
    match x {
        IOLocalToClockMux::Unset => spec_unset_text(),
        IOLocalToClockMux::I(i) => spec_index_text(i),
    }
}

impl IOLocalToClockMux {
    /// The text of the setting, as a dump shows it
    pub fn to_text(&self) -> (r: Vec<char>)
        ensures
            r@ == spec_io_local_to_clock_text(*self),
    {
        match *self {
            IOLocalToClockMux::Unset => unset_text(),
            IOLocalToClockMux::I(i) => index_text(i),
        }
    }
}

/// The text of a `Mux2Inv`: `VCC`, `GND` or `[!]#i`
pub open spec fn spec_mux2_inv_text(x: Mux2Inv) -> Seq<char> {
    match x {
        Mux2Inv::VCC => spec_vcc_text(),
        Mux2Inv::GND => spec_gnd_text(),
        Mux2Inv::I { invert, i } => spec_inv_index_text(invert, i),
    }
}

impl Mux2Inv {
    /// The text of the setting, as a dump shows it
    pub fn to_text(&self) -> (r: Vec<char>)
        ensures
            r@ == spec_mux2_inv_text(*self),
    {
        match *self {
            Mux2Inv::VCC => vcc_text(),
            Mux2Inv::GND => gnd_text(),
            Mux2Inv::I { invert, i } => inv_index_text(invert, i),
        }
    }
}

/// The text of a `Mux3Inv`: `VCC`, `GND` or `[!]#i`
pub open spec fn spec_mux3_inv_text(x: Mux3Inv) -> Seq<char> {
    match x {
        Mux3Inv::VCC => spec_vcc_text(),
        Mux3Inv::GND => spec_gnd_text(),
        Mux3Inv::I { invert, i } => spec_inv_index_text(invert, i),
    }
}

impl Mux3Inv {
    /// The text of the setting, as a dump shows it
    pub fn to_text(&self) -> (r: Vec<char>)
        ensures
            r@ == spec_mux3_inv_text(*self),
    {
        match *self {
            Mux3Inv::VCC => vcc_text(),
            Mux3Inv::GND => gnd_text(),
            Mux3Inv::I { invert, i } => inv_index_text(invert, i),
        }
    }
}

/// The text of a `KMUX`: `VCC`, `GND` or `[!]#i`
pub open spec fn spec_kmux_text(x: KMUX) -> Seq<char> {
    match x {
        KMUX::VCC => spec_vcc_text(),
        KMUX::GND => spec_gnd_text(),
        KMUX::I { invert, i } => spec_inv_index_text(invert, i),
    }
}

impl KMUX {
    /// The text of the setting, as a dump shows it
    pub fn to_text(&self) -> (r: Vec<char>)
        ensures
            r@ == spec_kmux_text(*self),
    {
        match *self {
            KMUX::VCC => vcc_text(),
            KMUX::GND => gnd_text(),
            KMUX::I { invert, i } => inv_index_text(invert, i),
        }
    }
}

/// The text of a `Mux13Inv`: `VCC`, `GND` or `[!]#i`
pub open spec fn spec_mux13_inv_text(x: Mux13Inv) -> Seq<char> {
    match x {
        Mux13Inv::VCC => spec_vcc_text(),
        Mux13Inv::GND => spec_gnd_text(),
        Mux13Inv::I { invert, i } => spec_inv_index_text(invert, i),
    }
}

impl Mux13Inv {
    /// The text of the setting, as a dump shows it
    pub fn to_text(&self) -> (r: Vec<char>)
        ensures
            r@ == spec_mux13_inv_text(*self),
    {
        match *self {
            Mux13Inv::VCC => vcc_text(),
            Mux13Inv::GND => gnd_text(),
            Mux13Inv::I { invert, i } => inv_index_text(invert, i),
        }
    }
}

/// The text of a `Mux17InvGeneric`: `VCC`, `GND` or `[!]#i`
pub open spec fn spec_mux17_inv_text(x: Mux17InvGeneric) -> Seq<char> {
    match x {
        Mux17InvGeneric::VCC => spec_vcc_text(),
        Mux17InvGeneric::GND => spec_gnd_text(),
        Mux17InvGeneric::I { invert, i } => spec_inv_index_text(invert, i),
    }
}

impl Mux17InvGeneric {
    /// The text of the setting, as a dump shows it
    pub fn to_text(&self) -> (r: Vec<char>)
        ensures
            r@ == spec_mux17_inv_text(*self),
    {
        match *self {
            Mux17InvGeneric::VCC => vcc_text(),
            Mux17InvGeneric::GND => gnd_text(),
            Mux17InvGeneric::I { invert, i } => inv_index_text(invert, i),
        }
    }
}

/// The text of a `LocalToIOMux`: `VCC`, `GND` or `[!]#i`
pub open spec fn spec_local_to_io_text(x: LocalToIOMux) -> Seq<char> {
    match x {
        LocalToIOMux::VCC => spec_vcc_text(),
        LocalToIOMux::GND => spec_gnd_text(),
        LocalToIOMux::I { invert, i } => spec_inv_index_text(invert, i),
    }
}

impl LocalToIOMux {
    /// The text of the setting, as a dump shows it
    pub fn to_text(&self) -> (r: Vec<char>)
        ensures
            r@ == spec_local_to_io_text(*self),
    {
        match *self {
            LocalToIOMux::VCC => vcc_text(),
            LocalToIOMux::GND => gnd_text(),
            LocalToIOMux::I { invert, i } => inv_index_text(invert, i),
        }
    }
}

/// The text of a `Mux2`
pub open spec fn spec_mux2_text(x: Mux2) -> Seq<char> {
    match x {
        Mux2::_0 => seq!['#', '0'],
        Mux2::_1 => seq!['#', '1'],
    }
}

impl Mux2 {
    /// The text of the setting, as a dump shows it
    pub fn to_text(&self) -> (r: Vec<char>)
        ensures
            r@ == spec_mux2_text(*self),
    {
        match *self {
            Mux2::_0 => {
                let w = ['#', '0'];
                proof {
                    assert(w@ =~= seq!['#', '0']);
                }
                slice_to_vec(&w)
            },
            Mux2::_1 => {
                let w = ['#', '1'];
                proof {
                    assert(w@ =~= seq!['#', '1']);
                }
                slice_to_vec(&w)
            },
        }
    }
}

/// The text of a `PortWidth`
pub open spec fn spec_port_width_text(x: PortWidth) -> Seq<char> {
    match x {
        PortWidth::X36 => seq!['3', '6'],
        PortWidth::X18 => seq!['1', '8'],
        PortWidth::X9 => seq!['9'],
        PortWidth::X4 => seq!['4'],
        PortWidth::X2 => seq!['2'],
        PortWidth::X1 => seq!['1'],
    }
}

impl PortWidth {
    /// The text of the setting, as a dump shows it
    pub fn to_text(&self) -> (r: Vec<char>)
        ensures
            r@ == spec_port_width_text(*self),
    {
        match *self {
            PortWidth::X36 => {
                let w = ['3', '6'];
                proof {
                    assert(w@ =~= seq!['3', '6']);
                }
                slice_to_vec(&w)
            },
            PortWidth::X18 => {
                let w = ['1', '8'];
                proof {
                    assert(w@ =~= seq!['1', '8']);
                }
                slice_to_vec(&w)
            },
            PortWidth::X9 => {
                let w = ['9'];
                proof {
                    assert(w@ =~= seq!['9']);
                }
                slice_to_vec(&w)
            },
            PortWidth::X4 => {
                let w = ['4'];
                proof {
                    assert(w@ =~= seq!['4']);
                }
                slice_to_vec(&w)
            },
            PortWidth::X2 => {
                let w = ['2'];
                proof {
                    assert(w@ =~= seq!['2']);
                }
                slice_to_vec(&w)
            },
            PortWidth::X1 => {
                let w = ['1'];
                proof {
                    assert(w@ =~= seq!['1']);
                }
                slice_to_vec(&w)
            },
        }
    }
}

/// The text of a `ClockMode`
pub open spec fn spec_clock_mode_text(x: ClockMode) -> Seq<char> {
    match x {
        ClockMode::Independent => seq!['i', 'n', 'd', 'e', 'p', 'e', 'n', 'd', 'e', 'n', 't'],
        ClockMode::InputOutput => seq!['i', 'n', 'p', 'u', 't', '_', 'o', 'u', 't', 'p', 'u', 't'],
        ClockMode::ReadWrite => seq!['r', 'e', 'a', 'd', '_', 'w', 'r', 'i', 't', 'e'],
    }
}

impl ClockMode {
    /// The text of the setting, as a dump shows it
    pub fn to_text(&self) -> (r: Vec<char>)
        ensures
            r@ == spec_clock_mode_text(*self),
    {
        match *self {
            ClockMode::Independent => {
                let w = ['i', 'n', 'd', 'e', 'p', 'e', 'n', 'd', 'e', 'n', 't'];
                proof {
                    assert(w@ =~= seq!['i', 'n', 'd', 'e', 'p', 'e', 'n', 'd', 'e', 'n', 't']);
                }
                slice_to_vec(&w)
            },
            ClockMode::InputOutput => {
                let w = ['i', 'n', 'p', 'u', 't', '_', 'o', 'u', 't', 'p', 'u', 't'];
                proof {
                    assert(w@ =~= seq!['i', 'n', 'p', 'u', 't', '_', 'o', 'u', 't', 'p', 'u', 't']);
                }
                slice_to_vec(&w)
            },
            ClockMode::ReadWrite => {
                let w = ['r', 'e', 'a', 'd', '_', 'w', 'r', 'i', 't', 'e'];
                proof {
                    assert(w@ =~= seq!['r', 'e', 'a', 'd', '_', 'w', 'r', 'i', 't', 'e']);
                }
                slice_to_vec(&w)
            },
        }
    }
}

/// The text of an `InputCMode`
pub open spec fn spec_input_c_mode_text(x: InputCMode) -> Seq<char> {
    match x {
        InputCMode::IMUX => seq!['i', 'm', 'u', 'x'],
        InputCMode::FlipFlop => seq!['f', 'f'],
        InputCMode::Carry => seq!['c', 'a', 'r', 'r', 'y'],
    }
}

impl InputCMode {
    /// The text of the setting, as a dump shows it
    pub fn to_text(&self) -> (r: Vec<char>)
        ensures
            r@ == spec_input_c_mode_text(*self),
    {
        match *self {
            InputCMode::IMUX => {
                let w = ['i', 'm', 'u', 'x'];
                proof {
                    assert(w@ =~= seq!['i', 'm', 'u', 'x']);
                }
                slice_to_vec(&w)
            },
            InputCMode::FlipFlop => {
                let w = ['f', 'f'];
                proof {
                    assert(w@ =~= seq!['f', 'f']);
                }
                slice_to_vec(&w)
            },
            InputCMode::Carry => {
                let w = ['c', 'a', 'r', 'r', 'y'];
                proof {
                    assert(w@ =~= seq!['c', 'a', 'r', 'r', 'y']);
                }
                slice_to_vec(&w)
            },
        }
    }
}

/// The text of an `OMUX`
pub open spec fn spec_omux_text(x: OMUX) -> Seq<char> {
    match x {
        OMUX::Combinatorial => seq!['c', 'o', 'm', 'b'],
        OMUX::FlipFlop => seq!['f', 'f'],
    }
}

impl OMUX {
    /// The text of the setting, as a dump shows it
    pub fn to_text(&self) -> (r: Vec<char>)
        ensures
            r@ == spec_omux_text(*self),
    {
        match *self {
            OMUX::Combinatorial => {
                let w = ['c', 'o', 'm', 'b'];
                proof {
                    assert(w@ =~= seq!['c', 'o', 'm', 'b']);
                }
                slice_to_vec(&w)
            },
            OMUX::FlipFlop => {
                let w = ['f', 'f'];
                proof {
                    assert(w@ =~= seq!['f', 'f']);
                }
                slice_to_vec(&w)
            },
        }
    }
}

/// The text of a `DriveStrength`
pub open spec fn spec_drive_strength_text(x: DriveStrength) -> Seq<char> {
    match x {
        DriveStrength::_0MA => seq!['0', ' ', 'm', 'A'],
        DriveStrength::_2MA => seq!['2', ' ', 'm', 'A'],
        DriveStrength::_4MA => seq!['4', ' ', 'm', 'A'],
        DriveStrength::_8MA => seq!['8', ' ', 'm', 'A'],
        DriveStrength::_16MA => seq!['1', '6', ' ', 'm', 'A'],
        DriveStrength::_30MA => seq!['3', '0', ' ', 'm', 'A'],
    }
}

impl DriveStrength {
    /// The text of the setting, as a dump shows it
    pub fn to_text(&self) -> (r: Vec<char>)
        ensures
            r@ == spec_drive_strength_text(*self),
    {
        match *self {
            DriveStrength::_0MA => {
                let w = ['0', ' ', 'm', 'A'];
                proof {
                    assert(w@ =~= seq!['0', ' ', 'm', 'A']);
                }
                slice_to_vec(&w)
            },
            DriveStrength::_2MA => {
                let w = ['2', ' ', 'm', 'A'];
                proof {
                    assert(w@ =~= seq!['2', ' ', 'm', 'A']);
                }
                slice_to_vec(&w)
            },
            DriveStrength::_4MA => {
                let w = ['4', ' ', 'm', 'A'];
                proof {
                    assert(w@ =~= seq!['4', ' ', 'm', 'A']);
                }
                slice_to_vec(&w)
            },
            DriveStrength::_8MA => {
                let w = ['8', ' ', 'm', 'A'];
                proof {
                    assert(w@ =~= seq!['8', ' ', 'm', 'A']);
                }
                slice_to_vec(&w)
            },
            DriveStrength::_16MA => {
                let w = ['1', '6', ' ', 'm', 'A'];
                proof {
                    assert(w@ =~= seq!['1', '6', ' ', 'm', 'A']);
                }
                slice_to_vec(&w)
            },
            DriveStrength::_30MA => {
                let w = ['3', '0', ' ', 'm', 'A'];
                proof {
                    assert(w@ =~= seq!['3', '0', ' ', 'm', 'A']);
                }
                slice_to_vec(&w)
            },
        }
    }
}

/// The text of a `PullUpDown`
pub open spec fn spec_pull_up_down_text(x: PullUpDown) -> Seq<char> {
    match x {
        PullUpDown::NoPull => seq!['n', 'o', 'n', 'e'],
        PullUpDown::Down => seq!['p', 'u', 'l', 'l', 'd', 'o', 'w', 'n'],
        PullUpDown::Up => seq!['p', 'u', 'l', 'l', 'u', 'p'],
        PullUpDown::Keeper => seq!['k', 'e', 'e', 'p', 'e', 'r'],
    }
}

impl PullUpDown {
    /// The text of the setting, as a dump shows it
    pub fn to_text(&self) -> (r: Vec<char>)
        ensures
            r@ == spec_pull_up_down_text(*self),
    {
        match *self {
            PullUpDown::NoPull => {
                let w = ['n', 'o', 'n', 'e'];
                proof {
                    assert(w@ =~= seq!['n', 'o', 'n', 'e']);
                }
                slice_to_vec(&w)
            },
            PullUpDown::Down => {
                let w = ['p', 'u', 'l', 'l', 'd', 'o', 'w', 'n'];
                proof {
                    assert(w@ =~= seq!['p', 'u', 'l', 'l', 'd', 'o', 'w', 'n']);
                }
                slice_to_vec(&w)
            },
            PullUpDown::Up => {
                let w = ['p', 'u', 'l', 'l', 'u', 'p'];
                proof {
                    assert(w@ =~= seq!['p', 'u', 'l', 'l', 'u', 'p']);
                }
                slice_to_vec(&w)
            },
            PullUpDown::Keeper => {
                let w = ['k', 'e', 'e', 'p', 'e', 'r'];
                proof {
                    assert(w@ =~= seq!['k', 'e', 'e', 'p', 'e', 'r']);
                }
                slice_to_vec(&w)
            },
        }
    }
}

/// The text of a `Direction`
pub open spec fn spec_direction_text(x: Direction) -> Seq<char> {
    match x {
        Direction::N => seq!['N'],
        Direction::S => seq!['S'],
        Direction::E => seq!['E'],
        Direction::W => seq!['W'],
    }
}

impl Direction {
    /// The text of the setting, as a dump shows it
    pub fn to_text(&self) -> (r: Vec<char>)
        ensures
            r@ == spec_direction_text(*self),
    {
        match *self {
            Direction::N => {
                let w = ['N'];
                proof {
                    assert(w@ =~= seq!['N']);
                }
                slice_to_vec(&w)
            },
            Direction::S => {
                let w = ['S'];
                proof {
                    assert(w@ =~= seq!['S']);
                }
                slice_to_vec(&w)
            },
            Direction::E => {
                let w = ['E'];
                proof {
                    assert(w@ =~= seq!['E']);
                }
                slice_to_vec(&w)
            },
            Direction::W => {
                let w = ['W'];
                proof {
                    assert(w@ =~= seq!['W']);
                }
                slice_to_vec(&w)
            },
        }
    }
}

/// The text of a `WireType`
pub open spec fn spec_wire_type_text(x: WireType) -> Seq<char> {
    match x {
        WireType::T1 => seq!['T', '1'],
        WireType::T4 => seq!['T', '4'],
    }
}

impl WireType {
    /// The text of the setting, as a dump shows it
    pub fn to_text(&self) -> (r: Vec<char>)
        ensures
            r@ == spec_wire_type_text(*self),
    {
        match *self {
            WireType::T1 => {
                let w = ['T', '1'];
                proof {
                    assert(w@ =~= seq!['T', '1']);
                }
                slice_to_vec(&w)
            },
            WireType::T4 => {
                let w = ['T', '4'];
                proof {
                    assert(w@ =~= seq!['T', '4']);
                }
                slice_to_vec(&w)
            },
        }
    }
}


proof fn lemma_digit_char(d: nat)
    requires
        d < 10,
    ensures
        is_digit(spec_digit_char(d)),
        (spec_digit_char(d) as u32) - 48 == d,
{
}

/// The decimal text of `n` is a nonempty run of digits worth `n`.
pub proof fn lemma_dec_text(n: nat)
    ensures
        spec_dec_text(n).len() > 0,
        all_digits(spec_dec_text(n)),
        spec_digits_value(spec_dec_text(n)) == n,
    decreases n,
{
    let s = spec_dec_text(n);
    if n < 10 {
        lemma_digit_char(n);
        assert(s.drop_last() =~= Seq::<char>::empty());
        assert(s.last() == spec_digit_char(n));
        assert(spec_digits_value(s) == spec_digits_value(s.drop_last()) * 10 + ((s.last() as u32)
            - 48) as nat);
    } else {
        lemma_dec_text(n / 10);
        lemma_digit_char(n % 10);
        assert(s.drop_last() =~= spec_dec_text(n / 10));
        assert(s.last() == spec_digit_char(n % 10));
        assert(spec_digits_value(s) == spec_digits_value(s.drop_last()) * 10 + ((s.last() as u32)
            - 48) as nat);
        assert(n == (n / 10) * 10 + n % 10);
        assert forall|i: int| 0 <= i < s.len() implies is_digit(#[trigger] s[i]) by {
            if i < s.len() - 1 {
                assert(s[i] == spec_dec_text(n / 10)[i]);
            }
        }
    }
}

/// Reading the decimal text of `n` gives `n` back.
pub proof fn lemma_parse_dec_text(n: nat, max: nat)
    requires
        n <= max,
    ensures
        spec_parse_dec(spec_dec_text(n), max) == Some(n),
{
    lemma_dec_text(n);
    let s = spec_dec_text(n);
    assert(is_digit(s[0]));
}

/// A text that neither begins nor ends with whitespace is its own trim.
pub proof fn lemma_trim_unchanged(s: Seq<char>, unicode: bool)
    requires
        s.len() > 0,
        !is_space(s[0], unicode),
        !is_space(s.last(), unicode),
    ensures
        spec_trim(s, unicode) == s,
{
    assert(spec_trim_start(s, unicode) == s);
    assert(spec_trim_end(s, unicode) == s);
}

/// Reading `#i` as a mux input below `max` gives `i`, for `i < max`.
proof fn lemma_index_text_input(i: u8, max: u8)
    requires
        i < max,
    ensures
        spec_index_text(i).len() > 0,
        spec_index_text(i)[0] == '#',
        spec_index_text(i).drop_first() == spec_dec_text(i as nat),
        spec_mux_input(spec_dec_text(i as nat), max) == Ok::<u8, ()>(i),
        !is_space(spec_index_text(i)[0], true),
        !is_space(spec_index_text(i).last(), true),
{
    let d = spec_dec_text(i as nat);
    lemma_dec_text(i as nat);
    assert(is_digit(d[0]));
    assert(is_digit(d.last()));
    lemma_trim_unchanged(d, true);
    lemma_parse_dec_text(i as nat, 255);
    assert(spec_index_text(i).drop_first() =~= d);
    assert(spec_index_text(i).last() == d.last());
}

/// Reading the text of a mux without inversion gives the setting back.
pub proof fn lemma_noinv_text(x: Option<u8>, max: u8)
    requires
        x matches Some(i) ==> i < max,
    ensures
        spec_parse_noinv(
            match x {
                Some(i) => spec_index_text(i),
                None => spec_unset_text(),
            },
            max,
        ) == Ok::<Option<u8>, ()>(x),
{
    match x {
        Some(i) => {
            lemma_index_text_input(i, max);
            assert(spec_index_text(i)[0] != spec_unset_text()[0]);
        },
        None => {},
    }
}

/// Reading `[!]#i` as a mux with inversion gives the inversion and `i` back.
pub proof fn lemma_inv_text(invert: bool, i: u8, max: u8)
    requires
        i < max,
    ensures
        spec_parse_inv(spec_inv_index_text(invert, i), max) == Ok::<(bool, u8), ()>((invert, i)),
        !spec_is_vcc(spec_inv_index_text(invert, i)),
        !spec_is_gnd(spec_inv_index_text(invert, i)),
{
    let t = spec_index_text(i);
    lemma_index_text_input(i, max);
    lemma_trim_unchanged(t, true);
    let s = spec_inv_index_text(invert, i);
    if invert {
        assert(s.drop_first() =~= t);
        assert(s[0] == '!');
    } else {
        assert(s[0] == '#');
    }
    assert(spec_ascii_lower(s[0]) != spec_ascii_lower(seq!['v', 'c', 'c'][0]));
    assert(spec_ascii_lower(s[0]) != spec_ascii_lower(seq!['g', 'n', 'd'][0]));
}

proof fn lemma_vcc_gnd_text()
    ensures
        spec_is_vcc(spec_vcc_text()),
        !spec_is_gnd(spec_vcc_text()),
        spec_is_gnd(spec_gnd_text()),
{
    assert(spec_ascii_lower(spec_vcc_text()[0]) != spec_ascii_lower(seq!['g', 'n', 'd'][0]));
    assert forall|i: int| 0 <= i < 3 implies spec_ascii_lower(#[trigger] spec_vcc_text()[i])
        == spec_ascii_lower(seq!['v', 'c', 'c'][i]) by {}
    assert forall|i: int| 0 <= i < 3 implies spec_ascii_lower(#[trigger] spec_gnd_text()[i])
        == spec_ascii_lower(seq!['g', 'n', 'd'][i]) by {}
}

/// Reading the text that a dump shows of a `GlobalToLocalMux` gives the same setting.
pub proof fn lemma_global_to_local_text_roundtrip(x: GlobalToLocalMux)
    requires
        x matches GlobalToLocalMux::I(i) ==> i < 6,
    ensures
        spec_global_to_local_from_text(spec_global_to_local_text(x)) == Ok::<GlobalToLocalMux, ()>(x),
{
    match x {
        GlobalToLocalMux::I(i) => lemma_noinv_text(Some(i), 6),
        GlobalToLocalMux::Unset => lemma_noinv_text(None, 6),
    }
}

/// Reading the text that a dump shows of a `TMUX` gives the same setting.
pub proof fn lemma_tmux_text_roundtrip(x: TMUX)
    requires
        x matches TMUX::I(i) ==> i < 15,
    ensures
        spec_tmux_from_text(spec_tmux_text(x)) == Ok::<TMUX, ()>(x),
{
    match x {
        TMUX::I(i) => lemma_noinv_text(Some(i), 15),
        TMUX::Unset => lemma_noinv_text(None, 15),
    }
}

/// Reading the text that a dump shows of an `RMUX` gives the same setting.
pub proof fn lemma_rmux_text_roundtrip(x: RMUX)
    requires
        x.spec_valid(),
    ensures
        spec_rmux_from_text(spec_rmux_text(x)) == Ok::<RMUX, ()>(x),
{
    match x {
        RMUX::I(i) => lemma_noinv_text(Some(i), 21),
        RMUX::Unset => lemma_noinv_text(None, 21),
    }
}

/// Reading the text that a dump shows of a `Mux2Inv` gives the same setting.
pub proof fn lemma_mux2_inv_text_roundtrip(x: Mux2Inv)
    requires
        x matches Mux2Inv::I { i, .. } ==> i < 2,
    ensures
        spec_mux2_inv_from_text(spec_mux2_inv_text(x)) == Ok::<Mux2Inv, ()>(x),
{
    lemma_vcc_gnd_text();
    match x {
        Mux2Inv::I { invert, i } => lemma_inv_text(invert, i, 2),
        _ => {},
    }
}

/// Reading the text that a dump shows of a `Mux3Inv` gives the same setting.
pub proof fn lemma_mux3_inv_text_roundtrip(x: Mux3Inv)
    requires
        x matches Mux3Inv::I { i, .. } ==> i < 3,
    ensures
        spec_mux3_inv_from_text(spec_mux3_inv_text(x)) == Ok::<Mux3Inv, ()>(x),
{
    lemma_vcc_gnd_text();
    match x {
        Mux3Inv::I { invert, i } => lemma_inv_text(invert, i, 3),
        _ => {},
    }
}

/// Reading the text that a dump shows of a `KMUX` gives the same setting.
pub proof fn lemma_kmux_text_roundtrip(x: KMUX)
    requires
        x matches KMUX::I { i, .. } ==> i < 15,
    ensures
        spec_kmux_from_text(spec_kmux_text(x)) == Ok::<KMUX, ()>(x),
{
    lemma_vcc_gnd_text();
    match x {
        KMUX::I { invert, i } => lemma_inv_text(invert, i, 15),
        _ => {},
    }
}


/// Reading the text that a dump shows of a `Mux2` gives the same setting.
pub proof fn lemma_mux2_text_roundtrip(x: Mux2)
    ensures
        spec_mux2_from_text(spec_mux2_text(x)) == Ok::<Mux2, ()>(x),
{
    match x {
        Mux2::_0 => {
            assert(seq!['#', '0'] =~= seq!['#', '0']);
        },
        Mux2::_1 => {
            assert(seq!['#', '1'][1] != seq!['#', '0'][1]);
            assert(seq!['#', '1'] =~= seq!['#', '1']);
        },
    }
}

/// Reading the text that a dump shows of a `PortWidth` gives the same setting.
pub proof fn lemma_port_width_text_roundtrip(x: PortWidth)
    ensures
        spec_port_width_from_text(spec_port_width_text(x)) == Ok::<PortWidth, ()>(x),
{
    match x {
        PortWidth::X36 => {
            assert(spec_port_width_text(x) =~= seq!['3', '6']);
        },
        PortWidth::X18 => {
            assert(seq!['1', '8'][0] != seq!['3', '6'][0]);
            assert(seq!['1', '8'] =~= seq!['1', '8']);
        },
        PortWidth::X9 => {
            assert(seq!['9'] =~= seq!['9']);
        },
        PortWidth::X4 => {
            assert(seq!['4'][0] != seq!['9'][0]);
            assert(seq!['4'] =~= seq!['4']);
        },
        PortWidth::X2 => {
            assert(seq!['2'][0] != seq!['9'][0]);
            assert(seq!['2'][0] != seq!['4'][0]);
            assert(seq!['2'] =~= seq!['2']);
        },
        PortWidth::X1 => {
            assert(seq!['1'].len() != seq!['1', '8'].len());
            assert(seq!['1'].len() != seq!['3', '6'].len());
            assert(seq!['1'][0] != seq!['9'][0]);
            assert(seq!['1'][0] != seq!['4'][0]);
            assert(seq!['1'][0] != seq!['2'][0]);
            assert(seq!['1'] =~= seq!['1']);
        },
    }
}

/// Reading the text that a dump shows of a `ClockMode` gives the same setting.
pub proof fn lemma_clock_mode_text_roundtrip(x: ClockMode)
    ensures
        spec_clock_mode_from_text(spec_clock_mode_text(x)) == Ok::<ClockMode, ()>(x),
{
    match x {
        ClockMode::Independent => {
            assert(spec_eq_ignore_case(seq!['i', 'n', 'd', 'e', 'p', 'e', 'n', 'd', 'e', 'n', 't'], seq!['i', 'n', 'd', 'e', 'p', 'e', 'n', 'd', 'e', 'n', 't'])) by {
                let t = seq!['i', 'n', 'd', 'e', 'p', 'e', 'n', 'd', 'e', 'n', 't'];
                let w = seq!['i', 'n', 'd', 'e', 'p', 'e', 'n', 'd', 'e', 'n', 't'];
                assert forall|i: int| 0 <= i < 11 implies spec_ascii_lower(#[trigger] t[i]) == spec_ascii_lower(w[i]) by {}
            }
        },
        ClockMode::InputOutput => {
            assert(spec_eq_ignore_case(seq!['i', 'n', 'p', 'u', 't', '_', 'o', 'u', 't', 'p', 'u', 't'], seq!['i', 'n', 'p', 'u', 't', '_', 'o', 'u', 't', 'p', 'u', 't'])) by {
                let t = seq!['i', 'n', 'p', 'u', 't', '_', 'o', 'u', 't', 'p', 'u', 't'];
                let w = seq!['i', 'n', 'p', 'u', 't', '_', 'o', 'u', 't', 'p', 'u', 't'];
                assert forall|i: int| 0 <= i < 12 implies spec_ascii_lower(#[trigger] t[i]) == spec_ascii_lower(w[i]) by {}
            }
        },
        ClockMode::ReadWrite => {
            assert(spec_eq_ignore_case(seq!['r', 'e', 'a', 'd', '_', 'w', 'r', 'i', 't', 'e'], seq!['r', 'e', 'a', 'd', '_', 'w', 'r', 'i', 't', 'e'])) by {
                let t = seq!['r', 'e', 'a', 'd', '_', 'w', 'r', 'i', 't', 'e'];
                let w = seq!['r', 'e', 'a', 'd', '_', 'w', 'r', 'i', 't', 'e'];
                assert forall|i: int| 0 <= i < 10 implies spec_ascii_lower(#[trigger] t[i]) == spec_ascii_lower(w[i]) by {}
            }
        },
    }
}

/// Reading the text that a dump shows of an `InputCMode` gives the same setting.
pub proof fn lemma_input_c_mode_text_roundtrip(x: InputCMode)
    ensures
        spec_input_c_mode_from_text(spec_input_c_mode_text(x)) == Ok::<InputCMode, ()>(x),
{
    match x {
        InputCMode::IMUX => {
            assert(spec_eq_ignore_case(seq!['i', 'm', 'u', 'x'], seq!['i', 'm', 'u', 'x'])) by {
                let t = seq!['i', 'm', 'u', 'x'];
                let w = seq!['i', 'm', 'u', 'x'];
                assert forall|i: int| 0 <= i < 4 implies spec_ascii_lower(#[trigger] t[i]) == spec_ascii_lower(w[i]) by {}
            }
        },
        InputCMode::FlipFlop => {
            assert(spec_eq_ignore_case(seq!['f', 'f'], seq!['f', 'f'])) by {
                let t = seq!['f', 'f'];
                let w = seq!['f', 'f'];
                assert forall|i: int| 0 <= i < 2 implies spec_ascii_lower(#[trigger] t[i]) == spec_ascii_lower(w[i]) by {}
            }
        },
        InputCMode::Carry => {
            assert(spec_eq_ignore_case(seq!['c', 'a', 'r', 'r', 'y'], seq!['c', 'a', 'r', 'r', 'y'])) by {
                let t = seq!['c', 'a', 'r', 'r', 'y'];
                let w = seq!['c', 'a', 'r', 'r', 'y'];
                assert forall|i: int| 0 <= i < 5 implies spec_ascii_lower(#[trigger] t[i]) == spec_ascii_lower(w[i]) by {}
            }
        },
    }
}

/// Reading the text that a dump shows of an `OMUX` gives the same setting.
pub proof fn lemma_omux_text_roundtrip(x: OMUX)
    ensures
        spec_omux_from_text(spec_omux_text(x)) == Ok::<OMUX, ()>(x),
{
    match x {
        OMUX::Combinatorial => {
            assert(spec_eq_ignore_case(seq!['c', 'o', 'm', 'b'], seq!['c', 'o', 'm', 'b'])) by {
                let t = seq!['c', 'o', 'm', 'b'];
                let w = seq!['c', 'o', 'm', 'b'];
                assert forall|i: int| 0 <= i < 4 implies spec_ascii_lower(#[trigger] t[i]) == spec_ascii_lower(w[i]) by {}
            }
        },
        OMUX::FlipFlop => {
            assert(spec_eq_ignore_case(seq!['f', 'f'], seq!['f', 'f'])) by {
                let t = seq!['f', 'f'];
                let w = seq!['f', 'f'];
                assert forall|i: int| 0 <= i < 2 implies spec_ascii_lower(#[trigger] t[i]) == spec_ascii_lower(w[i]) by {}
            }
        },
    }
}

/// Reading the text that a dump shows of a `DriveStrength` gives the same setting.
pub proof fn lemma_drive_strength_text_roundtrip(x: DriveStrength)
    ensures
        spec_drive_strength_from_text(spec_drive_strength_text(x)) == Ok::<DriveStrength, ()>(x),
{
    match x {
        DriveStrength::_0MA => {
            assert(spec_eq_ignore_case(seq!['0', ' ', 'm', 'A'], seq!['0', ' ', 'm', 'a'])) by {
                let t = seq!['0', ' ', 'm', 'A'];
                let w = seq!['0', ' ', 'm', 'a'];
                assert forall|i: int| 0 <= i < 4 implies spec_ascii_lower(#[trigger] t[i]) == spec_ascii_lower(w[i]) by {}
            }
        },
        DriveStrength::_2MA => {
            assert(spec_ascii_lower(seq!['2', ' ', 'm', 'A'][0]) != spec_ascii_lower(seq!['0', ' ', 'm', 'a'][0]));
            assert(spec_eq_ignore_case(seq!['2', ' ', 'm', 'A'], seq!['2', ' ', 'm', 'a'])) by {
                let t = seq!['2', ' ', 'm', 'A'];
                let w = seq!['2', ' ', 'm', 'a'];
                assert forall|i: int| 0 <= i < 4 implies spec_ascii_lower(#[trigger] t[i]) == spec_ascii_lower(w[i]) by {}
            }
        },
        DriveStrength::_4MA => {
            assert(spec_ascii_lower(seq!['4', ' ', 'm', 'A'][0]) != spec_ascii_lower(seq!['0', ' ', 'm', 'a'][0]));
            assert(spec_ascii_lower(seq!['4', ' ', 'm', 'A'][0]) != spec_ascii_lower(seq!['2', ' ', 'm', 'a'][0]));
            assert(spec_eq_ignore_case(seq!['4', ' ', 'm', 'A'], seq!['4', ' ', 'm', 'a'])) by {
                let t = seq!['4', ' ', 'm', 'A'];
                let w = seq!['4', ' ', 'm', 'a'];
                assert forall|i: int| 0 <= i < 4 implies spec_ascii_lower(#[trigger] t[i]) == spec_ascii_lower(w[i]) by {}
            }
        },
        DriveStrength::_8MA => {
            assert(spec_ascii_lower(seq!['8', ' ', 'm', 'A'][0]) != spec_ascii_lower(seq!['0', ' ', 'm', 'a'][0]));
            assert(spec_ascii_lower(seq!['8', ' ', 'm', 'A'][0]) != spec_ascii_lower(seq!['2', ' ', 'm', 'a'][0]));
            assert(spec_ascii_lower(seq!['8', ' ', 'm', 'A'][0]) != spec_ascii_lower(seq!['4', ' ', 'm', 'a'][0]));
            assert(spec_eq_ignore_case(seq!['8', ' ', 'm', 'A'], seq!['8', ' ', 'm', 'a'])) by {
                let t = seq!['8', ' ', 'm', 'A'];
                let w = seq!['8', ' ', 'm', 'a'];
                assert forall|i: int| 0 <= i < 4 implies spec_ascii_lower(#[trigger] t[i]) == spec_ascii_lower(w[i]) by {}
            }
        },
        DriveStrength::_16MA => {
            assert(spec_eq_ignore_case(seq!['1', '6', ' ', 'm', 'A'], seq!['1', '6', ' ', 'm', 'a'])) by {
                let t = seq!['1', '6', ' ', 'm', 'A'];
                let w = seq!['1', '6', ' ', 'm', 'a'];
                assert forall|i: int| 0 <= i < 5 implies spec_ascii_lower(#[trigger] t[i]) == spec_ascii_lower(w[i]) by {}
            }
        },
        DriveStrength::_30MA => {
            assert(spec_ascii_lower(seq!['3', '0', ' ', 'm', 'A'][0]) != spec_ascii_lower(seq!['1', '6', ' ', 'm', 'a'][0]));
            assert(spec_eq_ignore_case(seq!['3', '0', ' ', 'm', 'A'], seq!['3', '0', ' ', 'm', 'a'])) by {
                let t = seq!['3', '0', ' ', 'm', 'A'];
                let w = seq!['3', '0', ' ', 'm', 'a'];
                assert forall|i: int| 0 <= i < 5 implies spec_ascii_lower(#[trigger] t[i]) == spec_ascii_lower(w[i]) by {}
            }
        },
    }
}

/// Reading the text that a dump shows of a `PullUpDown` gives the same setting.
pub proof fn lemma_pull_up_down_text_roundtrip(x: PullUpDown)
    ensures
        spec_pull_up_down_from_text(spec_pull_up_down_text(x)) == Ok::<PullUpDown, ()>(x),
{
    match x {
        PullUpDown::NoPull => {
            assert(spec_eq_ignore_case(seq!['n', 'o', 'n', 'e'], seq!['n', 'o', 'n', 'e'])) by {
                let t = seq!['n', 'o', 'n', 'e'];
                let w = seq!['n', 'o', 'n', 'e'];
                assert forall|i: int| 0 <= i < 4 implies spec_ascii_lower(#[trigger] t[i]) == spec_ascii_lower(w[i]) by {}
            }
        },
        PullUpDown::Down => {
            assert(spec_eq_ignore_case(seq!['p', 'u', 'l', 'l', 'd', 'o', 'w', 'n'], seq!['p', 'u', 'l', 'l', 'd', 'o', 'w', 'n'])) by {
                let t = seq!['p', 'u', 'l', 'l', 'd', 'o', 'w', 'n'];
                let w = seq!['p', 'u', 'l', 'l', 'd', 'o', 'w', 'n'];
                assert forall|i: int| 0 <= i < 8 implies spec_ascii_lower(#[trigger] t[i]) == spec_ascii_lower(w[i]) by {}
            }
        },
        PullUpDown::Up => {
            assert(spec_eq_ignore_case(seq!['p', 'u', 'l', 'l', 'u', 'p'], seq!['p', 'u', 'l', 'l', 'u', 'p'])) by {
                let t = seq!['p', 'u', 'l', 'l', 'u', 'p'];
                let w = seq!['p', 'u', 'l', 'l', 'u', 'p'];
                assert forall|i: int| 0 <= i < 6 implies spec_ascii_lower(#[trigger] t[i]) == spec_ascii_lower(w[i]) by {}
            }
        },
        PullUpDown::Keeper => {
            assert(spec_ascii_lower(seq!['k', 'e', 'e', 'p', 'e', 'r'][0]) != spec_ascii_lower(seq!['p', 'u', 'l', 'l', 'u', 'p'][0]));
            assert(spec_eq_ignore_case(seq!['k', 'e', 'e', 'p', 'e', 'r'], seq!['k', 'e', 'e', 'p', 'e', 'r'])) by {
                let t = seq!['k', 'e', 'e', 'p', 'e', 'r'];
                let w = seq!['k', 'e', 'e', 'p', 'e', 'r'];
                assert forall|i: int| 0 <= i < 6 implies spec_ascii_lower(#[trigger] t[i]) == spec_ascii_lower(w[i]) by {}
            }
        },
    }
}

} // verus!
