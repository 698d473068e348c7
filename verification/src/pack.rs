//! The text format that bitstreams are packed from
//!
//! Each line sets one thing:
//!
//! - `USERID <number>` sets the user ID (the number may be written in decimal, or in
//!   hexadecimal, octal or binary after `0x`, `0o` or `0b`);
//! - `tile[x, y].field[i] = value` sets a field of a tile;
//! - `pad[x, y, n].field = value` sets a setting of pad `n` of the IO tile at `(x, y)`.
//!
//! Blank lines and lines that start with `//` are skipped, and `//` after a value starts
//! a comment.

use vstd::prelude::*;

use crate::chips::spec_tile_type;
use crate::container::{Bitstream, BitstreamView};
use crate::coordinates::TilePos;
use crate::defaults::{lemma_all_ready_same_aux, spec_all_ready};
use crate::field::spec_write_value;
use crate::padring::{
    padring_to_tile, spec_pad_bit_index, spec_padring_to_tile, spec_with_pad_bits, DriveStrength,
    PadRingExt, PullUpDown,
};
use crate::textparse::{
    find_char, find_pair, parse_dec, spec_drive_strength_from_text, spec_find, spec_find2,
    spec_flag_from_text, spec_parse_dec, spec_pull_up_down_from_text, spec_rmux_from_text,
    spec_starts_with, spec_trim, starts_with, strip_prefix, text_eq, trim, PackerParse,
};
use crate::tiles::generic_routing::{write_rmux, RMUXRef, RMUX};
use crate::tiles::bram9k::BRAMTileRef;
use crate::tiles::clocking::{GCLKSWTileRef, PLLTileRef};
use crate::tiles::hard_ip::{LeftRightIPTileRef, TopIPTileRef};
use crate::tiles::io::{LeftRightIOTileRef, TopBottomIOTileRef};
use crate::tiles::logic::LogicTileRef;
use crate::tiles::routing_only::RoutingOnlyTileRef;
use crate::tiles::{TileRefTrait, TileType};

verus! {

/// The value of `c` as a digit in base `radix`: `0`-`9`, then `a`-`z` or `A`-`Z` for 10 and
/// up, as `char::to_digit` reads it
pub open spec fn spec_radix_digit(c: char, radix: nat) -> Option<nat> {
    let u = c as u32;
    let d: int = if 48 <= u <= 57 {
        u - 48
    } else if 97 <= u <= 122 {
        u - 87
    } else if 65 <= u <= 90 {
        u - 55
    } else {
        36
    };
    if d < radix {
        Some(d as nat)
    } else {
        None
    }
}

/// Is every character of `s` a digit in base `radix`?
pub open spec fn all_radix_digits(s: Seq<char>, radix: nat) -> bool {
    forall|i: int| 0 <= i < s.len() ==> spec_radix_digit(#[trigger] s[i], radix) is Some
}

/// The value of a run of digits in base `radix`
pub open spec fn spec_radix_value(s: Seq<char>, radix: nat) -> nat
    decreases s.len(),
{
    if s.len() == 0 {
        0
    } else {
        let d = match spec_radix_digit(s.last(), radix) {
            Some(d) => d,
            None => 0,
        };
        spec_radix_value(s.drop_last(), radix) * radix + d
    }
}

/// A number in base `radix` that fits in a `u32`, as `u32::from_str_radix` reads it: digits
/// only, after an optional `+`, and at least one of them
pub open spec fn spec_parse_radix_u32(s: Seq<char>, radix: nat) -> Option<u32> {
    let digits = if s.len() > 0 && s[0] == '+' {
        s.drop_first()
    } else {
        s
    };
    if digits.len() > 0 && all_radix_digits(digits, radix) && spec_radix_value(digits, radix)
        <= 0xffff_ffff {
        Some(spec_radix_value(digits, radix) as u32)
    } else {
        None
    }
}

/// `s` without its underscores
pub open spec fn spec_without_underscores(s: Seq<char>) -> Seq<char> {
    s.filter(|c: char| c != '_')
}

/// The number that `parse_int::parse::<u32>` reads from a text that does not start with
/// `-` once trimmed, if it reads one: the text is trimmed of Unicode whitespace; one that
/// starts with `_` is refused; a `0x`, `0b` or `0o` prefix (in either case) selects base
/// 16, 2 or 8, and base 10 is the default; the underscores of the rest are dropped before
/// it is read as `u32::from_str_radix` reads it.
pub open spec fn spec_parse_int_u32(s: Seq<char>) -> Option<u32> {
    let t = spec_trim(s, true);
    let rest = t.subrange(if t.len() >= 2 { 2 } else { 0 }, t.len() as int);
    if spec_starts_with(t, seq!['_']) {
        None
    } else if spec_starts_with(t, seq!['0', 'x']) || spec_starts_with(t, seq!['0', 'X']) {
        spec_parse_radix_u32(spec_without_underscores(rest), 16)
    } else if spec_starts_with(t, seq!['0', 'b']) || spec_starts_with(t, seq!['0', 'B']) {
        spec_parse_radix_u32(spec_without_underscores(rest), 2)
    } else if spec_starts_with(t, seq!['0', 'o']) || spec_starts_with(t, seq!['0', 'O']) {
        spec_parse_radix_u32(spec_without_underscores(rest), 8)
    } else {
        spec_parse_radix_u32(spec_without_underscores(t), 10)
    }
}

/// Two examples of the `parse_int` documentation read as it shows them: `0x42_424_242` is
/// 1111638594 and `0b0110` is 6.
pub proof fn lemma_parse_int_examples()
    ensures
        spec_parse_int_u32(seq!['0', 'x', '4', '2', '_', '4', '2', '4', '_', '2', '4', '2'])
            == Some(1_111_638_594u32),
        spec_parse_int_u32(seq!['0', 'b', '0', '1', '1', '0']) == Some(6u32),
{
    let h = seq!['0', 'x', '4', '2', '_', '4', '2', '4', '_', '2', '4', '2'];
    crate::textfmt::lemma_trim_unchanged(h, true);
    assert(h.subrange(0, 2) =~= seq!['0', 'x']);
    assert(h.subrange(0, 1) =~= seq!['0']);
    let hr = h.subrange(2, 12);
    let hd = seq!['4', '2', '4', '2', '4', '2', '4', '2'];
    assert(spec_without_underscores(hr) =~= hd) by {
        reveal_with_fuel(Seq::<char>::filter, 11);
        assert(hr =~= seq!['4', '2', '_', '4', '2', '4', '_', '2', '4', '2']);
    }
    assert(all_radix_digits(hd, 16)) by {
        assert forall|i: int| 0 <= i < hd.len() implies spec_radix_digit(#[trigger] hd[i], 16) is Some by {
            assert(hd[i] == '4' || hd[i] == '2');
        }
    }
    assert(spec_radix_value(hd, 16) == 0x4242_4242) by {
        reveal_with_fuel(spec_radix_value, 9);
        assert(hd.drop_last() =~= seq!['4', '2', '4', '2', '4', '2', '4']);
        assert(hd.drop_last().drop_last() =~= seq!['4', '2', '4', '2', '4', '2']);
        assert(hd.drop_last().drop_last().drop_last() =~= seq!['4', '2', '4', '2', '4']);
        assert(hd.drop_last().drop_last().drop_last().drop_last() =~= seq!['4', '2', '4', '2']);
        assert(hd.drop_last().drop_last().drop_last().drop_last().drop_last() =~= seq!['4', '2', '4']);
        assert(hd.drop_last().drop_last().drop_last().drop_last().drop_last().drop_last() =~= seq!['4', '2']);
        assert(hd.drop_last().drop_last().drop_last().drop_last().drop_last().drop_last().drop_last() =~= seq!['4']);
        assert(seq!['4'].drop_last() =~= Seq::<char>::empty());
    }
    let b = seq!['0', 'b', '0', '1', '1', '0'];
    crate::textfmt::lemma_trim_unchanged(b, true);
    assert(b.subrange(0, 2) =~= seq!['0', 'b']);
    assert(b.subrange(0, 1) =~= seq!['0']);
    let br = b.subrange(2, 6);
    assert(br =~= seq!['0', '1', '1', '0']);
    assert(spec_without_underscores(br) =~= br) by {
        reveal_with_fuel(Seq::<char>::filter, 5);
    }
    assert(all_radix_digits(br, 2)) by {
        assert forall|i: int| 0 <= i < br.len() implies spec_radix_digit(#[trigger] br[i], 2) is Some by {
            assert(br[i] == '0' || br[i] == '1');
        }
    }
    assert(spec_radix_value(br, 2) == 6) by {
        reveal_with_fuel(spec_radix_value, 5);
        assert(br.drop_last() =~= seq!['0', '1', '1']);
        assert(br.drop_last().drop_last() =~= seq!['0', '1']);
        assert(br.drop_last().drop_last().drop_last() =~= seq!['0']);
        assert(seq!['0'].drop_last() =~= Seq::<char>::empty());
    }
}

/// Read a number with `parse_int::parse::<u32>`.
///
/// The contract claims that the result is `spec_parse_int_u32` of the text. The text must
/// not start with `-` once trimmed: for a negative number the crate subtracts one from
/// zero in the unsigned type.
#[verifier::external_body]
fn parse_int_text(s: &[char]) -> (r: Option<u32>)
    requires
        !spec_starts_with(spec_trim(s@, true), seq!['-']),
    ensures
        r == spec_parse_int_u32(s@),
{
    let text: String = s.iter().collect();
    parse_int::parse::<u32>(&text).ok()
}

/// A field name with an index: `name[i]`, or `name` alone for index 0
///
/// The closing bracket may be left out.
pub open spec fn spec_parse_field(f: Seq<char>) -> Result<(Seq<char>, u8), ()> {
    match spec_find(f, '[') {
        Some(bi) => {
            let rest = f.subrange(bi + 1, f.len() as int);
            let num = if rest.len() > 0 && rest.last() == ']' {
                rest.drop_last()
            } else {
                rest
            };
            match spec_parse_dec(spec_trim(num, false), 255) {
                Some(i) => Ok((f.subrange(0, bi), i as u8)),
                None => Err(()),
            }
        },
        None => Ok((f, 0)),
    }
}

/// Split a field name from its index
pub fn try_parse_field(f: &[char]) -> (r: Result<(&[char], u8), ()>)
    ensures
        match r {
            Ok((name, i)) => spec_parse_field(f@) == Ok::<(Seq<char>, u8), ()>((name@, i)),
            Err(_) => spec_parse_field(f@) is Err,
        },
{
    match find_char(f, '[') {
        Some(bi) => {
            let n = f.len();
            assert(bi < n);
            let field = &f[0..bi];
            let rest0 = &f[bi + 1..n];
            let rest: &[char] = if rest0.len() > 0 && rest0[rest0.len() - 1] == ']' {
                let r = &rest0[0..rest0.len() - 1];
                proof {
                    assert(r@ =~= rest0@.drop_last());
                }
                r
            } else {
                rest0
            };
            match parse_dec(trim(rest, false), 255) {
                Some(i) => Ok((field, i as u8)),
                None => Err(()),
            }
        },
        None => Ok((f, 0)),
    }
}


/// What a line of the pack format asks for, once read
pub enum PackLine {
    /// A blank line or a comment
    Skip,
    /// `USERID`, with the text of the number
    UserId(Seq<char>),
    /// A field of the tile at `pos`
    Tile { pos: TilePos, field: Seq<char>, idx: u8, value: Seq<char> },
    /// A setting of pad `site` of the IO tile at `pos`
    Pad { pos: TilePos, site: u8, field: Seq<char>, value: Seq<char> },
}

/// `USERID ` (with its space)
pub open spec fn spec_userid_text() -> Seq<char> {
    seq!['U', 'S', 'E', 'R', 'I', 'D', ' ']
}

/// `tile[`
pub open spec fn spec_tile_text() -> Seq<char> {
    seq!['t', 'i', 'l', 'e', '[']
}

/// `pad[`
pub open spec fn spec_pad_text() -> Seq<char> {
    seq!['p', 'a', 'd', '[']
}

/// A value without its trailing `//` comment
pub open spec fn spec_strip_comment(value: Seq<char>) -> Seq<char> {
    match spec_find2(value, '/', '/') {
        Some(c) => spec_trim(value.subrange(0, c), false),
        None => value,
    }
}

/// A coordinate: a decimal number below 256 between ASCII whitespace
pub open spec fn spec_coord(s: Seq<char>) -> Option<u8> {
    match spec_parse_dec(spec_trim(s, false), 255) {
        Some(v) => Some(v as u8),
        None => None,
    }
}

/// The tile position in `x, y`: two coordinates and nothing more
pub open spec fn spec_parse_tile_coord(coord: Seq<char>) -> Option<TilePos> {
    match spec_find(coord, ',') {
        Some(c) => {
            let p1 = coord.subrange(c + 1, coord.len() as int);
            if spec_find(p1, ',') is Some {
                None
            } else {
                match (spec_coord(coord.subrange(0, c)), spec_coord(p1)) {
                    (Some(x), Some(y)) => Some(TilePos { x, y }),
                    _ => None,
                }
            }
        },
        None => None,
    }
}

/// The tile position and pad number in `x, y, n`: three numbers and nothing more
pub open spec fn spec_parse_pad_coord(coord: Seq<char>) -> Option<(TilePos, u8)> {
    match spec_find(coord, ',') {
        Some(c1) => {
            let r1 = coord.subrange(c1 + 1, coord.len() as int);
            match spec_find(r1, ',') {
                Some(c2) => {
                    let r2 = r1.subrange(c2 + 1, r1.len() as int);
                    if spec_find(r2, ',') is Some {
                        None
                    } else {
                        match (
                            spec_coord(coord.subrange(0, c1)),
                            spec_coord(r1.subrange(0, c2)),
                            spec_coord(r2),
                        ) {
                            (Some(x), Some(y), Some(n)) => Some((TilePos { x, y }, n)),
                            _ => None,
                        }
                    }
                },
                None => None,
            }
        },
        None => None,
    }
}

/// `rest` split at its first `].`: the coordinates and the field after it
pub open spec fn spec_split_target(rest: Seq<char>) -> Option<(Seq<char>, Seq<char>)> {
    match spec_find2(rest, ']', '.') {
        Some(k) => Some((rest.subrange(0, k), rest.subrange(k + 2, rest.len() as int))),
        None => None,
    }
}

/// What `tile[<rest> = value` asks for
pub open spec fn spec_parse_tile_target(rest: Seq<char>, value: Seq<char>) -> Result<PackLine, ()> {
    match spec_split_target(rest) {
        Some((coord, field)) => match spec_parse_tile_coord(coord) {
            Some(pos) => match spec_parse_field(spec_trim(field, false)) {
                Ok((name, idx)) => Ok(PackLine::Tile { pos, field: name, idx, value }),
                Err(_) => Err(()),
            },
            None => Err(()),
        },
        None => Err(()),
    }
}

/// What `pad[<rest> = value` asks for
pub open spec fn spec_parse_pad_target(rest: Seq<char>, value: Seq<char>) -> Result<PackLine, ()> {
    match spec_split_target(rest) {
        Some((coord, field)) => match spec_parse_pad_coord(coord) {
            Some((pos, site)) => match spec_parse_field(spec_trim(field, false)) {
                Ok((name, _idx)) => Ok(PackLine::Pad { pos, site, field: name, value }),
                Err(_) => Err(()),
            },
            None => Err(()),
        },
        None => Err(()),
    }
}

/// What a line asks for, or `Err` when it is not well formed
pub open spec fn spec_parse_pack_line(l: Seq<char>) -> Result<PackLine, ()> {
    let t = spec_trim(l, false);
    if t.len() == 0 || spec_starts_with(t, seq!['/', '/']) {
        Ok(PackLine::Skip)
    } else if spec_starts_with(t, spec_userid_text()) {
        Ok(PackLine::UserId(spec_trim(t.subrange(7, t.len() as int), false)))
    } else {
        match spec_find(t, '=') {
            Some(e) => {
                let thing = spec_trim(t.subrange(0, e), false);
                let value = spec_strip_comment(spec_trim(t.subrange(e + 1, t.len() as int), false));
                if spec_starts_with(thing, spec_tile_text()) {
                    spec_parse_tile_target(thing.subrange(5, thing.len() as int), value)
                } else if spec_starts_with(thing, spec_pad_text()) {
                    spec_parse_pad_target(thing.subrange(4, thing.len() as int), value)
                } else {
                    Err(())
                }
            },
            None => Err(()),
        }
    }
}

/// The last pad below `k` of the pad ring that sits at `pos` as number `site`
pub open spec fn spec_pad_lookup_below(pos: TilePos, site: u8, k: nat) -> Option<u8>
    decreases k,
{
    if k == 0 {
        None
    } else if spec_padring_to_tile((k - 1) as u8) == (pos, site) {
        Some((k - 1) as u8)
    } else {
        spec_pad_lookup_below(pos, site, (k - 1) as nat)
    }
}

/// The pad of the pad ring that sits at `pos` as number `site`
pub open spec fn spec_pad_lookup(pos: TilePos, site: u8) -> Option<u8> {
    spec_pad_lookup_below(pos, site, 79)
}

/// The pad of the pad ring at `pos` as number `site`, read off the table directly
pub open spec fn spec_pad_index(pos: TilePos, site: u8) -> Option<u8> {
    if pos.x == 14 && pos.y == 13 && site == 0 {
        Some(0u8)
    } else if pos.x == 14 && pos.y == 13 && site == 2 {
        Some(1u8)
    } else if pos.x == 15 && pos.y == 13 && site == 0 {
        Some(2u8)
    } else if pos.x == 15 && pos.y == 13 && site == 2 {
        Some(3u8)
    } else if pos.x == 15 && pos.y == 13 && site == 3 {
        Some(4u8)
    } else if pos.x == 16 && pos.y == 13 && site == 0 {
        Some(5u8)
    } else if pos.x == 16 && pos.y == 13 && site == 1 {
        Some(6u8)
    } else if pos.x == 16 && pos.y == 13 && site == 2 {
        Some(7u8)
    } else if pos.x == 16 && pos.y == 13 && site == 3 {
        Some(8u8)
    } else if pos.x == 17 && pos.y == 13 && site == 0 {
        Some(9u8)
    } else if pos.x == 17 && pos.y == 13 && site == 1 {
        Some(10u8)
    } else if pos.x == 17 && pos.y == 13 && site == 2 {
        Some(11u8)
    } else if pos.x == 17 && pos.y == 13 && site == 3 {
        Some(12u8)
    } else if pos.x == 18 && pos.y == 13 && site == 0 {
        Some(13u8)
    } else if pos.x == 18 && pos.y == 13 && site == 1 {
        Some(14u8)
    } else if pos.x == 18 && pos.y == 13 && site == 2 {
        Some(15u8)
    } else if pos.x == 18 && pos.y == 13 && site == 3 {
        Some(16u8)
    } else if pos.x == 19 && pos.y == 13 && site == 0 {
        Some(17u8)
    } else if pos.x == 19 && pos.y == 13 && site == 1 {
        Some(18u8)
    } else if pos.x == 19 && pos.y == 13 && site == 2 {
        Some(19u8)
    } else if pos.x == 19 && pos.y == 13 && site == 3 {
        Some(20u8)
    } else if pos.x == 20 && pos.y == 13 && site == 1 {
        Some(21u8)
    } else if pos.x == 20 && pos.y == 13 && site == 2 {
        Some(22u8)
    } else if pos.x == 20 && pos.y == 13 && site == 3 {
        Some(23u8)
    } else if pos.x == 22 && pos.y == 3 && site == 0 {
        Some(24u8)
    } else if pos.x == 22 && pos.y == 3 && site == 1 {
        Some(25u8)
    } else if pos.x == 22 && pos.y == 3 && site == 2 {
        Some(26u8)
    } else if pos.x == 22 && pos.y == 3 && site == 3 {
        Some(27u8)
    } else if pos.x == 22 && pos.y == 2 && site == 3 {
        Some(28u8)
    } else if pos.x == 22 && pos.y == 2 && site == 5 {
        Some(29u8)
    } else if pos.x == 22 && pos.y == 1 && site == 0 {
        Some(30u8)
    } else if pos.x == 22 && pos.y == 1 && site == 2 {
        Some(31u8)
    } else if pos.x == 22 && pos.y == 1 && site == 3 {
        Some(32u8)
    } else if pos.x == 22 && pos.y == 1 && site == 4 {
        Some(33u8)
    } else if pos.x == 20 && pos.y == 0 && site == 2 {
        Some(34u8)
    } else if pos.x == 20 && pos.y == 0 && site == 0 {
        Some(35u8)
    } else if pos.x == 19 && pos.y == 0 && site == 3 {
        Some(36u8)
    } else if pos.x == 19 && pos.y == 0 && site == 1 {
        Some(37u8)
    } else if pos.x == 18 && pos.y == 0 && site == 1 {
        Some(38u8)
    } else if pos.x == 18 && pos.y == 0 && site == 0 {
        Some(39u8)
    } else if pos.x == 17 && pos.y == 0 && site == 2 {
        Some(40u8)
    } else if pos.x == 17 && pos.y == 0 && site == 1 {
        Some(41u8)
    } else if pos.x == 17 && pos.y == 0 && site == 0 {
        Some(42u8)
    } else if pos.x == 8 && pos.y == 0 && site == 3 {
        Some(43u8)
    } else if pos.x == 8 && pos.y == 0 && site == 2 {
        Some(44u8)
    } else if pos.x == 8 && pos.y == 0 && site == 1 {
        Some(45u8)
    } else if pos.x == 8 && pos.y == 0 && site == 0 {
        Some(46u8)
    } else if pos.x == 7 && pos.y == 0 && site == 3 {
        Some(47u8)
    } else if pos.x == 7 && pos.y == 0 && site == 1 {
        Some(48u8)
    } else if pos.x == 7 && pos.y == 0 && site == 0 {
        Some(49u8)
    } else if pos.x == 6 && pos.y == 0 && site == 3 {
        Some(50u8)
    } else if pos.x == 6 && pos.y == 0 && site == 0 {
        Some(51u8)
    } else if pos.x == 1 && pos.y == 0 && site == 3 {
        Some(52u8)
    } else if pos.x == 1 && pos.y == 0 && site == 2 {
        Some(53u8)
    } else if pos.x == 1 && pos.y == 0 && site == 1 {
        Some(54u8)
    } else if pos.x == 1 && pos.y == 0 && site == 0 {
        Some(55u8)
    } else if pos.x == 0 && pos.y == 1 && site == 5 {
        Some(56u8)
    } else if pos.x == 0 && pos.y == 1 && site == 4 {
        Some(57u8)
    } else if pos.x == 0 && pos.y == 1 && site == 3 {
        Some(58u8)
    } else if pos.x == 0 && pos.y == 1 && site == 2 {
        Some(59u8)
    } else if pos.x == 0 && pos.y == 1 && site == 0 {
        Some(60u8)
    } else if pos.x == 0 && pos.y == 2 && site == 5 {
        Some(61u8)
    } else if pos.x == 0 && pos.y == 2 && site == 4 {
        Some(62u8)
    } else if pos.x == 0 && pos.y == 2 && site == 3 {
        Some(63u8)
    } else if pos.x == 0 && pos.y == 2 && site == 2 {
        Some(64u8)
    } else if pos.x == 0 && pos.y == 2 && site == 1 {
        Some(65u8)
    } else if pos.x == 0 && pos.y == 2 && site == 0 {
        Some(66u8)
    } else if pos.x == 0 && pos.y == 3 && site == 5 {
        Some(67u8)
    } else if pos.x == 0 && pos.y == 3 && site == 4 {
        Some(68u8)
    } else if pos.x == 0 && pos.y == 3 && site == 3 {
        Some(69u8)
    } else if pos.x == 0 && pos.y == 3 && site == 2 {
        Some(70u8)
    } else if pos.x == 0 && pos.y == 3 && site == 1 {
        Some(71u8)
    } else if pos.x == 0 && pos.y == 3 && site == 0 {
        Some(72u8)
    } else if pos.x == 0 && pos.y == 4 && site == 5 {
        Some(73u8)
    } else if pos.x == 0 && pos.y == 4 && site == 4 {
        Some(74u8)
    } else if pos.x == 0 && pos.y == 4 && site == 3 {
        Some(75u8)
    } else if pos.x == 0 && pos.y == 4 && site == 2 {
        Some(76u8)
    } else if pos.x == 0 && pos.y == 4 && site == 1 {
        Some(77u8)
    } else if pos.x == 0 && pos.y == 4 && site == 0 {
        Some(78u8)
    } else {
        None
    }
}

proof fn lemma_pad_index_of_table(p: u8)
    requires
        p < 79,
    ensures
        spec_pad_index(spec_padring_to_tile(p).0, spec_padring_to_tile(p).1) == Some(p),
{
}

/// Different pads of the pad ring sit at different places.
pub proof fn lemma_padring_injective(p: u8, q: u8)
    requires
        p < 79,
        q < 79,
        spec_padring_to_tile(p) == spec_padring_to_tile(q),
    ensures
        p == q,
{
    lemma_pad_index_of_table(p);
    lemma_pad_index_of_table(q);
}

proof fn lemma_pad_lookup_below_finds(p: u8, k: nat)
    requires
        p < k <= 79,
    ensures
        spec_pad_lookup_below(spec_padring_to_tile(p).0, spec_padring_to_tile(p).1, k) == Some(p),
    decreases k,
{
    if k > p + 1 {
        let q = (k - 1) as u8;
        if spec_padring_to_tile(q) == spec_padring_to_tile(p) {
            lemma_padring_injective(p, q);
        }
        lemma_pad_lookup_below_finds(p, (k - 1) as nat);
    }
}

/// Every pad of the pad ring is found by its tile position and site, so a `pad[x, y, n]`
/// line can name each pad.
pub proof fn lemma_pad_lookup_finds(p: u8)
    requires
        p < 79,
    ensures
        spec_pad_lookup(spec_padring_to_tile(p).0, spec_padring_to_tile(p).1) == Some(p),
{
    lemma_pad_lookup_below_finds(p, 79);
}

/// `rmux`
pub open spec fn spec_rmux_field_text() -> Seq<char> {
    seq!['r', 'm', 'u', 'x']
}

/// `init_data`
pub open spec fn spec_init_data_text() -> Seq<char> {
    seq!['i', 'n', 'i', 't', '_', 'd', 'a', 't', 'a']
}

/// Does the tile type have general-purpose routing?
pub open spec fn spec_has_routing(ty: TileType) -> bool {
    ty == TileType::Logic || ty == TileType::RoutingOnly || ty == TileType::BRAM
}

/// The bitstream after setting field `field[idx]` of the tile at `pos` to `value`
///
/// Tiles with general-purpose routing take `rmux[i]` for `i < 96`.
pub open spec fn spec_apply_tile_setting(
    v: BitstreamView,
    pos: TilePos,
    field: Seq<char>,
    idx: u8,
    value: Seq<char>,
) -> Result<BitstreamView, ()> {
    let ty = spec_tile_type(v.family, pos);
    if spec_has_routing(ty) && field == spec_rmux_field_text() && idx < 96 {
        match spec_rmux_from_text(value) {
            Ok(m) => Ok(
                spec_write_value(
                    v,
                    pos,
                    RMUXRef { is_bram: ty == TileType::BRAM, i: idx },
                    10,
                    m.spec_to_bits(),
                ),
            ),
            Err(_) => Err(()),
        }
    } else {
        Err(())
    }
}

/// The bitstream after setting one bit of the settings of pad `pad_i`, `off` below its
/// input-enable bit, to the flag in `value`
pub open spec fn spec_apply_pad_flag(v: BitstreamView, pad_i: u8, off: int, value: Seq<char>) -> Result<
    BitstreamView,
    (),
> {
    match spec_flag_from_text(value) {
        Ok(b) => Ok(
            spec_with_pad_bits(
                v,
                spec_pad_bit_index(pad_i) - off,
                1,
                if b {
                    1u32
                } else {
                    0u32
                },
            ),
        ),
        Err(_) => Err(()),
    }
}

/// The bitstream after setting `field` of pad `pad_i` to `value`
pub open spec fn spec_apply_pad_setting(
    v: BitstreamView,
    pad_i: u8,
    field: Seq<char>,
    value: Seq<char>,
) -> Result<BitstreamView, ()> {
    if field == seq!['i', 'n', 'p', 'u', 't', '_', 'e', 'n'] {
        spec_apply_pad_flag(v, pad_i, 0, value)
    } else if field == seq!['o', 'p', 'e', 'n', '_', 'd', 'r', 'a', 'i', 'n'] {
        spec_apply_pad_flag(v, pad_i, 3, value)
    } else if field == seq!['r', 'e', 'd', 'u', 'c', 'e', 'd', '_', 's', 'l', 'e', 'w'] {
        spec_apply_pad_flag(v, pad_i, 2, value)
    } else if field == seq![
        'p', 'u', 'l', 'l', 'u', 'p', '_', 't', 'o', '_', 'f', 'a', 'b', 'r', 'i', 'c',
    ] {
        spec_apply_pad_flag(v, pad_i, 1, value)
    } else if field == seq![
        'd', 'r', 'i', 'v', 'e', '_', 's', 't', 'r', 'e', 'n', 'g', 't', 'h',
    ] {
        match spec_drive_strength_from_text(value) {
            Ok(d) => Ok(spec_with_pad_bits(v, spec_pad_bit_index(pad_i) - 4, 4, d.spec_to_bits())),
            Err(_) => Err(()),
        }
    } else if field == seq!['t', 'e', 'r', 'm'] {
        match spec_pull_up_down_from_text(value) {
            Ok(t) => Ok(spec_with_pad_bits(v, spec_pad_bit_index(pad_i) - 8, 2, t.spec_to_bits())),
            Err(_) => Err(()),
        }
    } else {
        Err(())
    }
}

/// The bitstream after carrying out what a line asks for
pub open spec fn spec_apply_pack_line(v: BitstreamView, cmd: PackLine) -> Result<BitstreamView, ()> {
    match cmd {
        PackLine::Skip => Ok(v),
        PackLine::UserId(s) => match spec_parse_int_u32(s) {
            Some(u) => Ok(BitstreamView { user_id: u, ..v }),
            None => Err(()),
        },
        PackLine::Tile { pos, field, idx, value } => if spec_tile_type(v.family, pos)
            == TileType::NoTile {
            Err(())
        } else {
            spec_apply_tile_setting(v, pos, field, idx, value)
        },
        PackLine::Pad { pos, site, field, value } => match spec_pad_lookup(pos, site) {
            Some(pad_i) => spec_apply_pad_setting(v, pad_i, field, value),
            None => Err(()),
        },
    }
}

/// The bitstream after a line, or `Err` when the line is refused
pub open spec fn spec_pack_line(v: BitstreamView, l: Seq<char>) -> Result<BitstreamView, ()> {
    match spec_parse_pack_line(l) {
        Ok(cmd) => spec_apply_pack_line(v, cmd),
        Err(_) => Err(()),
    }
}

/// A value without its trailing `//` comment
fn strip_comment(value: &[char]) -> (r: &[char])
    ensures
        r@ == spec_strip_comment(value@),
{
    match find_pair(value, '/', '/') {
        Some(c) => trim(&value[0..c], false),
        None => value,
    }
}

fn parse_coord(s: &[char]) -> (r: Option<u8>)
    ensures
        r == spec_coord(s@),
{
    match parse_dec(trim(s, false), 255) {
        Some(v) => Some(v as u8),
        None => None,
    }
}

fn parse_tile_coord(coord: &[char]) -> (r: Option<TilePos>)
    ensures
        r == spec_parse_tile_coord(coord@),
{
    let n = coord.len();
    match find_char(coord, ',') {
        Some(c) => {
            let p1 = &coord[c + 1..n];
            if find_char(p1, ',').is_some() {
                return None;
            }
            match (parse_coord(&coord[0..c]), parse_coord(p1)) {
                (Some(x), Some(y)) => Some(TilePos { x, y }),
                _ => None,
            }
        },
        None => None,
    }
}

fn parse_pad_coord(coord: &[char]) -> (r: Option<(TilePos, u8)>)
    ensures
        r == spec_parse_pad_coord(coord@),
{
    let n = coord.len();
    match find_char(coord, ',') {
        Some(c1) => {
            let r1 = &coord[c1 + 1..n];
            let n1 = r1.len();
            match find_char(r1, ',') {
                Some(c2) => {
                    let r2 = &r1[c2 + 1..n1];
                    if find_char(r2, ',').is_some() {
                        return None;
                    }
                    match (parse_coord(&coord[0..c1]), parse_coord(&r1[0..c2]), parse_coord(r2)) {
                        (Some(x), Some(y), Some(site)) => Some((TilePos { x, y }, site)),
                        _ => None,
                    }
                },
                None => None,
            }
        },
        None => None,
    }
}

fn split_target(rest: &[char]) -> (r: Option<(&[char], &[char])>)
    ensures
        match r {
            Some((coord, field)) => spec_split_target(rest@) == Some((coord@, field@)),
            None => spec_split_target(rest@) is None,
        },
{
    let n = rest.len();
    match find_pair(rest, ']', '.') {
        Some(k) => Some((&rest[0..k], &rest[k + 2..n])),
        None => None,
    }
}

/// The pad of the pad ring at `pos` as number `site`
pub fn pad_lookup(pos: TilePos, site: u8) -> (r: Option<u8>)
    ensures
        r == spec_pad_lookup(pos, site),
        match r {
            Some(pad_i) => pad_i < 79,
            None => true,
        },
{
    let mut k: u8 = 79;
    while k > 0
        invariant
            k <= 79,
            spec_pad_lookup_below(pos, site, k as nat) == spec_pad_lookup(pos, site),
        decreases k,
    {
        let (p, n) = padring_to_tile(k - 1);
        if p == pos && n == site {
            return Some(k - 1);
        }
        k = k - 1;
    }
    None
}

/// Set field `field[idx]` of the tile at `pos` from its text
fn apply_tile_setting(b: &mut Bitstream, pos: TilePos, field: &[char], idx: u8, value: &[char]) -> (r:
    Result<(), ()>)
    requires
        spec_all_ready(old(b)@),
    ensures
        spec_all_ready(final(b)@),
        match r {
            Ok(_) => spec_apply_tile_setting(old(b)@, pos, field@, idx, value@) == Ok::<
                BitstreamView,
                (),
            >(final(b)@),
            Err(_) => spec_apply_tile_setting(old(b)@, pos, field@, idx, value@) is Err
                && final(b)@ == old(b)@,
        },
{
    let ty = b.family().get_tile_type(pos);
    let rmux_lit = ['r', 'm', 'u', 'x'];
    proof {
        assert(rmux_lit@ =~= spec_rmux_field_text());
    }
    if (ty == TileType::Logic || ty == TileType::RoutingOnly || ty == TileType::BRAM) && text_eq(
        field,
        &rmux_lit,
    ) && idx < 96 {
        match RMUX::from_text(value) {
            Ok(m) => {
                let ghost before = b@;
                write_rmux(b, pos, ty == TileType::BRAM, idx, m);
                proof {
                    lemma_all_ready_same_aux(before, b@);
                }
                Ok(())
            },
            Err(_) => Err(()),
        }
    } else {
        Err(())
    }
}

fn apply_pad_flag(b: &mut Bitstream, pad_i: u8, off: u8, value: &[char]) -> (r: Result<(), ()>)
    requires
        spec_all_ready(old(b)@),
        pad_i < 79,
        off < 4,
    ensures
        spec_all_ready(final(b)@),
        match r {
            Ok(_) => spec_apply_pad_flag(old(b)@, pad_i, off as int, value@) == Ok::<
                BitstreamView,
                (),
            >(final(b)@),
            Err(_) => spec_apply_pad_flag(old(b)@, pad_i, off as int, value@) is Err && final(b)@
                == old(b)@,
        },
{
    match <bool as PackerParse>::try_parse(value) {
        Ok(flag) => {
            if off == 0 {
                b.set_pad_input_en(pad_i, flag);
            } else if off == 1 {
                b.set_pad_pullup_to_fabric(pad_i, flag);
            } else if off == 2 {
                b.set_pad_reduced_slew(pad_i, flag);
            } else {
                b.set_pad_open_drain(pad_i, flag);
            }
            Ok(())
        },
        Err(_) => Err(()),
    }
}

/// Tiles whose fields can be set from the text of the pack format
///
/// Tiles with general-purpose routing take `rmux[i]`; other fields are refused.
pub trait ParseFieldForTile: TileRefTrait {
    /// Set field `field[field_idx]` of this tile from the text `val`
    fn parse(&self, b: &mut Bitstream, field: &[char], field_idx: u8, val: &[char]) -> (r: Result<
        (),
        (),
    >)
        requires
            spec_all_ready(old(b)@),
        ensures
            spec_all_ready(final(b)@),
            match r {
                Ok(_) => spec_apply_tile_setting(
                    old(b)@,
                    self.spec_pos(),
                    field@,
                    field_idx,
                    val@,
                ) == Ok::<BitstreamView, ()>(final(b)@),
                Err(_) => spec_apply_tile_setting(old(b)@, self.spec_pos(), field@, field_idx, val@)
                    is Err && final(b)@ == old(b)@,
            },
    ;
}

impl ParseFieldForTile for LogicTileRef {
    fn parse(&self, b: &mut Bitstream, field: &[char], field_idx: u8, val: &[char]) -> (r: Result<
        (),
        (),
    >) {
        apply_tile_setting(b, self.pos(), field, field_idx, val)
    }
}

impl ParseFieldForTile for RoutingOnlyTileRef {
    fn parse(&self, b: &mut Bitstream, field: &[char], field_idx: u8, val: &[char]) -> (r: Result<
        (),
        (),
    >) {
        apply_tile_setting(b, self.pos(), field, field_idx, val)
    }
}

impl ParseFieldForTile for BRAMTileRef {
    fn parse(&self, b: &mut Bitstream, field: &[char], field_idx: u8, val: &[char]) -> (r: Result<
        (),
        (),
    >) {
        apply_tile_setting(b, self.pos(), field, field_idx, val)
    }
}

impl ParseFieldForTile for TopBottomIOTileRef {
    fn parse(&self, b: &mut Bitstream, field: &[char], field_idx: u8, val: &[char]) -> (r: Result<
        (),
        (),
    >) {
        apply_tile_setting(b, self.pos(), field, field_idx, val)
    }
}

impl ParseFieldForTile for LeftRightIOTileRef {
    fn parse(&self, b: &mut Bitstream, field: &[char], field_idx: u8, val: &[char]) -> (r: Result<
        (),
        (),
    >) {
        apply_tile_setting(b, self.pos(), field, field_idx, val)
    }
}

impl ParseFieldForTile for TopIPTileRef {
    fn parse(&self, b: &mut Bitstream, field: &[char], field_idx: u8, val: &[char]) -> (r: Result<
        (),
        (),
    >) {
        apply_tile_setting(b, self.pos(), field, field_idx, val)
    }
}

impl ParseFieldForTile for LeftRightIPTileRef {
    fn parse(&self, b: &mut Bitstream, field: &[char], field_idx: u8, val: &[char]) -> (r: Result<
        (),
        (),
    >) {
        apply_tile_setting(b, self.pos(), field, field_idx, val)
    }
}

impl ParseFieldForTile for PLLTileRef {
    fn parse(&self, b: &mut Bitstream, field: &[char], field_idx: u8, val: &[char]) -> (r: Result<
        (),
        (),
    >) {
        apply_tile_setting(b, self.pos(), field, field_idx, val)
    }
}

impl ParseFieldForTile for GCLKSWTileRef {
    fn parse(&self, b: &mut Bitstream, field: &[char], field_idx: u8, val: &[char]) -> (r: Result<
        (),
        (),
    >) {
        apply_tile_setting(b, self.pos(), field, field_idx, val)
    }
}

/// Set `field` of pad `pad_i` from its text
fn apply_pad_setting(b: &mut Bitstream, pad_i: u8, field: &[char], value: &[char]) -> (r: Result<
    (),
    (),
>)
    requires
        spec_all_ready(old(b)@),
        pad_i < 79,
    ensures
        spec_all_ready(final(b)@),
        match r {
            Ok(_) => spec_apply_pad_setting(old(b)@, pad_i, field@, value@) == Ok::<
                BitstreamView,
                (),
            >(final(b)@),
            Err(_) => spec_apply_pad_setting(old(b)@, pad_i, field@, value@) is Err && final(b)@
                == old(b)@,
        },
{
    let w_input_en = ['i', 'n', 'p', 'u', 't', '_', 'e', 'n'];
    let w_open_drain = ['o', 'p', 'e', 'n', '_', 'd', 'r', 'a', 'i', 'n'];
    let w_reduced_slew = ['r', 'e', 'd', 'u', 'c', 'e', 'd', '_', 's', 'l', 'e', 'w'];
    let w_pullup = ['p', 'u', 'l', 'l', 'u', 'p', '_', 't', 'o', '_', 'f', 'a', 'b', 'r', 'i', 'c'];
    let w_drive = ['d', 'r', 'i', 'v', 'e', '_', 's', 't', 'r', 'e', 'n', 'g', 't', 'h'];
    let w_term = ['t', 'e', 'r', 'm'];
    proof {
        assert(w_input_en@ =~= seq!['i', 'n', 'p', 'u', 't', '_', 'e', 'n']);
        assert(w_open_drain@ =~= seq!['o', 'p', 'e', 'n', '_', 'd', 'r', 'a', 'i', 'n']);
        assert(w_reduced_slew@ =~= seq!['r', 'e', 'd', 'u', 'c', 'e', 'd', '_', 's', 'l', 'e', 'w']);
        assert(w_pullup@ =~= seq![
            'p', 'u', 'l', 'l', 'u', 'p', '_', 't', 'o', '_', 'f', 'a', 'b', 'r', 'i', 'c',
        ]);
        assert(w_drive@ =~= seq![
            'd', 'r', 'i', 'v', 'e', '_', 's', 't', 'r', 'e', 'n', 'g', 't', 'h',
        ]);
        assert(w_term@ =~= seq!['t', 'e', 'r', 'm']);
    }
    if text_eq(field, &w_input_en) {
        apply_pad_flag(b, pad_i, 0, value)
    } else if text_eq(field, &w_open_drain) {
        apply_pad_flag(b, pad_i, 3, value)
    } else if text_eq(field, &w_reduced_slew) {
        apply_pad_flag(b, pad_i, 2, value)
    } else if text_eq(field, &w_pullup) {
        apply_pad_flag(b, pad_i, 1, value)
    } else if text_eq(field, &w_drive) {
        match DriveStrength::from_text(value) {
            Ok(d) => {
                b.set_pad_drive_strength(pad_i, d);
                Ok(())
            },
            Err(_) => Err(()),
        }
    } else if text_eq(field, &w_term) {
        match PullUpDown::from_text(value) {
            Ok(t) => {
                b.set_pad_termination(pad_i, t);
                Ok(())
            },
            Err(_) => Err(()),
        }
    } else {
        Err(())
    }
}


/// What a line asks for, pointing into the line's text
pub enum PackLineRef<'a> {
    /// A blank line or a comment
    Skip,
    /// `USERID`, with the text of the number
    UserId(&'a [char]),
    /// A field of the tile at `pos`
    Tile { pos: TilePos, field: &'a [char], idx: u8, value: &'a [char] },
    /// A setting of pad `site` of the IO tile at `pos`
    Pad { pos: TilePos, site: u8, field: &'a [char], value: &'a [char] },
}

impl<'a> View for PackLineRef<'a> {
    type V = PackLine;

    open spec fn view(&self) -> PackLine {
        match *self {
            PackLineRef::Skip => PackLine::Skip,
            PackLineRef::UserId(s) => PackLine::UserId(s@),
            PackLineRef::Tile { pos, field, idx, value } => PackLine::Tile {
                pos,
                field: field@,
                idx,
                value: value@,
            },
            PackLineRef::Pad { pos, site, field, value } => PackLine::Pad {
                pos,
                site,
                field: field@,
                value: value@,
            },
        }
    }
}

/// Read what a line asks for
pub fn parse_pack_line(l: &[char]) -> (r: Result<PackLineRef<'_>, ()>)
    ensures
        match r {
            Ok(cmd) => spec_parse_pack_line(l@) == Ok::<PackLine, ()>(cmd@),
            Err(_) => spec_parse_pack_line(l@) is Err,
        },
{
    let t = trim(l, false);
    let comment = ['/', '/'];
    let userid = ['U', 'S', 'E', 'R', 'I', 'D', ' '];
    let tile_lit = ['t', 'i', 'l', 'e', '['];
    let pad_lit = ['p', 'a', 'd', '['];
    proof {
        assert(comment@ =~= seq!['/', '/']);
        assert(userid@ =~= spec_userid_text());
        assert(tile_lit@ =~= spec_tile_text());
        assert(pad_lit@ =~= spec_pad_text());
    }
    if t.len() == 0 || starts_with(t, &comment) {
        return Ok(PackLineRef::Skip);
    }
    if let Some(rest) = strip_prefix(t, &userid) {
        return Ok(PackLineRef::UserId(trim(rest, false)));
    }
    let n = t.len();
    let e = match find_char(t, '=') {
        Some(e) => e,
        None => return Err(()),
    };
    let thing = trim(&t[0..e], false);
    let value = strip_comment(trim(&t[e + 1..n], false));
    if let Some(rest) = strip_prefix(thing, &tile_lit) {
        let (coord, field) = match split_target(rest) {
            Some(parts) => parts,
            None => return Err(()),
        };
        let pos = match parse_tile_coord(coord) {
            Some(pos) => pos,
            None => return Err(()),
        };
        match try_parse_field(trim(field, false)) {
            Ok((name, idx)) => Ok(PackLineRef::Tile { pos, field: name, idx, value }),
            Err(_) => Err(()),
        }
    } else if let Some(rest) = strip_prefix(thing, &pad_lit) {
        let (coord, field) = match split_target(rest) {
            Some(parts) => parts,
            None => return Err(()),
        };
        let (pos, site) = match parse_pad_coord(coord) {
            Some(c) => c,
            None => return Err(()),
        };
        match try_parse_field(trim(field, false)) {
            Ok((name, _idx)) => Ok(PackLineRef::Pad { pos, site, field: name, value }),
            Err(_) => Err(()),
        }
    } else {
        Err(())
    }
}

/// Does carrying out `cmd` on `v` reach something that the pack format cannot do:
/// the BRAM initial data, or a `USERID` number with a minus sign?
pub open spec fn spec_unsupported(v: BitstreamView, cmd: PackLine) -> bool {
    match cmd {
        PackLine::Tile { pos, field, .. } => spec_tile_type(v.family, pos) == TileType::BRAM
            && field == spec_init_data_text(),
        PackLine::UserId(s) => spec_starts_with(spec_trim(s, true), seq!['-']),
        _ => false,
    }
}

/// Does carrying out `cmd` reach something that the pack format cannot do?
pub fn pack_line_unsupported(b: &Bitstream, cmd: &PackLineRef) -> (r: bool)
    ensures
        r == spec_unsupported(b@, cmd@),
{
    match cmd {
        PackLineRef::Tile { pos, field, .. } => {
            let init_data = ['i', 'n', 'i', 't', '_', 'd', 'a', 't', 'a'];
            proof {
                assert(init_data@ =~= spec_init_data_text());
            }
            b.family().get_tile_type(*pos) == TileType::BRAM && text_eq(field, &init_data)
        },
        PackLineRef::UserId(s) => {
            let minus = ['-'];
            proof {
                assert(minus@ =~= seq!['-']);
            }
            starts_with(trim(s, true), &minus)
        },
        _ => false,
    }
}

/// Carry out what a line asks for
pub fn apply_pack_line(b: &mut Bitstream, cmd: &PackLineRef) -> (r: Result<(), ()>)
    requires
        spec_all_ready(old(b)@),
        !spec_unsupported(old(b)@, cmd@),
    ensures
        spec_all_ready(final(b)@),
        match r {
            Ok(_) => spec_apply_pack_line(old(b)@, cmd@) == Ok::<BitstreamView, ()>(final(b)@),
            Err(_) => spec_apply_pack_line(old(b)@, cmd@) is Err && final(b)@ == old(b)@,
        },
{
    match cmd {
        PackLineRef::Skip => Ok(()),
        PackLineRef::UserId(s) => match parse_int_text(s) {
            Some(u) => {
                b.set_user_id(u);
                Ok(())
            },
            None => Err(()),
        },
        PackLineRef::Tile { pos, field, idx, value } => match b.tile_mut(*pos) {
            Some(tile) => match tile.tile_type() {
                TileType::Logic => tile.as_logic_tile().parse(b, field, *idx, value),
                TileType::RoutingOnly => tile.as_routing_only_tile().parse(b, field, *idx, value),
                TileType::BRAM => tile.as_bram9k_tile().parse(b, field, *idx, value),
                TileType::TopBottomIO => tile.as_topbottom_io_tile().parse(b, field, *idx, value),
                TileType::LeftRightIO => tile.as_leftright_io_tile().parse(b, field, *idx, value),
                TileType::TopIP => tile.as_top_ip_tile().parse(b, field, *idx, value),
                TileType::LeftRightIP => tile.as_leftright_ip_tile().parse(b, field, *idx, value),
                TileType::PLL => tile.as_pll_tile().parse(b, field, *idx, value),
                TileType::GCLKSW => tile.as_gclksw_tile().parse(b, field, *idx, value),
                TileType::NoTile => Ok(()),
            },
            None => Err(()),
        },
        PackLineRef::Pad { pos, site, field, value } => match pad_lookup(*pos, *site) {
            Some(pad_i) => apply_pad_setting(b, pad_i, field, value),
            None => Err(()),
        },
    }
}

/// Carry out one line of the pack format on the bitstream
///
/// A line that is not well formed, names a tile, pad or field that does not exist, or
/// gives a value that the field cannot hold, is refused with `Err`, and the bitstream is
/// left as it was.
pub fn try_parse_line(b: &mut Bitstream, l: &[char]) -> (r: Result<(), ()>)
    requires
        spec_all_ready(old(b)@),
        !spec_line_unsupported(old(b)@, l@),
    ensures
        spec_all_ready(final(b)@),
        match r {
            Ok(_) => spec_pack_line(old(b)@, l@) == Ok::<BitstreamView, ()>(final(b)@),
            Err(_) => spec_pack_line(old(b)@, l@) is Err && final(b)@ == old(b)@,
        },
{
    match parse_pack_line(l) {
        Ok(cmd) => apply_pack_line(b, &cmd),
        Err(_) => Err(()),
    }
}

/// Does the line ask for something that the pack format cannot do?
pub open spec fn spec_line_unsupported(v: BitstreamView, l: Seq<char>) -> bool {
    match spec_parse_pack_line(l) {
        Ok(cmd) => spec_unsupported(v, cmd),
        Err(_) => false,
    }
}

} // verus!
