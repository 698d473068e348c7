//! The lines that a dump writes
//!
//! A dump shows each field of a tile that is not at its default as
//! `tile[x, y].field[i] = value`, with the value in the text form of its setting. The
//! pack format reads these lines back: packing the line that shows a routing mux sets
//! that mux. The settings of a pad that are not at their defaults show as
//! `pad[i].field = value`.

use vstd::prelude::*;

use crate::chips::spec_tile_type;
use crate::routedb::{spec_step, Direction, FunctionInputSource};
use crate::container::{Bitstream, BitstreamView};
use crate::coordinates::TilePos;
use crate::field::{lemma_field_fits, read_field, spec_read_field, spec_write_value};
use crate::pack::{
    spec_parse_pack_line, spec_userid_text, spec_coord, spec_has_routing, spec_pack_line, spec_parse_field, spec_parse_tile_coord,
    spec_parse_tile_target, spec_rmux_field_text, spec_strip_comment, spec_tile_text, PackLine,
};
use crate::textfmt::{
    lemma_dec_text, lemma_parse_dec_text, lemma_rmux_text_roundtrip, lemma_trim_unchanged,
    push_dec, spec_dec_text, spec_rmux_text,
};
use crate::textparse::{
    all_digits, is_digit, is_space, spec_find, spec_starts_with, spec_find2_from, spec_find_from,
    spec_trim, spec_trim_end, spec_trim_start,
};
use crate::padring::{
    pad_valid, spec_pad_bit_index, spec_pad_bits, spec_pad_valid, spec_pads_ready, DriveStrength,
    PadRingExt, PullUpDown,
};
use crate::textfmt::{spec_drive_strength_text, spec_pull_up_down_text};
use crate::tiles::generic_routing::{spec_routing_tile_ok, RMUXRef, RMUX};
use crate::tiles::TileType;

verus! {

/// `tile[x, y].field[i] = value`
pub open spec fn spec_tile_field_line(pos: TilePos, field: Seq<char>, i: u8, value: Seq<char>) -> Seq<
    char,
> {
    spec_tile_text() + spec_dec_text(pos.x as nat) + seq![',', ' '] + spec_dec_text(pos.y as nat)
        + seq![']', '.'] + field + seq!['['] + spec_dec_text(i as nat) + seq![']', ' ', '=', ' ']
        + value
}

/// Does `c` appear nowhere in `s`?
pub open spec fn spec_absent(s: Seq<char>, c: char) -> bool {
    forall|k: int| 0 <= k < s.len() ==> #[trigger] s[k] != c
}

proof fn lemma_absent_concat(a: Seq<char>, b: Seq<char>, c: char)
    requires
        spec_absent(a, c),
        spec_absent(b, c),
    ensures
        spec_absent(a + b, c),
{
    assert forall|k: int| 0 <= k < (a + b).len() implies #[trigger] (a + b)[k] != c by {
        if k < a.len() {
            assert((a + b)[k] == a[k]);
        } else {
            assert((a + b)[k] == b[k - a.len()]);
        }
    }
}

proof fn lemma_digits_absent(s: Seq<char>, c: char)
    requires
        all_digits(s),
        !is_digit(c),
    ensures
        spec_absent(s, c),
{
    assert forall|k: int| 0 <= k < s.len() implies #[trigger] s[k] != c by {
        assert(is_digit(s[k]));
    }
}

/// Positions before `j` that do not hold `c` do not change where `c` is found first.
proof fn lemma_find_skip(s: Seq<char>, c: char, i: int, j: int)
    requires
        0 <= i <= j <= s.len(),
        forall|k: int| i <= k < j ==> #[trigger] s[k] != c,
    ensures
        spec_find_from(s, c, i) == spec_find_from(s, c, j),
    decreases j - i,
{
    if i < j {
        lemma_find_skip(s, c, i + 1, j);
    }
}

/// Positions before `j` that do not hold `c1` do not change where `c1 c2` is found first.
proof fn lemma_find2_skip(s: Seq<char>, c1: char, c2: char, i: int, j: int)
    requires
        0 <= i <= j <= s.len(),
        forall|k: int| i <= k < j ==> #[trigger] s[k] != c1,
    ensures
        spec_find2_from(s, c1, c2, i) == spec_find2_from(s, c1, c2, j),
    decreases j - i,
{
    if i < j {
        lemma_find2_skip(s, c1, c2, i + 1, j);
    }
}

/// A coordinate's decimal text, with or without one space before it, reads back.
proof fn lemma_coord_text(n: u8)
    ensures
        spec_coord(spec_dec_text(n as nat)) == Some(n),
        spec_coord(seq![' '] + spec_dec_text(n as nat)) == Some(n),
{
    let d = spec_dec_text(n as nat);
    lemma_dec_text(n as nat);
    assert(is_digit(d[0]));
    assert(is_digit(d.last()));
    lemma_trim_unchanged(d, false);
    lemma_parse_dec_text(n as nat, 255);
    let sd = seq![' '] + d;
    assert(sd.drop_first() =~= d);
    assert(spec_trim_start(sd, false) == spec_trim_start(d, false));
    assert(spec_trim_start(d, false) == d);
}

/// `x, y` reads back as the position `(x, y)`.
proof fn lemma_tile_coord_text(pos: TilePos)
    ensures
        spec_parse_tile_coord(
            spec_dec_text(pos.x as nat) + seq![',', ' '] + spec_dec_text(pos.y as nat),
        ) == Some(pos),
{
    let x = spec_dec_text(pos.x as nat);
    let y = spec_dec_text(pos.y as nat);
    let coord = x + seq![',', ' '] + y;
    lemma_dec_text(pos.x as nat);
    lemma_dec_text(pos.y as nat);
    lemma_digits_absent(x, ',');
    lemma_digits_absent(y, ',');
    let lx = x.len() as int;
    assert forall|k: int| 0 <= k < lx implies #[trigger] coord[k] != ',' by {
        assert(coord[k] == x[k]);
    }
    lemma_find_skip(coord, ',', 0, lx);
    assert(coord[lx] == ',');
    let p1 = coord.subrange(lx + 1, coord.len() as int);
    assert(p1 =~= seq![' '] + y);
    lemma_absent_concat(seq![' '], y, ',');
    assert forall|k: int| 0 <= k < p1.len() implies #[trigger] p1[k] != ',' by {}
    lemma_find_skip(p1, ',', 0, p1.len() as int);
    assert(coord.subrange(0, lx) =~= x);
    lemma_coord_text(pos.x);
    lemma_coord_text(pos.y);
}

/// `field[i]` reads back as the name and the index.
proof fn lemma_field_text(field: Seq<char>, i: u8)
    requires
        field.len() > 0,
        !is_space(field[0], false),
        spec_absent(field, '['),
    ensures
        spec_parse_field(field + seq!['['] + spec_dec_text(i as nat) + seq![']']) == Ok::<
            (Seq<char>, u8),
            (),
        >((field, i)),
{
    let d = spec_dec_text(i as nat);
    let f = field + seq!['['] + d + seq![']'];
    let lf = field.len() as int;
    lemma_dec_text(i as nat);
    assert forall|k: int| 0 <= k < lf implies #[trigger] f[k] != '[' by {
        assert(f[k] == field[k]);
    }
    lemma_find_skip(f, '[', 0, lf);
    assert(f[lf] == '[');
    let rest = f.subrange(lf + 1, f.len() as int);
    assert(rest =~= d + seq![']']);
    assert(rest.drop_last() =~= d);
    assert(is_digit(d[0]));
    assert(is_digit(d.last()));
    lemma_trim_unchanged(d, false);
    lemma_parse_dec_text(i as nat, 255);
    assert(f.subrange(0, lf) =~= field);
}


/// `p1 = value` splits at its `=` into `p1` and `value`, both trimmed, and has nothing
/// to trim itself.
proof fn lemma_line_split(p1: Seq<char>, value: Seq<char>)
    requires
        p1.len() > 0,
        !is_space(p1[0], false),
        !is_space(p1.last(), false),
        spec_absent(p1, '='),
        value.len() > 0,
        !is_space(value[0], false),
        !is_space(value.last(), false),
        spec_absent(value, '/'),
    ensures
        ({
            let l = p1 + seq![' ', '=', ' '] + value;
            let e = p1.len() as int + 1;
            &&& spec_trim(l, false) == l
            &&& spec_find(l, '=') == Some(e)
            &&& spec_trim(l.subrange(0, e), false) == p1
            &&& spec_strip_comment(spec_trim(l.subrange(e + 1, l.len() as int), false)) == value
        }),
{
    let l = p1 + seq![' ', '=', ' '] + value;
    let n1 = p1.len() as int;
    let e = n1 + 1;
    assert(l[0] == p1[0]);
    assert(l.last() == value.last());
    lemma_trim_unchanged(l, false);
    assert forall|k: int| 0 <= k < e implies #[trigger] l[k] != '=' by {
        if k < n1 {
            assert(l[k] == p1[k]);
        }
    }
    lemma_find_skip(l, '=', 0, e);
    assert(l[e] == '=');
    let before = l.subrange(0, e);
    assert(before =~= p1 + seq![' ']);
    assert(before.drop_last() =~= p1);
    assert(spec_trim_end(before, false) == spec_trim_end(p1, false));
    lemma_trim_unchanged(p1, false);
    assert(spec_trim_start(before, false) == before);
    let after = l.subrange(e + 1, l.len() as int);
    assert(after =~= seq![' '] + value);
    assert(after.drop_first() =~= value);
    lemma_trim_unchanged(value, false);
    assert(spec_trim_start(after, false) == spec_trim_start(value, false));
    assert(spec_trim_start(value, false) == value);
    lemma_find2_skip(value, '/', '/', 0, value.len() as int);
}

/// `x, y].field[i]` after `tile[` reads as the field `field[i]` of the tile at `(x, y)`.
proof fn lemma_tile_target_text(pos: TilePos, field: Seq<char>, i: u8, value: Seq<char>)
    requires
        field.len() > 0,
        !is_space(field[0], false),
        spec_absent(field, '['),
    ensures
        spec_parse_tile_target(
            spec_dec_text(pos.x as nat) + seq![',', ' '] + spec_dec_text(pos.y as nat) + seq![
                ']',
                '.',
            ] + field + seq!['['] + spec_dec_text(i as nat) + seq![']'],
            value,
        ) == Ok::<PackLine, ()>(PackLine::Tile { pos, field, idx: i, value }),
{
    let x = spec_dec_text(pos.x as nat);
    let y = spec_dec_text(pos.y as nat);
    let d = spec_dec_text(i as nat);
    let coord = x + seq![',', ' '] + y;
    let fpart = field + seq!['['] + d + seq![']'];
    let rest = x + seq![',', ' '] + y + seq![']', '.'] + field + seq!['['] + d + seq![']'];
    assert(rest =~= coord + seq![']', '.'] + fpart);
    lemma_dec_text(pos.x as nat);
    lemma_dec_text(pos.y as nat);
    lemma_dec_text(i as nat);
    lemma_digits_absent(x, ']');
    lemma_digits_absent(y, ']');
    lemma_absent_concat(x, seq![',', ' '], ']');
    lemma_absent_concat(x + seq![',', ' '], y, ']');
    let lc = coord.len() as int;
    assert forall|k: int| 0 <= k < lc implies #[trigger] rest[k] != ']' by {
        assert(rest[k] == coord[k]);
    }
    lemma_find2_skip(rest, ']', '.', 0, lc);
    assert(rest[lc] == ']' && rest[lc + 1] == '.');
    assert(spec_find2_from(rest, ']', '.', lc) == Some(lc));
    assert(rest.subrange(0, lc) =~= coord);
    assert(rest.subrange(lc + 2, rest.len() as int) =~= fpart);
    lemma_tile_coord_text(pos);
    assert(fpart[0] == field[0]);
    assert(fpart.last() == ']');
    lemma_trim_unchanged(fpart, false);
    lemma_field_text(field, i);
}

/// The line that a dump writes for field `field[i]` of a tile reads back as that field
/// and value.
#[verifier::spinoff_prover]
#[verifier::rlimit(40)]
pub proof fn lemma_parse_tile_field_line(pos: TilePos, field: Seq<char>, i: u8, value: Seq<char>)
    requires
        field.len() > 0,
        !is_space(field[0], false),
        spec_absent(field, '['),
        spec_absent(field, '='),
        value.len() > 0,
        !is_space(value[0], false),
        !is_space(value.last(), false),
        spec_absent(value, '/'),
    ensures
        spec_parse_pack_line(spec_tile_field_line(pos, field, i, value)) == Ok::<PackLine, ()>(
            PackLine::Tile { pos, field, idx: i, value },
        ),
{
    let x = spec_dec_text(pos.x as nat);
    let y = spec_dec_text(pos.y as nat);
    let d = spec_dec_text(i as nat);
    let rest = x + seq![',', ' '] + y + seq![']', '.'] + field + seq!['['] + d + seq![']'];
    let p1 = spec_tile_text() + rest;
    assert(spec_tile_field_line(pos, field, i, value) =~= p1 + seq![' ', '=', ' '] + value);
    lemma_target_absent(pos, field, i);
    assert(p1 =~= spec_target_text(pos, field, i));
    assert(p1[0] == 't');
    assert(p1.last() == ']');
    lemma_line_split(p1, value);
    assert(p1.subrange(0, 5) =~= spec_tile_text());
    assert(p1.subrange(5, p1.len() as int) =~= rest);
    lemma_tile_target_text(pos, field, i, value);
    let l = p1 + seq![' ', '=', ' '] + value;
    assert(l[0] == 't');
    assert(l[0] != seq!['/', '/'][0]);
    assert(l[0] != spec_userid_text()[0]);
    assert(!spec_starts_with(l, seq!['/', '/'])) by {
        if spec_starts_with(l, seq!['/', '/']) {
            assert(l.subrange(0, 2)[0] == l[0]);
        }
    }
    assert(!spec_starts_with(l, spec_userid_text())) by {
        if spec_starts_with(l, spec_userid_text()) {
            assert(l.subrange(0, 7)[0] == l[0]);
        }
    }
    assert(spec_starts_with(p1, spec_tile_text()));
}

/// The text of a routing mux setting can stand as a value in a line.
proof fn lemma_rmux_value_text(m: RMUX)
    ensures
        spec_rmux_text(m).len() > 0,
        !is_space(spec_rmux_text(m)[0], false),
        !is_space(spec_rmux_text(m).last(), false),
        spec_absent(spec_rmux_text(m), '/'),
{
    let value = spec_rmux_text(m);
    match m {
        RMUX::Unset => {},
        RMUX::I(k) => {
            let dk = spec_dec_text(k as nat);
            lemma_dec_text(k as nat);
            assert(is_digit(dk.last()));
            assert(value.last() == dk.last());
            lemma_digits_absent(dk, '/');
            lemma_absent_concat(seq!['#'], dk, '/');
        },
    }
}

/// Packing the line that a dump writes for a routing mux sets that mux.
///
/// The line is `tile[x, y].rmux[i] = value`, with the mux setting's text as the value.
pub proof fn lemma_pack_rmux_line(v: BitstreamView, pos: TilePos, i: u8, m: RMUX)
    requires
        spec_has_routing(spec_tile_type(v.family, pos)),
        i < 96,
        m.spec_valid(),
    ensures
        spec_pack_line(v, spec_tile_field_line(pos, spec_rmux_field_text(), i, spec_rmux_text(m)))
            == Ok::<BitstreamView, ()>(
            spec_write_value(
                v,
                pos,
                RMUXRef { is_bram: spec_tile_type(v.family, pos) == TileType::BRAM, i },
                10,
                m.spec_to_bits(),
            ),
        ),
{
    lemma_rmux_value_text(m);
    lemma_rmux_text_roundtrip(m);
    lemma_parse_tile_field_line(pos, spec_rmux_field_text(), i, spec_rmux_text(m));
}

/// `tile[x, y].field[i]`
pub open spec fn spec_target_text(pos: TilePos, field: Seq<char>, i: u8) -> Seq<char> {
    spec_tile_text() + spec_dec_text(pos.x as nat) + seq![',', ' '] + spec_dec_text(pos.y as nat)
        + seq![']', '.'] + field + seq!['['] + spec_dec_text(i as nat) + seq![']']
}

proof fn lemma_target_absent(pos: TilePos, field: Seq<char>, i: u8)
    requires
        spec_absent(field, '='),
    ensures
        spec_absent(spec_target_text(pos, field, i), '='),
{
    let x = spec_dec_text(pos.x as nat);
    let y = spec_dec_text(pos.y as nat);
    let d = spec_dec_text(i as nat);
    lemma_dec_text(pos.x as nat);
    lemma_dec_text(pos.y as nat);
    lemma_dec_text(i as nat);
    lemma_digits_absent(x, '=');
    lemma_digits_absent(y, '=');
    lemma_digits_absent(d, '=');
    lemma_absent_concat(spec_tile_text(), x, '=');
    lemma_absent_concat(spec_tile_text() + x, seq![',', ' '], '=');
    lemma_absent_concat(spec_tile_text() + x + seq![',', ' '], y, '=');
    lemma_absent_concat(spec_tile_text() + x + seq![',', ' '] + y, seq![']', '.'], '=');
    lemma_absent_concat(spec_tile_text() + x + seq![',', ' '] + y + seq![']', '.'], field, '=');
    lemma_absent_concat(
        spec_tile_text() + x + seq![',', ' '] + y + seq![']', '.'] + field,
        seq!['['],
        '=',
    );
    lemma_absent_concat(
        spec_tile_text() + x + seq![',', ' '] + y + seq![']', '.'] + field + seq!['['],
        d,
        '=',
    );
    lemma_absent_concat(
        spec_tile_text() + x + seq![',', ' '] + y + seq![']', '.'] + field + seq!['['] + d,
        seq![']'],
        '=',
    );
}


/// Append a text
pub fn push_text(out: &mut Vec<char>, s: &[char])
    ensures
        final(out)@ == old(out)@ + s@,
{
    let mut k: usize = 0;
    while k < s.len()
        invariant
            k <= s@.len(),
            out@ == old(out)@ + s@.subrange(0, k as int),
        decreases s@.len() - k,
    {
        out.push(s[k]);
        proof {
            assert(s@.subrange(0, k as int + 1) =~= s@.subrange(0, k as int).push(s@[k as int]));
        }
        k = k + 1;
    }
    proof {
        assert(s@.subrange(0, s@.len() as int) =~= s@);
    }
}

/// The line that a dump writes for field `field[i]` of the tile at `pos`
pub fn tile_field_line(pos: TilePos, field: &[char], i: u8, value: &[char]) -> (r: Vec<char>)
    ensures
        r@ == spec_tile_field_line(pos, field@, i, value@),
{
    let head = ['t', 'i', 'l', 'e', '['];
    let mut out: Vec<char> = Vec::new();
    push_text(&mut out, &head);
    push_dec(&mut out, pos.x as u32);
    out.push(',');
    out.push(' ');
    push_dec(&mut out, pos.y as u32);
    out.push(']');
    out.push('.');
    push_text(&mut out, field);
    out.push('[');
    push_dec(&mut out, i as u32);
    out.push(']');
    out.push(' ');
    out.push('=');
    out.push(' ');
    push_text(&mut out, value);
    proof {
        assert(head@ =~= spec_tile_text());
        assert(out@ =~= spec_tile_field_line(pos, field@, i, value@));
    }
    out
}

/// The setting of routing mux `i` of the tile at `pos`, if its bits hold a valid one
pub open spec fn spec_rmux_at(v: BitstreamView, pos: TilePos, i: u8) -> Option<RMUX> {
    RMUX::spec_from_bits(
        spec_read_field(
            v,
            pos,
            RMUXRef { is_bram: spec_tile_type(v.family, pos) == TileType::BRAM, i },
            10,
        ),
    )
}

/// The dump lines of the routing muxes `0 .. n` of the tile at `pos` that are set, or
/// `None` when one of them holds an invalid pattern
pub open spec fn spec_routing_dump(v: BitstreamView, pos: TilePos, n: nat) -> Option<Seq<Seq<char>>>
    decreases n,
{
    if n == 0 {
        Some(Seq::empty())
    } else {
        match spec_routing_dump(v, pos, (n - 1) as nat) {
            Some(lines) => match spec_rmux_at(v, pos, (n - 1) as u8) {
                Some(RMUX::Unset) => Some(lines),
                Some(m) => Some(
                    lines.push(
                        spec_tile_field_line(pos, spec_rmux_field_text(), (n - 1) as u8, spec_rmux_text(m)),
                    ),
                ),
                None => None,
            },
            None => None,
        }
    }
}

/// The dump lines of the routing muxes of a logic, routing-only or BRAM tile that are
/// not at their default, in order; `None` when a mux holds an invalid pattern
pub fn dump_routing(b: &Bitstream, pos: TilePos) -> (r: Option<Vec<Vec<char>>>)
    requires
        spec_routing_tile_ok(b@, pos, spec_tile_type(b@.family, pos) == TileType::BRAM),
    ensures
        match r {
            Some(lines) => spec_routing_dump(b@, pos, 96) == Some(
                lines@.map_values(|l: Vec<char>| l@),
            ),
            None => spec_routing_dump(b@, pos, 96) is None,
        },
{
    let is_bram = b.family().get_tile_type(pos) == TileType::BRAM;
    let field = ['r', 'm', 'u', 'x'];
    proof {
        assert(field@ =~= spec_rmux_field_text());
    }
    let mut lines: Vec<Vec<char>> = Vec::new();
    let mut i: u8 = 0;
    while i < 96
        invariant
            i <= 96,
            is_bram == (spec_tile_type(b@.family, pos) == TileType::BRAM),
            spec_routing_tile_ok(b@, pos, is_bram),
            field@ == spec_rmux_field_text(),
            spec_routing_dump(b@, pos, i as nat) == Some(lines@.map_values(|l: Vec<char>| l@)),
        decreases 96 - i,
    {
        let fp = RMUXRef { is_bram, i };
        proof {
            lemma_field_fits(b@.family, pos, fp, 10);
        }
        let bits = read_field(b, pos, &fp, 10);
        match RMUX::from_bits(bits) {
            Some(RMUX::Unset) => {},
            Some(m) => {
                let ghost before = lines@;
                let value = m.to_text();
                let line = tile_field_line(pos, &field, i, value.as_slice());
                lines.push(line);
                proof {
                    assert(lines@.map_values(|l: Vec<char>| l@) =~= before.map_values(
                        |l: Vec<char>| l@,
                    ).push(line@));
                }
            },
            None => {
                proof {
                    lemma_routing_dump_none_stays(b@, pos, i as nat + 1);
                }
                return None;
            },
        }
        i = i + 1;
    }
    Some(lines)
}

proof fn lemma_routing_dump_none_stays(v: BitstreamView, pos: TilePos, k: nat)
    requires
        k <= 96,
        spec_routing_dump(v, pos, k) is None,
    ensures
        spec_routing_dump(v, pos, 96) is None,
    decreases 96 - k,
{
    if k < 96 {
        lemma_routing_dump_none_stays(v, pos, k + 1);
    }
}


/// `x, y`
pub open spec fn spec_tile_pos_text(p: TilePos) -> Seq<char> {
    spec_dec_text(p.x as nat) + seq![',', ' '] + spec_dec_text(p.y as nat)
}

/// The text of a tile position: `x, y`
pub fn tile_pos_text(p: TilePos) -> (r: Vec<char>)
    ensures
        r@ == spec_tile_pos_text(p),
{
    let mut out: Vec<char> = Vec::new();
    push_dec(&mut out, p.x as u32);
    out.push(',');
    out.push(' ');
    push_dec(&mut out, p.y as u32);
    proof {
        assert(out@ =~= spec_tile_pos_text(p));
    }
    out
}

/// `name[i]`
pub open spec fn spec_indexed_text(name: Seq<char>, i: u8) -> Seq<char> {
    name + seq!['['] + spec_dec_text(i as nat) + seq![']']
}

/// `tile[x, y] name[i]`, for a wire of another tile
pub open spec fn spec_neighbor_wire_text(p: TilePos, name: Seq<char>, i: u8) -> Seq<char> {
    spec_tile_text() + spec_tile_pos_text(p) + seq![']', ' '] + spec_indexed_text(name, i)
}

/// What an input of a logic function in the tile at `tile_pos` comes from, as a dump
/// describes it
pub open spec fn spec_function_input_text(src: FunctionInputSource, tile_pos: TilePos) -> Seq<char> {
    match src {
        FunctionInputSource::RMUX(i) => spec_indexed_text(seq!['r', 'm', 'u', 'x'], i),
        FunctionInputSource::LEOutput(i) => spec_indexed_text(
            seq!['t', 'h', 'i', 's', '_', 'o', 'u', 't', 'p', 'u', 't'],
            i,
        ),
        FunctionInputSource::RightNeighborWire(i) => spec_neighbor_wire_text(
            spec_step(tile_pos, Direction::E)->0,
            seq!['T', '1', '_', 'W'],
            i,
        ),
        FunctionInputSource::LeftNeighborWire(i) => spec_neighbor_wire_text(
            spec_step(tile_pos, Direction::W)->0,
            seq!['T', '1', '_', 'E'],
            i,
        ),
        FunctionInputSource::Unused => seq!['v', 'c', 'c'],
    }
}

fn push_indexed(out: &mut Vec<char>, name: &[char], i: u8)
    ensures
        final(out)@ == old(out)@ + spec_indexed_text(name@, i),
{
    push_text(out, name);
    out.push('[');
    push_dec(out, i as u32);
    out.push(']');
    proof {
        assert(final(out)@ =~= old(out)@ + spec_indexed_text(name@, i));
    }
}

fn neighbor_wire_text(p: TilePos, name: &[char], i: u8) -> (r: Vec<char>)
    ensures
        r@ == spec_neighbor_wire_text(p, name@, i),
{
    let head = ['t', 'i', 'l', 'e', '['];
    let mut out: Vec<char> = Vec::new();
    push_text(&mut out, &head);
    let pos = tile_pos_text(p);
    push_text(&mut out, pos.as_slice());
    out.push(']');
    out.push(' ');
    push_indexed(&mut out, name, i);
    proof {
        assert(head@ =~= spec_tile_text());
        assert(out@ =~= spec_neighbor_wire_text(p, name@, i));
    }
    out
}

/// Describe what an input of a logic function in the tile at `tile_pos` comes from
///
/// A neighbour's wire is named by the neighbour's position, which must exist.
pub fn print_function_input_source(src: FunctionInputSource, tile_pos: TilePos) -> (r: Vec<char>)
    requires
        src matches FunctionInputSource::RightNeighborWire(_) ==> spec_step(tile_pos, Direction::E) is Some,
        src matches FunctionInputSource::LeftNeighborWire(_) ==> spec_step(tile_pos, Direction::W) is Some,
    ensures
        r@ == spec_function_input_text(src, tile_pos),
{
    match src {
        FunctionInputSource::RMUX(i) => {
            let name = ['r', 'm', 'u', 'x'];
            let mut out: Vec<char> = Vec::new();
            push_indexed(&mut out, &name, i);
            proof {
                assert(name@ =~= seq!['r', 'm', 'u', 'x']);
                assert(out@ =~= spec_indexed_text(name@, i));
            }
            out
        },
        FunctionInputSource::LEOutput(i) => {
            let name = ['t', 'h', 'i', 's', '_', 'o', 'u', 't', 'p', 'u', 't'];
            let mut out: Vec<char> = Vec::new();
            push_indexed(&mut out, &name, i);
            proof {
                assert(name@ =~= seq!['t', 'h', 'i', 's', '_', 'o', 'u', 't', 'p', 'u', 't']);
                assert(out@ =~= spec_indexed_text(name@, i));
            }
            out
        },
        FunctionInputSource::RightNeighborWire(i) => {
            let name = ['T', '1', '_', 'W'];
            proof {
                assert(name@ =~= seq!['T', '1', '_', 'W']);
            }
            neighbor_wire_text(tile_pos.add(Direction::E), &name, i)
        },
        FunctionInputSource::LeftNeighborWire(i) => {
            let name = ['T', '1', '_', 'E'];
            proof {
                assert(name@ =~= seq!['T', '1', '_', 'E']);
            }
            neighbor_wire_text(tile_pos.add(Direction::W), &name, i)
        },
        FunctionInputSource::Unused => {
            let w = ['v', 'c', 'c'];
            proof {
                assert(w@ =~= seq!['v', 'c', 'c']);
            }
            vstd::slice::slice_to_vec(&w)
        },
    }
}

/// `pad[p].field = value`
pub open spec fn spec_pad_field_line(p: u8, field: Seq<char>, value: Seq<char>) -> Seq<char> {
    seq!['p', 'a', 'd', '['] + spec_dec_text(p as nat) + seq![']', '.'] + field + seq![' ', '=', ' ']
        + value
}

/// The line `pad[p].field = 1` when a flag is set, and nothing when it is clear
pub open spec fn spec_flag_lines(p: u8, field: Seq<char>, on: bool) -> Seq<Seq<char>> {
    if on {
        seq![spec_pad_field_line(p, field, seq!['1'])]
    } else {
        Seq::empty()
    }
}

/// The lines of the four flags of pad `p` that are set: input enable, open drain, reduced
/// slew and pull-up to the fabric
pub open spec fn spec_pad_flag_lines(v: BitstreamView, p: u8) -> Seq<Seq<char>> {
    let base = spec_pad_bit_index(p);
    let s = v.arrays[1][0];
    spec_flag_lines(p, seq!['i', 'n', 'p', 'u', 't', '_', 'e', 'n'], s[base]) + spec_flag_lines(
        p,
        seq!['o', 'p', 'e', 'n', '_', 'd', 'r', 'a', 'i', 'n'],
        s[base - 3],
    ) + spec_flag_lines(p, seq!['r', 'e', 'd', 'u', 'c', 'e', 'd', '_', 's', 'l', 'e', 'w'], s[base - 2])
        + spec_flag_lines(
        p,
        seq!['p', 'u', 'l', 'l', 'u', 'p', '_', 't', 'o', '_', 'f', 'a', 'b', 'r', 'i', 'c'],
        s[base - 1],
    )
}

/// The line of the drive strength of pad `p`, when it is not 4 mA
pub open spec fn spec_drive_lines(v: BitstreamView, p: u8) -> Seq<Seq<char>> {
    match DriveStrength::spec_from_bits(spec_pad_bits(v, spec_pad_bit_index(p) - 4, 4)) {
        Some(d) => if d != DriveStrength::_4MA {
            seq![
                spec_pad_field_line(
                    p,
                    seq!['d', 'r', 'i', 'v', 'e', '_', 's', 't', 'r', 'e', 'n', 'g', 't', 'h'],
                    spec_drive_strength_text(d),
                ),
            ]
        } else {
            Seq::empty()
        },
        None => Seq::empty(),
    }
}

/// The line of the termination of pad `p`, when it has one
pub open spec fn spec_term_lines(v: BitstreamView, p: u8) -> Seq<Seq<char>> {
    match PullUpDown::spec_from_bits(spec_pad_bits(v, spec_pad_bit_index(p) - 8, 2)) {
        Some(t) => if t != PullUpDown::NoPull {
            seq![spec_pad_field_line(p, seq!['t', 'e', 'r', 'm'], spec_pull_up_down_text(t))]
        } else {
            Seq::empty()
        },
        None => Seq::empty(),
    }
}

/// The dump lines of pad `p`: each of its settings that is not at its default (input off,
/// push-pull, fast slew, no pull-up to the fabric, 4 mA, no termination)
pub open spec fn spec_pad_dump_lines(v: BitstreamView, p: u8) -> Seq<Seq<char>> {
    spec_pad_flag_lines(v, p) + spec_drive_lines(v, p) + spec_term_lines(v, p)
}

/// The dump lines of pads `0 .. n`, in order
pub open spec fn spec_pads_dump(v: BitstreamView, n: nat) -> Seq<Seq<char>>
    decreases n,
{
    if n == 0 {
        Seq::empty()
    } else {
        spec_pads_dump(v, (n - 1) as nat) + spec_pad_dump_lines(v, (n - 1) as u8)
    }
}

/// Do pads `0 .. n` all hold a valid drive strength and termination?
pub open spec fn spec_pads_valid(v: BitstreamView, n: nat) -> bool {
    forall|p: u8| p < n ==> #[trigger] spec_pad_valid(v, p)
}

/// The line `pad[p].field = value`
pub fn pad_field_line(p: u8, field: &[char], value: &[char]) -> (r: Vec<char>)
    ensures
        r@ == spec_pad_field_line(p, field@, value@),
{
    let head = ['p', 'a', 'd', '['];
    let mut out: Vec<char> = Vec::new();
    push_text(&mut out, &head);
    push_dec(&mut out, p as u32);
    out.push(']');
    out.push('.');
    push_text(&mut out, field);
    out.push(' ');
    out.push('=');
    out.push(' ');
    push_text(&mut out, value);
    proof {
        assert(head@ =~= seq!['p', 'a', 'd', '[']);
        assert(out@ =~= spec_pad_field_line(p, field@, value@));
    }
    out
}

fn push_line(lines: &mut Vec<Vec<char>>, line: Vec<char>)
    ensures
        final(lines)@.map_values(|l: Vec<char>| l@) == old(lines)@.map_values(|l: Vec<char>| l@).push(
            line@,
        ),
{
    let ghost before = lines@;
    lines.push(line);
    proof {
        assert(lines@.map_values(|l: Vec<char>| l@) =~= before.map_values(|l: Vec<char>| l@).push(
            line@,
        ));
    }
}

fn push_flag_line(lines: &mut Vec<Vec<char>>, p: u8, field: &[char], on: bool)
    ensures
        final(lines)@.map_values(|l: Vec<char>| l@) == old(lines)@.map_values(|l: Vec<char>| l@)
            + spec_flag_lines(p, field@, on),
{
    if on {
        let one = ['1'];
        let line = pad_field_line(p, field, &one);
        proof {
            assert(one@ =~= seq!['1']);
        }
        push_line(lines, line);
        proof {
            assert(old(lines)@.map_values(|l: Vec<char>| l@).push(line@) =~= old(lines)@.map_values(
                |l: Vec<char>| l@,
            ) + spec_flag_lines(p, field@, on));
        }
    } else {
        proof {
            assert(lines@.map_values(|l: Vec<char>| l@) =~= lines@.map_values(|l: Vec<char>| l@)
                + spec_flag_lines(p, field@, on));
        }
    }
}

fn push_pad_flag_lines(b: &Bitstream, p: u8, lines: &mut Vec<Vec<char>>)
    requires
        spec_pads_ready(b@),
        p < 79,
    ensures
        final(lines)@.map_values(|l: Vec<char>| l@) == old(lines)@.map_values(|l: Vec<char>| l@)
            + spec_pad_flag_lines(b@, p),
{
    let ghost l0 = lines@.map_values(|l: Vec<char>| l@);
    let f_in = ['i', 'n', 'p', 'u', 't', '_', 'e', 'n'];
    let f_od = ['o', 'p', 'e', 'n', '_', 'd', 'r', 'a', 'i', 'n'];
    let f_rs = ['r', 'e', 'd', 'u', 'c', 'e', 'd', '_', 's', 'l', 'e', 'w'];
    let f_pu = ['p', 'u', 'l', 'l', 'u', 'p', '_', 't', 'o', '_', 'f', 'a', 'b', 'r', 'i', 'c'];
    proof {
        assert(f_in@ =~= seq!['i', 'n', 'p', 'u', 't', '_', 'e', 'n']);
        assert(f_od@ =~= seq!['o', 'p', 'e', 'n', '_', 'd', 'r', 'a', 'i', 'n']);
        assert(f_rs@ =~= seq!['r', 'e', 'd', 'u', 'c', 'e', 'd', '_', 's', 'l', 'e', 'w']);
        assert(f_pu@ =~= seq!['p', 'u', 'l', 'l', 'u', 'p', '_', 't', 'o', '_', 'f', 'a', 'b', 'r', 'i', 'c']);
    }
    let a = b.pad_input_en(p);
    let c = b.pad_open_drain(p);
    let d = b.pad_reduced_slew(p);
    let e = b.pad_pullup_to_fabric(p);
    push_flag_line(lines, p, &f_in, a);
    push_flag_line(lines, p, &f_od, c);
    push_flag_line(lines, p, &f_rs, d);
    push_flag_line(lines, p, &f_pu, e);
    proof {
        let x1 = spec_flag_lines(p, f_in@, a);
        let x2 = spec_flag_lines(p, f_od@, c);
        let x3 = spec_flag_lines(p, f_rs@, d);
        let x4 = spec_flag_lines(p, f_pu@, e);
        assert(spec_pad_flag_lines(b@, p) == x1 + x2 + x3 + x4);
        assert(((l0 + x1) + x2) + x3 + x4 =~= l0 + (x1 + x2 + x3 + x4));
    }
}

fn push_drive_line(b: &Bitstream, p: u8, lines: &mut Vec<Vec<char>>)
    requires
        spec_pads_ready(b@),
        p < 79,
        spec_pad_valid(b@, p),
    ensures
        final(lines)@.map_values(|l: Vec<char>| l@) == old(lines)@.map_values(|l: Vec<char>| l@)
            + spec_drive_lines(b@, p),
{
    let f_ds = ['d', 'r', 'i', 'v', 'e', '_', 's', 't', 'r', 'e', 'n', 'g', 't', 'h'];
    proof {
        assert(f_ds@ =~= seq!['d', 'r', 'i', 'v', 'e', '_', 's', 't', 'r', 'e', 'n', 'g', 't', 'h']);
    }
    let d = b.pad_drive_strength(p);
    if d != DriveStrength::_4MA {
        let value = d.to_text();
        let line = pad_field_line(p, &f_ds, value.as_slice());
        push_line(lines, line);
        proof {
            assert(old(lines)@.map_values(|l: Vec<char>| l@).push(line@) =~= old(lines)@.map_values(
                |l: Vec<char>| l@,
            ) + spec_drive_lines(b@, p));
        }
    } else {
        proof {
            assert(lines@.map_values(|l: Vec<char>| l@) =~= lines@.map_values(|l: Vec<char>| l@)
                + spec_drive_lines(b@, p));
        }
    }
}

fn push_term_line(b: &Bitstream, p: u8, lines: &mut Vec<Vec<char>>)
    requires
        spec_pads_ready(b@),
        p < 79,
        spec_pad_valid(b@, p),
    ensures
        final(lines)@.map_values(|l: Vec<char>| l@) == old(lines)@.map_values(|l: Vec<char>| l@)
            + spec_term_lines(b@, p),
{
    let f_tm = ['t', 'e', 'r', 'm'];
    proof {
        assert(f_tm@ =~= seq!['t', 'e', 'r', 'm']);
    }
    let t = b.pad_termination(p);
    if t != PullUpDown::NoPull {
        let value = t.to_text();
        let line = pad_field_line(p, &f_tm, value.as_slice());
        push_line(lines, line);
        proof {
            assert(old(lines)@.map_values(|l: Vec<char>| l@).push(line@) =~= old(lines)@.map_values(
                |l: Vec<char>| l@,
            ) + spec_term_lines(b@, p));
        }
    } else {
        proof {
            assert(lines@.map_values(|l: Vec<char>| l@) =~= lines@.map_values(|l: Vec<char>| l@)
                + spec_term_lines(b@, p));
        }
    }
}

fn push_pad_lines(b: &Bitstream, p: u8, lines: &mut Vec<Vec<char>>)
    requires
        spec_pads_ready(b@),
        p < 79,
        spec_pad_valid(b@, p),
    ensures
        final(lines)@.map_values(|l: Vec<char>| l@) == old(lines)@.map_values(|l: Vec<char>| l@)
            + spec_pad_dump_lines(b@, p),
{
    let ghost l0 = lines@.map_values(|l: Vec<char>| l@);
    push_pad_flag_lines(b, p, lines);
    push_drive_line(b, p, lines);
    push_term_line(b, p, lines);
    proof {
        let x1 = spec_pad_flag_lines(b@, p);
        let x2 = spec_drive_lines(b@, p);
        let x3 = spec_term_lines(b@, p);
        assert((l0 + x1) + x2 + x3 =~= l0 + (x1 + x2 + x3));
    }
}

/// The dump lines of the pads whose settings are not at their defaults, in order of pad;
/// `None` when a pad holds an invalid drive strength or termination
pub fn dump_pads(b: &Bitstream) -> (r: Option<Vec<Vec<char>>>)
    requires
        spec_pads_ready(b@),
    ensures
        match r {
            Some(lines) => spec_pads_valid(b@, 79) && lines@.map_values(|l: Vec<char>| l@)
                == spec_pads_dump(b@, 79),
            None => !spec_pads_valid(b@, 79),
        },
{
    let mut lines: Vec<Vec<char>> = Vec::new();
    let mut p: u8 = 0;
    proof {
        assert(lines@.map_values(|l: Vec<char>| l@) =~= spec_pads_dump(b@, 0));
    }
    while p < 79
        invariant
            p <= 79,
            spec_pads_ready(b@),
            spec_pads_valid(b@, p as nat),
            lines@.map_values(|l: Vec<char>| l@) == spec_pads_dump(b@, p as nat),
        decreases 79 - p,
    {
        if !pad_valid(b, p) {
            return None;
        }
        push_pad_lines(b, p, &mut lines);
        p = p + 1;
    }
    Some(lines)
}

/// Pads whose settings all hold their defaults are all valid, and the pad dump shows
/// nothing of them.
pub proof fn lemma_default_pads_dump_empty(v: BitstreamView, n: nat)
    requires
        spec_pads_ready(v),
        n <= 79,
        forall|p: u8|
            p < 79 ==> DriveStrength::spec_from_bits(
                #[trigger] spec_pad_bits(v, spec_pad_bit_index(p) - 4, 4),
            ) == Some(DriveStrength::_4MA),
        forall|p: u8|
            p < 79 ==> PullUpDown::spec_from_bits(
                #[trigger] spec_pad_bits(v, spec_pad_bit_index(p) - 8, 2),
            ) == Some(PullUpDown::NoPull),
        forall|p: u8|
            p < 79 ==> {
                let k = #[trigger] spec_pad_bit_index(p);
                &&& !v.arrays[1][0][k]
                &&& !v.arrays[1][0][k - 1]
                &&& !v.arrays[1][0][k - 2]
                &&& !v.arrays[1][0][k - 3]
            },
    ensures
        spec_pads_valid(v, n),
        spec_pads_dump(v, n) == Seq::<Seq<char>>::empty(),
    decreases n,
{
    if n > 0 {
        let p = (n - 1) as u8;
        lemma_default_pads_dump_empty(v, (n - 1) as nat);
        let k = spec_pad_bit_index(p);
        assert(!v.arrays[1][0][k]);
        assert(DriveStrength::spec_from_bits(spec_pad_bits(v, k - 4, 4)) == Some(DriveStrength::_4MA));
        assert(PullUpDown::spec_from_bits(spec_pad_bits(v, k - 8, 2)) == Some(PullUpDown::NoPull));
        assert(spec_pad_flag_lines(v, p) =~= Seq::<Seq<char>>::empty());
        assert(spec_pad_dump_lines(v, p) =~= Seq::<Seq<char>>::empty());
        assert(spec_pads_dump(v, n) =~= Seq::<Seq<char>>::empty());
    }
}

} // verus!
