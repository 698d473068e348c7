//! Raw views of the configuration bits
//!
//! - a text listing: for each configuration chain, a `// group g chain c` line, then its
//!   bits as `0` and `1` (the main array row by row, the others on one line), then an
//!   empty line;
//! - the rows of the main array packed into bytes, most significant bit first, as a
//!   one-bit-per-pixel image stores them.

use vstd::prelude::*;

use crate::chips::{spec_config_bits, spec_main_logic_bits, Family};
use crate::container::{spec_chain_len, spec_logic_bit, Bitstream, BitstreamView};
use crate::coordinates::GlobalBitPos;
use crate::textfmt::{push_dec, spec_dec_text};

verus! {

/// `1` for a set bit, `0` for a clear one
pub open spec fn spec_bit_char(b: bool) -> char {
    if b {
        '1'
    } else {
        '0'
    }
}

/// `// group g chain c` and a line break
pub open spec fn spec_chain_header(g: nat, c: nat) -> Seq<char> {
    seq!['/', '/', ' ', 'g', 'r', 'o', 'u', 'p', ' '] + spec_dec_text(g) + seq![
        ' ',
        'c',
        'h',
        'a',
        'i',
        'n',
        ' ',
    ] + spec_dec_text(c) + seq!['\n']
}

/// Row `y` of the main array as text
pub open spec fn spec_logic_row(v: BitstreamView, y: u32) -> Seq<char> {
    Seq::new(
        spec_main_logic_bits(v.family).0 as nat,
        |x: int| spec_bit_char(spec_logic_bit(v, GlobalBitPos { x: x as u32, y })),
    )
}

/// Rows `0 .. n` of the main array as text, one line each
pub open spec fn spec_logic_rows(v: BitstreamView, n: nat) -> Seq<char>
    decreases n,
{
    if n == 0 {
        Seq::empty()
    } else {
        spec_logic_rows(v, (n - 1) as nat) + spec_logic_row(v, (n - 1) as u32) + seq!['\n']
    }
}

/// The first `n` bits of chain `c` of group `g` on one line
pub open spec fn spec_chain_bits_line(v: BitstreamView, g: int, c: int, n: nat) -> Seq<char> {
    Seq::new(n, |i: int| spec_bit_char(v.arrays[g][c][i])) + seq!['\n']
}

/// The listing of chain `c` of group `g`
pub open spec fn spec_chain_dump(v: BitstreamView, g: int, c: int) -> Seq<char> {
    spec_chain_header(g as nat, c as nat) + (if g == 0 && c == 0 {
        spec_logic_rows(v, spec_main_logic_bits(v.family).1 as nat)
    } else {
        spec_chain_bits_line(v, g, c, spec_config_bits(v.family)[g][c] as nat)
    }) + seq!['\n']
}

/// The listing of chains `0 .. k` of group `g`
pub open spec fn spec_group_dump(v: BitstreamView, g: int, k: nat) -> Seq<char>
    decreases k,
{
    if k == 0 {
        Seq::empty()
    } else {
        spec_group_dump(v, g, (k - 1) as nat) + spec_chain_dump(v, g, k - 1)
    }
}

/// The listing of groups `0 .. k`
pub open spec fn spec_groups_dump(v: BitstreamView, k: nat) -> Seq<char>
    decreases k,
{
    if k == 0 {
        Seq::empty()
    } else {
        spec_groups_dump(v, (k - 1) as nat) + spec_group_dump(
            v,
            k - 1,
            spec_config_bits(v.family)[k - 1].len(),
        )
    }
}

/// The text listing of all configuration bits
pub open spec fn spec_raw_dump(v: BitstreamView) -> Seq<char> {
    spec_groups_dump(v, spec_config_bits(v.family).len())
}

proof fn lemma_chain_len_covers(f: Family, g: int, c: int)
    requires
        0 <= g < spec_config_bits(f).len(),
        0 <= c < spec_config_bits(f)[g].len(),
    ensures
        spec_chain_len(f, g, c) >= spec_config_bits(f)[g][c],
{
    match f {
        Family::AGRV2K => {
            assert(spec_config_bits(f)[0][0] == 798080usize);
            assert(spec_config_bits(f)[1][0] == 834usize);
            assert(spec_config_bits(f)[1][1] == 239usize);
        },
    }
}

fn bit_char(b: bool) -> (r: char)
    ensures
        r == spec_bit_char(b),
{
    if b {
        '1'
    } else {
        '0'
    }
}

fn push_chain_header(out: &mut Vec<char>, g: usize, c: usize)
    requires
        g < 0x1_0000_0000,
        c < 0x1_0000_0000,
    ensures
        final(out)@ == old(out)@ + spec_chain_header(g as nat, c as nat),
{
    let a = ['/', '/', ' ', 'g', 'r', 'o', 'u', 'p', ' '];
    let b = [' ', 'c', 'h', 'a', 'i', 'n', ' '];
    let mut k: usize = 0;
    while k < 9
        invariant
            k <= 9,
            out@ == old(out)@ + a@.subrange(0, k as int),
        decreases 9 - k,
    {
        out.push(a[k]);
        proof {
            assert(a@.subrange(0, k as int + 1) =~= a@.subrange(0, k as int).push(a@[k as int]));
        }
        k = k + 1;
    }
    push_dec(out, g as u32);
    let mut k: usize = 0;
    let ghost mid = out@;
    while k < 7
        invariant
            k <= 7,
            out@ == mid + b@.subrange(0, k as int),
        decreases 7 - k,
    {
        out.push(b[k]);
        proof {
            assert(b@.subrange(0, k as int + 1) =~= b@.subrange(0, k as int).push(b@[k as int]));
        }
        k = k + 1;
    }
    push_dec(out, c as u32);
    out.push('\n');
    proof {
        assert(a@.subrange(0, 9) =~= seq!['/', '/', ' ', 'g', 'r', 'o', 'u', 'p', ' ']);
        assert(b@.subrange(0, 7) =~= seq![' ', 'c', 'h', 'a', 'i', 'n', ' ']);
        assert(out@ =~= old(out)@ + spec_chain_header(g as nat, c as nat));
    }
}

fn push_logic_rows(out: &mut Vec<char>, b: &Bitstream)
    requires
        b@.logic_ready(),
    ensures
        final(out)@ == old(out)@ + spec_logic_rows(b@, spec_main_logic_bits(b@.family).1 as nat),
{
    let (w, h) = b.family().main_logic_bits();
    let mut y: u32 = 0;
    while y < h
        invariant
            (w, h) == spec_main_logic_bits(b@.family),
            y <= h,
            b@.logic_ready(),
            out@ == old(out)@ + spec_logic_rows(b@, y as nat),
        decreases h - y,
    {
        let ghost start = out@;
        let mut x: u32 = 0;
        while x < w
            invariant
                (w, h) == spec_main_logic_bits(b@.family),
                y < h,
                x <= w,
                b@.logic_ready(),
                out@ == start + spec_logic_row(b@, y).subrange(0, x as int),
            decreases w - x,
        {
            out.push(bit_char(b.get_logic_array_bit(GlobalBitPos { x, y })));
            proof {
                assert(spec_logic_row(b@, y).subrange(0, x as int + 1) =~= spec_logic_row(
                    b@,
                    y,
                ).subrange(0, x as int).push(spec_logic_row(b@, y)[x as int]));
            }
            x = x + 1;
        }
        out.push('\n');
        proof {
            assert(spec_logic_row(b@, y).subrange(0, w as int) =~= spec_logic_row(b@, y));
            assert(spec_logic_rows(b@, y as nat + 1) =~= spec_logic_rows(b@, y as nat)
                + spec_logic_row(b@, y) + seq!['\n']);
        }
        y = y + 1;
    }
}

fn push_chain_bits(out: &mut Vec<char>, b: &Bitstream, g: usize, c: usize, n: usize)
    requires
        g < b@.arrays.len(),
        c < b@.arrays[g as int].len(),
        n <= b@.arrays[g as int][c as int].len(),
        g < 0x1_0000_0000,
        c < 0x1_0000_0000,
    ensures
        final(out)@ == old(out)@ + spec_chain_bits_line(b@, g as int, c as int, n as nat),
{
    let mut i: usize = 0;
    while i < n
        invariant
            g < b@.arrays.len(),
            c < b@.arrays[g as int].len(),
            n <= b@.arrays[g as int][c as int].len(),
            g < 0x1_0000_0000,
            c < 0x1_0000_0000,
            i <= n,
            out@ == old(out)@ + Seq::new(
                i as nat,
                |k: int| spec_bit_char(b@.arrays[g as int][c as int][k]),
            ),
        decreases n - i,
    {
        out.push(bit_char(b.get_aux_array_bit(g as u32, c as u32, i)));
        proof {
            assert(Seq::new(
                (i + 1) as nat,
                |k: int| spec_bit_char(b@.arrays[g as int][c as int][k]),
            ) =~= Seq::new(i as nat, |k: int| spec_bit_char(b@.arrays[g as int][c as int][k])).push(
                spec_bit_char(b@.arrays[g as int][c as int][i as int]),
            ));
        }
        i = i + 1;
    }
    out.push('\n');
    proof {
        assert(out@ =~= old(out)@ + spec_chain_bits_line(b@, g as int, c as int, n as nat));
    }
}

/// The text listing of all configuration bits of a complete bitstream
pub fn dump_raw_bits(b: &Bitstream) -> (r: Vec<char>)
    requires
        b@.complete(),
    ensures
        r@ == spec_raw_dump(b@),
{
    let config_bits = b.family().config_bits();
    let mut out: Vec<char> = Vec::new();
    let mut g: usize = 0;
    while g < config_bits.len()
        invariant
            config_bits.deep_view() == spec_config_bits(b@.family),
            b@.complete(),
            g <= config_bits@.len(),
            out@ == spec_groups_dump(b@, g as nat),
        decreases config_bits@.len() - g,
    {
        let chains = &config_bits[g];
        let ghost start = out@;
        let mut c: usize = 0;
        while c < chains.len()
            invariant
                config_bits.deep_view() == spec_config_bits(b@.family),
                b@.complete(),
                g < config_bits@.len(),
                chains@ == config_bits@[g as int]@,
                c <= chains@.len(),
                out@ == start + spec_group_dump(b@, g as int, c as nat),
            decreases chains@.len() - c,
        {
            assert(config_bits.deep_view()[g as int] == chains@);
            let ghost before = out@;
            push_chain_header(&mut out, g, c);
            if g == 0 && c == 0 {
                push_logic_rows(&mut out, b);
            } else {
                proof {
                    lemma_chain_len_covers(b@.family, g as int, c as int);
                }
                push_chain_bits(&mut out, b, g, c, chains[c]);
            }
            out.push('\n');
            proof {
                assert(out@ =~= before + spec_chain_dump(b@, g as int, c as int));
            }
            c = c + 1;
        }
        proof {
            assert(config_bits.deep_view()[g as int] == chains@);
        }
        g = g + 1;
    }
    out
}


/// The number of bytes that one row of the main array takes in an image
pub open spec fn spec_row_bytes(f: Family) -> nat {
    ((spec_main_logic_bits(f).0 + 7) / 8) as nat
}

/// The first `j` bits of byte `k` of row `y` in the image, most significant first; bits
/// beyond the row are 0
pub open spec fn spec_image_bits(v: BitstreamView, y: u32, k: nat, j: nat) -> nat
    decreases j,
{
    if j == 0 {
        0
    } else {
        let x = 8 * k + j - 1;
        spec_image_bits(v, y, k, (j - 1) as nat) * 2 + if x < spec_main_logic_bits(v.family).0
            && spec_logic_bit(v, GlobalBitPos { x: x as u32, y }) {
            1nat
        } else {
            0nat
        }
    }
}

/// The image data of the main array: each row packed into bytes, the leftmost bit in the
/// most significant bit of the first byte
pub open spec fn spec_image_data(v: BitstreamView) -> Seq<u8> {
    let rb = spec_row_bytes(v.family);
    Seq::new(
        (spec_main_logic_bits(v.family).1 * rb) as nat,
        |n: int| spec_image_bits(v, (n / rb as int) as u32, (n % rb as int) as nat, 8) as u8,
    )
}

proof fn lemma_image_bits_bound(v: BitstreamView, y: u32, k: nat, j: nat)
    requires
        j <= 8,
    ensures
        spec_image_bits(v, y, k, j) < pow2_small(j),
    decreases j,
{
    if j > 0 {
        lemma_image_bits_bound(v, y, k, (j - 1) as nat);
    }
}

/// `2^j` for small `j`
pub open spec fn pow2_small(j: nat) -> nat
    decreases j,
{
    if j == 0 {
        1
    } else {
        2 * pow2_small((j - 1) as nat)
    }
}

/// The image data of the main array, for a one-bit-per-pixel greyscale image of
/// `W x H` pixels
pub fn image_data(b: &Bitstream) -> (r: Vec<u8>)
    requires
        b@.logic_ready(),
    ensures
        r@ == spec_image_data(b@),
{
    let (w, h) = b.family().main_logic_bits();
    let rb: u32 = (w + 7) / 8;
    let mut out: Vec<u8> = Vec::new();
    let mut y: u32 = 0;
    while y < h
        invariant
            (w, h) == spec_main_logic_bits(b@.family),
            rb == spec_row_bytes(b@.family),
            y <= h,
            b@.logic_ready(),
            out@ =~= spec_image_data(b@).subrange(0, (y * rb) as int),
        decreases h - y,
    {
        let mut k: u32 = 0;
        while k < rb
            invariant
                (w, h) == spec_main_logic_bits(b@.family),
                rb == spec_row_bytes(b@.family),
                y < h,
                k <= rb,
                b@.logic_ready(),
                out@ =~= spec_image_data(b@).subrange(0, (y * rb + k) as int),
            decreases rb - k,
        {
            let mut byte: u32 = 0;
            let mut j: u32 = 0;
            while j < 8
                invariant
                    (w, h) == spec_main_logic_bits(b@.family),
                    y < h,
                    k < rb,
                    rb == spec_row_bytes(b@.family),
                    j <= 8,
                    b@.logic_ready(),
                    byte == spec_image_bits(b@, y, k as nat, j as nat),
                decreases 8 - j,
            {
                proof {
                    lemma_image_bits_bound(b@, y, k as nat, j as nat);
                    assert(pow2_small(j as nat) <= 128) by {
                        reveal_with_fuel(pow2_small, 9);
                    }
                }
                let x = 8 * k + j;
                let bit = x < w && b.get_logic_array_bit(GlobalBitPos { x, y });
                byte = byte * 2 + if bit {
                    1
                } else {
                    0
                };
                j = j + 1;
            }
            proof {
                lemma_image_bits_bound(b@, y, k as nat, 8);
                reveal_with_fuel(pow2_small, 9);
                let n = (y * rb + k) as int;
                assert(n / rb as int == y as int) by (nonlinear_arith)
                    requires
                        n == y * rb + k,
                        k < rb,
                ;
                assert(n % rb as int == k as int) by (nonlinear_arith)
                    requires
                        n == y * rb + k,
                        k < rb,
                ;
                assert(n < spec_main_logic_bits(b@.family).1 * rb) by (nonlinear_arith)
                    requires
                        n == y * rb + k,
                        k < rb,
                        y < h,
                        h == spec_main_logic_bits(b@.family).1,
                ;
            }
            out.push(byte as u8);
            k = k + 1;
        }
        proof {
            assert((y + 1) * rb == y * rb + rb) by (nonlinear_arith);
        }
        y = y + 1;
    }
    proof {
        assert(spec_image_data(b@).subrange(0, (h * rb) as int) =~= spec_image_data(b@));
    }
    out
}

} // verus!
