//! Bitstream container file format
//!
//! A bitstream binary consists of the following:
//! 1. Device ID
//! 2. User ID
//! 3. Commands
//!     - Array writes
//!     - Register writes
//! 4. CRC32
//!
//! All words are big endian. The device ID is a 32-bit word indicating the target FPGA device.
//! The user ID is a 32-bit word. If not specified, the vendor tools default to `0x0000ffff`.
//! The CRC32 polynomial is `0x04c11db7`, specifically the `CRC-32/BZIP2` configuration,
//! and it covers everything before it.
//!
//! There is only one known register, with address `2`. It is written with the value `0xf8f`
//! at the end of the configuration process.
//!
//! Every other chunk of information is written to an array, which is identified by a
//! "group" and "chain". For example, on the AGRV2K, group 1 chain 0 configures the IO pads
//! and group 1 chain 1 configures the PLL. The "actual logic" is stored as one
//! extremely-large array in group 0 chain 0.

use vstd::prelude::*;

use bitvec::order::Msb0;
use bitvec::vec::BitVec;

use crate::bitfield::{bits_value, get_bit_of, push_bit, value_bits};
use crate::chips::{
    spec_config_bits, spec_device_id, spec_family_from_device_id, spec_main_logic_bits, Family,
};
use crate::coordinates::GlobalBitPos;
use crate::spec_divroundup;

verus! {

// ---------------------------------------------------------------------------
// Bytes and bits
// ---------------------------------------------------------------------------

/// The weight of bit `k` (most significant first) within a byte
pub open spec fn spec_msb_weight(k: int) -> int {
    if k == 0 {
        128
    } else if k == 1 {
        64
    } else if k == 2 {
        32
    } else if k == 3 {
        16
    } else if k == 4 {
        8
    } else if k == 5 {
        4
    } else if k == 6 {
        2
    } else {
        1
    }
}

/// Bit `k` of a byte, counting from the most significant bit
pub open spec fn spec_byte_bit(b: u8, k: int) -> bool {
    (b as int / spec_msb_weight(k)) % 2 == 1
}

/// The bits of a byte sequence, most significant bit of each byte first
pub open spec fn spec_bits_of_bytes(bytes: Seq<u8>) -> Seq<bool> {
    Seq::new(bytes.len() * 8, |i: int| spec_byte_bit(bytes[i / 8], i % 8))
}

/// The byte made of bits `8 * j .. 8 * j + 8`, most significant bit first
pub open spec fn spec_byte_of_bits(bits: Seq<bool>, j: int) -> u8 {
    ((if bits[8 * j] { 128int } else { 0 }) + (if bits[8 * j + 1] { 64int } else { 0 }) + (if bits[8
        * j + 2] { 32int } else { 0 }) + (if bits[8 * j + 3] { 16int } else { 0 }) + (if bits[8 * j
        + 4] { 8int } else { 0 }) + (if bits[8 * j + 5] { 4int } else { 0 }) + (if bits[8 * j + 6] {
        2int
    } else {
        0
    }) + (if bits[8 * j + 7] { 1int } else { 0 })) as u8
}

/// The bytes holding a bit sequence (whose length is a multiple of 8)
pub open spec fn spec_bytes_of_bits(bits: Seq<bool>) -> Seq<u8> {
    Seq::new(bits.len() / 8, |j: int| spec_byte_of_bits(bits, j))
}

proof fn lemma_byte_roundtrip(b: u8)
    ensures
        b as int == (if spec_byte_bit(b, 0) { 128int } else { 0 }) + (if spec_byte_bit(b, 1) {
            64int
        } else {
            0
        }) + (if spec_byte_bit(b, 2) { 32int } else { 0 }) + (if spec_byte_bit(b, 3) {
            16int
        } else {
            0
        }) + (if spec_byte_bit(b, 4) { 8int } else { 0 }) + (if spec_byte_bit(b, 5) {
            4int
        } else {
            0
        }) + (if spec_byte_bit(b, 6) { 2int } else { 0 }) + (if spec_byte_bit(b, 7) {
            1int
        } else {
            0
        }),
{
    let x = b as int;
    assert(x == 128 * ((x / 128) % 2) + 64 * ((x / 64) % 2) + 32 * ((x / 32) % 2) + 16 * ((x / 16)
        % 2) + 8 * ((x / 8) % 2) + 4 * ((x / 4) % 2) + 2 * ((x / 2) % 2) + x % 2) by (nonlinear_arith)
        requires
            0 <= x < 256,
    ;
}

/// Turning bytes into bits and back gives the same bytes.
pub proof fn lemma_bytes_bits_roundtrip(bytes: Seq<u8>)
    ensures
        spec_bytes_of_bits(spec_bits_of_bytes(bytes)) == bytes,
{
    let bits = spec_bits_of_bytes(bytes);
    assert forall|j: int| 0 <= j < bytes.len() implies spec_byte_of_bits(bits, j) == bytes[j] by {
        lemma_byte_roundtrip(bytes[j]);
        assert forall|k: int| 0 <= k < 8 implies #[trigger] bits[8 * j + k] == spec_byte_bit(
            bytes[j],
            k,
        ) by {
            assert((8 * j + k) / 8 == j);
            assert((8 * j + k) % 8 == k);
        }
        assert(bits[8 * j] == spec_byte_bit(bytes[j], 0));
        assert(bits[8 * j + 1] == spec_byte_bit(bytes[j], 1));
        assert(bits[8 * j + 2] == spec_byte_bit(bytes[j], 2));
        assert(bits[8 * j + 3] == spec_byte_bit(bytes[j], 3));
        assert(bits[8 * j + 4] == spec_byte_bit(bytes[j], 4));
        assert(bits[8 * j + 5] == spec_byte_bit(bytes[j], 5));
        assert(bits[8 * j + 6] == spec_byte_bit(bytes[j], 6));
        assert(bits[8 * j + 7] == spec_byte_bit(bytes[j], 7));
    }
    assert(spec_bytes_of_bits(bits) =~= bytes);
}

proof fn lemma_byte_weights(b0: bool, b1: bool, b2: bool, b3: bool, b4: bool, b5: bool, b6: bool, b7: bool)
    by (bit_vector)
    ensures
        ({
            let x = (if b0 { 128u8 } else { 0u8 }) + (if b1 { 64u8 } else { 0u8 }) + (if b2 { 32u8 } else { 0u8 })
                + (if b3 { 16u8 } else { 0u8 }) + (if b4 { 8u8 } else { 0u8 }) + (if b5 { 4u8 } else { 0u8 })
                + (if b6 { 2u8 } else { 0u8 }) + (if b7 { 1u8 } else { 0u8 });
            &&& x < 256
            &&& ((x / 128) % 2 == 1) == b0
            &&& ((x / 64) % 2 == 1) == b1
            &&& ((x / 32) % 2 == 1) == b2
            &&& ((x / 16) % 2 == 1) == b3
            &&& ((x / 8) % 2 == 1) == b4
            &&& ((x / 4) % 2 == 1) == b5
            &&& ((x / 2) % 2 == 1) == b6
            &&& (x % 2 == 1) == b7
        }),
{
}

proof fn lemma_byte_of_bits_bit(bits: Seq<bool>, j: int, k: int)
    requires
        0 <= j,
        8 * j + 8 <= bits.len(),
        0 <= k < 8,
    ensures
        spec_byte_bit(spec_byte_of_bits(bits, j), k) == bits[8 * j + k],
{
    lemma_byte_weights(
        bits[8 * j],
        bits[8 * j + 1],
        bits[8 * j + 2],
        bits[8 * j + 3],
        bits[8 * j + 4],
        bits[8 * j + 5],
        bits[8 * j + 6],
        bits[8 * j + 7],
    );
}

/// Turning bits (a whole number of bytes) into bytes and back gives the same bits.
pub proof fn lemma_bits_bytes_roundtrip(bits: Seq<bool>)
    requires
        bits.len() % 8 == 0,
    ensures
        spec_bits_of_bytes(spec_bytes_of_bits(bits)) == bits,
{
    let bytes = spec_bytes_of_bits(bits);
    assert forall|i: int| 0 <= i < bits.len() implies #[trigger] spec_bits_of_bytes(bytes)[i]
        == bits[i] by {
        let j = i / 8;
        let k = i % 8;
        assert(8 * j + k == i);
        lemma_byte_of_bits_bit(bits, j, k);
    }
    assert(spec_bits_of_bytes(bytes) =~= bits);
}

/// The big endian `u32` at byte offset `p`
pub open spec fn spec_be_u32(s: Seq<u8>, p: int) -> u32 {
    (s[p] as int * 16777216 + s[p + 1] as int * 65536 + s[p + 2] as int * 256 + s[p + 3] as int) as u32
}

/// The big endian bytes of a `u32`
pub open spec fn spec_u32_be_bytes(x: u32) -> Seq<u8> {
    seq![(x / 16777216) as u8, ((x / 65536) % 256) as u8, ((x / 256) % 256) as u8, (x % 256) as u8]
}

/// Reading back the big endian bytes of `x` gives `x`.
pub proof fn lemma_be_u32_roundtrip(s: Seq<u8>, p: int, x: u32)
    requires
        0 <= p,
        p + 4 <= s.len(),
        s.subrange(p, p + 4) == spec_u32_be_bytes(x),
    ensures
        spec_be_u32(s, p) == x,
{
    assert(s[p] == s.subrange(p, p + 4)[0]);
    assert(s[p + 1] == s.subrange(p, p + 4)[1]);
    assert(s[p + 2] == s.subrange(p, p + 4)[2]);
    assert(s[p + 3] == s.subrange(p, p + 4)[3]);
    let xi = x as int;
    assert(xi == (xi / 16777216) * 16777216 + ((xi / 65536) % 256) * 65536 + ((xi / 256) % 256) * 256
        + xi % 256) by (nonlinear_arith)
        requires
            0 <= xi < 0x1_0000_0000,
    ;
}

fn read_be_u32(data: &[u8], p: usize) -> (r: u32)
    requires
        p + 4 <= data@.len(),
    ensures
        r == spec_be_u32(data@, p as int),
{
    (data[p] as u32) * 16777216 + (data[p + 1] as u32) * 65536 + (data[p + 2] as u32) * 256 + (data[p
        + 3] as u32)
}

fn push_be_u32(v: &mut Vec<u8>, x: u32)
    ensures
        final(v)@ == old(v)@ + spec_u32_be_bytes(x),
{
    v.push((x / 16777216) as u8);
    v.push(((x / 65536) % 256) as u8);
    v.push(((x / 256) % 256) as u8);
    v.push((x % 256) as u8);
    assert(final(v)@ =~= old(v)@ + spec_u32_be_bytes(x));
}

// ---------------------------------------------------------------------------
// CRC
// ---------------------------------------------------------------------------

/// The register of the `CRC-32/BZIP2` checksum after shifting out one bit, most
/// significant first, with the polynomial `0x04C11DB7`
pub open spec fn spec_crc32_shift(c: u32) -> u32 {
    if c & 0x8000_0000u32 != 0 {
        (c << 1u32) ^ 0x04c1_1db7u32
    } else {
        c << 1u32
    }
}

/// The register of the `CRC-32/BZIP2` checksum after byte `b`: the byte enters at the top
/// of the register, unreflected, and eight bits are shifted out
pub open spec fn spec_crc32_byte(crc: u32, b: u8) -> u32 {
    let c = crc ^ ((b as u32) << 24u32);
    spec_crc32_shift(
        spec_crc32_shift(
            spec_crc32_shift(
                spec_crc32_shift(spec_crc32_shift(spec_crc32_shift(spec_crc32_shift(spec_crc32_shift(c))))),
            ),
        ),
    )
}

/// The register of the `CRC-32/BZIP2` checksum after the bytes `data`, starting from all
/// ones
pub open spec fn spec_crc32_register(data: Seq<u8>) -> u32
    decreases data.len(),
{
    if data.len() == 0 {
        0xffff_ffffu32
    } else {
        spec_crc32_byte(spec_crc32_register(data.drop_last()), data.last())
    }
}

/// The `CRC-32/BZIP2` checksum of a byte sequence: polynomial `0x04C11DB7`, register
/// starting from all ones, no reflection of input or output, final xor with all ones
#[verifier::opaque]
pub open spec fn spec_crc32_bzip2(data: Seq<u8>) -> u32 {
    spec_crc32_register(data) ^ 0xffff_ffffu32
}

/// Computes the `CRC-32/BZIP2` checksum of `data` with `crc::Crc::checksum`.
///
/// The contract claims that the result is the checksum as `spec_crc32_bzip2` defines it
/// (the parameters of the crate's `CRC_32_BZIP2`).
#[verifier::external_body]
fn crc32_bzip2(data: &[u8]) -> (r: u32)
    ensures
        r == spec_crc32_bzip2(data@),
{
    crc::Crc::<u32>::new(&crc::CRC_32_BZIP2).checksum(data)
}

/// The `CRC-32/BZIP2` checksum that a bitstream container uses
pub fn bitstream_crc(data: &[u8]) -> (r: u32)
    ensures
        r == spec_crc32_bzip2(data@),
{
    crc32_bzip2(data)
}

/// The checksum of the text `123456789` is `0xFC891918`, the check value that the
/// catalogue of CRC algorithms gives for `CRC-32/BZIP2`.
pub proof fn lemma_crc32_bzip2_check()
    ensures
        spec_crc32_bzip2(seq![0x31u8, 0x32, 0x33, 0x34, 0x35, 0x36, 0x37, 0x38, 0x39]) == 0xfc89_1918u32,
{
    reveal(spec_crc32_bzip2);
    let s = seq![0x31u8, 0x32, 0x33, 0x34, 0x35, 0x36, 0x37, 0x38, 0x39];
    assert(spec_crc32_byte(0xffff_ffffu32, 0x31u8) == 0x9efb_cf93u32) by (bit_vector);
    assert(spec_crc32_byte(0x9efb_cf93u32, 0x32u8) == 0x3fec_5e6au32) by (bit_vector);
    assert(spec_crc32_byte(0x3fec_5e6au32, 0x33u8) == 0xd952_f164u32) by (bit_vector);
    assert(spec_crc32_byte(0xd952_f164u32, 0x34u8) == 0xa695_c4aau32) by (bit_vector);
    assert(spec_crc32_byte(0xa695_c4aau32, 0x35u8) == 0xbd9a_b747u32) by (bit_vector);
    assert(spec_crc32_byte(0xbd9a_b747u32, 0x36u8) == 0xd8f0_6c8fu32) by (bit_vector);
    assert(spec_crc32_byte(0xd8f0_6c8fu32, 0x37u8) == 0x0d8a_14c4u32) by (bit_vector);
    assert(spec_crc32_byte(0x0d8a_14c4u32, 0x38u8) == 0x49e3_c2fbu32) by (bit_vector);
    assert(spec_crc32_byte(0x49e3_c2fbu32, 0x39u8) == 0x0376_e6e7u32) by (bit_vector);
    assert(0x0376_e6e7u32 ^ 0xffff_ffffu32 == 0xfc89_1918u32) by (bit_vector);
    assert(spec_crc32_register(s.subrange(0, 0)) == 0xffff_ffffu32);
    assert(s.subrange(0, 1).drop_last() =~= s.subrange(0, 0));
    assert(spec_crc32_register(s.subrange(0, 1)) == 0x9efb_cf93u32);
    assert(s.subrange(0, 2).drop_last() =~= s.subrange(0, 1));
    assert(spec_crc32_register(s.subrange(0, 2)) == 0x3fec_5e6au32);
    assert(s.subrange(0, 3).drop_last() =~= s.subrange(0, 2));
    assert(spec_crc32_register(s.subrange(0, 3)) == 0xd952_f164u32);
    assert(s.subrange(0, 4).drop_last() =~= s.subrange(0, 3));
    assert(spec_crc32_register(s.subrange(0, 4)) == 0xa695_c4aau32);
    assert(s.subrange(0, 5).drop_last() =~= s.subrange(0, 4));
    assert(spec_crc32_register(s.subrange(0, 5)) == 0xbd9a_b747u32);
    assert(s.subrange(0, 6).drop_last() =~= s.subrange(0, 5));
    assert(spec_crc32_register(s.subrange(0, 6)) == 0xd8f0_6c8fu32);
    assert(s.subrange(0, 7).drop_last() =~= s.subrange(0, 6));
    assert(spec_crc32_register(s.subrange(0, 7)) == 0x0d8a_14c4u32);
    assert(s.subrange(0, 8).drop_last() =~= s.subrange(0, 7));
    assert(spec_crc32_register(s.subrange(0, 8)) == 0x49e3_c2fbu32);
    assert(s.drop_last() =~= s.subrange(0, 8));
    assert(spec_crc32_register(s) == 0x0376_e6e7u32);
}

// ---------------------------------------------------------------------------
// Configuration arrays (backed by `bitvec`)
// ---------------------------------------------------------------------------

/// The configuration arrays of a bitstream, indexed by group, then chain, then bit
#[verifier::external_body]
pub struct ConfigArrays {
    arrays: Vec<Vec<BitVec<u8, Msb0>>>,
}

/// The bits held in each array: `[group][chain][bit]`
pub uninterp spec fn spec_config_arrays(a: ConfigArrays) -> Seq<Seq<Seq<bool>>>;

/// Creates an empty set of arrays (an empty `Vec`).
#[verifier::external_body]
fn arrays_new() -> (r: ConfigArrays)
    ensures
        spec_config_arrays(r) == Seq::<Seq<Seq<bool>>>::empty(),
{
    ConfigArrays { arrays: Vec::new() }
}

/// Appends an empty group (an empty `Vec` of chains).
#[verifier::external_body]
fn arrays_push_group(a: &mut ConfigArrays)
    ensures
        spec_config_arrays(*final(a)) == spec_config_arrays(*old(a)).push(Seq::<Seq<bool>>::empty()),
{
    a.arrays.push(Vec::new())
}

/// Appends to group `g` a chain made with `bitvec::vec::BitVec::from_vec`, which views
/// the bytes most significant bit first (`Msb0`). `from_vec` panics only for vectors far
/// longer than the bound in `requires`.
#[verifier::external_body]
fn arrays_push_chain(a: &mut ConfigArrays, g: usize, bytes: Vec<u8>)
    requires
        g < spec_config_arrays(*old(a)).len(),
        bytes@.len() <= 0x3ff_ffff,
    ensures
        spec_config_arrays(*final(a)) == spec_config_arrays(*old(a)).update(
            g as int,
            spec_config_arrays(*old(a))[g as int].push(spec_bits_of_bytes(bytes@)),
        ),
{
    a.arrays[g].push(BitVec::from_vec(bytes))
}

/// Replaces chain `c` of group `g` with one made with `bitvec::vec::BitVec::from_vec`
/// (most significant bit first).
#[verifier::external_body]
fn arrays_replace_chain(a: &mut ConfigArrays, g: usize, c: usize, bytes: Vec<u8>)
    requires
        g < spec_config_arrays(*old(a)).len(),
        c < spec_config_arrays(*old(a))[g as int].len(),
        bytes@.len() <= 0x3ff_ffff,
    ensures
        spec_config_arrays(*final(a)) == spec_config_arrays(*old(a)).update(
            g as int,
            spec_config_arrays(*old(a))[g as int].update(c as int, spec_bits_of_bytes(bytes@)),
        ),
{
    a.arrays[g][c] = BitVec::from_vec(bytes)
}

/// Reads one bit with `BitVec`'s indexing, which panics out of range.
#[verifier::external_body]
fn arrays_get(a: &ConfigArrays, g: usize, c: usize, i: usize) -> (r: bool)
    requires
        g < spec_config_arrays(*a).len(),
        c < spec_config_arrays(*a)[g as int].len(),
        i < spec_config_arrays(*a)[g as int][c as int].len(),
    ensures
        r == spec_config_arrays(*a)[g as int][c as int][i as int],
{
    a.arrays[g][c][i]
}

/// Writes one bit with `BitSlice::set`, which panics out of range.
#[verifier::external_body]
fn arrays_set(a: &mut ConfigArrays, g: usize, c: usize, i: usize, val: bool)
    requires
        g < spec_config_arrays(*old(a)).len(),
        c < spec_config_arrays(*old(a))[g as int].len(),
        i < spec_config_arrays(*old(a))[g as int][c as int].len(),
    ensures
        spec_config_arrays(*final(a)) == spec_config_arrays(*old(a)).update(
            g as int,
            spec_config_arrays(*old(a))[g as int].update(
                c as int,
                spec_config_arrays(*old(a))[g as int][c as int].update(i as int, val),
            ),
        ),
{
    a.arrays[g][c].set(i, val)
}

/// The number of bits in one chain, with `BitVec::len`.
#[verifier::external_body]
fn arrays_chain_len(a: &ConfigArrays, g: usize, c: usize) -> (r: usize)
    requires
        g < spec_config_arrays(*a).len(),
        c < spec_config_arrays(*a)[g as int].len(),
    ensures
        r == spec_config_arrays(*a)[g as int][c as int].len(),
{
    a.arrays[g][c].len()
}

/// Copies out the bytes under one chain with `BitVec::as_raw_slice`.
///
/// Every chain is made by `from_vec` from whole bytes, so its bits are exactly the bits of
/// these bytes, most significant bit first.
#[verifier::external_body]
fn arrays_chain_bytes(a: &ConfigArrays, g: usize, c: usize) -> (r: Vec<u8>)
    requires
        g < spec_config_arrays(*a).len(),
        c < spec_config_arrays(*a)[g as int].len(),
        spec_config_arrays(*a)[g as int][c as int].len() % 8 == 0,
    ensures
        spec_bits_of_bytes(r@) == spec_config_arrays(*a)[g as int][c as int],
{
    a.arrays[g][c].as_raw_slice().to_vec()
}

// ---------------------------------------------------------------------------
// Control words
// ---------------------------------------------------------------------------

/// A bitstream control word, describing how to process the data that follows
///
/// The format of the control word is as follows:
/// - `bits[31:29]` - type (`101` for array data, `001` for a register access)
/// - `bits[27]` - indicates that this is the last frame
/// - `bits[25]` - indicates that this is a write
///
/// For array data, `bits[9:5]` is the config "group" and `bits[4:0]` the config "chain".
/// This is then followed by a [ConfigWord].
///
/// For a register access, `bits[24:10]` is always 0x3f and `bits[9:0]` is the register address.
/// This is then followed by a 32-bit value.
#[derive(Debug, Clone, Copy, PartialEq, Eq, Structural)]
pub struct HeaderWord(pub u32);

pub open spec fn spec_hdr_type(x: u32) -> u32 {
    x >> 29u32
}

pub open spec fn spec_last_frame(x: u32) -> bool {
    (x & (1u32 << 27u32)) != 0
}

pub open spec fn spec_config_group(x: u32) -> u32 {
    (x >> 5u32) & 0b11111u32
}

pub open spec fn spec_config_chain(x: u32) -> u32 {
    x & 0b11111u32
}

pub open spec fn spec_register(x: u32) -> u32 {
    x & 0b1111111111u32
}

pub open spec fn spec_make_config_hdr(last_frame: bool, config_group: u32, config_chain: u32) -> u32 {
    (0b101u32 << 29u32) | (if last_frame { 1u32 << 27u32 } else { 0u32 }) | (1u32 << 25u32) | (
    config_group << 5u32) | config_chain
}

pub open spec fn spec_make_reg_write_hdr(last_frame: bool, reg_addr: u32) -> u32 {
    (0b001u32 << 29u32) | (if last_frame { 1u32 << 27u32 } else { 0u32 }) | (1u32 << 25u32) | (
    0x3fu32 << 10u32) | reg_addr
}

impl HeaderWord {
    pub fn hdr_type(self) -> (r: u32)
        ensures
            r == spec_hdr_type(self.0),
    {
        self.0 >> 29
    }

    pub fn last_frame(self) -> (r: bool)
        ensures
            r == spec_last_frame(self.0),
    {
        (self.0 & (1 << 27)) != 0
    }

    pub fn config_group(self) -> (r: u32)
        ensures
            r == spec_config_group(self.0),
    {
        (self.0 >> 5) & 0b11111
    }

    pub fn config_chain(self) -> (r: u32)
        ensures
            r == spec_config_chain(self.0),
    {
        self.0 & 0b11111
    }

    pub fn register(self) -> (r: u32)
        ensures
            r == spec_register(self.0),
    {
        self.0 & 0b1111111111
    }

    pub fn make_config_hdr(last_frame: bool, config_group: u32, config_chain: u32) -> (r: Self)
        ensures
            r.0 == spec_make_config_hdr(last_frame, config_group, config_chain),
    {
        let x = (0b101 << 29) | (if last_frame {
            1 << 27
        } else {
            0
        }) | (1 << 25) | (config_group << 5) | config_chain;
        HeaderWord(x)
    }

    pub fn make_reg_write_hdr(last_frame: bool, reg_addr: u32) -> (r: Self)
        ensures
            r.0 == spec_make_reg_write_hdr(last_frame, reg_addr),
    {
        let x = (0b001 << 29) | (if last_frame {
            1 << 27
        } else {
            0
        }) | (1 << 25) | (0x3f << 10) | reg_addr;
        HeaderWord(x)
    }
}

/// A config-array header decodes to what it was made from.
pub proof fn lemma_config_hdr_roundtrip(last_frame: bool, g: u32, c: u32)
    requires
        g < 32,
        c < 32,
    ensures
        spec_hdr_type(spec_make_config_hdr(last_frame, g, c)) == 0b101,
        spec_last_frame(spec_make_config_hdr(last_frame, g, c)) == last_frame,
        spec_config_group(spec_make_config_hdr(last_frame, g, c)) == g,
        spec_config_chain(spec_make_config_hdr(last_frame, g, c)) == c,
{
    let lf: u32 = if last_frame { 1u32 << 27u32 } else { 0u32 };
    assert(lf == (1u32 << 27u32) || lf == 0u32);
    assert((1u32 << 27u32) != 0u32) by (bit_vector);
    assert(g < 32 && c < 32 && (lf == (1u32 << 27u32) || lf == 0u32) ==> {
        let x = (0b101u32 << 29u32) | lf | (1u32 << 25u32) | (g << 5u32) | c;
        &&& x >> 29u32 == 0b101u32
        &&& ((x & (1u32 << 27u32)) != 0) == (lf != 0)
        &&& (x >> 5u32) & 0b11111u32 == g
        &&& x & 0b11111u32 == c
    }) by (bit_vector);
}

/// A register-write header decodes to what it was made from.
pub proof fn lemma_reg_write_hdr_roundtrip(last_frame: bool, reg: u32)
    requires
        reg < 1024,
    ensures
        spec_hdr_type(spec_make_reg_write_hdr(last_frame, reg)) == 0b001,
        spec_last_frame(spec_make_reg_write_hdr(last_frame, reg)) == last_frame,
        spec_register(spec_make_reg_write_hdr(last_frame, reg)) == reg,
{
    let lf: u32 = if last_frame { 1u32 << 27u32 } else { 0u32 };
    assert(lf == (1u32 << 27u32) || lf == 0u32);
    assert((1u32 << 27u32) != 0u32) by (bit_vector);
    assert(reg < 1024 && (lf == (1u32 << 27u32) || lf == 0u32) ==> {
        let x = (0b001u32 << 29u32) | lf | (1u32 << 25u32) | (0x3fu32 << 10u32) | reg;
        &&& x >> 29u32 == 0b001u32
        &&& ((x & (1u32 << 27u32)) != 0) == (lf != 0)
        &&& x & 0b1111111111u32 == reg
    }) by (bit_vector);
}

/// A second word for config arrays, specifying the length
///
/// - `word2[31:8]` - length in bits, minus 1
/// - `word2[7:4]` - "idle clocks" (it is unknown what precisely this does)
#[derive(Debug, Clone, Copy, PartialEq, Eq, Structural)]
pub struct ConfigWord(pub u32);

pub open spec fn spec_config_word_bits(x: u32) -> u32 {
    ((x >> 8u32) + 1) as u32
}

pub open spec fn spec_make_config_word(bits: u32) -> u32 {
    (((bits - 1) as u32) << 8u32) | (2u32 << 4u32)
}

impl ConfigWord {
    pub fn bits(self) -> (r: u32)
        ensures
            r == spec_config_word_bits(self.0),
    {
        let x = self.0;
        let hi = x >> 8;
        assert(x >> 8u32 <= 0xff_ffff) by (bit_vector);
        hi + 1
    }

    pub fn make_config_word(bits: u32) -> (r: Self)
        requires
            bits >= 1,
        ensures
            r.0 == spec_make_config_word(bits),
    {
        let x = ((bits - 1) << 8) | (2 << 4);
        ConfigWord(x)
    }
}

/// A config word decodes to the length it was made from.
pub proof fn lemma_config_word_roundtrip(bits: u32)
    requires
        1 <= bits <= 0x100_0000,
    ensures
        spec_config_word_bits(spec_make_config_word(bits)) == bits,
{
    let b1: u32 = (bits - 1) as u32;
    assert(b1 < 0x100_0000 ==> ((b1 << 8u32) | (2u32 << 4u32)) >> 8u32 == b1) by (bit_vector);
}

// ---------------------------------------------------------------------------
// The bitstream
// ---------------------------------------------------------------------------

/// Errors that can arise while parsing a bitstream container
#[derive(Debug, Clone, Copy, PartialEq, Eq, Structural)]
#[non_exhaustive]
pub enum BitstreamContainerError {
    /// The input ended before the container did
    UnexpectedEof,
    InvalidDeviceID(u32),
    InvalidHeaderWord(u32),
    UnexpectedConfigData { group: u32, chain: u32 },
    UnexpectedConfigSize { group: u32, chain: u32, expected_bits: u32, have_bits: u32 },
    InvalidCRC { expected: u32, calculated: u32 },
}

/// Represents an in-memory FPGA bitstream
pub struct Bitstream {
    family: Family,
    /// User ID value to identify the bitstream design
    pub user_id: u32,
    config_arrays: ConfigArrays,
}

/// The mathematical contents of a bitstream
pub struct BitstreamView {
    pub family: Family,
    pub user_id: u32,
    /// `[group][chain][bit]`
    pub arrays: Seq<Seq<Seq<bool>>>,
}

impl View for Bitstream {
    type V = BitstreamView;

    closed spec fn view(&self) -> BitstreamView {
        BitstreamView {
            family: self.family,
            user_id: self.user_id,
            arrays: spec_config_arrays(self.config_arrays),
        }
    }
}

/// Every configuration array of a family holds some bits.
proof fn lemma_chain_len_positive(f: Family, g: int, c: int)
    requires
        0 <= g < spec_config_bits(f).len(),
        0 <= c < spec_config_bits(f)[g].len(),
    ensures
        spec_chain_len(f, g, c) > 0,
{
    match f {
        Family::AGRV2K => {
            assert(spec_config_bits(f)[0][0] == 798080usize);
            assert(spec_config_bits(f)[1][0] == 834usize);
            assert(spec_config_bits(f)[1][1] == 239usize);
        },
    }
}

/// The length (in bits) that the storage of an array of `nbits` bits has: whole 32-bit words
pub open spec fn spec_padded_bits(nbits: int) -> int {
    spec_divroundup(nbits, 32) * 32
}

/// The padded length of chain `c` of group `g`
pub open spec fn spec_chain_len(f: Family, g: int, c: int) -> int {
    spec_padded_bits(spec_config_bits(f)[g][c] as int)
}

/// Do the arrays have the groups and chains of family `f`, each chain being empty
/// (never loaded) or of its full padded length?
pub open spec fn spec_arrays_shaped(f: Family, arrays: Seq<Seq<Seq<bool>>>) -> bool {
    &&& arrays.len() == spec_config_bits(f).len()
    &&& forall|g: int| 0 <= g < arrays.len() ==> #[trigger] arrays[g].len() == spec_config_bits(
        f,
    )[g].len()
    &&& forall|g: int, c: int|
        0 <= g < arrays.len() && 0 <= c < arrays[g].len() ==> (#[trigger] arrays[g][c]).len() == 0
            || arrays[g][c].len() == spec_chain_len(f, g, c)
}

/// Is every chain of full length?
pub open spec fn spec_arrays_complete(f: Family, arrays: Seq<Seq<Seq<bool>>>) -> bool {
    &&& spec_arrays_shaped(f, arrays)
    &&& forall|g: int, c: int|
        0 <= g < arrays.len() && 0 <= c < arrays[g].len() ==> (#[trigger] arrays[g][c]).len()
            == spec_chain_len(f, g, c)
}

impl BitstreamView {
    /// Well-formed: the arrays have the shape of the family
    pub open spec fn wf(self) -> bool {
        spec_arrays_shaped(self.family, self.arrays)
    }

    /// Every array has been loaded
    pub open spec fn complete(self) -> bool {
        spec_arrays_complete(self.family, self.arrays)
    }

    /// The main logic array has been loaded
    pub open spec fn logic_ready(self) -> bool {
        &&& self.wf()
        &&& self.arrays[0][0].len() == spec_chain_len(self.family, 0, 0)
    }
}

/// The position within array (0, 0) of a main-array bit
///
/// Rows are padded to whole 32-bit words, and stored right to left.
pub open spec fn spec_logic_index(f: Family, bit: GlobalBitPos) -> int {
    let (w, h) = spec_main_logic_bits(f);
    let real_w = spec_divroundup(w as int, 32) * 32;
    bit.y * real_w + (w - 1 - bit.x)
}

/// Is this bit inside the main array?
pub open spec fn spec_logic_bit_in_range(f: Family, bit: GlobalBitPos) -> bool {
    bit.x < spec_main_logic_bits(f).0 && bit.y < spec_main_logic_bits(f).1
}

/// The value of a bit in the main array
pub open spec fn spec_logic_bit(v: BitstreamView, bit: GlobalBitPos) -> bool {
    v.arrays[0][0][spec_logic_index(v.family, bit)]
}

/// The bitstream with one main-array bit replaced
pub open spec fn spec_with_logic_bit(v: BitstreamView, bit: GlobalBitPos, val: bool) -> BitstreamView {
    BitstreamView {
        arrays: v.arrays.update(
            0,
            v.arrays[0].update(0, v.arrays[0][0].update(spec_logic_index(v.family, bit), val)),
        ),
        ..v
    }
}

/// Do two bitstreams agree on everything but the main array?
pub open spec fn spec_same_aux(v: BitstreamView, w: BitstreamView) -> bool {
    &&& w.family == v.family
    &&& w.user_id == v.user_id
    &&& w.arrays.len() == v.arrays.len()
    &&& forall|g: int| 0 <= g < v.arrays.len() ==> (#[trigger] w.arrays[g]).len() == v.arrays[g].len()
    &&& forall|g: int, c: int|
        0 <= g < v.arrays.len() && 0 <= c < v.arrays[g].len() && (g != 0 || c != 0) ==> (
        #[trigger] w.arrays[g][c]) == v.arrays[g][c]
}

/// Different in-range main-array bits are stored at different in-range positions.
pub proof fn lemma_logic_index(f: Family, a: GlobalBitPos, b: GlobalBitPos)
    requires
        spec_logic_bit_in_range(f, a),
        spec_logic_bit_in_range(f, b),
    ensures
        0 <= spec_logic_index(f, a) < spec_chain_len(f, 0, 0),
        a != b ==> spec_logic_index(f, a) != spec_logic_index(f, b),
{
    let ay = a.y as int;
    let by_ = b.y as int;
    let ax = a.x as int;
    let bx = b.x as int;
    assert(0 <= ay * 928 + (919 - ax) < 798080) by (nonlinear_arith)
        requires
            0 <= ay < 860,
            0 <= ax < 920,
    ;
    if a != b {
        assert(ay * 928 + (919 - ax) != by_ * 928 + (919 - bx)) by (nonlinear_arith)
            requires
                0 <= ax < 920,
                0 <= bx < 920,
                ay != by_ || ax != bx,
        ;
    }
}

/// Writing a main-array bit: reading it back gives the written value, every other bit
/// keeps its value, and nothing else of the bitstream changes.
pub proof fn lemma_logic_bit_write_read(v: BitstreamView, a: GlobalBitPos, b: GlobalBitPos, val: bool)
    requires
        v.logic_ready(),
        spec_logic_bit_in_range(v.family, a),
        spec_logic_bit_in_range(v.family, b),
    ensures
        spec_with_logic_bit(v, a, val).logic_ready(),
        spec_with_logic_bit(v, a, val).family == v.family,
        spec_with_logic_bit(v, a, val).user_id == v.user_id,
        spec_logic_bit(spec_with_logic_bit(v, a, val), b) == if a == b {
            val
        } else {
            spec_logic_bit(v, b)
        },
        forall|g: int, c: int|
            0 <= g < v.arrays.len() && 0 <= c < v.arrays[g].len() && (g != 0 || c != 0) ==> (
            #[trigger] spec_with_logic_bit(v, a, val).arrays[g][c]) == v.arrays[g][c],
{
    lemma_logic_index(v.family, a, b);
    lemma_logic_index(v.family, a, a);
    lemma_logic_index(v.family, b, b);
    let w = spec_with_logic_bit(v, a, val);
    let ia = spec_logic_index(v.family, a);
    let ib = spec_logic_index(v.family, b);
    assert(w.arrays[0][0] == v.arrays[0][0].update(ia, val));
    assert(w.arrays[0][0][ib] == if ia == ib { val } else { v.arrays[0][0][ib] });
    assert forall|g: int, c: int|
        0 <= g < w.arrays.len() && 0 <= c < w.arrays[g].len() implies (#[trigger] w.arrays[g][c]).len()
        == 0 || w.arrays[g][c].len() == spec_chain_len(w.family, g, c) by {
        if g == 0 && c == 0 {
        } else {
            assert(w.arrays[g][c] == v.arrays[g][c]);
        }
    }
}

/// `arrays` with chain `c` of group `g` replaced
pub open spec fn spec_with_chain(arrays: Seq<Seq<Seq<bool>>>, g: int, c: int, chain: Seq<bool>) -> Seq<
    Seq<Seq<bool>>,
> {
    arrays.update(g, arrays[g].update(c, chain))
}

/// The value of the `n` bits starting at `start` of array (`g`, `c`)
pub open spec fn spec_aux_bits(v: BitstreamView, g: int, c: int, start: int, n: nat) -> u32 {
    bits_value(v.arrays[g][c].subrange(start, start + n))
}

/// The bitstream with the `n` bits starting at `start` of array (`g`, `c`) replaced by the
/// `n` low bits of `val`
pub open spec fn spec_with_aux_bits(
    v: BitstreamView,
    g: int,
    c: int,
    start: int,
    n: nat,
    val: u32,
) -> BitstreamView {
    BitstreamView {
        arrays: spec_with_chain(
            v.arrays,
            g,
            c,
            v.arrays[g][c].subrange(0, start) + value_bits(val, n) + v.arrays[g][c].subrange(
                start + n,
                v.arrays[g][c].len() as int,
            ),
        ),
        ..v
    }
}

/// Writing a run of auxiliary bits: reading it back gives the written value (its `n` low
/// bits), the array keeps its length, and every other array is unchanged.
pub proof fn lemma_aux_bits_write_read(v: BitstreamView, g: int, c: int, start: int, n: nat, val: u32)
    requires
        v.wf(),
        0 <= g < v.arrays.len(),
        0 <= c < v.arrays[g].len(),
        0 <= start,
        start + n <= v.arrays[g][c].len(),
        n <= 32,
    ensures
        spec_aux_bits(spec_with_aux_bits(v, g, c, start, n, val), g, c, start, n) == val
            & crate::bitfield::mask_low(n as u32),
        spec_with_aux_bits(v, g, c, start, n, val).wf(),
        spec_with_aux_bits(v, g, c, start, n, val).family == v.family,
        spec_with_aux_bits(v, g, c, start, n, val).user_id == v.user_id,
        spec_with_aux_bits(v, g, c, start, n, val).arrays[g][c].len() == v.arrays[g][c].len(),
        forall|g2: int, c2: int|
            0 <= g2 < v.arrays.len() && 0 <= c2 < v.arrays[g2].len() && (g2 != g || c2 != c) ==> (
            #[trigger] spec_with_aux_bits(v, g, c, start, n, val).arrays[g2][c2]) == v.arrays[g2][c2],
{
    let w = spec_with_aux_bits(v, g, c, start, n, val);
    let s0 = v.arrays[g][c];
    let s1 = s0.subrange(0, start) + value_bits(val, n) + s0.subrange(start + n, s0.len() as int);
    assert(w.arrays[g][c] == s1);
    assert(s1.subrange(start, start + n) =~= value_bits(val, n));
    crate::bitfield::lemma_value_bits_roundtrip(val, n);
    assert forall|g2: int, c2: int|
        0 <= g2 < w.arrays.len() && 0 <= c2 < w.arrays[g2].len() implies (
        #[trigger] w.arrays[g2][c2]).len() == 0 || w.arrays[g2][c2].len() == spec_chain_len(
        w.family,
        g2,
        c2,
    ) by {
        if g2 == g && c2 == c {
        } else {
            assert(w.arrays[g2][c2] == v.arrays[g2][c2]);
        }
    }
}

/// Writing bits of an array leaves the bits outside the written range as they were.
pub proof fn lemma_aux_bits_frame(
    v: BitstreamView,
    g: int,
    c: int,
    start: int,
    n: nat,
    val: u32,
    s2: int,
    n2: nat,
)
    requires
        0 <= g < v.arrays.len(),
        0 <= c < v.arrays[g].len(),
        0 <= start,
        start + n <= v.arrays[g][c].len(),
        0 <= s2,
        s2 + n2 <= v.arrays[g][c].len(),
        s2 + n2 <= start || start + n <= s2,
    ensures
        spec_aux_bits(spec_with_aux_bits(v, g, c, start, n, val), g, c, s2, n2) == spec_aux_bits(
            v,
            g,
            c,
            s2,
            n2,
        ),
{
    let w = spec_with_aux_bits(v, g, c, start, n, val);
    let s0 = v.arrays[g][c];
    let s1 = s0.subrange(0, start) + value_bits(val, n) + s0.subrange(start + n, s0.len() as int);
    assert(w.arrays[g][c] == s1);
    assert(s1.subrange(s2, s2 + n2) =~= s0.subrange(s2, s2 + n2));
}

proof fn lemma_with_chain_twice(arrays: Seq<Seq<Seq<bool>>>, g: int, c: int, x: Seq<bool>, y: Seq<bool>)
    requires
        0 <= g < arrays.len(),
        0 <= c < arrays[g].len(),
    ensures
        spec_with_chain(spec_with_chain(arrays, g, c, x), g, c, y) == spec_with_chain(arrays, g, c, y),
        spec_with_chain(arrays, g, c, arrays[g][c]) == arrays,
        spec_with_chain(arrays, g, c, x)[g][c] == x,
{
    assert(spec_with_chain(spec_with_chain(arrays, g, c, x), g, c, y)[g] =~= spec_with_chain(arrays, g, c, y)[g]);
    assert(spec_with_chain(spec_with_chain(arrays, g, c, x), g, c, y) =~= spec_with_chain(arrays, g, c, y));
    assert(arrays[g].update(c, arrays[g][c]) =~= arrays[g]);
    assert(spec_with_chain(arrays, g, c, arrays[g][c]) =~= arrays);
}

impl Bitstream {
    /// The family of this bitstream
    pub fn family(&self) -> (r: Family)
        ensures
            r == self@.family,
    {
        self.family
    }

    /// Has every configuration array been loaded?
    pub fn is_complete(&self) -> (r: bool)
        requires
            self@.wf(),
        ensures
            r == self@.complete(),
    {
        let config_bits = self.family.config_bits();
        let mut g: usize = 0;
        while g < config_bits.len()
            invariant
                config_bits.deep_view() == spec_config_bits(self@.family),
                self@.wf(),
                g <= config_bits@.len(),
                forall|gg: int, c: int|
                    0 <= gg < g && 0 <= c < self@.arrays[gg].len() ==> (
                    #[trigger] self@.arrays[gg][c]).len() == spec_chain_len(self@.family, gg, c),
            decreases config_bits@.len() - g,
        {
            let n = config_bits[g].len();
            assert(config_bits.deep_view()[g as int] == config_bits@[g as int]@);
            let mut c: usize = 0;
            while c < n
                invariant
                    config_bits.deep_view() == spec_config_bits(self@.family),
                    self@.wf(),
                    g < config_bits@.len(),
                    n == spec_config_bits(self@.family)[g as int].len(),
                    c <= n,
                    forall|gg: int, cc: int|
                        0 <= gg < g && 0 <= cc < self@.arrays[gg].len() ==> (
                        #[trigger] self@.arrays[gg][cc]).len() == spec_chain_len(self@.family, gg, cc),
                    forall|cc: int|
                        0 <= cc < c ==> (#[trigger] self@.arrays[g as int][cc]).len() == spec_chain_len(
                            self@.family,
                            g as int,
                            cc,
                        ),
                decreases n - c,
            {
                let len = arrays_chain_len(&self.config_arrays, g, c);
                if len == 0 {
                    proof {
                        lemma_chain_len_positive(self@.family, g as int, c as int);
                    }
                    return false;
                }
                c = c + 1;
            }
            g = g + 1;
        }
        true
    }

    /// Change the user ID, which identifies the design
    pub fn set_user_id(&mut self, user_id: u32)
        ensures
            final(self)@ == (BitstreamView { user_id, ..old(self)@ }),
    {
        self.user_id = user_id;
    }

    /// Read one bit of an auxiliary array
    pub fn get_aux_array_bit(&self, group: u32, chain: u32, biti: usize) -> (r: bool)
        requires
            group < self@.arrays.len(),
            chain < self@.arrays[group as int].len(),
            biti < self@.arrays[group as int][chain as int].len(),
        ensures
            r == self@.arrays[group as int][chain as int][biti as int],
    {
        arrays_get(&self.config_arrays, group as usize, chain as usize, biti)
    }

    /// Write one bit of an auxiliary array
    pub fn set_aux_array_bit(&mut self, group: u32, chain: u32, biti: usize, val: bool)
        requires
            group < old(self)@.arrays.len(),
            chain < old(self)@.arrays[group as int].len(),
            biti < old(self)@.arrays[group as int][chain as int].len(),
        ensures
            final(self)@ == (BitstreamView {
                arrays: old(self)@.arrays.update(
                    group as int,
                    old(self)@.arrays[group as int].update(
                        chain as int,
                        old(self)@.arrays[group as int][chain as int].update(biti as int, val),
                    ),
                ),
                ..old(self)@
            }),
    {
        arrays_set(&mut self.config_arrays, group as usize, chain as usize, biti, val)
    }

    /// Read a run of (at most 32) bits of an auxiliary array, packed least significant bit first
    pub fn get_aux_array_bits(&self, group: u32, chain: u32, bits: std::ops::Range<usize>) -> (r:
        u32)
        requires
            group < self@.arrays.len(),
            chain < self@.arrays[group as int].len(),
            bits.start <= bits.end <= self@.arrays[group as int][chain as int].len(),
            bits.end - bits.start <= 32,
        ensures
            r == spec_aux_bits(
                self@,
                group as int,
                chain as int,
                bits.start as int,
                (bits.end - bits.start) as nat,
            ),
    {
        let ghost s = self@.arrays[group as int][chain as int];
        let n = bits.end - bits.start;
        let mut ret: u32 = 0;
        let mut i: usize = 0;
        while i < n
            invariant
                i <= n,
                n == bits.end - bits.start,
                bits.start <= bits.end <= s.len(),
                n <= 32,
                s == self@.arrays[group as int][chain as int],
                group < self@.arrays.len(),
                chain < self@.arrays[group as int].len(),
                ret == bits_value(s.subrange(bits.start as int, bits.start + i)),
            decreases n - i,
        {
            let b = self.get_aux_array_bit(group, chain, bits.start + i);
            assert(s.subrange(bits.start as int, bits.start + i + 1).drop_last() =~= s.subrange(
                bits.start as int,
                bits.start + i,
            ));
            ret = push_bit(ret, i as u32, b);
            i = i + 1;
        }
        ret
    }

    /// Write a run of (at most 32) bits of an auxiliary array from the low bits of `val`
    pub fn set_aux_array_bits(&mut self, group: u32, chain: u32, bits: std::ops::Range<usize>, val:
        u32)
        requires
            group < old(self)@.arrays.len(),
            chain < old(self)@.arrays[group as int].len(),
            bits.start <= bits.end <= old(self)@.arrays[group as int][chain as int].len(),
            bits.end - bits.start <= 32,
        ensures
            final(self)@ == spec_with_aux_bits(
                old(self)@,
                group as int,
                chain as int,
                bits.start as int,
                (bits.end - bits.start) as nat,
                val,
            ),
    {
        let ghost s0 = self@.arrays[group as int][chain as int];
        let ghost a0 = old(self)@.arrays;
        let n = bits.end - bits.start;
        let mut i: usize = 0;
        proof {
            assert(s0.subrange(0, bits.start as int) + value_bits(val, 0) + s0.subrange(
                bits.start as int,
                s0.len() as int,
            ) =~= s0);
            lemma_with_chain_twice(a0, group as int, chain as int, s0, s0);
        }
        while i < n
            invariant
                i <= n,
                n == bits.end - bits.start,
                bits.start <= bits.end <= s0.len(),
                n <= 32,
                group < a0.len(),
                chain < a0[group as int].len(),
                s0 == a0[group as int][chain as int],
                a0 == old(self)@.arrays,
                self@.family == old(self)@.family,
                self@.user_id == old(self)@.user_id,
                self@.arrays == spec_with_chain(
                    a0,
                    group as int,
                    chain as int,
                    s0.subrange(0, bits.start as int) + value_bits(val, i as nat) + s0.subrange(
                        bits.start + i,
                        s0.len() as int,
                    ),
                ),
            decreases n - i,
        {
            let ghost mid = s0.subrange(0, bits.start as int) + value_bits(val, i as nat)
                + s0.subrange(bits.start + i, s0.len() as int);
            proof {
                lemma_with_chain_twice(a0, group as int, chain as int, mid, mid);
            }
            let b = get_bit_of(val, i as u32);
            self.set_aux_array_bit(group, chain, bits.start + i, b);
            proof {
                assert(mid.update(bits.start + i, b) =~= s0.subrange(0, bits.start as int)
                    + value_bits(val, (i + 1) as nat) + s0.subrange(
                    bits.start + i + 1,
                    s0.len() as int,
                ));
                lemma_with_chain_twice(
                    a0,
                    group as int,
                    chain as int,
                    mid,
                    mid.update(bits.start + i, b),
                );
            }
            i = i + 1;
        }
    }

    /// Read one bit of the main logic array
    pub fn get_logic_array_bit(&self, bit: GlobalBitPos) -> (r: bool)
        requires
            self@.logic_ready(),
            spec_logic_bit_in_range(self@.family, bit),
        ensures
            r == spec_logic_bit(self@, bit),
    {
        proof {
            lemma_logic_index(self@.family, bit, bit);
        }
        let (w, h) = self.family.main_logic_bits();
        let real_w = crate::divroundup(w, 32) * 32;
        self.get_aux_array_bit(0, 0, bit.y as usize * real_w as usize + (w as usize - 1 - bit.x as usize))
    }

    /// Write one bit of the main logic array
    pub fn set_logic_array_bit(&mut self, bit: GlobalBitPos, val: bool)
        requires
            old(self)@.logic_ready(),
            spec_logic_bit_in_range(old(self)@.family, bit),
        ensures
            final(self)@ == spec_with_logic_bit(old(self)@, bit, val),
            final(self)@.logic_ready(),
    {
        proof {
            lemma_logic_index(self@.family, bit, bit);
        }
        let (w, h) = self.family.main_logic_bits();
        let real_w = crate::divroundup(w, 32) * 32;
        self.set_aux_array_bit(
            0,
            0,
            bit.y as usize * real_w as usize + (w as usize - 1 - bit.x as usize),
            val,
        );
        proof {
            let v = self@;
            assert forall|g: int, c: int|
                0 <= g < v.arrays.len() && 0 <= c < v.arrays[g].len() implies (
                #[trigger] v.arrays[g][c]).len() == 0 || v.arrays[g][c].len() == spec_chain_len(
                v.family,
                g,
                c,
            ) by {
                if g == 0 && c == 0 {
                } else {
                    assert(v.arrays[g][c] == old(self)@.arrays[g][c]);
                }
            }
        }
    }
}


// ---------------------------------------------------------------------------
// Reading and writing the container format
// ---------------------------------------------------------------------------

/// The arrays of family `f` before anything is loaded: every chain empty
pub open spec fn spec_empty_arrays(f: Family) -> Seq<Seq<Seq<bool>>> {
    Seq::new(
        spec_config_bits(f).len(),
        |g: int| Seq::new(spec_config_bits(f)[g].len(), |c: int| Seq::<bool>::empty()),
    )
}

/// The number of bytes that an array of `nbits` bits takes in a container: whole 32-bit words
pub open spec fn spec_array_bytes(nbits: int) -> int {
    spec_divroundup(nbits, 32) * 4
}

/// Parse the commands starting at byte `pos`, loading arrays into `arrays`.
///
/// On success, returns the position just after the last frame and the loaded arrays.
pub open spec fn spec_parse_commands(
    f: Family,
    data: Seq<u8>,
    pos: int,
    arrays: Seq<Seq<Seq<bool>>>,
) -> Result<(int, Seq<Seq<Seq<bool>>>), BitstreamContainerError>
    decreases data.len() - pos,
{
    if pos < 0 || pos + 4 > data.len() {
        Err(BitstreamContainerError::UnexpectedEof)
    } else {
        let hdr = spec_be_u32(data, pos);
        if spec_hdr_type(hdr) == 0b101 {
            if pos + 8 > data.len() {
                Err(BitstreamContainerError::UnexpectedEof)
            } else {
                let g = spec_config_group(hdr);
                let c = spec_config_chain(hdr);
                let len_in_bits = spec_config_word_bits(spec_be_u32(data, pos + 4));
                let sizes = spec_config_bits(f);
                if g >= sizes.len() || c >= sizes[g as int].len() {
                    Err(BitstreamContainerError::UnexpectedConfigData { group: g, chain: c })
                } else if len_in_bits != sizes[g as int][c as int] {
                    Err(
                        BitstreamContainerError::UnexpectedConfigSize {
                            group: g,
                            chain: c,
                            expected_bits: sizes[g as int][c as int] as u32,
                            have_bits: len_in_bits,
                        },
                    )
                } else {
                    let nbytes = spec_array_bytes(len_in_bits as int);
                    if pos + 8 + nbytes > data.len() {
                        Err(BitstreamContainerError::UnexpectedEof)
                    } else {
                        let next = pos + 8 + nbytes;
                        let arrays2 = spec_with_chain(
                            arrays,
                            g as int,
                            c as int,
                            spec_bits_of_bytes(data.subrange(pos + 8, next)),
                        );
                        if spec_last_frame(hdr) {
                            Ok((next, arrays2))
                        } else {
                            spec_parse_commands(f, data, next, arrays2)
                        }
                    }
                }
            }
        } else if spec_hdr_type(hdr) == 0b001 {
            // a register write; its value is not kept
            if pos + 8 > data.len() {
                Err(BitstreamContainerError::UnexpectedEof)
            } else if spec_last_frame(hdr) {
                Ok((pos + 8, arrays))
            } else {
                spec_parse_commands(f, data, pos + 8, arrays)
            }
        } else {
            Err(BitstreamContainerError::InvalidHeaderWord(hdr))
        }
    }
}

/// Parse a whole bitstream container. Bytes after the CRC are ignored.
pub open spec fn spec_from_bytes(data: Seq<u8>) -> Result<BitstreamView, BitstreamContainerError> {
    if data.len() < 8 {
        Err(BitstreamContainerError::UnexpectedEof)
    } else {
        let device_id = spec_be_u32(data, 0);
        let user_id = spec_be_u32(data, 4);
        match spec_family_from_device_id(device_id) {
            None => Err(BitstreamContainerError::InvalidDeviceID(device_id)),
            Some(f) => match spec_parse_commands(f, data, 8, spec_empty_arrays(f)) {
                Err(e) => Err(e),
                Ok((end, arrays)) => {
                    if end + 4 > data.len() {
                        Err(BitstreamContainerError::UnexpectedEof)
                    } else {
                        let calculated = spec_crc32_bzip2(data.subrange(0, end));
                        let expected = spec_be_u32(data, end);
                        if calculated != expected {
                            Err(BitstreamContainerError::InvalidCRC { expected, calculated })
                        } else {
                            Ok(BitstreamView { family: f, user_id, arrays })
                        }
                    }
                },
            },
        }
    }
}

/// The container bytes of one config array of family `f` holding `chain`: header, config
/// word, then the array's bytes
pub open spec fn spec_chunk_bytes(f: Family, g: u32, c: u32, chain: Seq<bool>) -> Seq<u8> {
    let nbits = spec_config_bits(f)[g as int][c as int];
    spec_u32_be_bytes(spec_make_config_hdr(false, g, c)) + spec_u32_be_bytes(
        spec_make_config_word(nbits as u32),
    ) + spec_bytes_of_bits(chain)
}

/// The container bytes of config array (`g`, `c`) of a bitstream
pub open spec fn spec_array_chunk(v: BitstreamView, g: u32, c: u32) -> Seq<u8> {
    spec_chunk_bytes(v.family, g, c, v.arrays[g as int][c as int])
}

/// Everything of a container but its CRC
pub open spec fn spec_container_body(v: BitstreamView) -> Seq<u8> {
    let head = spec_u32_be_bytes(spec_device_id(v.family)) + spec_u32_be_bytes(v.user_id);
    let arrays = match v.family {
        // IO, then PLLs, then the main logic array
        Family::AGRV2K => spec_array_chunk(v, 1, 0) + spec_array_chunk(v, 1, 1) + spec_array_chunk(
            v,
            0,
            0,
        ),
    };
    head + arrays + spec_u32_be_bytes(spec_make_reg_write_hdr(true, 2)) + spec_u32_be_bytes(0xf8f)
}

/// The container bytes of a bitstream
pub open spec fn spec_to_bytes(v: BitstreamView) -> Seq<u8> {
    let body = spec_container_body(v);
    body + spec_u32_be_bytes(spec_crc32_bzip2(body))
}

proof fn lemma_empty_arrays_shaped(f: Family)
    ensures
        spec_arrays_shaped(f, spec_empty_arrays(f)),
{
}

impl Bitstream {
    /// Parse a bitstream container from its bytes
    ///
    /// Register writes are checked for their framing only.
    pub fn read(data: &[u8]) -> (r: Result<Bitstream, BitstreamContainerError>)
        ensures
            match r {
                Ok(b) => spec_from_bytes(data@) == Ok::<BitstreamView, BitstreamContainerError>(b@)
                    && b@.wf(),
                Err(e) => spec_from_bytes(data@) == Err::<BitstreamView, BitstreamContainerError>(e),
            },
    {
        if data.len() < 8 {
            return Err(BitstreamContainerError::UnexpectedEof);
        }
        let device_id = read_be_u32(data, 0);
        let user_id = read_be_u32(data, 4);
        let family = match Family::try_from(device_id) {
            Ok(f) => f,
            Err(_) => return Err(BitstreamContainerError::InvalidDeviceID(device_id)),
        };
        let array_sizes = family.config_bits();

        // Pre-fill config arrays with empty chains
        let mut arrays = arrays_new();
        let mut g: usize = 0;
        while g < array_sizes.len()
            invariant
                g <= array_sizes@.len(),
                array_sizes.deep_view() == spec_config_bits(family),
                spec_config_arrays(arrays) == spec_empty_arrays(family).subrange(0, g as int),
            decreases array_sizes@.len() - g,
        {
            arrays_push_group(&mut arrays);
            proof {
                assert(Seq::new(0nat, |cc: int| Seq::<bool>::empty()) =~= Seq::<Seq<bool>>::empty());
            }
            let nchains = array_sizes[g].len();
            assert(nchains == spec_config_bits(family)[g as int].len());
            let mut c: usize = 0;
            while c < nchains
                invariant
                    g < array_sizes@.len(),
                    c <= nchains,
                    nchains == spec_config_bits(family)[g as int].len(),
                    array_sizes.deep_view() == spec_config_bits(family),
                    spec_config_arrays(arrays) == spec_empty_arrays(family).subrange(0, g as int).push(
                        Seq::new(c as nat, |cc: int| Seq::<bool>::empty()),
                    ),
                decreases nchains - c,
            {
                let ghost before = spec_config_arrays(arrays);
                arrays_push_chain(&mut arrays, g, Vec::new());
                proof {
                    assert(spec_bits_of_bytes(Seq::<u8>::empty()) =~= Seq::<bool>::empty());
                    assert(before[g as int].push(Seq::<bool>::empty()) =~= Seq::new(
                        (c + 1) as nat,
                        |cc: int| Seq::<bool>::empty(),
                    ));
                    assert(spec_config_arrays(arrays) =~= spec_empty_arrays(family).subrange(
                        0,
                        g as int,
                    ).push(Seq::new((c + 1) as nat, |cc: int| Seq::<bool>::empty())));
                }
                c = c + 1;
            }
            proof {
                assert(spec_empty_arrays(family).subrange(0, g as int).push(
                    Seq::new(c as nat, |cc: int| Seq::<bool>::empty()),
                ) =~= spec_empty_arrays(family).subrange(0, g + 1));
            }
            g = g + 1;
        }
        proof {
            assert(spec_empty_arrays(family).subrange(0, g as int) =~= spec_empty_arrays(family));
            lemma_empty_arrays_shaped(family);
        }
        let ghost init = spec_config_arrays(arrays);
        let ghost target = spec_parse_commands(family, data@, 8, init);
        assert(spec_family_from_device_id(device_id) == Some(family));
        assert(init == spec_empty_arrays(family));
        assert(forall|e: BitstreamContainerError|
            target == Err::<(int, Seq<Seq<Seq<bool>>>), BitstreamContainerError>(e)
                ==> spec_from_bytes(data@) == Err::<BitstreamView, BitstreamContainerError>(e));

        let mut pos: usize = 8;
        loop
            invariant_except_break
                8 <= pos <= data@.len(),
                array_sizes.deep_view() == spec_config_bits(family),
                spec_parse_commands(family, data@, pos as int, spec_config_arrays(arrays)) == target,
                spec_arrays_shaped(family, spec_config_arrays(arrays)),
                forall|e: BitstreamContainerError|
                    target == Err::<(int, Seq<Seq<Seq<bool>>>), BitstreamContainerError>(e)
                        ==> spec_from_bytes(data@) == Err::<BitstreamView, BitstreamContainerError>(e),
            ensures
                pos <= data@.len(),
                target == Ok::<(int, Seq<Seq<Seq<bool>>>), BitstreamContainerError>(
                    (pos as int, spec_config_arrays(arrays)),
                ),
                spec_arrays_shaped(family, spec_config_arrays(arrays)),
            decreases data@.len() - pos,
        {
            if data.len() - pos < 4 {
                return Err(BitstreamContainerError::UnexpectedEof);
            }
            let hdr = HeaderWord(read_be_u32(data, pos));
            let hdr_type = hdr.hdr_type();
            if hdr_type == 0b101 {
                if data.len() - pos < 8 {
                    return Err(BitstreamContainerError::UnexpectedEof);
                }
                let config_group = hdr.config_group();
                let config_chain = hdr.config_chain();
                let config_word = ConfigWord(read_be_u32(data, pos + 4));
                let len_in_bits = config_word.bits();

                // Validate that this config group/chain are as expected
                if config_group as usize >= array_sizes.len() {
                    return Err(
                        BitstreamContainerError::UnexpectedConfigData {
                            group: config_group,
                            chain: config_chain,
                        },
                    );
                }
                if config_chain as usize >= array_sizes[config_group as usize].len() {
                    return Err(
                        BitstreamContainerError::UnexpectedConfigData {
                            group: config_group,
                            chain: config_chain,
                        },
                    );
                }
                let expected_bits = array_sizes[config_group as usize][config_chain as usize];
                assert(expected_bits <= 798080);
                if len_in_bits as usize != expected_bits {
                    return Err(
                        BitstreamContainerError::UnexpectedConfigSize {
                            group: config_group,
                            chain: config_chain,
                            expected_bits: expected_bits as u32,
                            have_bits: len_in_bits,
                        },
                    );
                }
                let len_in_bytes = crate::divroundup(len_in_bits, 32) as usize * 4;
                if data.len() - (pos + 8) < len_in_bytes {
                    return Err(BitstreamContainerError::UnexpectedEof);
                }
                let next = pos + 8 + len_in_bytes;
                let chunk = vstd::slice::slice_to_vec(
                    vstd::slice::slice_subrange(data, pos + 8, next),
                );
                let ghost before = spec_config_arrays(arrays);
                arrays_replace_chain(&mut arrays, config_group as usize, config_chain as usize, chunk);
                proof {
                    let after = spec_config_arrays(arrays);
                    assert(after == spec_with_chain(
                        before,
                        config_group as int,
                        config_chain as int,
                        spec_bits_of_bytes(data@.subrange(pos + 8, next as int)),
                    ));
                    assert forall|gg: int, cc: int|
                        0 <= gg < after.len() && 0 <= cc < after[gg].len() implies (
                        #[trigger] after[gg][cc]).len() == 0 || after[gg][cc].len() == spec_chain_len(
                        family,
                        gg,
                        cc,
                    ) by {
                        if gg == config_group && cc == config_chain {
                        } else {
                            assert(after[gg][cc] == before[gg][cc]);
                        }
                    }
                }
                pos = next;
                if hdr.last_frame() {
                    break;
                }
            } else if hdr_type == 0b001 {
                if data.len() - pos < 8 {
                    return Err(BitstreamContainerError::UnexpectedEof);
                }
                // The register value is read past; only register 2 = 0xf8f is known
                pos = pos + 8;
                if hdr.last_frame() {
                    break;
                }
            } else {
                return Err(BitstreamContainerError::InvalidHeaderWord(hdr.0));
            }
        }

        if data.len() - pos < 4 {
            return Err(BitstreamContainerError::UnexpectedEof);
        }
        let crc_computed = crc32_bzip2(vstd::slice::slice_subrange(data, 0, pos));
        let crc_expected = read_be_u32(data, pos);
        if crc_computed != crc_expected {
            return Err(
                BitstreamContainerError::InvalidCRC { expected: crc_expected, calculated: crc_computed },
            );
        }
        Ok(Bitstream { family, user_id, config_arrays: arrays })
    }
}

impl Bitstream {
    /// Append the container bytes of config array (`group`, `chain`)
    fn put_cfg_array(&self, out: &mut Vec<u8>, group: u32, chain: u32)
        requires
            self@.complete(),
            group < spec_config_bits(self@.family).len(),
            chain < spec_config_bits(self@.family)[group as int].len(),
        ensures
            final(out)@ == old(out)@ + spec_array_chunk(self@, group, chain),
    {
        let array_sizes = self.family.config_bits();
        let hdr = HeaderWord::make_config_hdr(false, group, chain);
        push_be_u32(out, hdr.0);
        assert(array_sizes.deep_view()[group as int][chain as int]
            == array_sizes@[group as int]@[chain as int]);
        assert(self.family == Family::AGRV2K);
        let len_in_bits = array_sizes[group as usize][chain as usize] as u32;
        let cfgw = ConfigWord::make_config_word(len_in_bits);
        push_be_u32(out, cfgw.0);
        let mut bytes = arrays_chain_bytes(&self.config_arrays, group as usize, chain as usize);
        proof {
            lemma_bytes_bits_roundtrip(bytes@);
        }
        out.append(&mut bytes);
    }

    /// Serialize the bitstream into the container format
    ///
    /// The IO and PLL arrays come first, then the main logic array, then the final register
    /// write and the CRC of everything before it.
    pub fn save(&self) -> (r: Vec<u8>)
        requires
            self@.complete(),
        ensures
            r@ == spec_to_bytes(self@),
    {
        let mut out: Vec<u8> = Vec::new();
        push_be_u32(&mut out, self.family.device_id());
        push_be_u32(&mut out, self.user_id);
        match self.family {
            Family::AGRV2K => {
                // IO
                self.put_cfg_array(&mut out, 1, 0);
                // PLLs
                self.put_cfg_array(&mut out, 1, 1);
            },
        }
        // main logic array
        self.put_cfg_array(&mut out, 0, 0);
        let hdr = HeaderWord::make_reg_write_hdr(true, 2);
        push_be_u32(&mut out, hdr.0);
        push_be_u32(&mut out, 0xf8f);
        assert(out@ =~= spec_container_body(self@));
        let crc = crc32_bzip2(out.as_slice());
        push_be_u32(&mut out, crc);
        out
    }
}

proof fn lemma_subrange_within(s: Seq<u8>, t: Seq<u8>, pos: int, i: int, j: int)
    requires
        0 <= pos,
        0 <= i <= j <= t.len(),
        pos + t.len() <= s.len(),
        s.subrange(pos, pos + t.len()) == t,
    ensures
        s.subrange(pos + i, pos + j) == t.subrange(i, j),
{
    assert forall|k: int| 0 <= k < j - i implies #[trigger] s.subrange(pos + i, pos + j)[k] == t.subrange(i, j)[k] by {
        assert(s.subrange(pos, pos + t.len())[i + k] == s[pos + i + k]);
    }
    assert(s.subrange(pos + i, pos + j) =~= t.subrange(i, j));
}

proof fn lemma_concat_parts(a: Seq<u8>, b: Seq<u8>)
    ensures
        (a + b).subrange(0, a.len() as int) == a,
        (a + b).subrange(a.len() as int, (a.len() + b.len()) as int) == b,
{
    assert((a + b).subrange(0, a.len() as int) =~= a);
    assert((a + b).subrange(a.len() as int, (a.len() + b.len()) as int) =~= b);
}

/// One config-array frame that is not the last: it loads the array and parsing goes on
/// after it.
proof fn lemma_parse_config_frame(
    f: Family,
    data: Seq<u8>,
    pos: int,
    arrays: Seq<Seq<Seq<bool>>>,
    g: u32,
    c: u32,
    nbytes: int,
)
    requires
        0 <= pos,
        0 <= nbytes,
        pos + 8 + nbytes <= data.len(),
        spec_hdr_type(spec_be_u32(data, pos)) == 0b101,
        !spec_last_frame(spec_be_u32(data, pos)),
        spec_config_group(spec_be_u32(data, pos)) == g,
        spec_config_chain(spec_be_u32(data, pos)) == c,
        g < spec_config_bits(f).len(),
        c < spec_config_bits(f)[g as int].len(),
        spec_config_word_bits(spec_be_u32(data, pos + 4)) == spec_config_bits(f)[g as int][c as int],
        nbytes == spec_array_bytes(spec_config_bits(f)[g as int][c as int] as int),
    ensures
        spec_parse_commands(f, data, pos, arrays) == spec_parse_commands(
            f,
            data,
            pos + 8 + nbytes,
            spec_with_chain(
                arrays,
                g as int,
                c as int,
                spec_bits_of_bytes(data.subrange(pos + 8, pos + 8 + nbytes)),
            ),
        ),
{
}

/// Parsing the bytes that `save` writes for one config array loads that array and moves
/// past it.
proof fn lemma_parse_chunk(
    f: Family,
    data: Seq<u8>,
    pos: int,
    arrays: Seq<Seq<Seq<bool>>>,
    g: u32,
    c: u32,
    chain: Seq<bool>,
)
    requires
        g < spec_config_bits(f).len(),
        c < spec_config_bits(f)[g as int].len(),
        1 <= spec_config_bits(f)[g as int][c as int] <= 0x100_0000,
        chain.len() == spec_chain_len(f, g as int, c as int),
        0 <= pos,
        pos + spec_chunk_bytes(f, g, c, chain).len() <= data.len(),
        data.subrange(pos, pos + spec_chunk_bytes(f, g, c, chain).len()) == spec_chunk_bytes(
            f,
            g,
            c,
            chain,
        ),
    ensures
        spec_parse_commands(f, data, pos, arrays) == spec_parse_commands(
            f,
            data,
            pos + spec_chunk_bytes(f, g, c, chain).len(),
            spec_with_chain(arrays, g as int, c as int, chain),
        ),
{
    let nbits = spec_config_bits(f)[g as int][c as int];
    let hdr = spec_make_config_hdr(false, g, c);
    let cw = spec_make_config_word(nbits as u32);
    let hb = spec_u32_be_bytes(hdr);
    let cb = spec_u32_be_bytes(cw);
    let body = spec_bytes_of_bits(chain);
    let chunk = spec_chunk_bytes(f, g, c, chain);
    let words = spec_divroundup(nbits as int, 32);
    assert(chain.len() == words * 32);
    assert(body.len() == words * 4);
    assert(chunk.len() == 8 + words * 4);
    lemma_concat_parts(hb + cb, body);
    lemma_concat_parts(hb, cb);
    assert(chunk == hb + cb + body);
    lemma_subrange_within(data, chunk, pos, 0, 4);
    lemma_subrange_within(data, chunk, pos, 4, 8);
    lemma_subrange_within(data, chunk, pos, 8, chunk.len() as int);
    assert(chunk.subrange(0, 4) == (hb + cb).subrange(0, 4));
    assert(chunk.subrange(4, 8) == (hb + cb).subrange(4, 8));
    lemma_be_u32_roundtrip(data, pos, hdr);
    lemma_be_u32_roundtrip(data, pos + 4, cw);
    lemma_config_hdr_roundtrip(false, g, c);
    lemma_config_word_roundtrip(nbits as u32);
    assert(chain.len() % 8 == 0);
    lemma_bits_bytes_roundtrip(chain);
    lemma_parse_config_frame(f, data, pos, arrays, g, c, words * 4);
}

/// The commands that `save` writes load every array of the bitstream.
proof fn lemma_save_read_arrays(v: BitstreamView, data: Seq<u8>, p2: int, p3: int, p4: int)
    requires
        v.complete(),
        v.family == Family::AGRV2K,
        p2 == 8 + spec_array_chunk(v, 1, 0).len(),
        p3 == p2 + spec_array_chunk(v, 1, 1).len(),
        p4 == p3 + spec_array_chunk(v, 0, 0).len(),
        p4 + 8 <= data.len(),
        data.subrange(8, p2) == spec_array_chunk(v, 1, 0),
        data.subrange(p2, p3) == spec_array_chunk(v, 1, 1),
        data.subrange(p3, p4) == spec_array_chunk(v, 0, 0),
        spec_be_u32(data, p4) == spec_make_reg_write_hdr(true, 2),
    ensures
        spec_parse_commands(v.family, data, 8, spec_empty_arrays(v.family)) == Ok::<
            (int, Seq<Seq<Seq<bool>>>),
            BitstreamContainerError,
        >((p4 + 8, v.arrays)),
{
    let f = v.family;
    let a0 = spec_empty_arrays(f);
    let a1 = spec_with_chain(a0, 1, 0, v.arrays[1][0]);
    let a2 = spec_with_chain(a1, 1, 1, v.arrays[1][1]);
    let a3 = spec_with_chain(a2, 0, 0, v.arrays[0][0]);
    assert(v.arrays[1][0].len() == spec_chain_len(f, 1, 0));
    assert(v.arrays[1][1].len() == spec_chain_len(f, 1, 1));
    assert(v.arrays[0][0].len() == spec_chain_len(f, 0, 0));
    lemma_parse_chunk(f, data, 8, a0, 1, 0, v.arrays[1][0]);
    lemma_parse_chunk(f, data, p2, a1, 1, 1, v.arrays[1][1]);
    lemma_parse_chunk(f, data, p3, a2, 0, 0, v.arrays[0][0]);
    lemma_reg_write_hdr_roundtrip(true, 2);
    assert(a3[0] =~= v.arrays[0]);
    assert(a3[1] =~= v.arrays[1]);
    assert(a3 =~= v.arrays);
}

proof fn lemma_prefix_subrange(a: Seq<u8>, b: Seq<u8>, i: int, j: int)
    requires
        0 <= i <= j <= a.len(),
    ensures
        (a + b).subrange(i, j) == a.subrange(i, j),
{
    assert((a + b).subrange(i, j) =~= a.subrange(i, j));
}

/// Saving a complete bitstream and reading the bytes back gives the same bitstream.
#[verifier::spinoff_prover]
#[verifier::rlimit(40)]
pub proof fn lemma_save_read_roundtrip(v: BitstreamView)
    requires
        v.complete(),
    ensures
        spec_from_bytes(spec_to_bytes(v)) == Ok::<BitstreamView, BitstreamContainerError>(v),
{
    let f = v.family;
    assert(f == Family::AGRV2K);
    let head = spec_u32_be_bytes(spec_device_id(f)) + spec_u32_be_bytes(v.user_id);
    let ch10 = spec_array_chunk(v, 1, 0);
    let ch11 = spec_array_chunk(v, 1, 1);
    let ch00 = spec_array_chunk(v, 0, 0);
    let reg = spec_u32_be_bytes(spec_make_reg_write_hdr(true, 2)) + spec_u32_be_bytes(0xf8f);
    let s2 = head + ch10;
    let s3 = s2 + ch11;
    let s4 = s3 + ch00;
    let body = s4 + reg;
    assert(body == spec_container_body(v));
    let crcb = spec_u32_be_bytes(spec_crc32_bzip2(body));
    let data = body + crcb;
    assert(data == spec_to_bytes(v));
    let p1: int = 8;
    let p2: int = s2.len() as int;
    let p3: int = s3.len() as int;
    let p4: int = s4.len() as int;
    let end: int = body.len() as int;
    assert(end == p4 + 8);
    // the ids
    lemma_prefix_subrange(body, crcb, 0, 4);
    lemma_prefix_subrange(s4, reg, 0, 4);
    lemma_prefix_subrange(s3, ch00, 0, 4);
    lemma_prefix_subrange(s2, ch11, 0, 4);
    lemma_prefix_subrange(head, ch10, 0, 4);
    assert(head.subrange(0, 4) =~= spec_u32_be_bytes(spec_device_id(f)));
    lemma_be_u32_roundtrip(data, 0, spec_device_id(f));
    lemma_prefix_subrange(body, crcb, 4, 8);
    lemma_prefix_subrange(s4, reg, 4, 8);
    lemma_prefix_subrange(s3, ch00, 4, 8);
    lemma_prefix_subrange(s2, ch11, 4, 8);
    lemma_prefix_subrange(head, ch10, 4, 8);
    assert(head.subrange(4, 8) =~= spec_u32_be_bytes(v.user_id));
    lemma_be_u32_roundtrip(data, 4, v.user_id);
    // the chunk of IO pads
    lemma_prefix_subrange(body, crcb, p1, p2);
    lemma_prefix_subrange(s4, reg, p1, p2);
    lemma_prefix_subrange(s3, ch00, p1, p2);
    lemma_prefix_subrange(s2, ch11, p1, p2);
    lemma_concat_parts(head, ch10);
    // the chunk of PLLs
    lemma_prefix_subrange(body, crcb, p2, p3);
    lemma_prefix_subrange(s4, reg, p2, p3);
    lemma_prefix_subrange(s3, ch00, p2, p3);
    lemma_concat_parts(s2, ch11);
    // the main logic chunk
    lemma_prefix_subrange(body, crcb, p3, p4);
    lemma_prefix_subrange(s4, reg, p3, p4);
    lemma_concat_parts(s3, ch00);
    // the final register write
    lemma_prefix_subrange(body, crcb, p4, end);
    lemma_concat_parts(s4, reg);
    lemma_concat_parts(body, crcb);
    lemma_subrange_within(data, reg, p4, 0, 4);
    lemma_concat_parts(
        spec_u32_be_bytes(spec_make_reg_write_hdr(true, 2)),
        spec_u32_be_bytes(0xf8f),
    );
    lemma_be_u32_roundtrip(data, p4, spec_make_reg_write_hdr(true, 2));
    lemma_be_u32_roundtrip(data, end, spec_crc32_bzip2(body));
    lemma_save_read_arrays(v, data, p2, p3, p4);
}

/// A bitstream of family `f` with user ID `0xffff`, every array of its full length and
/// every bit zero
pub open spec fn spec_blank(f: Family) -> BitstreamView {
    BitstreamView {
        family: f,
        user_id: 0xffff,
        arrays: Seq::new(
            spec_config_bits(f).len(),
            |g: int|
                Seq::new(
                    spec_config_bits(f)[g].len(),
                    |c: int| Seq::new(spec_chain_len(f, g, c) as nat, |k: int| false),
                ),
        ),
    }
}

impl Bitstream {
    /// A bitstream with every array of its full length and every bit zero
    pub(crate) fn new_blank(family: Family) -> (r: Bitstream)
        ensures
            r@ == spec_blank(family),
            r@.complete(),
            r@.logic_ready(),
    {
        let array_sizes = family.config_bits();
        let mut arrays = arrays_new();
        let ghost target = spec_blank(family).arrays;
        let mut g: usize = 0;
        while g < array_sizes.len()
            invariant
                g <= array_sizes@.len(),
                array_sizes.deep_view() == spec_config_bits(family),
                target == spec_blank(family).arrays,
                spec_config_arrays(arrays) == target.subrange(0, g as int),
            decreases array_sizes@.len() - g,
        {
            arrays_push_group(&mut arrays);
            let nchains = array_sizes[g].len();
            assert(nchains == spec_config_bits(family)[g as int].len());
            let mut c: usize = 0;
            proof {
                assert(target[g as int].subrange(0, 0) =~= Seq::<Seq<bool>>::empty());
                assert(spec_config_arrays(arrays) =~= target.subrange(0, g as int).push(
                    target[g as int].subrange(0, 0),
                ));
            }
            while c < nchains
                invariant
                    g < array_sizes@.len(),
                    c <= nchains,
                    nchains == spec_config_bits(family)[g as int].len(),
                    array_sizes.deep_view() == spec_config_bits(family),
                    target == spec_blank(family).arrays,
                    spec_config_arrays(arrays) == target.subrange(0, g as int).push(
                        target[g as int].subrange(0, c as int),
                    ),
                decreases nchains - c,
            {
                assert(array_sizes.deep_view()[g as int][c as int] == array_sizes@[g as int]@[c as int]);
                assert(family == Family::AGRV2K);
                let nbits = array_sizes[g][c] as u32;
                let len_in_bytes = crate::divroundup(nbits, 32) as usize * 4;
                let bytes: Vec<u8> = vec![0u8; len_in_bytes];
                let ghost before = spec_config_arrays(arrays);
                arrays_push_chain(&mut arrays, g, bytes);
                proof {
                    assert(spec_bits_of_bytes(bytes@) =~= target[g as int][c as int]);
                    assert(target[g as int].subrange(0, c as int).push(target[g as int][c as int])
                        =~= target[g as int].subrange(0, c + 1));
                    assert(spec_config_arrays(arrays) =~= target.subrange(0, g as int).push(
                        target[g as int].subrange(0, c + 1),
                    ));
                }
                c = c + 1;
            }
            proof {
                assert(target[g as int].subrange(0, c as int) =~= target[g as int]);
                assert(target.subrange(0, g as int).push(target[g as int]) =~= target.subrange(0, g + 1));
            }
            g = g + 1;
        }
        proof {
            assert(target.subrange(0, g as int) =~= target);
        }
        Bitstream { family, user_id: 0xffff, config_arrays: arrays }
    }
}

} // verus!
