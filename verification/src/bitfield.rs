//! Packing runs of configuration bits into integers
//!
//! A field of `n` bits is packed into a `u32` with bit `i` of the field at bit `i`
//! of the integer (least significant bit first). At most 32 bits can be packed.

use vstd::prelude::*;

verus! {

/// Bit `i` of `x`
pub open spec fn bit_of(x: u32, i: u32) -> bool {
    ((x >> i) & 1u32) == 1u32
}

/// The mask of the `n` lowest bits (`n <= 32`)
pub open spec fn mask_low(n: u32) -> u32 {
    (((1u64 << (n as u64)) - 1u64) as u32)
}

/// The integer whose bit `i` is `s[i]` (for `s.len() <= 32`)
pub open spec fn bits_value(s: Seq<bool>) -> u32
    decreases s.len(),
{
    if s.len() == 0 {
        0
    } else {
        let prev = bits_value(s.drop_last());
        if s.last() {
            prev | (1u32 << ((s.len() - 1) as u32))
        } else {
            prev
        }
    }
}

/// The `n` lowest bits of `val`, least significant first
pub open spec fn value_bits(val: u32, n: nat) -> Seq<bool> {
    Seq::new(n, |i: int| bit_of(val, i as u32))
}

/// Does `val` fit into `n` bits?
pub open spec fn fits_bits(val: u32, n: u32) -> bool {
    val & mask_low(n) == val
}

proof fn lemma_or_bit_step(val: u32, k: u32, k1: u32)
    requires
        k < 32,
        k1 == k + 1,
    ensures
        bit_of(val, k) ==> ((val & mask_low(k)) | (1u32 << k)) == val & mask_low(k1),
        !bit_of(val, k) ==> (val & mask_low(k)) == val & mask_low(k1),
{
    let m0 = mask_low(k);
    let m1 = mask_low(k1);
    assert(m0 == (((1u64 << (k as u64)) - 1u64) as u32));
    assert(m1 == (((1u64 << (k1 as u64)) - 1u64) as u32));
    assert(k < 32 && k1 == k + 1 && ((val >> k) & 1u32) == 1u32 ==> ((val & (((1u64 << (k as u64))
        - 1u64) as u32)) | (1u32 << k)) == val & (((1u64 << (k1 as u64)) - 1u64) as u32))
        by (bit_vector);
    assert(k < 32 && k1 == k + 1 && ((val >> k) & 1u32) != 1u32 ==> (val & (((1u64 << (k as u64))
        - 1u64) as u32)) == val & (((1u64 << (k1 as u64)) - 1u64) as u32)) by (bit_vector);
}

/// Packing the `n` lowest bits of `val` gives `val` with all higher bits cleared.
pub proof fn lemma_value_bits_roundtrip(val: u32, n: nat)
    requires
        n <= 32,
    ensures
        bits_value(value_bits(val, n)) == val & mask_low(n as u32),
    decreases n,
{
    if n == 0 {
        let z: u32 = 0;
        assert(mask_low(z) == (((1u64 << (z as u64)) - 1u64) as u32));
        assert(z == 0 ==> val & (((1u64 << (z as u64)) - 1u64) as u32) == 0) by (bit_vector);
        assert(value_bits(val, n) =~= Seq::<bool>::empty());
        assert(bits_value(value_bits(val, n)) == 0);
        assert(n as u32 == z);
        assert(bits_value(value_bits(val, n)) == val & mask_low(n as u32));
    } else {
        let k = (n - 1) as nat;
        lemma_value_bits_roundtrip(val, k);
        let s = value_bits(val, n);
        assert(s.drop_last() =~= value_bits(val, k));
        assert(s.last() == bit_of(val, k as u32));
        assert(((s.len() - 1) as u32) == k as u32);
        lemma_or_bit_step(val, k as u32, n as u32);
        assert(bits_value(s) == (if s.last() { bits_value(s.drop_last()) | (1u32 << ((s.len() - 1) as u32)) } else { bits_value(s.drop_last()) }));
        let ku: u32 = k as u32;
        let prev = bits_value(s.drop_last());
        assert(prev == val & mask_low(ku));
        if s.last() {
            assert(bit_of(val, ku));
            assert(bits_value(s) == prev | (1u32 << ku));
        } else {
            assert(!bit_of(val, ku));
            assert(bits_value(s) == prev);
        }
        assert(bits_value(s) == val & mask_low(n as u32));
    }
}

/// `val` fits into `n` bits exactly when it is below `2^n`.
pub proof fn lemma_fits_bits_iff_lt(val: u32, n: u32)
    requires
        n < 32,
    ensures
        fits_bits(val, n) <==> val < (1u32 << n),
{
    assert(n < 32 ==> ((val & (((1u64 << (n as u64)) - 1u64) as u32)) == val <==> val < (1u32
        << n))) by (bit_vector);
}

/// Bit `i` of `x` as a `bool` (executable)
pub fn get_bit_of(x: u32, i: u32) -> (r: bool)
    requires
        i < 32,
    ensures
        r == bit_of(x, i),
{
    ((x >> i) & 1) == 1
}

/// Append one more bit to a partial packing
pub fn push_bit(prev: u32, n: u32, b: bool) -> (r: u32)
    requires
        n < 32,
    ensures
        r == (if b { prev | (1u32 << n) } else { prev }),
{
    if b {
        prev | (1u32 << n)
    } else {
        prev
    }
}

/// Bits that are all clear hold the value 0.
pub proof fn lemma_bits_value_all_clear(s: Seq<bool>)
    requires
        forall|k: int| 0 <= k < s.len() ==> !#[trigger] s[k],
    ensures
        bits_value(s) == 0,
    decreases s.len(),
{
    if s.len() > 0 {
        assert(!s[s.len() - 1]);
        lemma_bits_value_all_clear(s.drop_last());
    }
}

/// A single bit packs to 0 or 1.
pub proof fn lemma_bits_value_one(s: Seq<bool>)
    requires
        s.len() == 1,
    ensures
        bits_value(s) == (if s[0] { 1u32 } else { 0u32 }),
{
    assert(s.drop_last().len() == 0);
    assert(bits_value(s.drop_last()) == 0);
    assert(0u32 | (1u32 << 0u32) == 1u32) by (bit_vector);
}

} // verus!
