//! Utilities for dealing with fields in programmable logic bitstreams
//!
//! - "two-hot" mux encodings, where a choice is selected by one bit out of an
//!   "inner" group and one bit out of an "outer" group
//! - bits stored inverted

use vstd::prelude::*;

verus! {

/// A boolean which is stored inverted in the bitstream
#[derive(Clone, Copy, PartialEq, Eq, Debug, Hash, Structural)]
pub struct InvertedBool(pub bool);

impl InvertedBool {
    /// The stored bit of this value
    pub fn to_bit(self) -> (r: bool)
        ensures
            r == !self.0,
    {
        !self.0
    }

    /// The value a stored bit stands for
    pub fn from_bit(bit: bool) -> (r: InvertedBool)
        ensures
            r.0 == !bit,
    {
        InvertedBool(!bit)
    }
}

/// The bit pattern selecting choice `v` of a two-hot mux with `inner` inner choices:
/// inner bit `v % inner`, and outer bit `v / inner` (above the inner bits)
pub open spec fn spec_twohot(inner: u32, v: u32) -> u32 {
    (1u32 << (v % inner)) | (1u32 << (v / inner + inner))
}

/// The choice that a bit pattern selects in a two-hot mux with `outer * inner` choices
pub open spec fn spec_twohot_decode(outer: u32, inner: u32, bits: u32) -> Option<u32> {
    if exists|v: u32| v < outer * inner && #[trigger] spec_twohot(inner, v) == bits {
        Some(choose|v: u32| v < outer * inner && #[trigger] spec_twohot(inner, v) == bits)
    } else {
        None
    }
}

proof fn lemma_two_bits(a: u32, b: u32, k: u32)
    requires
        a < 32,
        b < 32,
        k < 32,
    ensures
        (((1u32 << a) | (1u32 << b)) >> k) & 1u32 == (if k == a || k == b { 1u32 } else { 0u32 }),
{
    assert(a < 32 && b < 32 && k < 32 ==> (((1u32 << a) | (1u32 << b)) >> k) & 1u32 == (if k == a
        || k == b { 1u32 } else { 0u32 })) by (bit_vector);
}

/// The first powers of two, as shifts
pub proof fn lemma_shift_table()
    by (bit_vector)
    ensures
        1u32 << 0u32 == 1u32,
        1u32 << 1u32 == 2u32,
        1u32 << 2u32 == 4u32,
        1u32 << 3u32 == 8u32,
        1u32 << 4u32 == 16u32,
        1u32 << 5u32 == 32u32,
        1u32 << 6u32 == 64u32,
        1u32 << 7u32 == 128u32,
        1u32 << 8u32 == 256u32,
        1u32 << 9u32 == 512u32,
        1u32 << 10u32 == 1024u32,
        1u32 << 11u32 == 2048u32,
        1u32 << 12u32 == 4096u32,
        1u32 << 13u32 == 8192u32,
        1u32 << 14u32 == 16384u32,
        1u32 << 15u32 == 32768u32,
        1u32 << 16u32 == 65536u32,
{
}

proof fn lemma_single_bit(a: u32, k: u32)
    requires
        a < 32,
        k < 32,
    ensures
        ((1u32 << a) >> k) & 1u32 == (if k == a { 1u32 } else { 0u32 }),
        (0u32 >> k) & 1u32 == 0u32,
{
    assert(a < 32 && k < 32 ==> ((1u32 << a) >> k) & 1u32 == (if k == a { 1u32 } else { 0u32 }))
        by (bit_vector);
    assert((0u32 >> k) & 1u32 == 0u32) by (bit_vector);
}

proof fn lemma_two_bits_lt(a: u32, b: u32, m: u32)
    requires
        a < m,
        b < m,
        m < 32,
    ensures
        ((1u32 << a) | (1u32 << b)) < (1u32 << m),
        (1u32 << a) < (1u32 << m),
{
    assert(a < m && b < m && m < 32 ==> ((1u32 << a) | (1u32 << b)) < (1u32 << m)
        && (1u32 << a) < (1u32 << m)) by (bit_vector);
}

/// The pattern of a two-hot choice is not zero, has two bits set (so it is not a power of
/// two) and lies below `2^(outer + inner)`.
pub proof fn lemma_twohot_shape(outer: u32, inner: u32, v: u32, k: u32)
    requires
        0 < inner,
        outer + inner < 32,
        v < outer * inner,
        k < 32,
    ensures
        spec_twohot(inner, v) != 0,
        spec_twohot(inner, v) != (1u32 << k),
        spec_twohot(inner, v) < (1u32 << ((outer + inner) as u32)),
{
    let vq = v / inner;
    let vr = v % inner;
    assert(vq < outer) by (nonlinear_arith)
        requires
            0 < inner,
            v < outer * inner,
            vq == v / inner,
    ;
    let hi = (vq + inner) as u32;
    lemma_two_bits(vr, hi, vr);
    lemma_two_bits(vr, hi, hi);
    lemma_single_bit(k, vr);
    lemma_single_bit(k, hi);
    lemma_two_bits_lt(vr, hi, (outer + inner) as u32);
}

/// Different choices of a two-hot mux have different bit patterns.
pub proof fn lemma_twohot_injective(outer: u32, inner: u32, v: u32, w: u32)
    requires
        0 < inner,
        outer + inner <= 32,
        v < outer * inner,
        w < outer * inner,
        spec_twohot(inner, v) == spec_twohot(inner, w),
    ensures
        v == w,
{
    let (vq, vr) = (v / inner, v % inner);
    let (wq, wr) = (w / inner, w % inner);
    assert(v == vq * inner + vr) by (nonlinear_arith)
        requires
            0 < inner,
            vq == v / inner,
            vr == v % inner,
    ;
    assert(w == wq * inner + wr) by (nonlinear_arith)
        requires
            0 < inner,
            wq == w / inner,
            wr == w % inner,
    ;
    assert(vq < outer) by (nonlinear_arith)
        requires
            0 < inner,
            v < outer * inner,
            vq == v / inner,
    ;
    assert(wq < outer) by (nonlinear_arith)
        requires
            0 < inner,
            w < outer * inner,
            wq == w / inner,
    ;
    let x = spec_twohot(inner, v);
    lemma_two_bits(vr, (vq + inner) as u32, vr);
    lemma_two_bits(wr, (wq + inner) as u32, vr);
    lemma_two_bits(vr, (vq + inner) as u32, wr);
    lemma_two_bits(vr, (vq + inner) as u32, (wq + inner) as u32);
    lemma_two_bits(wr, (wq + inner) as u32, (wq + inner) as u32);
    lemma_two_bits(wr, (wq + inner) as u32, (vq + inner) as u32);
    lemma_two_bits(vr, (vq + inner) as u32, (vq + inner) as u32);
    lemma_two_bits(wr, (wq + inner) as u32, wr);
}

/// Decoding the pattern of a choice gives that choice back.
pub proof fn lemma_twohot_roundtrip(outer: u32, inner: u32, v: u32)
    requires
        0 < inner,
        outer + inner <= 32,
        v < outer * inner,
    ensures
        spec_twohot_decode(outer, inner, spec_twohot(inner, v)) == Some(v),
{
    let bits = spec_twohot(inner, v);
    assert(v < outer * inner && spec_twohot(inner, v) == bits);
    let w = choose|w: u32| w < outer * inner && #[trigger] spec_twohot(inner, w) == bits;
    lemma_twohot_injective(outer, inner, v, w);
}

/// The bit pattern of choice `v` of a two-hot mux
pub fn twohot_bits(outer: u32, inner: u32, v: u32) -> (r: u32)
    requires
        0 < inner,
        outer + inner <= 32,
        v < outer * inner,
    ensures
        r == spec_twohot(inner, v),
{
    assert(v / inner < outer) by (nonlinear_arith)
        requires
            0 < inner,
            v < outer * inner,
    ;
    (1u32 << (v % inner)) | (1u32 << (v / inner + inner))
}

/// The choice a bit pattern selects in a two-hot mux, if any
pub fn twohot_decode(outer: u32, inner: u32, bits: u32) -> (r: Option<u32>)
    requires
        0 < inner,
        outer + inner <= 32,
    ensures
        r == spec_twohot_decode(outer, inner, bits),
{
    assert(outer * inner <= 256) by (nonlinear_arith)
        requires
            outer + inner <= 32,
    ;
    let n = outer * inner;
    let mut v: u32 = 0;
    while v < n
        invariant
            v <= n,
            n == outer * inner,
            0 < inner,
            outer + inner <= 32,
            forall|w: u32| w < v ==> #[trigger] spec_twohot(inner, w) != bits,
        decreases n - v,
    {
        if twohot_bits(outer, inner, v) == bits {
            proof {
                lemma_twohot_roundtrip(outer, inner, v);
            }
            return Some(v);
        }
        v = v + 1;
    }
    None
}

} // verus!
