//! Enums whose variants are bit patterns
//!
//! Each variant of such an enum names a pattern of bits, most significant first:
//! `0` and `1` must match and are written as they are, `x` is "don't care" on reading and
//! written as 0, and `X` is "don't care" on reading and written as 1. All patterns have
//! the same length, and one fallback may say what happens with other bits.
//!
//! This module decides, for a list of such declarations, how each variant is read and
//! written, or why the list is refused.

use vstd::prelude::*;

verus! {

/// One declaration inside a bit-pattern enum
pub enum BitEnumItem {
    /// `err = <code>`: what to do with bits that no variant matches
    Fallback(Vec<char>),
    /// `Name = "<pattern>"`
    Variant(Vec<char>),
}

/// How one variant is read and written
///
/// Bits are read as this variant when `bits & match_mask == match_val`; when the pattern
/// has no "don't care" bit, that is when `bits == match_val`. The variant is written as
/// `write_val`.
#[derive(Clone, Copy, PartialEq, Eq, Debug, Structural)]
pub struct BitPattern {
    pub match_mask: u32,
    pub match_val: u32,
    pub write_val: u32,
    pub has_dont_care: bool,
}

/// Why a list of declarations is refused, with the position of the declaration at fault
#[derive(Clone, Copy, PartialEq, Eq, Debug, Structural)]
pub enum BitEnumError {
    /// A second fallback
    MultipleFallbacks { item: usize },
    /// A pattern whose length differs from that of the first pattern
    WrongBitCount { item: usize, expected: usize },
    /// A character that is none of `0`, `1`, `x` and `X`
    InvalidBit { item: usize, bit: char },
    /// No variant at all
    NoVariants,
}

/// The number of bytes that `c` takes in UTF-8
pub open spec fn spec_char_utf8_len(c: char) -> nat {
    let u = c as u32;
    if u < 0x80 {
        1
    } else if u < 0x800 {
        2
    } else if u < 0x10000 {
        3
    } else {
        4
    }
}

/// The number of bytes that `s` takes in UTF-8 (the length of the pattern's string)
pub open spec fn spec_utf8_len(s: Seq<char>) -> nat
    decreases s.len(),
{
    if s.len() == 0 {
        0
    } else {
        spec_utf8_len(s.drop_last()) + spec_char_utf8_len(s.last())
    }
}

/// `x` shifted left by one bit in a `u32`, with `b` as the new lowest bit
pub open spec fn spec_shift_in(x: u32, b: bool) -> u32 {
    ((x * 2 + if b {
        1int
    } else {
        0int
    }) % 0x1_0000_0000) as u32
}

/// How a pattern is read and written, or the first character that is not a bit
pub open spec fn spec_bit_pattern(p: Seq<char>) -> Result<BitPattern, char>
    decreases p.len(),
{
    if p.len() == 0 {
        Ok(BitPattern { match_mask: 0, match_val: 0, write_val: 0, has_dont_care: false })
    } else {
        match spec_bit_pattern(p.drop_last()) {
            Ok(prev) => {
                let c = p.last();
                if c == '0' || c == '1' || c == 'x' || c == 'X' {
                    Ok(
                        BitPattern {
                            match_mask: spec_shift_in(prev.match_mask, c == '0' || c == '1'),
                            match_val: spec_shift_in(prev.match_val, c == '1'),
                            write_val: spec_shift_in(prev.write_val, c == '1' || c == 'X'),
                            has_dont_care: prev.has_dont_care || c == 'x' || c == 'X',
                        },
                    )
                } else {
                    Err(c)
                }
            },
            Err(c) => Err(c),
        }
    }
}

/// What is known after some declarations: the pattern length, the fallback code, and
/// the variants' patterns so far
pub struct BitEnumState {
    pub nbits: Option<nat>,
    pub fallback: Seq<char>,
    pub patterns: Seq<BitPattern>,
}

/// The state after declaration `k`, `item`, on top of `st`
pub open spec fn spec_bitenum_step(st: BitEnumState, item: BitEnumItem, k: nat) -> Result<
    BitEnumState,
    BitEnumError,
> {
    match item {
        BitEnumItem::Fallback(code) => if st.fallback.len() > 0 {
            Err(BitEnumError::MultipleFallbacks { item: k as usize })
        } else {
            Ok(BitEnumState { fallback: code@, ..st })
        },
        BitEnumItem::Variant(p) => {
            let len = spec_utf8_len(p@);
            if st.nbits is Some && st.nbits->0 != len {
                Err(BitEnumError::WrongBitCount { item: k as usize, expected: st.nbits->0 as usize })
            } else {
                match spec_bit_pattern(p@) {
                    Ok(bp) => Ok(
                        BitEnumState {
                            nbits: Some(len),
                            patterns: st.patterns.push(bp),
                            ..st
                        },
                    ),
                    Err(c) => Err(BitEnumError::InvalidBit { item: k as usize, bit: c }),
                }
            }
        },
    }
}

/// The state after the first `k` declarations
pub open spec fn spec_bitenum_prefix(items: Seq<BitEnumItem>, k: nat) -> Result<
    BitEnumState,
    BitEnumError,
>
    decreases k,
{
    if k == 0 {
        Ok(BitEnumState { nbits: None, fallback: Seq::empty(), patterns: Seq::empty() })
    } else {
        match spec_bitenum_prefix(items, (k - 1) as nat) {
            Ok(st) => spec_bitenum_step(st, items[k - 1], (k - 1) as nat),
            Err(e) => Err(e),
        }
    }
}

/// The pattern length and the variants' patterns of a list of declarations, or the
/// first fault in it
pub open spec fn spec_bitenum(items: Seq<BitEnumItem>) -> Result<(nat, Seq<BitPattern>), BitEnumError> {
    match spec_bitenum_prefix(items, items.len()) {
        Ok(st) => match st.nbits {
            Some(n) => Ok((n, st.patterns)),
            None => Err(BitEnumError::NoVariants),
        },
        Err(e) => Err(e),
    }
}

/// Is every pattern of the declarations short enough to be measured in a `usize`?
pub open spec fn spec_items_measurable(items: Seq<BitEnumItem>) -> bool {
    forall|k: int|
        0 <= k < items.len() ==> match #[trigger] items[k] {
            BitEnumItem::Variant(p) => p@.len() < 0x1000_0000,
            BitEnumItem::Fallback(_) => true,
        }
}

proof fn lemma_utf8_len_bound(s: Seq<char>)
    ensures
        spec_utf8_len(s) <= 4 * s.len(),
    decreases s.len(),
{
    if s.len() > 0 {
        lemma_utf8_len_bound(s.drop_last());
    }
}

/// The number of bytes that `s` takes in UTF-8
fn utf8_len(s: &[char]) -> (r: usize)
    requires
        s@.len() < 0x1000_0000,
    ensures
        r == spec_utf8_len(s@),
{
    let mut n: usize = 0;
    let mut i: usize = 0;
    while i < s.len()
        invariant
            i <= s@.len(),
            s@.len() < 0x1000_0000,
            n == spec_utf8_len(s@.subrange(0, i as int)),
        decreases s@.len() - i,
    {
        proof {
            let t = s@.subrange(0, i as int + 1);
            assert(t.drop_last() =~= s@.subrange(0, i as int));
            lemma_utf8_len_bound(s@.subrange(0, i as int));
        }
        let u = s[i] as u32;
        let w: usize = if u < 0x80 {
            1
        } else if u < 0x800 {
            2
        } else if u < 0x10000 {
            3
        } else {
            4
        };
        n = n + w;
        i = i + 1;
    }
    proof {
        assert(s@.subrange(0, s@.len() as int) =~= s@);
    }
    n
}

/// `x` shifted left by one bit, with `b` as the new lowest bit; the top bit is lost
fn shift_in(x: u32, b: bool) -> (r: u32)
    ensures
        r == spec_shift_in(x, b),
{
    let low: u32 = if b {
        1
    } else {
        0
    };
    (x % 0x8000_0000) * 2 + low
}

/// How a pattern is read and written, or the first character that is not a bit
pub fn bit_pattern(p: &[char]) -> (r: Result<BitPattern, char>)
    ensures
        r == spec_bit_pattern(p@),
{
    let mut bp = BitPattern { match_mask: 0, match_val: 0, write_val: 0, has_dont_care: false };
    let mut i: usize = 0;
    while i < p.len()
        invariant
            i <= p@.len(),
            spec_bit_pattern(p@.subrange(0, i as int)) == Ok::<BitPattern, char>(bp),
        decreases p@.len() - i,
    {
        let c = p[i];
        proof {
            let t = p@.subrange(0, i as int + 1);
            assert(t.drop_last() =~= p@.subrange(0, i as int));
            assert(t.last() == c);
        }
        if !(c == '0' || c == '1' || c == 'x' || c == 'X') {
            proof {
                lemma_bit_pattern_error_stays(p@, i as int + 1);
            }
            return Err(c);
        }
        bp = BitPattern {
            match_mask: shift_in(bp.match_mask, c == '0' || c == '1'),
            match_val: shift_in(bp.match_val, c == '1'),
            write_val: shift_in(bp.write_val, c == '1' || c == 'X'),
            has_dont_care: bp.has_dont_care || c == 'x' || c == 'X',
        };
        i = i + 1;
    }
    proof {
        assert(p@.subrange(0, p@.len() as int) =~= p@);
    }
    Ok(bp)
}

/// Once a prefix of a pattern holds a fault, the whole pattern gives that fault.
proof fn lemma_bit_pattern_error_stays(p: Seq<char>, k: int)
    requires
        0 <= k <= p.len(),
        spec_bit_pattern(p.subrange(0, k)) is Err,
    ensures
        spec_bit_pattern(p) == spec_bit_pattern(p.subrange(0, k)),
    decreases p.len() - k,
{
    if k < p.len() {
        let t = p.subrange(0, k + 1);
        assert(t.drop_last() =~= p.subrange(0, k));
        lemma_bit_pattern_error_stays(p, k + 1);
    } else {
        assert(p.subrange(0, k) =~= p);
    }
}

/// Once some declarations hold a fault, the whole list gives that fault.
proof fn lemma_bitenum_error_stays(items: Seq<BitEnumItem>, k: nat)
    requires
        k <= items.len(),
        spec_bitenum_prefix(items, k) is Err,
    ensures
        spec_bitenum_prefix(items, items.len()) == spec_bitenum_prefix(items, k),
    decreases items.len() - k,
{
    if k < items.len() {
        lemma_bitenum_error_stays(items, k + 1);
    }
}

/// Decide how each variant of a bit-pattern enum is read and written
///
/// The result is the pattern length (in bytes of the pattern string) and the variants'
/// patterns in order, or the first fault of the list.
pub fn bitenum_patterns(items: &[BitEnumItem]) -> (r: Result<(usize, Vec<BitPattern>), BitEnumError>)
    requires
        spec_items_measurable(items@),
    ensures
        match r {
            Ok((n, pats)) => spec_bitenum(items@) == Ok::<(nat, Seq<BitPattern>), BitEnumError>(
                (n as nat, pats@),
            ),
            Err(e) => spec_bitenum(items@) == Err::<(nat, Seq<BitPattern>), BitEnumError>(e),
        },
{
    let mut nbits: Option<usize> = None;
    let mut has_fallback = false;
    let ghost mut fallback: Seq<char> = Seq::empty();
    let mut pats: Vec<BitPattern> = Vec::new();
    let mut k: usize = 0;
    while k < items.len()
        invariant
            k <= items@.len(),
            spec_items_measurable(items@),
            spec_bitenum_prefix(items@, k as nat) == Ok::<BitEnumState, BitEnumError>(
                BitEnumState {
                    nbits: match nbits {
                        Some(n) => Some(n as nat),
                        None => None,
                    },
                    fallback,
                    patterns: pats@,
                },
            ),
            has_fallback == (fallback.len() > 0),
        decreases items@.len() - k,
    {
        match &items[k] {
            BitEnumItem::Fallback(code) => {
                if has_fallback {
                    proof {
                        lemma_bitenum_error_stays(items@, k as nat + 1);
                    }
                    return Err(BitEnumError::MultipleFallbacks { item: k });
                }
                has_fallback = code.len() > 0;
                proof {
                    fallback = code@;
                }
            },
            BitEnumItem::Variant(p) => {
                proof {
                    assert(match items@[k as int] {
                        BitEnumItem::Variant(p) => p@.len() < 0x1000_0000,
                        BitEnumItem::Fallback(_) => true,
                    });
                }
                let len = utf8_len(p.as_slice());
                match nbits {
                    Some(n) => {
                        if n != len {
                            proof {
                                lemma_bitenum_error_stays(items@, k as nat + 1);
                            }
                            return Err(BitEnumError::WrongBitCount { item: k, expected: n });
                        }
                    },
                    None => {},
                }
                match bit_pattern(p.as_slice()) {
                    Ok(bp) => {
                        pats.push(bp);
                        nbits = Some(len);
                    },
                    Err(c) => {
                        proof {
                            lemma_bitenum_error_stays(items@, k as nat + 1);
                        }
                        return Err(BitEnumError::InvalidBit { item: k, bit: c });
                    },
                }
            },
        }
        k = k + 1;
    }
    match nbits {
        Some(n) => Ok((n, pats)),
        None => Err(BitEnumError::NoVariants),
    }
}

} // verus!
