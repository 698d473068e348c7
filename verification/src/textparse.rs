//! Reading the text form of settings
//!
//! Text is handled as a slice of `char`s. The helpers here follow the string
//! functions of `std` that the text format is defined with: ASCII and Unicode
//! trimming, prefixes, searching, and decimal numbers as `from_str_radix` reads them.

use vstd::prelude::*;

use crate::bitmux::InvertedBool;
use crate::padring::{DriveStrength, PullUpDown};
use crate::tiles::bram9k::{ClockMode, KMUX, PortWidth, TMUX};
use crate::tiles::generic_routing::RMUX;
use crate::tiles::logic::{InputCMode, OMUX};
use crate::tiles::{GlobalToLocalMux, Mux2, Mux2Inv, Mux3Inv};

verus! {

/// ASCII whitespace, as `u8::is_ascii_whitespace` has it
pub open spec fn is_ascii_space(c: char) -> bool {
    c == ' ' || c == '\t' || c == '\n' || c == '\u{c}' || c == '\r'
}

/// Unicode whitespace (the `White_Space` property), as `char::is_whitespace` has it
pub open spec fn is_unicode_space(c: char) -> bool {
    let u = c as u32;
    ||| 0x9 <= u <= 0xd
    ||| u == 0x20
    ||| u == 0x85
    ||| u == 0xa0
    ||| u == 0x1680
    ||| 0x2000 <= u <= 0x200a
    ||| u == 0x2028
    ||| u == 0x2029
    ||| u == 0x202f
    ||| u == 0x205f
    ||| u == 0x3000
}

/// Whitespace in the ASCII or in the Unicode sense
pub open spec fn is_space(c: char, unicode: bool) -> bool {
    if unicode {
        is_unicode_space(c)
    } else {
        is_ascii_space(c)
    }
}

/// `s` without its leading whitespace
pub open spec fn spec_trim_start(s: Seq<char>, unicode: bool) -> Seq<char>
    decreases s.len(),
{
    if s.len() > 0 && is_space(s[0], unicode) {
        spec_trim_start(s.drop_first(), unicode)
    } else {
        s
    }
}

/// `s` without its trailing whitespace
pub open spec fn spec_trim_end(s: Seq<char>, unicode: bool) -> Seq<char>
    decreases s.len(),
{
    if s.len() > 0 && is_space(s.last(), unicode) {
        spec_trim_end(s.drop_last(), unicode)
    } else {
        s
    }
}

/// `s` without leading and trailing whitespace (`trim_ascii` or `trim`)
pub open spec fn spec_trim(s: Seq<char>, unicode: bool) -> Seq<char> {
    spec_trim_end(spec_trim_start(s, unicode), unicode)
}

/// Does `s` begin with `p`?
pub open spec fn spec_starts_with(s: Seq<char>, p: Seq<char>) -> bool {
    s.len() >= p.len() && s.subrange(0, p.len() as int) == p
}

/// The first position at or after `i` where `c` stands in `s`
pub open spec fn spec_find_from(s: Seq<char>, c: char, i: int) -> Option<int>
    decreases s.len() - i,
{
    if i < 0 || i >= s.len() {
        None
    } else if s[i] == c {
        Some(i)
    } else {
        spec_find_from(s, c, i + 1)
    }
}

/// The first position of `c` in `s`
pub open spec fn spec_find(s: Seq<char>, c: char) -> Option<int> {
    spec_find_from(s, c, 0)
}

/// The first position at or after `i` where `c1` is followed by `c2` in `s`
pub open spec fn spec_find2_from(s: Seq<char>, c1: char, c2: char, i: int) -> Option<int>
    decreases s.len() - i,
{
    if i < 0 || i + 1 >= s.len() {
        None
    } else if s[i] == c1 && s[i + 1] == c2 {
        Some(i)
    } else {
        spec_find2_from(s, c1, c2, i + 1)
    }
}

/// The first position of the two-character pattern `c1 c2` in `s`
pub open spec fn spec_find2(s: Seq<char>, c1: char, c2: char) -> Option<int> {
    spec_find2_from(s, c1, c2, 0)
}

/// The code of `c` in ASCII lower case
pub open spec fn spec_ascii_lower(c: char) -> int {
    if 'A' <= c <= 'Z' {
        (c as u32) + 32
    } else {
        c as u32 as int
    }
}

/// Are `s` and `p` equal when ASCII letters are compared without case?
pub open spec fn spec_eq_ignore_case(s: Seq<char>, p: Seq<char>) -> bool {
    &&& s.len() == p.len()
    &&& forall|i: int| 0 <= i < s.len() ==> spec_ascii_lower(#[trigger] s[i]) == spec_ascii_lower(
        p[i],
    )
}

/// A decimal digit
pub open spec fn is_digit(c: char) -> bool {
    '0' <= c <= '9'
}

/// The value of a run of decimal digits
pub open spec fn spec_digits_value(s: Seq<char>) -> nat
    decreases s.len(),
{
    if s.len() == 0 {
        0
    } else {
        spec_digits_value(s.drop_last()) * 10 + ((s.last() as u32) - 48) as nat
    }
}

/// Is every character of `s` a decimal digit?
pub open spec fn all_digits(s: Seq<char>) -> bool {
    forall|i: int| 0 <= i < s.len() ==> is_digit(#[trigger] s[i])
}

/// A decimal number no larger than `max`, as `from_str_radix(s, 10)` of an unsigned
/// integer type reads it: digits only, after an optional `+`, and at least one of them
pub open spec fn spec_parse_dec(s: Seq<char>, max: nat) -> Option<nat> {
    let digits = if s.len() > 0 && s[0] == '+' {
        s.drop_first()
    } else {
        s
    };
    if digits.len() > 0 && all_digits(digits) && spec_digits_value(digits) <= max {
        Some(spec_digits_value(digits))
    } else {
        None
    }
}

/// Is `c` ASCII whitespace?
pub fn is_ascii_space_char(c: char) -> (r: bool)
    ensures
        r == is_ascii_space(c),
{
    c == ' ' || c == '\t' || c == '\n' || c == '\u{c}' || c == '\r'
}

/// Is `c` Unicode whitespace?
pub fn is_unicode_space_char(c: char) -> (r: bool)
    ensures
        r == is_unicode_space(c),
{
    let u = c as u32;
    (0x9 <= u && u <= 0xd) || u == 0x20 || u == 0x85 || u == 0xa0 || u == 0x1680 || (0x2000 <= u
        && u <= 0x200a) || u == 0x2028 || u == 0x2029 || u == 0x202f || u == 0x205f || u == 0x3000
}

/// Is `c` whitespace in the chosen sense?
pub fn is_space_char(c: char, unicode: bool) -> (r: bool)
    ensures
        r == is_space(c, unicode),
{
    if unicode {
        is_unicode_space_char(c)
    } else {
        is_ascii_space_char(c)
    }
}

/// Leading whitespace up to `i` does not change the trimmed start.
proof fn lemma_trim_start_step(s: Seq<char>, i: int, unicode: bool)
    requires
        0 <= i < s.len(),
        is_space(s[i], unicode),
    ensures
        spec_trim_start(s.subrange(i, s.len() as int), unicode) == spec_trim_start(
            s.subrange(i + 1, s.len() as int),
            unicode,
        ),
{
    assert(s.subrange(i, s.len() as int).drop_first() =~= s.subrange(i + 1, s.len() as int));
}

/// Trailing whitespace from `j - 1` does not change the trimmed end.
proof fn lemma_trim_end_step(s: Seq<char>, j: int, unicode: bool)
    requires
        0 < j <= s.len(),
        is_space(s[j - 1], unicode),
    ensures
        spec_trim_end(s.subrange(0, j), unicode) == spec_trim_end(s.subrange(0, j - 1), unicode),
{
    assert(s.subrange(0, j).drop_last() =~= s.subrange(0, j - 1));
}

/// `s` without leading whitespace
pub fn trim_start(s: &[char], unicode: bool) -> (r: &[char])
    ensures
        r@ == spec_trim_start(s@, unicode),
{
    let mut i: usize = 0;
    proof {
        assert(s@.subrange(0, s@.len() as int) =~= s@);
    }
    while i < s.len() && is_space_char(s[i], unicode)
        invariant
            i <= s@.len(),
            spec_trim_start(s@.subrange(i as int, s@.len() as int), unicode) == spec_trim_start(
                s@,
                unicode,
            ),
        decreases s@.len() - i,
    {
        proof {
            lemma_trim_start_step(s@, i as int, unicode);
        }
        i = i + 1;
    }
    proof {
        assert(s@.subrange(0, s@.len() as int) =~= s@);
    }
    &s[i..s.len()]
}

/// `s` without trailing whitespace
pub fn trim_end(s: &[char], unicode: bool) -> (r: &[char])
    ensures
        r@ == spec_trim_end(s@, unicode),
{
    let mut j: usize = s.len();
    proof {
        assert(s@.subrange(0, s@.len() as int) =~= s@);
    }
    while j > 0 && is_space_char(s[j - 1], unicode)
        invariant
            j <= s@.len(),
            spec_trim_end(s@.subrange(0, j as int), unicode) == spec_trim_end(s@, unicode),
        decreases j,
    {
        proof {
            lemma_trim_end_step(s@, j as int, unicode);
        }
        j = j - 1;
    }
    proof {
        assert(s@.subrange(0, s@.len() as int) =~= s@);
    }
    &s[0..j]
}

/// `s` without leading and trailing whitespace
pub fn trim(s: &[char], unicode: bool) -> (r: &[char])
    ensures
        r@ == spec_trim(s@, unicode),
{
    trim_end(trim_start(s, unicode), unicode)
}

/// Are the two texts equal?
pub fn text_eq(s: &[char], p: &[char]) -> (r: bool)
    ensures
        r == (s@ == p@),
{
    if s.len() != p.len() {
        return false;
    }
    let mut i: usize = 0;
    while i < s.len()
        invariant
            s@.len() == p@.len(),
            i <= s@.len(),
            forall|k: int| 0 <= k < i ==> s@[k] == p@[k],
        decreases s@.len() - i,
    {
        if s[i] != p[i] {
            return false;
        }
        i = i + 1;
    }
    assert(s@ =~= p@);
    true
}

/// Does `s` begin with `p`?
pub fn starts_with(s: &[char], p: &[char]) -> (r: bool)
    ensures
        r == spec_starts_with(s@, p@),
{
    if s.len() < p.len() {
        return false;
    }
    text_eq(&s[0..p.len()], p)
}

/// `s` without the prefix `p`, if it begins with it
pub fn strip_prefix<'a>(s: &'a [char], p: &[char]) -> (r: Option<&'a [char]>)
    ensures
        match r {
            Some(rest) => spec_starts_with(s@, p@) && rest@ == s@.subrange(
                p@.len() as int,
                s@.len() as int,
            ),
            None => !spec_starts_with(s@, p@),
        },
{
    if starts_with(s, p) {
        Some(&s[p.len()..s.len()])
    } else {
        None
    }
}

/// The first position of `c` in `s`
pub fn find_char(s: &[char], c: char) -> (r: Option<usize>)
    ensures
        match r {
            Some(i) => spec_find(s@, c) == Some(i as int),
            None => spec_find(s@, c) is None,
        },
        match r {
            Some(i) => i < s@.len() && s@[i as int] == c,
            None => true,
        },
{
    let mut i: usize = 0;
    while i < s.len()
        invariant
            i <= s@.len(),
            spec_find_from(s@, c, i as int) == spec_find(s@, c),
        decreases s@.len() - i,
    {
        if s[i] == c {
            return Some(i);
        }
        i = i + 1;
    }
    None
}

/// The first position of the pattern `c1 c2` in `s`
pub fn find_pair(s: &[char], c1: char, c2: char) -> (r: Option<usize>)
    ensures
        match r {
            Some(i) => spec_find2(s@, c1, c2) == Some(i as int),
            None => spec_find2(s@, c1, c2) is None,
        },
        match r {
            Some(i) => i + 1 < s@.len(),
            None => true,
        },
{
    if s.len() < 2 {
        return None;
    }
    let mut i: usize = 0;
    while i < s.len() - 1
        invariant
            s@.len() >= 2,
            i <= s@.len(),
            spec_find2_from(s@, c1, c2, i as int) == spec_find2(s@, c1, c2),
        decreases s@.len() - i,
    {
        if s[i] == c1 && s[i + 1] == c2 {
            return Some(i);
        }
        i = i + 1;
    }
    None
}

/// The code of `c` in ASCII lower case
pub fn ascii_lower(c: char) -> (r: u32)
    ensures
        r == spec_ascii_lower(c),
{
    if 'A' <= c && c <= 'Z' {
        (c as u32) + 32
    } else {
        c as u32
    }
}

/// Are `s` and `p` equal when ASCII letters are compared without case?
pub fn eq_ignore_case(s: &[char], p: &[char]) -> (r: bool)
    ensures
        r == spec_eq_ignore_case(s@, p@),
{
    if s.len() != p.len() {
        return false;
    }
    let mut i: usize = 0;
    while i < s.len()
        invariant
            s@.len() == p@.len(),
            i <= s@.len(),
            forall|k: int| 0 <= k < i ==> spec_ascii_lower(#[trigger] s@[k]) == spec_ascii_lower(
                p@[k],
            ),
        decreases s@.len() - i,
    {
        if ascii_lower(s[i]) != ascii_lower(p[i]) {
            return false;
        }
        i = i + 1;
    }
    true
}

/// A longer run of digits is worth at least as much as its start.
proof fn lemma_digits_value_prefix(s: Seq<char>, k: int)
    requires
        0 <= k <= s.len(),
        all_digits(s),
    ensures
        spec_digits_value(s.subrange(0, k)) <= spec_digits_value(s),
    decreases s.len() - k,
{
    if k < s.len() {
        let t = s.subrange(0, k + 1);
        assert(t.drop_last() =~= s.subrange(0, k));
        assert(is_digit(t.last()));
        lemma_digits_value_prefix(s, k + 1);
    } else {
        assert(s.subrange(0, k) =~= s);
    }
}

/// A decimal number no larger than `max`, read as `from_str_radix(s, 10)` does
pub fn parse_dec(s: &[char], max: u32) -> (r: Option<u32>)
    ensures
        match r {
            Some(v) => spec_parse_dec(s@, max as nat) == Some(v as nat),
            None => spec_parse_dec(s@, max as nat) is None,
        },
{
    let digits: &[char] = if s.len() > 0 && s[0] == '+' {
        &s[1..s.len()]
    } else {
        s
    };
    proof {
        if s@.len() > 0 && s@[0] == '+' {
            assert(digits@ =~= s@.drop_first());
        }
    }
    if digits.len() == 0 {
        return None;
    }
    let mut v: u64 = 0;
    let mut i: usize = 0;
    while i < digits.len()
        invariant
            digits@ == (if s@.len() > 0 && s@[0] == '+' {
                s@.drop_first()
            } else {
                s@
            }),
            digits@.len() > 0,
            i <= digits@.len(),
            forall|k: int| 0 <= k < i ==> is_digit(#[trigger] digits@[k]),
            v == spec_digits_value(digits@.subrange(0, i as int)),
            v <= max,
        decreases digits@.len() - i,
    {
        let c = digits[i];
        if !('0' <= c && c <= '9') {
            proof {
                assert(!is_digit(digits@[i as int]));
                assert(!all_digits(digits@));
            }
            return None;
        }
        let d = (c as u32 - 48) as u64;
        let nv = v * 10 + d;
        proof {
            let t = digits@.subrange(0, i as int + 1);
            assert(t.drop_last() =~= digits@.subrange(0, i as int));
            assert(t.last() == c);
            assert(spec_digits_value(t) == nv);
        }
        if nv > max as u64 {
            proof {
                if all_digits(digits@) {
                    lemma_digits_value_prefix(digits@, i as int + 1);
                    assert(spec_digits_value(digits@) > max);
                }
            }
            return None;
        }
        v = nv;
        i = i + 1;
    }
    proof {
        assert(digits@.subrange(0, digits@.len() as int) =~= digits@);
    }
    Some(v as u32)
}

/// The characters of a string
pub fn chars_of(s: &str) -> (r: Vec<char>)
    ensures
        r@ == s@,
{
    let mut v: Vec<char> = Vec::new();
    for c in it: s.chars()
        invariant
            v@ == it.seq().subrange(0, it.index() as int),
    {
        v.push(c);
    }
    v
}

/// The text of an unprogrammed mux
pub open spec fn spec_unset_text() -> Seq<char> {
    seq!['<', 'u', 'n', 's', 'e', 't', '>']
}

/// A mux input number after `#`, surrounded by Unicode whitespace, below `max`
pub open spec fn spec_mux_input(s: Seq<char>, max: u8) -> Result<u8, ()> {
    match spec_parse_dec(spec_trim(s, true), 255) {
        Some(i) => if i < max {
            Ok(i as u8)
        } else {
            Err(())
        },
        None => Err(()),
    }
}

/// A mux without inversion: `<unset>`, or `#` and an input number below `max`
pub open spec fn spec_parse_noinv(s: Seq<char>, max: u8) -> Result<Option<u8>, ()> {
    if s == spec_unset_text() {
        Ok(None)
    } else if s.len() > 0 && s[0] == '#' {
        match spec_mux_input(s.drop_first(), max) {
            Ok(i) => Ok(Some(i)),
            Err(_) => Err(()),
        }
    } else {
        Err(())
    }
}

/// A mux with inversion: an optional `!`, then `#` and an input number below `max`
pub open spec fn spec_parse_inv(s: Seq<char>, max: u8) -> Result<(bool, u8), ()> {
    let invert = s.len() > 0 && s[0] == '!';
    let t = if invert {
        spec_trim(s.drop_first(), true)
    } else {
        s
    };
    if t.len() > 0 && t[0] == '#' {
        match spec_mux_input(t.drop_first(), max) {
            Ok(i) => Ok((invert, i)),
            Err(_) => Err(()),
        }
    } else {
        Err(())
    }
}

fn mux_input(s: &[char], max: u8) -> (r: Result<u8, ()>)
    ensures
        r == spec_mux_input(s@, max),
{
    match parse_dec(trim(s, true), 255) {
        Some(i) => if i < max as u32 {
            Ok(i as u8)
        } else {
            Err(())
        },
        None => Err(()),
    }
}

/// Parse a mux without inversion: `<unset>` gives `None`, `#i` gives `Some(i)` for `i < max`
pub fn parse_noinv_helper(s: &[char], max: u8) -> (r: Result<Option<u8>, ()>)
    ensures
        r == spec_parse_noinv(s@, max),
{
    let unset = ['<', 'u', 'n', 's', 'e', 't', '>'];
    proof {
        assert(unset@ =~= spec_unset_text());
    }
    if text_eq(s, &unset) {
        Ok(None)
    } else if s.len() > 0 && s[0] == '#' {
        let num = &s[1..s.len()];
        proof {
            assert(num@ =~= s@.drop_first());
        }
        match mux_input(num, max) {
            Ok(i) => Ok(Some(i)),
            Err(_) => Err(()),
        }
    } else {
        Err(())
    }
}

/// Parse a mux with inversion: `[!]#i` gives the inversion and `i`, for `i < max`
pub fn parse_inv_helper(s: &[char], max: u8) -> (r: Result<(bool, u8), ()>)
    ensures
        r == spec_parse_inv(s@, max),
{
    let invert = s.len() > 0 && s[0] == '!';
    let t: &[char] = if invert {
        let rest = &s[1..s.len()];
        proof {
            assert(rest@ =~= s@.drop_first());
        }
        trim(rest, true)
    } else {
        s
    };
    if t.len() > 0 && t[0] == '#' {
        let num = &t[1..t.len()];
        proof {
            assert(num@ =~= t@.drop_first());
        }
        match mux_input(num, max) {
            Ok(i) => Ok((invert, i)),
            Err(_) => Err(()),
        }
    } else {
        Err(())
    }
}

/// The setting named by `0`/`#0` or `1`/`#1`
pub open spec fn spec_mux2_from_text(s: Seq<char>) -> Result<Mux2, ()> {
    if s == seq!['0'] || s == seq!['#', '0'] {
        Ok(Mux2::_0)
    } else if s == seq!['1'] || s == seq!['#', '1'] {
        Ok(Mux2::_1)
    } else {
        Err(())
    }
}

impl Mux2 {
    /// The setting named by `0`/`#0` or `1`/`#1`
    pub fn from_text(s: &[char]) -> (r: Result<Mux2, ()>)
        ensures
            r == spec_mux2_from_text(s@),
    {
        let w0 = ['0'];
        let w1 = ['#', '0'];
        let w2 = ['1'];
        let w3 = ['#', '1'];
        proof {
            assert(w0@ =~= seq!['0']);
            assert(w1@ =~= seq!['#', '0']);
            assert(w2@ =~= seq!['1']);
            assert(w3@ =~= seq!['#', '1']);
        }
        if text_eq(s, &w0) || text_eq(s, &w1) {
            Ok(Mux2::_0)
        } else if text_eq(s, &w2) || text_eq(s, &w3) {
            Ok(Mux2::_1)
        } else {
            Err(())
        }
    }
}

/// The port width named by its number of bits
pub open spec fn spec_port_width_from_text(s: Seq<char>) -> Result<PortWidth, ()> {
    if s == seq!['3', '6'] {
        Ok(PortWidth::X36)
    } else if s == seq!['1', '8'] {
        Ok(PortWidth::X18)
    } else if s == seq!['9'] {
        Ok(PortWidth::X9)
    } else if s == seq!['4'] {
        Ok(PortWidth::X4)
    } else if s == seq!['2'] {
        Ok(PortWidth::X2)
    } else if s == seq!['1'] {
        Ok(PortWidth::X1)
    } else {
        Err(())
    }
}

impl PortWidth {
    /// The port width named by its number of bits
    pub fn from_text(s: &[char]) -> (r: Result<PortWidth, ()>)
        ensures
            r == spec_port_width_from_text(s@),
    {
        let w0 = ['3', '6'];
        let w1 = ['1', '8'];
        let w2 = ['9'];
        let w3 = ['4'];
        let w4 = ['2'];
        let w5 = ['1'];
        proof {
            assert(w0@ =~= seq!['3', '6']);
            assert(w1@ =~= seq!['1', '8']);
            assert(w2@ =~= seq!['9']);
            assert(w3@ =~= seq!['4']);
            assert(w4@ =~= seq!['2']);
            assert(w5@ =~= seq!['1']);
        }
        if text_eq(s, &w0) {
            Ok(PortWidth::X36)
        } else if text_eq(s, &w1) {
            Ok(PortWidth::X18)
        } else if text_eq(s, &w2) {
            Ok(PortWidth::X9)
        } else if text_eq(s, &w3) {
            Ok(PortWidth::X4)
        } else if text_eq(s, &w4) {
            Ok(PortWidth::X2)
        } else if text_eq(s, &w5) {
            Ok(PortWidth::X1)
        } else {
            Err(())
        }
    }
}

/// The clocking mode named in any ASCII case
pub open spec fn spec_clock_mode_from_text(s: Seq<char>) -> Result<ClockMode, ()> {
    if spec_eq_ignore_case(s, seq!['i', 'n', 'd', 'e', 'p', 'e', 'n', 'd', 'e', 'n', 't']) {
        Ok(ClockMode::Independent)
    } else if spec_eq_ignore_case(s, seq!['i', 'n', 'p', 'u', 't', '_', 'o', 'u', 't', 'p', 'u', 't']) {
        Ok(ClockMode::InputOutput)
    } else if spec_eq_ignore_case(s, seq!['r', 'e', 'a', 'd', '_', 'w', 'r', 'i', 't', 'e']) {
        Ok(ClockMode::ReadWrite)
    } else {
        Err(())
    }
}

impl ClockMode {
    /// The clocking mode named in any ASCII case
    pub fn from_text(s: &[char]) -> (r: Result<ClockMode, ()>)
        ensures
            r == spec_clock_mode_from_text(s@),
    {
        let w0 = ['i', 'n', 'd', 'e', 'p', 'e', 'n', 'd', 'e', 'n', 't'];
        let w1 = ['i', 'n', 'p', 'u', 't', '_', 'o', 'u', 't', 'p', 'u', 't'];
        let w2 = ['r', 'e', 'a', 'd', '_', 'w', 'r', 'i', 't', 'e'];
        proof {
            assert(w0@ =~= seq!['i', 'n', 'd', 'e', 'p', 'e', 'n', 'd', 'e', 'n', 't']);
            assert(w1@ =~= seq!['i', 'n', 'p', 'u', 't', '_', 'o', 'u', 't', 'p', 'u', 't']);
            assert(w2@ =~= seq!['r', 'e', 'a', 'd', '_', 'w', 'r', 'i', 't', 'e']);
        }
        if eq_ignore_case(s, &w0) {
            Ok(ClockMode::Independent)
        } else if eq_ignore_case(s, &w1) {
            Ok(ClockMode::InputOutput)
        } else if eq_ignore_case(s, &w2) {
            Ok(ClockMode::ReadWrite)
        } else {
            Err(())
        }
    }
}

/// The input-C mode named in any ASCII case
pub open spec fn spec_input_c_mode_from_text(s: Seq<char>) -> Result<InputCMode, ()> {
    if spec_eq_ignore_case(s, seq!['i', 'm', 'u', 'x']) {
        Ok(InputCMode::IMUX)
    } else if spec_eq_ignore_case(s, seq!['f', 'f']) {
        Ok(InputCMode::FlipFlop)
    } else if spec_eq_ignore_case(s, seq!['c', 'a', 'r', 'r', 'y']) {
        Ok(InputCMode::Carry)
    } else {
        Err(())
    }
}

impl InputCMode {
    /// The input-C mode named in any ASCII case
    pub fn from_text(s: &[char]) -> (r: Result<InputCMode, ()>)
        ensures
            r == spec_input_c_mode_from_text(s@),
    {
        let w0 = ['i', 'm', 'u', 'x'];
        let w1 = ['f', 'f'];
        let w2 = ['c', 'a', 'r', 'r', 'y'];
        proof {
            assert(w0@ =~= seq!['i', 'm', 'u', 'x']);
            assert(w1@ =~= seq!['f', 'f']);
            assert(w2@ =~= seq!['c', 'a', 'r', 'r', 'y']);
        }
        if eq_ignore_case(s, &w0) {
            Ok(InputCMode::IMUX)
        } else if eq_ignore_case(s, &w1) {
            Ok(InputCMode::FlipFlop)
        } else if eq_ignore_case(s, &w2) {
            Ok(InputCMode::Carry)
        } else {
            Err(())
        }
    }
}

/// The output choice named in any ASCII case
pub open spec fn spec_omux_from_text(s: Seq<char>) -> Result<OMUX, ()> {
    if spec_eq_ignore_case(s, seq!['c', 'o', 'm', 'b']) {
        Ok(OMUX::Combinatorial)
    } else if spec_eq_ignore_case(s, seq!['f', 'f']) {
        Ok(OMUX::FlipFlop)
    } else {
        Err(())
    }
}

impl OMUX {
    /// The output choice named in any ASCII case
    pub fn from_text(s: &[char]) -> (r: Result<OMUX, ()>)
        ensures
            r == spec_omux_from_text(s@),
    {
        let w0 = ['c', 'o', 'm', 'b'];
        let w1 = ['f', 'f'];
        proof {
            assert(w0@ =~= seq!['c', 'o', 'm', 'b']);
            assert(w1@ =~= seq!['f', 'f']);
        }
        if eq_ignore_case(s, &w0) {
            Ok(OMUX::Combinatorial)
        } else if eq_ignore_case(s, &w1) {
            Ok(OMUX::FlipFlop)
        } else {
            Err(())
        }
    }
}

/// The drive strength named as `<n> mA`, in any ASCII case
pub open spec fn spec_drive_strength_from_text(s: Seq<char>) -> Result<DriveStrength, ()> {
    if spec_eq_ignore_case(s, seq!['0', ' ', 'm', 'a']) {
        Ok(DriveStrength::_0MA)
    } else if spec_eq_ignore_case(s, seq!['2', ' ', 'm', 'a']) {
        Ok(DriveStrength::_2MA)
    } else if spec_eq_ignore_case(s, seq!['4', ' ', 'm', 'a']) {
        Ok(DriveStrength::_4MA)
    } else if spec_eq_ignore_case(s, seq!['8', ' ', 'm', 'a']) {
        Ok(DriveStrength::_8MA)
    } else if spec_eq_ignore_case(s, seq!['1', '6', ' ', 'm', 'a']) {
        Ok(DriveStrength::_16MA)
    } else if spec_eq_ignore_case(s, seq!['3', '0', ' ', 'm', 'a']) {
        Ok(DriveStrength::_30MA)
    } else {
        Err(())
    }
}

impl DriveStrength {
    /// The drive strength named as `<n> mA`, in any ASCII case
    pub fn from_text(s: &[char]) -> (r: Result<DriveStrength, ()>)
        ensures
            r == spec_drive_strength_from_text(s@),
    {
        let w0 = ['0', ' ', 'm', 'a'];
        let w1 = ['2', ' ', 'm', 'a'];
        let w2 = ['4', ' ', 'm', 'a'];
        let w3 = ['8', ' ', 'm', 'a'];
        let w4 = ['1', '6', ' ', 'm', 'a'];
        let w5 = ['3', '0', ' ', 'm', 'a'];
        proof {
            assert(w0@ =~= seq!['0', ' ', 'm', 'a']);
            assert(w1@ =~= seq!['2', ' ', 'm', 'a']);
            assert(w2@ =~= seq!['4', ' ', 'm', 'a']);
            assert(w3@ =~= seq!['8', ' ', 'm', 'a']);
            assert(w4@ =~= seq!['1', '6', ' ', 'm', 'a']);
            assert(w5@ =~= seq!['3', '0', ' ', 'm', 'a']);
        }
        if eq_ignore_case(s, &w0) {
            Ok(DriveStrength::_0MA)
        } else if eq_ignore_case(s, &w1) {
            Ok(DriveStrength::_2MA)
        } else if eq_ignore_case(s, &w2) {
            Ok(DriveStrength::_4MA)
        } else if eq_ignore_case(s, &w3) {
            Ok(DriveStrength::_8MA)
        } else if eq_ignore_case(s, &w4) {
            Ok(DriveStrength::_16MA)
        } else if eq_ignore_case(s, &w5) {
            Ok(DriveStrength::_30MA)
        } else {
            Err(())
        }
    }
}

/// The termination named in any ASCII case
pub open spec fn spec_pull_up_down_from_text(s: Seq<char>) -> Result<PullUpDown, ()> {
    if spec_eq_ignore_case(s, seq!['n', 'o', 'n', 'e']) {
        Ok(PullUpDown::NoPull)
    } else if spec_eq_ignore_case(s, seq!['p', 'u', 'l', 'l', 'd', 'o', 'w', 'n']) {
        Ok(PullUpDown::Down)
    } else if spec_eq_ignore_case(s, seq!['p', 'u', 'l', 'l', 'u', 'p']) {
        Ok(PullUpDown::Up)
    } else if spec_eq_ignore_case(s, seq!['k', 'e', 'e', 'p', 'e', 'r']) {
        Ok(PullUpDown::Keeper)
    } else {
        Err(())
    }
}

impl PullUpDown {
    /// The termination named in any ASCII case
    pub fn from_text(s: &[char]) -> (r: Result<PullUpDown, ()>)
        ensures
            r == spec_pull_up_down_from_text(s@),
    {
        let w0 = ['n', 'o', 'n', 'e'];
        let w1 = ['p', 'u', 'l', 'l', 'd', 'o', 'w', 'n'];
        let w2 = ['p', 'u', 'l', 'l', 'u', 'p'];
        let w3 = ['k', 'e', 'e', 'p', 'e', 'r'];
        proof {
            assert(w0@ =~= seq!['n', 'o', 'n', 'e']);
            assert(w1@ =~= seq!['p', 'u', 'l', 'l', 'd', 'o', 'w', 'n']);
            assert(w2@ =~= seq!['p', 'u', 'l', 'l', 'u', 'p']);
            assert(w3@ =~= seq!['k', 'e', 'e', 'p', 'e', 'r']);
        }
        if eq_ignore_case(s, &w0) {
            Ok(PullUpDown::NoPull)
        } else if eq_ignore_case(s, &w1) {
            Ok(PullUpDown::Down)
        } else if eq_ignore_case(s, &w2) {
            Ok(PullUpDown::Up)
        } else if eq_ignore_case(s, &w3) {
            Ok(PullUpDown::Keeper)
        } else {
            Err(())
        }
    }
}


/// The global-to-local mux setting: `<unset>` or `#i` for `i < 6`
pub open spec fn spec_global_to_local_from_text(s: Seq<char>) -> Result<GlobalToLocalMux, ()> {
    match spec_parse_noinv(s, 6) {
        Ok(Some(i)) => Ok(GlobalToLocalMux::I(i)),
        Ok(None) => Ok(GlobalToLocalMux::Unset),
        Err(_) => Err(()),
    }
}

impl GlobalToLocalMux {
    /// The global-to-local mux setting: `<unset>` or `#i` for `i < 6`
    pub fn from_text(s: &[char]) -> (r: Result<GlobalToLocalMux, ()>)
        ensures
            r == spec_global_to_local_from_text(s@),
    {
        match parse_noinv_helper(s, 6) {
            Ok(Some(i)) => Ok(GlobalToLocalMux::I(i)),
            Ok(None) => Ok(GlobalToLocalMux::Unset),
            Err(_) => Err(()),
        }
    }
}

/// The BRAM TMUX setting: `<unset>` or `#i` for `i < 15`
pub open spec fn spec_tmux_from_text(s: Seq<char>) -> Result<TMUX, ()> {
    match spec_parse_noinv(s, 15) {
        Ok(Some(i)) => Ok(TMUX::I(i)),
        Ok(None) => Ok(TMUX::Unset),
        Err(_) => Err(()),
    }
}

impl TMUX {
    /// The BRAM TMUX setting: `<unset>` or `#i` for `i < 15`
    pub fn from_text(s: &[char]) -> (r: Result<TMUX, ()>)
        ensures
            r == spec_tmux_from_text(s@),
    {
        match parse_noinv_helper(s, 15) {
            Ok(Some(i)) => Ok(TMUX::I(i)),
            Ok(None) => Ok(TMUX::Unset),
            Err(_) => Err(()),
        }
    }
}

/// The routing mux setting: `<unset>` or `#i` for `i < 21`
pub open spec fn spec_rmux_from_text(s: Seq<char>) -> Result<RMUX, ()> {
    match spec_parse_noinv(s, 21) {
        Ok(Some(i)) => Ok(RMUX::I(i)),
        Ok(None) => Ok(RMUX::Unset),
        Err(_) => Err(()),
    }
}

impl RMUX {
    /// The routing mux setting: `<unset>` or `#i` for `i < 21`
    pub fn from_text(s: &[char]) -> (r: Result<RMUX, ()>)
        ensures
            r == spec_rmux_from_text(s@),
    {
        match parse_noinv_helper(s, 21) {
            Ok(Some(i)) => Ok(RMUX::I(i)),
            Ok(None) => Ok(RMUX::Unset),
            Err(_) => Err(()),
        }
    }
}

/// Is `s` the word `vcc` in any ASCII case?
pub open spec fn spec_is_vcc(s: Seq<char>) -> bool {
    spec_eq_ignore_case(s, seq!['v', 'c', 'c'])
}

/// Is `s` the word `gnd` in any ASCII case?
pub open spec fn spec_is_gnd(s: Seq<char>) -> bool {
    spec_eq_ignore_case(s, seq!['g', 'n', 'd'])
}

fn is_vcc(s: &[char]) -> (r: bool)
    ensures
        r == spec_is_vcc(s@),
{
    let w = ['v', 'c', 'c'];
    proof {
        assert(w@ =~= seq!['v', 'c', 'c']);
    }
    eq_ignore_case(s, &w)
}

fn is_gnd(s: &[char]) -> (r: bool)
    ensures
        r == spec_is_gnd(s@),
{
    let w = ['g', 'n', 'd'];
    proof {
        assert(w@ =~= seq!['g', 'n', 'd']);
    }
    eq_ignore_case(s, &w)
}

/// A two-input mux with inversion: `vcc`, `gnd` or `[!]#i` for `i < 2`
pub open spec fn spec_mux2_inv_from_text(s: Seq<char>) -> Result<Mux2Inv, ()> {
    if spec_is_vcc(s) {
        Ok(Mux2Inv::VCC)
    } else if spec_is_gnd(s) {
        Ok(Mux2Inv::GND)
    } else {
        match spec_parse_inv(s, 2) {
            Ok((invert, i)) => Ok(Mux2Inv::I { invert, i }),
            Err(_) => Err(()),
        }
    }
}

impl Mux2Inv {
    /// A two-input mux with inversion: `vcc`, `gnd` or `[!]#i` for `i < 2`
    pub fn from_text(s: &[char]) -> (r: Result<Mux2Inv, ()>)
        ensures
            r == spec_mux2_inv_from_text(s@),
    {
        if is_vcc(s) {
            Ok(Mux2Inv::VCC)
        } else if is_gnd(s) {
            Ok(Mux2Inv::GND)
        } else {
            match parse_inv_helper(s, 2) {
                Ok((invert, i)) => Ok(Mux2Inv::I { invert, i }),
                Err(_) => Err(()),
            }
        }
    }
}

/// A three-input mux with inversion: `vcc`, `gnd` or `[!]#i` for `i < 3`
pub open spec fn spec_mux3_inv_from_text(s: Seq<char>) -> Result<Mux3Inv, ()> {
    if spec_is_vcc(s) {
        Ok(Mux3Inv::VCC)
    } else if spec_is_gnd(s) {
        Ok(Mux3Inv::GND)
    } else {
        match spec_parse_inv(s, 3) {
            Ok((invert, i)) => Ok(Mux3Inv::I { invert, i }),
            Err(_) => Err(()),
        }
    }
}

impl Mux3Inv {
    /// A three-input mux with inversion: `vcc`, `gnd` or `[!]#i` for `i < 3`
    pub fn from_text(s: &[char]) -> (r: Result<Mux3Inv, ()>)
        ensures
            r == spec_mux3_inv_from_text(s@),
    {
        if is_vcc(s) {
            Ok(Mux3Inv::VCC)
        } else if is_gnd(s) {
            Ok(Mux3Inv::GND)
        } else {
            match parse_inv_helper(s, 3) {
                Ok((invert, i)) => Ok(Mux3Inv::I { invert, i }),
                Err(_) => Err(()),
            }
        }
    }
}

/// The BRAM KMUX setting: `vcc`, `gnd` or `[!]#i` for `i < 15`
pub open spec fn spec_kmux_from_text(s: Seq<char>) -> Result<KMUX, ()> {
    if spec_is_vcc(s) {
        Ok(KMUX::VCC)
    } else if spec_is_gnd(s) {
        Ok(KMUX::GND)
    } else {
        match spec_parse_inv(s, 15) {
            Ok((invert, i)) => Ok(KMUX::I { invert, i }),
            Err(_) => Err(()),
        }
    }
}

impl KMUX {
    /// The BRAM KMUX setting: `vcc`, `gnd` or `[!]#i` for `i < 15`
    pub fn from_text(s: &[char]) -> (r: Result<KMUX, ()>)
        ensures
            r == spec_kmux_from_text(s@),
    {
        if is_vcc(s) {
            Ok(KMUX::VCC)
        } else if is_gnd(s) {
            Ok(KMUX::GND)
        } else {
            match parse_inv_helper(s, 15) {
                Ok((invert, i)) => Ok(KMUX::I { invert, i }),
                Err(_) => Err(()),
            }
        }
    }
}

/// A flag: `0`, `f` or `false` for off and `1`, `t` or `true` for on, in any ASCII case
pub open spec fn spec_flag_from_text(s: Seq<char>) -> Result<bool, ()> {
    if spec_eq_ignore_case(s, seq!['0']) || spec_eq_ignore_case(s, seq!['f'])
        || spec_eq_ignore_case(s, seq!['f', 'a', 'l', 's', 'e']) {
        Ok(false)
    } else if spec_eq_ignore_case(s, seq!['1']) || spec_eq_ignore_case(s, seq!['t'])
        || spec_eq_ignore_case(s, seq!['t', 'r', 'u', 'e']) {
        Ok(true)
    } else {
        Err(())
    }
}

fn flag_from_text(s: &[char]) -> (r: Result<bool, ()>)
    ensures
        r == spec_flag_from_text(s@),
{
    let w0 = ['0'];
    let w1 = ['f'];
    let w2 = ['f', 'a', 'l', 's', 'e'];
    let w3 = ['1'];
    let w4 = ['t'];
    let w5 = ['t', 'r', 'u', 'e'];
    proof {
        assert(w0@ =~= seq!['0']);
        assert(w1@ =~= seq!['f']);
        assert(w2@ =~= seq!['f', 'a', 'l', 's', 'e']);
        assert(w3@ =~= seq!['1']);
        assert(w4@ =~= seq!['t']);
        assert(w5@ =~= seq!['t', 'r', 'u', 'e']);
    }
    if eq_ignore_case(s, &w0) || eq_ignore_case(s, &w1) || eq_ignore_case(s, &w2) {
        Ok(false)
    } else if eq_ignore_case(s, &w3) || eq_ignore_case(s, &w4) || eq_ignore_case(s, &w5) {
        Ok(true)
    } else {
        Err(())
    }
}

/// Values that the pack format writes as flags
pub trait PackerParse: Sized {
    /// What the text gives, if it is a valid flag
    spec fn spec_try_parse(s: Seq<char>) -> Result<Self, ()>;

    /// Read a value from its text
    fn try_parse(s: &[char]) -> (r: Result<Self, ()>)
        ensures
            r == Self::spec_try_parse(s@),
    ;
}

impl PackerParse for bool {
    open spec fn spec_try_parse(s: Seq<char>) -> Result<bool, ()> {
        spec_flag_from_text(s)
    }

    fn try_parse(s: &[char]) -> (r: Result<bool, ()>) {
        flag_from_text(s)
    }
}

impl PackerParse for InvertedBool {
    open spec fn spec_try_parse(s: Seq<char>) -> Result<InvertedBool, ()> {
        match spec_flag_from_text(s) {
            Ok(b) => Ok(InvertedBool(b)),
            Err(_) => Err(()),
        }
    }

    fn try_parse(s: &[char]) -> (r: Result<InvertedBool, ()>) {
        match flag_from_text(s) {
            Ok(b) => Ok(InvertedBool(b)),
            Err(_) => Err(()),
        }
    }
}


impl core::str::FromStr for Mux2 {
    type Err = ();

    fn from_str(s: &str) -> Result<Mux2, ()> {
        let cs = chars_of(s);
        Mux2::from_text(cs.as_slice())
    }
}

impl core::str::FromStr for GlobalToLocalMux {
    type Err = ();

    fn from_str(s: &str) -> Result<GlobalToLocalMux, ()> {
        let cs = chars_of(s);
        GlobalToLocalMux::from_text(cs.as_slice())
    }
}

impl core::str::FromStr for Mux2Inv {
    type Err = ();

    fn from_str(s: &str) -> Result<Mux2Inv, ()> {
        let cs = chars_of(s);
        Mux2Inv::from_text(cs.as_slice())
    }
}

impl core::str::FromStr for Mux3Inv {
    type Err = ();

    fn from_str(s: &str) -> Result<Mux3Inv, ()> {
        let cs = chars_of(s);
        Mux3Inv::from_text(cs.as_slice())
    }
}

impl core::str::FromStr for TMUX {
    type Err = ();

    fn from_str(s: &str) -> Result<TMUX, ()> {
        let cs = chars_of(s);
        TMUX::from_text(cs.as_slice())
    }
}

impl core::str::FromStr for KMUX {
    type Err = ();

    fn from_str(s: &str) -> Result<KMUX, ()> {
        let cs = chars_of(s);
        KMUX::from_text(cs.as_slice())
    }
}

impl core::str::FromStr for PortWidth {
    type Err = ();

    fn from_str(s: &str) -> Result<PortWidth, ()> {
        let cs = chars_of(s);
        PortWidth::from_text(cs.as_slice())
    }
}

impl core::str::FromStr for ClockMode {
    type Err = ();

    fn from_str(s: &str) -> Result<ClockMode, ()> {
        let cs = chars_of(s);
        ClockMode::from_text(cs.as_slice())
    }
}

impl core::str::FromStr for InputCMode {
    type Err = ();

    fn from_str(s: &str) -> Result<InputCMode, ()> {
        let cs = chars_of(s);
        InputCMode::from_text(cs.as_slice())
    }
}

impl core::str::FromStr for OMUX {
    type Err = ();

    fn from_str(s: &str) -> Result<OMUX, ()> {
        let cs = chars_of(s);
        OMUX::from_text(cs.as_slice())
    }
}

impl core::str::FromStr for DriveStrength {
    type Err = ();

    fn from_str(s: &str) -> Result<DriveStrength, ()> {
        let cs = chars_of(s);
        DriveStrength::from_text(cs.as_slice())
    }
}

impl core::str::FromStr for PullUpDown {
    type Err = ();

    fn from_str(s: &str) -> Result<PullUpDown, ()> {
        let cs = chars_of(s);
        PullUpDown::from_text(cs.as_slice())
    }
}

} // verus!
