//! `pannotia`: handle bitstreams for AGM32 FPGAs, codenamed `rodinia`.
//!
//! The library models an in-memory bitstream ([container::Bitstream]) as a set of
//! configuration bit arrays, and gives typed access to the fields of every tile.

use vstd::prelude::*;

pub mod bitenum;
pub mod bitfield;
pub mod bitmux;
pub mod bittable;
pub mod chips;
pub mod container;
pub mod coordinates;
pub mod defaults;
pub mod dumptext;
pub mod field;
pub mod pack;
pub mod padring;
pub mod prettyprint;
pub mod rawdump;
pub mod routedb;
pub mod textfmt;
pub mod textparse;
pub mod tiles;

verus! {

/// `ceil(x / divisor)`
pub open spec fn spec_divroundup(x: int, divisor: int) -> int {
    (x + (divisor - 1)) / divisor
}

/// `ceil(x / divisor)` on machine integers
pub fn divroundup(x: u32, divisor: u32) -> (r: u32)
    requires
        divisor > 0,
        x + divisor - 1 <= u32::MAX,
    ensures
        r == spec_divroundup(x as int, divisor as int),
{
    (x + (divisor - 1)) / divisor
}

} // verus!
