//! Code for accessing every kind of FPGA tile
//!
//! Every kind of tile has its own `SomeKindOfTileRef` handle, which records the
//! family and the tile's coordinate. Reading a field takes the bitstream by shared
//! reference, writing a field takes it by mutable reference.

use vstd::prelude::*;

use crate::chips::{spec_tile_type, Family};
use crate::container::Bitstream;
use crate::coordinates::{TilePos, TileRelativeBitPos};
use crate::field::FieldPositionCalculator;

pub mod bram9k;
pub mod clocking;
pub mod generic_routing;
pub mod hard_ip;
pub mod io;
pub mod local_lines;
pub mod logic;
pub mod routing_only;

verus! {

/// The kind of tile that exists at a given position
#[non_exhaustive]
#[derive(Clone, Copy, PartialEq, Eq, Debug, Hash, Structural)]
pub enum TileType {
    /// There is no tile here
    NoTile,
    /// A logic tile, containing LUTs
    Logic,
    /// A tile which only contains routing
    RoutingOnly,
    /// A block RAM tile
    BRAM,
    /// IO, on the top and bottom sides
    TopBottomIO,
    /// IO, on the left and right sides
    LeftRightIO,
    /// Special function interface, on the top side
    TopIP,
    /// Special function interface, on the left and right sides
    LeftRightIP,
    /// Tile containing a PLL
    PLL,
    /// Tile controlling global clock distribution
    GCLKSW,
}

impl TileType {
    /// The size in bits `(w, h)` of a tile of this type (zero where there is no tile)
    pub open spec fn spec_dims(self) -> (int, int) {
        match self {
            TileType::NoTile => (0, 0),
            TileType::Logic => (36, 68),
            TileType::RoutingOnly => (16, 68),
            TileType::BRAM => (180, 68),
            TileType::TopBottomIO => (36, 22),
            TileType::LeftRightIO => (20, 68),
            TileType::TopIP => (36, 68),
            TileType::LeftRightIP => (20, 68),
            TileType::PLL => (20, 68),
            TileType::GCLKSW => (20, 68),
        }
    }

    pub open spec fn spec_is_lr_boundary(self) -> bool {
        self is LeftRightIO || self is LeftRightIP || self is PLL || self is GCLKSW
    }

    pub open spec fn spec_is_tb_boundary(self) -> bool {
        self is TopBottomIO || self is TopIP
    }

    pub open spec fn spec_is_boundary(self) -> bool {
        self.spec_is_lr_boundary() || self.spec_is_tb_boundary()
    }

    pub open spec fn spec_has_loop1(self) -> bool {
        self is PLL
    }

    pub open spec fn spec_has_loop4(self) -> bool {
        self is LeftRightIO || self is GCLKSW
    }

    /// Is this a left/right boundary tile?
    pub fn is_lr_boundary(self) -> (r: bool)
        ensures
            r == self.spec_is_lr_boundary(),
    {
        match self {
            TileType::LeftRightIO | TileType::LeftRightIP | TileType::PLL | TileType::GCLKSW => {
                true
            },
            _ => false,
        }
    }

    /// Is this a top/bottom boundary tile?
    pub fn is_tb_boundary(self) -> (r: bool)
        ensures
            r == self.spec_is_tb_boundary(),
    {
        match self {
            TileType::TopBottomIO | TileType::TopIP => true,
            _ => false,
        }
    }

    /// Is this any kind of boundary tile?
    pub fn is_boundary(self) -> (r: bool)
        ensures
            r == self.spec_is_boundary(),
    {
        self.is_lr_boundary() || self.is_tb_boundary()
    }

    /// Does this tile have T1 loop wires?
    pub fn has_loop1(self) -> (r: bool)
        ensures
            r == self.spec_has_loop1(),
    {
        match self {
            TileType::PLL => true,
            _ => false,
        }
    }

    /// Does this tile have T4 loop wires?
    pub fn has_loop4(self) -> (r: bool)
        ensures
            r == self.spec_has_loop4(),
    {
        match self {
            TileType::LeftRightIO | TileType::GCLKSW => true,
            _ => false,
        }
    }
}

/// A generic 2-choice mux
#[derive(Clone, Copy, PartialEq, Eq, Debug, Hash, Structural)]
pub enum Mux2 {
    _0,
    _1,
}

impl Mux2 {
    /// The setting held by the bits of the field, if they hold a valid one
    pub open spec fn spec_from_bits(bits: u32) -> Option<Mux2> {
        if bits == 0 {
            Some(Mux2::_0)
        } else if bits == 1 {
            Some(Mux2::_1)
        } else {
            None
        }
    }

    /// The bits that hold this setting
    pub open spec fn spec_to_bits(self) -> u32 {
        match self {
            Mux2::_0 => 0,
            Mux2::_1 => 1,
        }
    }

    /// Decode the bits of the field, which hold a setting
    pub fn from_bits(bits: u32) -> (r: Mux2)
        requires
            Mux2::spec_from_bits(bits) is Some,
        ensures
            Some(r) == Mux2::spec_from_bits(bits),
    {
        if bits == 0 {
            Mux2::_0
        } else {
            Mux2::_1
        }
    }

    /// Encode the setting into the bits of the field
    pub fn to_bits(self) -> (r: u32)
        ensures
            r == self.spec_to_bits(),
    {
        match self {
            Mux2::_0 => 0,
            Mux2::_1 => 1,
        }
    }
}

impl Default for Mux2 {
    fn default() -> (r: Self)
        ensures
            r == Mux2::_0,
    {
        Mux2::_0
    }
}

/// Decoding the bits of a `Mux2` gives it back, and the bits fit in 1 bits.
pub proof fn lemma_mux2_roundtrip(x: Mux2)
    ensures
        Mux2::spec_from_bits(x.spec_to_bits()) == Some(x),
        x.spec_to_bits() < 2,
{
}

/// A mux for getting a global wire into a tile
#[derive(Clone, Copy, PartialEq, Eq, Debug, Hash, Structural)]
pub enum GlobalToLocalMux {
    /// Not programmed
    Unset,
    /// Global wire `i`
    I(u8),
}

impl GlobalToLocalMux {
    /// The setting held by the bits of the field (one bit per choice), if valid
    pub open spec fn spec_from_bits(bits: u32) -> Option<GlobalToLocalMux> {
        if bits == 1 {
            Some(GlobalToLocalMux::I(0))
        } else if bits == 2 {
            Some(GlobalToLocalMux::I(1))
        } else if bits == 4 {
            Some(GlobalToLocalMux::I(2))
        } else if bits == 8 {
            Some(GlobalToLocalMux::I(3))
        } else if bits == 16 {
            Some(GlobalToLocalMux::I(4))
        } else if bits == 32 {
            Some(GlobalToLocalMux::I(5))
        } else if bits == 0 {
            Some(GlobalToLocalMux::Unset)
        } else {
            None
        }
    }

    /// Can this setting be written?
    pub open spec fn spec_valid(self) -> bool {
        match self {
            GlobalToLocalMux::Unset => true,
            GlobalToLocalMux::I(i) => i < 6,
        }
    }

    /// The bits that hold this setting
    pub open spec fn spec_to_bits(self) -> u32 {
        match self {
            GlobalToLocalMux::Unset => 0,
            GlobalToLocalMux::I(i) => if i == 0 {
                1
            } else if i == 1 {
                2
            } else if i == 2 {
                4
            } else if i == 3 {
                8
            } else if i == 4 {
                16
            } else {
                32
            },
        }
    }

    /// Decode the bits of the field, which hold a setting
    pub fn from_bits(bits: u32) -> (r: GlobalToLocalMux)
        requires
            GlobalToLocalMux::spec_from_bits(bits) is Some,
        ensures
            Some(r) == GlobalToLocalMux::spec_from_bits(bits),
    {
        if bits == 1 {
            GlobalToLocalMux::I(0)
        } else if bits == 2 {
            GlobalToLocalMux::I(1)
        } else if bits == 4 {
            GlobalToLocalMux::I(2)
        } else if bits == 8 {
            GlobalToLocalMux::I(3)
        } else if bits == 16 {
            GlobalToLocalMux::I(4)
        } else if bits == 32 {
            GlobalToLocalMux::I(5)
        } else {
            GlobalToLocalMux::Unset
        }
    }

    /// Encode the setting into the bits of the field
    pub fn to_bits(self) -> (r: u32)
        requires
            self.spec_valid(),
        ensures
            r == self.spec_to_bits(),
    {
        match self {
            GlobalToLocalMux::Unset => 0,
            GlobalToLocalMux::I(i) => if i == 0 {
                1
            } else if i == 1 {
                2
            } else if i == 2 {
                4
            } else if i == 3 {
                8
            } else if i == 4 {
                16
            } else {
                32
            },
        }
    }
}

impl Default for GlobalToLocalMux {
    fn default() -> (r: Self)
        ensures
            r == GlobalToLocalMux::Unset,
    {
        GlobalToLocalMux::Unset
    }
}

/// Decoding the bits of a valid `GlobalToLocalMux` gives it back, and the bits fit in 6 bits.
pub proof fn lemma_global_to_local_mux_roundtrip(x: GlobalToLocalMux)
    requires
        x.spec_valid(),
    ensures
        GlobalToLocalMux::spec_from_bits(x.spec_to_bits()) == Some(x),
        x.spec_to_bits() < 64,
{
}

/// A mux with two choices and an optional invert
#[derive(Clone, Copy, PartialEq, Eq, Debug, Hash, Structural)]
pub enum Mux2Inv {
    /// Constant 1
    VCC,
    /// Constant 0
    GND,
    /// Choice `i`, optionally inverted
    I { invert: bool, i: u8 },
}

impl Mux2Inv {
    /// The setting held by the bits of the field, if valid
    pub open spec fn spec_from_bits(bits: u32) -> Option<Mux2Inv> {
        let invert = (bits / 4) % 2 == 1;
        let low = bits % 4;
        if low == 1 {
            Some(Mux2Inv::I { invert, i: 0 })
        } else if low == 2 {
            Some(Mux2Inv::I { invert, i: 1 })
        } else if low == 0 {
            if invert {
                Some(Mux2Inv::GND)
            } else {
                Some(Mux2Inv::VCC)
            }
        } else {
            None
        }
    }

    /// Can this setting be written?
    pub open spec fn spec_valid(self) -> bool {
        match self {
            Mux2Inv::I { i, .. } => i < 2,
            _ => true,
        }
    }

    /// The bits that hold this setting
    pub open spec fn spec_to_bits(self) -> u32 {
        match self {
            Mux2Inv::VCC => 0,
            Mux2Inv::GND => 4,
            Mux2Inv::I { invert, i } => ((if i == 0 { 1int } else { 2 }) + (if invert { 4int } else { 0 })) as u32,
        }
    }

    /// Decode the bits of the field, which hold a setting
    pub fn from_bits(bits: u32) -> (r: Mux2Inv)
        requires
            Mux2Inv::spec_from_bits(bits) is Some,
        ensures
            Some(r) == Mux2Inv::spec_from_bits(bits),
    {
        let invert = (bits / 4) % 2 == 1;
        let low = bits % 4;
        if low == 1 {
            Mux2Inv::I { invert, i: 0 }
        } else if low == 2 {
            Mux2Inv::I { invert, i: 1 }
        } else {
            if invert {
                Mux2Inv::GND
            } else {
                Mux2Inv::VCC
            }
        }
    }

    /// Encode the setting into the bits of the field
    pub fn to_bits(self) -> (r: u32)
        requires
            self.spec_valid(),
        ensures
            r == self.spec_to_bits(),
    {
        match self {
            Mux2Inv::VCC => 0,
            Mux2Inv::GND => 4,
            Mux2Inv::I { invert, i } => {
                let choice: u32 = if i == 0 { 1 } else { 2 };
                if invert { choice + 4 } else { choice }
            },
        }
    }
}

impl Default for Mux2Inv {
    fn default() -> (r: Self)
        ensures
            r == Mux2Inv::VCC,
    {
        Mux2Inv::VCC
    }
}

/// Decoding the bits of a valid `Mux2Inv` gives it back, and the bits fit in 3 bits.
pub proof fn lemma_mux2_inv_roundtrip(x: Mux2Inv)
    requires
        x.spec_valid(),
    ensures
        Mux2Inv::spec_from_bits(x.spec_to_bits()) == Some(x),
        x.spec_to_bits() < 8,
{
}

/// A mux with three choices and an optional invert
#[derive(Clone, Copy, PartialEq, Eq, Debug, Hash, Structural)]
pub enum Mux3Inv {
    /// Constant 1
    VCC,
    /// Constant 0
    GND,
    /// Choice `i`, optionally inverted
    I { invert: bool, i: u8 },
}

impl Mux3Inv {
    /// The setting held by the bits of the field, if valid
    pub open spec fn spec_from_bits(bits: u32) -> Option<Mux3Inv> {
        let invert = (bits / 8) % 2 == 1;
        let low = bits % 8;
        if low == 1 {
            Some(Mux3Inv::I { invert, i: 0 })
        } else if low == 2 {
            Some(Mux3Inv::I { invert, i: 1 })
        } else if low == 4 {
            Some(Mux3Inv::I { invert, i: 2 })
        } else if low == 0 {
            if invert {
                Some(Mux3Inv::GND)
            } else {
                Some(Mux3Inv::VCC)
            }
        } else {
            None
        }
    }

    /// Can this setting be written?
    pub open spec fn spec_valid(self) -> bool {
        match self {
            Mux3Inv::I { i, .. } => i < 3,
            _ => true,
        }
    }

    /// The bits that hold this setting
    pub open spec fn spec_to_bits(self) -> u32 {
        match self {
            Mux3Inv::VCC => 0,
            Mux3Inv::GND => 8,
            Mux3Inv::I { invert, i } => ((if i == 0 {
                1int
            } else if i == 1 {
                2
            } else {
                4
            }) + (if invert { 8int } else { 0 })) as u32,
        }
    }

    /// Decode the bits of the field, which hold a setting
    pub fn from_bits(bits: u32) -> (r: Mux3Inv)
        requires
            Mux3Inv::spec_from_bits(bits) is Some,
        ensures
            Some(r) == Mux3Inv::spec_from_bits(bits),
    {
        let invert = (bits / 8) % 2 == 1;
        let low = bits % 8;
        if low == 1 {
            Mux3Inv::I { invert, i: 0 }
        } else if low == 2 {
            Mux3Inv::I { invert, i: 1 }
        } else if low == 4 {
            Mux3Inv::I { invert, i: 2 }
        } else {
            if invert {
                Mux3Inv::GND
            } else {
                Mux3Inv::VCC
            }
        }
    }

    /// Encode the setting into the bits of the field
    pub fn to_bits(self) -> (r: u32)
        requires
            self.spec_valid(),
        ensures
            r == self.spec_to_bits(),
    {
        match self {
            Mux3Inv::VCC => 0,
            Mux3Inv::GND => 8,
            Mux3Inv::I { invert, i } => {
                let choice: u32 = if i == 0 {
                    1
                } else if i == 1 {
                    2
                } else {
                    4
                };
                if invert { choice + 8 } else { choice }
            },
        }
    }
}

impl Default for Mux3Inv {
    fn default() -> (r: Self)
        ensures
            r == Mux3Inv::VCC,
    {
        Mux3Inv::VCC
    }
}

/// Decoding the bits of a valid `Mux3Inv` gives it back, and the bits fit in 4 bits.
pub proof fn lemma_mux3_inv_roundtrip(x: Mux3Inv)
    requires
        x.spec_valid(),
    ensures
        Mux3Inv::spec_from_bits(x.spec_to_bits()) == Some(x),
        x.spec_to_bits() < 16,
{
}

/// Functions common to all tile references
pub trait TileRefTrait {
    spec fn spec_family(&self) -> Family;

    spec fn spec_pos(&self) -> TilePos;

    spec fn spec_tile_type(&self) -> TileType;

    /// Get the current device family
    fn family(&self) -> (r: Family)
        ensures
            r == self.spec_family(),
    ;

    /// Get the type of the current tile
    fn tile_type(&self) -> (r: TileType)
        ensures
            r == self.spec_tile_type(),
    ;

    /// Get the position of the current tile
    fn pos(&self) -> (r: TilePos)
        ensures
            r == self.spec_pos(),
    ;

    /// Downcast this back to a generic tile reference
    fn as_base_tile(self) -> (r: TileRef)
        ensures
            r.family == self.spec_family(),
            r.p == self.spec_pos(),
    ;
}

/// Generic reference to a tile
///
/// This can be coerced to a more-specific reference type using the `as_*` functions,
/// which require the tile to be of the expected type (see [tile_type](TileRefTrait::tile_type)).
#[derive(Clone, Copy, PartialEq, Eq, Debug, Hash, Structural)]
pub struct TileRef {
    pub family: Family,
    pub p: TilePos,
}

impl TileRefTrait for TileRef {
    open spec fn spec_family(&self) -> Family {
        self.family
    }

    open spec fn spec_pos(&self) -> TilePos {
        self.p
    }

    open spec fn spec_tile_type(&self) -> TileType {
        spec_tile_type(self.family, self.p)
    }

    fn family(&self) -> (r: Family) {
        self.family
    }

    fn tile_type(&self) -> (r: TileType) {
        self.family.get_tile_type(self.p)
    }

    fn pos(&self) -> (r: TilePos) {
        self.p
    }

    fn as_base_tile(self) -> (r: TileRef) {
        self
    }
}

impl TileRef {
    /// Coerce to a reference to a generic routing tile
    pub fn as_generic_routing_tile(self) -> (r: generic_routing::GenericRoutingRef)
        requires
            spec_tile_type(self.family, self.p) == TileType::Logic || spec_tile_type(self.family, self.p)
                == TileType::RoutingOnly || spec_tile_type(self.family, self.p) == TileType::BRAM,
        ensures
            r == (generic_routing::GenericRoutingRef { family: self.family, p: self.p }),
    {
        generic_routing::GenericRoutingRef { family: self.family, p: self.p }
    }

    /// Coerce to a reference to a logic tile
    pub fn as_logic_tile(self) -> (r: logic::LogicTileRef)
        requires
            spec_tile_type(self.family, self.p) == TileType::Logic,
        ensures
            r == (logic::LogicTileRef { family: self.family, p: self.p }),
    {
        logic::LogicTileRef { family: self.family, p: self.p }
    }

    /// Coerce to a reference to a routing-only tile
    pub fn as_routing_only_tile(self) -> (r: routing_only::RoutingOnlyTileRef)
        requires
            spec_tile_type(self.family, self.p) == TileType::RoutingOnly,
        ensures
            r == (routing_only::RoutingOnlyTileRef { family: self.family, p: self.p }),
    {
        routing_only::RoutingOnlyTileRef { family: self.family, p: self.p }
    }

    /// Coerce to a reference to a block RAM (9216 bits) tile
    pub fn as_bram9k_tile(self) -> (r: bram9k::BRAMTileRef)
        requires
            spec_tile_type(self.family, self.p) == TileType::BRAM,
        ensures
            r == (bram9k::BRAMTileRef { family: self.family, p: self.p }),
    {
        bram9k::BRAMTileRef { family: self.family, p: self.p }
    }

    /// Coerce to a reference to a hard IP tile
    pub fn as_top_ip_tile(self) -> (r: hard_ip::TopIPTileRef)
        requires
            spec_tile_type(self.family, self.p) == TileType::TopIP,
        ensures
            r == (hard_ip::TopIPTileRef { family: self.family, p: self.p }),
    {
        hard_ip::TopIPTileRef { family: self.family, p: self.p }
    }

    /// Coerce to a reference to a hard IP tile
    pub fn as_leftright_ip_tile(self) -> (r: hard_ip::LeftRightIPTileRef)
        requires
            spec_tile_type(self.family, self.p) == TileType::LeftRightIP,
        ensures
            r == (hard_ip::LeftRightIPTileRef { family: self.family, p: self.p }),
    {
        hard_ip::LeftRightIPTileRef { family: self.family, p: self.p }
    }

    /// Coerce to a reference to an I/O tile
    pub fn as_topbottom_io_tile(self) -> (r: io::TopBottomIOTileRef)
        requires
            spec_tile_type(self.family, self.p) == TileType::TopBottomIO,
        ensures
            r == (io::TopBottomIOTileRef { family: self.family, p: self.p }),
    {
        io::TopBottomIOTileRef { family: self.family, p: self.p }
    }

    /// Coerce to a reference to an I/O tile
    pub fn as_leftright_io_tile(self) -> (r: io::LeftRightIOTileRef)
        requires
            spec_tile_type(self.family, self.p) == TileType::LeftRightIO,
        ensures
            r == (io::LeftRightIOTileRef { family: self.family, p: self.p }),
    {
        io::LeftRightIOTileRef { family: self.family, p: self.p }
    }

    /// Coerce to a reference to a PLL tile
    pub fn as_pll_tile(self) -> (r: clocking::PLLTileRef)
        requires
            spec_tile_type(self.family, self.p) == TileType::PLL,
        ensures
            r == (clocking::PLLTileRef { family: self.family, p: self.p }),
    {
        clocking::PLLTileRef { family: self.family, p: self.p }
    }

    /// Coerce to a reference to a GCLKSW tile
    pub fn as_gclksw_tile(self) -> (r: clocking::GCLKSWTileRef)
        requires
            spec_tile_type(self.family, self.p) == TileType::GCLKSW,
        ensures
            r == (clocking::GCLKSWTileRef { family: self.family, p: self.p }),
    {
        clocking::GCLKSWTileRef { family: self.family, p: self.p }
    }

}

impl Bitstream {
    /// A reference to the tile at `pos`, if there is a tile there
    pub fn tile(&self, pos: TilePos) -> (r: Option<TileRef>)
        ensures
            r == (if spec_tile_type(self@.family, pos) == TileType::NoTile {
                None
            } else {
                Some(TileRef { family: self@.family, p: pos })
            }),
    {
        let family = self.family();
        if family.get_tile_type(pos) == TileType::NoTile {
            return None;
        }
        Some(TileRef { family, p: pos })
    }

    /// A reference to the tile at `pos` for writing, if there is a tile there
    ///
    /// Writes go through the setters of the tile reference, which take the bitstream.
    pub fn tile_mut(&mut self, pos: TilePos) -> (r: Option<TileRef>)
        ensures
            *final(self) == *old(self),
            r == (if spec_tile_type(old(self)@.family, pos) == TileType::NoTile {
                None
            } else {
                Some(TileRef { family: old(self)@.family, p: pos })
            }),
    {
        self.tile(pos)
    }
}

/// Where the bits of global-to-local mux `i` of a logic, routing-only or BRAM tile sit
///
/// There are 4 of them which fit into the "gap" between the top half and the bottom half
/// of a tile's control bits. BRAM tiles have 2 more, in their leftmost column (the one
/// which causes everything else to be scooted right by 1).
pub struct GlobalToLocalMuxRef {
    pub is_bram: bool,
    pub i: u8,
}

impl FieldPositionCalculator for GlobalToLocalMuxRef {
    open spec fn spec_valid(&self) -> bool {
        if self.is_bram {
            self.i < 6
        } else {
            self.i < 4
        }
    }

    open spec fn spec_nbits(&self) -> nat {
        6
    }

    open spec fn spec_bit_pos(&self, biti: int) -> TileRelativeBitPos {
        if self.i < 4 {
            let y: u8 = if self.i == 0 || self.i == 2 {
                32
            } else {
                35
            };
            let x = 2 + biti + (if self.i < 2 { 0int } else { 6 }) + (if self.is_bram { 1int } else { 0 });
            TileRelativeBitPos { y, x: x as u8 }
        } else if self.i == 4 {
            TileRelativeBitPos { y: (biti + 26) as u8, x: 0 }
        } else {
            TileRelativeBitPos { y: (41 - biti) as u8, x: 0 }
        }
    }

    open spec fn spec_width(&self) -> int {
        15
    }

    open spec fn spec_height(&self) -> int {
        42
    }

    proof fn lemma_layout(&self) {
    }

    fn get_bit_pos(&self, biti: usize) -> (r: TileRelativeBitPos) {
        let b = biti as u8;
        if self.i < 4 {
            let y: u8 = if self.i == 0 || self.i == 2 {
                32
            } else {
                35
            };
            let mut x: u8 = 2 + b + if self.i < 2 {
                0
            } else {
                6
            };
            if self.is_bram {
                x = x + 1;
            }
            TileRelativeBitPos { y, x }
        } else if self.i == 4 {
            TileRelativeBitPos { y: b + 26, x: 0 }
        } else {
            TileRelativeBitPos { y: 41 - b, x: 0 }
        }
    }
}

} // verus!
