//! Database of factoids about chip designs

use vstd::prelude::*;

use crate::coordinates::TilePos;
use crate::textparse::{eq_ignore_case, spec_eq_ignore_case};
use crate::tiles::TileType;

verus! {

/// Represents the "family" of the FPGA being worked on
///
/// This represents a unique bitstream format and die layout,
/// but it abstracts over details such as pinouts and mechanical packages.
#[non_exhaustive]
#[derive(Clone, Copy, PartialEq, Eq, Debug, Hash, Structural)]
pub enum Family {
    /// AGRV2K CPLDs and AG32V microcontrollers
    AGRV2K,
}

/// The family whose printed name is `s`, in any ASCII case
pub open spec fn spec_family_from_name(s: Seq<char>) -> Option<Family> {
    if spec_eq_ignore_case(s, spec_family_name(Family::AGRV2K)) {
        Some(Family::AGRV2K)
    } else {
        None
    }
}

impl Family {
    /// The family whose printed name is `s`, in any ASCII case
    pub fn from_name(s: &[char]) -> (r: Option<Family>)
        ensures
            r == spec_family_from_name(s@),
    {
        let name = ['A', 'G', 'R', 'V', '2', 'K'];
        proof {
            reveal_strlit("AGRV2K");
            assert(name@ =~= spec_family_name(Family::AGRV2K));
        }
        if eq_ignore_case(s, &name) {
            Some(Family::AGRV2K)
        } else {
            None
        }
    }
}

/// The device ID code of a family
pub open spec fn spec_device_id(f: Family) -> u32 {
    match f {
        Family::AGRV2K => 0x40200001,
    }
}

/// The sizes (in bits) of all the configuration arrays, indexed by group then by chain
pub open spec fn spec_config_bits(f: Family) -> Seq<Seq<usize>> {
    match f {
        Family::AGRV2K => seq![seq![798080usize], seq![834usize, 239usize]],
    }
}

/// The size of the main logic array in bits, `(W, H)`
pub open spec fn spec_main_logic_bits(f: Family) -> (u32, u32) {
    match f {
        Family::AGRV2K => (920, 860),
    }
}

/// The size of the logic array in tiles, `(W, H)`
pub open spec fn spec_tile_dims(f: Family) -> (u8, u8) {
    match f {
        Family::AGRV2K => (23, 14),
    }
}

/// The type of tile that exists at a given position
pub open spec fn spec_tile_type(f: Family, pos: TilePos) -> TileType {
    let (w, h) = spec_tile_dims(f);
    if pos.x >= w || pos.y >= h {
        TileType::NoTile
    } else {
        match f {
            Family::AGRV2K => {
                let x = pos.x;
                let y = pos.y;
                if 1 <= x <= 12 && 1 <= y <= 4 {
                    TileType::Logic
                } else if 14 <= x <= 20 && 1 <= y <= 12 {
                    TileType::Logic
                } else if x == 21 && 1 <= y <= 12 {
                    TileType::RoutingOnly
                } else if x == 22 && y == 4 {
                    TileType::GCLKSW
                } else if x == 22 && y == 5 {
                    TileType::PLL
                } else if x == 13 && 1 <= y <= 4 {
                    TileType::BRAM
                } else if x == 13 && 5 <= y <= 12 {
                    TileType::LeftRightIP
                } else if 1 <= x <= 12 && y == 5 {
                    TileType::TopIP
                } else if x == 0 && 1 <= y <= 4 {
                    TileType::LeftRightIO
                } else if x == 22 && 1 <= y <= 3 {
                    TileType::LeftRightIO
                } else if 14 <= x <= 20 && y == 13 {
                    TileType::TopBottomIO
                } else if 1 <= x <= 20 && x != 4 && x != 13 && y == 0 {
                    TileType::TopBottomIO
                } else if x == 22 && 6 <= y <= 12 {
                    TileType::LeftRightIP
                } else {
                    TileType::NoTile
                }
            },
        }
    }
}

/// The family whose device ID is `value`, if there is one
pub open spec fn spec_family_from_device_id(value: u32) -> Option<Family> {
    if value == 0x40200001 {
        Some(Family::AGRV2K)
    } else {
        None
    }
}

impl Family {
    /// Get the device ID code for this family
    pub fn device_id(self) -> (r: u32)
        ensures
            r == spec_device_id(self),
    {
        match self {
            Family::AGRV2K => 0x40200001,
        }
    }

    /// Return the sizes of all the configuration arrays
    pub fn config_bits(self) -> (r: Vec<Vec<usize>>)
        ensures
            r.deep_view() == spec_config_bits(self),
    {
        match self {
            Family::AGRV2K => {
                let g0: Vec<usize> = vec![860 * 928];
                let g1: Vec<usize> = vec![834, 239];
                assert(g0@ =~= seq![798080usize]);
                assert(g1@ =~= seq![834usize, 239usize]);
                let ret = vec![g0, g1];
                assert(ret.deep_view()[0] == g0@);
                assert(ret.deep_view()[1] == g1@);
                assert(ret.deep_view() =~= spec_config_bits(self));
                ret
            },
        }
    }

    /// Returns the size of the main logic array in bits, `(W, H)`
    ///
    /// This does _not_ include per-row unused padding bits,
    /// so W*H might not equal the number of bits returned by [config_bits](Self::config_bits)
    pub fn main_logic_bits(self) -> (r: (u32, u32))
        ensures
            r == spec_main_logic_bits(self),
    {
        match self {
            // NOTE: we lose 8 unused bits from the end of each row
            Family::AGRV2K => (920, 860),
        }
    }

    /// Returns the size of the logic array in tiles, `(W, H)`
    pub fn tile_dims(self) -> (r: (u8, u8))
        ensures
            r == spec_tile_dims(self),
    {
        match self {
            Family::AGRV2K => (23, 14),
        }
    }

    /// Returns the type of tile that exists at the specified position
    pub fn get_tile_type(self, pos: TilePos) -> (r: TileType)
        ensures
            r == spec_tile_type(self, pos),
    {
        let (w, h) = self.tile_dims();
        if pos.x >= w || pos.y >= h {
            return TileType::NoTile;
        }
        match self {
            Family::AGRV2K => {
                if pos.x >= 1 && pos.x <= 12 && pos.y >= 1 && pos.y <= 4 {
                    TileType::Logic  // bottom-left block of logic
                } else if pos.x >= 14 && pos.x <= 20 && pos.y >= 1 && pos.y <= 12 {
                    TileType::Logic  // right block of logic
                } else if pos.x == 21 && pos.y >= 1 && pos.y <= 12 {
                    TileType::RoutingOnly
                } else if pos.x == 22 && pos.y == 4 {
                    TileType::GCLKSW
                } else if pos.x == 22 && pos.y == 5 {
                    TileType::PLL
                } else if pos.x == 13 && pos.y >= 1 && pos.y <= 4 {
                    TileType::BRAM
                } else if pos.x == 13 && pos.y >= 5 && pos.y <= 12 {
                    TileType::LeftRightIP  // MCU right-side interface
                } else if pos.x >= 1 && pos.x <= 12 && pos.y == 5 {
                    TileType::TopIP  // MCU bottom-side interface
                } else if pos.x == 0 && pos.y >= 1 && pos.y <= 4 {
                    TileType::LeftRightIO  // left/west IO
                } else if pos.x == 22 && pos.y >= 1 && pos.y <= 3 {
                    TileType::LeftRightIO  // right/east IO
                } else if pos.x >= 14 && pos.x <= 20 && pos.y == 13 {
                    TileType::TopBottomIO  // top/north IO
                } else if pos.x >= 1 && pos.x <= 20 && pos.x != 4 && pos.x != 13 && pos.y == 0 {
                    TileType::TopBottomIO  // bottom/south IO
                } else if pos.x == 22 && pos.y >= 6 && pos.y <= 12 {
                    TileType::LeftRightIP  // analog IP
                } else {
                    TileType::NoTile
                }
            },
        }
    }

    /// Try converting a device ID to a chip family
    pub fn try_from(value: u32) -> (r: Result<Family, ()>)
        ensures
            r matches Ok(f) ==> spec_family_from_device_id(value) == Some(f),
            r is Err <==> spec_family_from_device_id(value) is None,
    {
        match value {
            0x40200001 => Ok(Family::AGRV2K),
            _ => Err(()),
        }
    }

    /// The name of this family, as its `Display` implementation writes it
    pub fn name(self) -> (r: &'static str)
        ensures
            r@ == spec_family_name(self),
    {
        match self {
            Family::AGRV2K => "AGRV2K",
        }
    }
}

/// The printed name of a family
pub open spec fn spec_family_name(f: Family) -> Seq<char> {
    match f {
        Family::AGRV2K => "AGRV2K"@,
    }
}

/// Selecting a family by its printed name gives the family back.
pub proof fn lemma_family_name_roundtrip(f: Family)
    ensures
        spec_family_from_name(spec_family_name(f)) == Some(f),
{
}

/// Decoding a family's own device ID gives the family back.
pub proof fn lemma_device_id_roundtrip(f: Family)
    ensures
        spec_family_from_device_id(spec_device_id(f)) == Some(f),
{
}

} // verus!
