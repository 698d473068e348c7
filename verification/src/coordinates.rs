//! Coordinates (i.e. `(x, y)` pairs) needed for accessing bitstreams

use vstd::prelude::*;

use crate::chips::{spec_tile_dims, Family};

verus! {

/// The location of a tile within the array
///
/// The origin for this coordinate system is at the bottom-left,
/// with x increasing when moving right and y increasing when moving up
/// (a "mathematics" convention).
#[derive(Clone, Copy, PartialEq, Eq, PartialOrd, Ord, Hash, Debug, Default, Structural)]
pub struct TilePos {
    pub y: u8,
    pub x: u8,
}

/// The location of a bit within the main array's configuration data
///
/// The origin for this coordinate system is at the top-left,
/// with x increasing when moving right and y increasing when moving down
/// (a "computer graphics" convention).
#[derive(Clone, Copy, PartialEq, Eq, PartialOrd, Ord, Hash, Debug, Structural)]
pub struct GlobalBitPos {
    pub y: u32,
    pub x: u32,
}

/// The location of a bit within one tile's configuration data
///
/// The origin for this coordinate system is at the top-left,
/// with x increasing when moving right and y increasing when moving down
/// (a "computer graphics" convention).
#[derive(Clone, Copy, PartialEq, Eq, PartialOrd, Ord, Hash, Debug, Structural)]
pub struct TileRelativeBitPos {
    pub y: u8,
    pub x: u8,
}

/// Is this tile position inside the tile grid of the family?
pub open spec fn tile_in_grid(family: Family, tile_pos: TilePos) -> bool {
    tile_pos.x < spec_tile_dims(family).0 && tile_pos.y < spec_tile_dims(family).1
}

/// The global x coordinate of the left edge of a tile
pub open spec fn spec_tile_origin_x(family: Family, tile_pos: TilePos) -> int {
    match family {
        Family::AGRV2K => {
            let tx = tile_pos.x as int;
            if tx == 0 {
                0int  // left-side IO
            } else if 1 <= tx <= 12 {
                20 + (tx - 1) * 36  // tiles left of BRAM
            } else if tx == 13 {
                if 5 <= tile_pos.y <= 12 {
                    // a hard-IP tile, which is *right* aligned
                    20 + 12 * 36 + 180 - 20int
                } else {
                    20 + 12 * 36int  // normal BRAM
                }
            } else if 14 <= tx <= 20 {
                20 + 12 * 36 + 180 + (tx - 14) * 36  // tiles right of BRAM
            } else if tx == 21 {
                20 + 12 * 36 + 180 + 7 * 36int  // routing-only column
            } else {
                20 + 12 * 36 + 180 + 7 * 36 + 16int  // right-side IO
            }
        },
    }
}

/// The global y coordinate of the top edge of a tile
///
/// The tile position's y-axis and the bit coordinate y-axis go in opposite directions.
pub open spec fn spec_tile_origin_y(family: Family, tile_pos: TilePos) -> int {
    match family {
        Family::AGRV2K => {
            let ty = tile_pos.y as int;
            if ty == 13 {
                0int  // top-side IO
            } else if 1 <= ty <= 12 {
                22 + (12 - ty) * 68  // central portion
            } else {
                22 + 12 * 68int  // bottom-side IO
            }
        },
    }
}

/// Convert a tile-relative coordinate to a global coordinate
pub open spec fn spec_global_from_tile(
    family: Family,
    tile_pos: TilePos,
    rel: TileRelativeBitPos,
) -> GlobalBitPos {
    GlobalBitPos {
        y: (rel.y + spec_tile_origin_y(family, tile_pos)) as u32,
        x: (rel.x + spec_tile_origin_x(family, tile_pos)) as u32,
    }
}

impl GlobalBitPos {
    /// Convert a tile-relative coordinate to a global coordinate
    pub fn from(args: (Family, TilePos, TileRelativeBitPos)) -> (r: GlobalBitPos)
        requires
            tile_in_grid(args.0, args.1),
        ensures
            r == spec_global_from_tile(args.0, args.1, args.2),
    {
        let (family, tile_pos, tile_bit_pos) = args;
        let (tile_w, tile_h) = family.tile_dims();
        match family {
            Family::AGRV2K => {
                let x_out: u32 = if tile_pos.x == 0 {
                    tile_bit_pos.x as u32  // left-side IO
                } else if tile_pos.x <= 12 {
                    tile_bit_pos.x as u32 + 20 + ((tile_pos.x as u32 - 1) * 36)  // tiles left of BRAM
                } else if tile_pos.x == 13 {
                    // BRAM column
                    if 5 <= tile_pos.y && tile_pos.y <= 12 {
                        // a hard-IP tile, which is *right* aligned
                        tile_bit_pos.x as u32 + 20 + 12 * 36 + 180 - 20
                    } else {
                        // normal BRAM
                        tile_bit_pos.x as u32 + 20 + 12 * 36
                    }
                } else if tile_pos.x <= 20 {
                    // tiles right of BRAM
                    tile_bit_pos.x as u32 + 20 + 12 * 36 + 180 + ((tile_pos.x as u32 - 14) * 36)
                } else if tile_pos.x == 21 {
                    tile_bit_pos.x as u32 + 20 + 12 * 36 + 180 + 7 * 36  // routing-only column
                } else {
                    tile_bit_pos.x as u32 + 20 + 12 * 36 + 180 + 7 * 36 + 16  // right-side IO
                };
                let y_out: u32 = if tile_pos.y == 13 {
                    tile_bit_pos.y as u32  // top-side IO
                } else if tile_pos.y >= 1 {
                    tile_bit_pos.y as u32 + 22 + ((12 - tile_pos.y as u32) * 68)  // central portion
                } else {
                    tile_bit_pos.y as u32 + 22 + 12 * 68  // bottom-side IO
                };
                GlobalBitPos { y: y_out, x: x_out }
            },
        }
    }
}

} // verus!
