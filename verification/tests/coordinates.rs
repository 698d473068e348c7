use pannotia::chips::Family;
use pannotia::coordinates::{GlobalBitPos, TilePos, TileRelativeBitPos};

#[test]
fn test_agrv2k_tile_coord_convert() {
    // logic tile in the bottom-left
    assert_eq!(
        GlobalBitPos::from((
            Family::AGRV2K,
            TilePos { x: 1, y: 1 },
            TileRelativeBitPos { x: 11, y: 22 }
        )),
        GlobalBitPos {
            x: (20) + 11,
            y: (22 + 11 * 68) + 22
        }
    );

    // logic tile at the top, right of the BRAM column
    assert_eq!(
        GlobalBitPos::from((
            Family::AGRV2K,
            TilePos { x: 14, y: 12 },
            TileRelativeBitPos { x: 11, y: 22 }
        )),
        GlobalBitPos {
            x: (20 + 12 * 36 + 180) + 11,
            y: (22) + 22
        }
    );

    // logic tile in the top-right
    assert_eq!(
        GlobalBitPos::from((
            Family::AGRV2K,
            TilePos { x: 20, y: 12 },
            TileRelativeBitPos { x: 11, y: 22 }
        )),
        GlobalBitPos {
            x: (20 + 12 * 36 + 180 + 6 * 36) + 11,
            y: (22) + 22
        }
    );

    // IO tile in the top-right
    assert_eq!(
        GlobalBitPos::from((
            Family::AGRV2K,
            TilePos { x: 22, y: 12 },
            TileRelativeBitPos { x: 11, y: 22 }
        )),
        GlobalBitPos {
            x: (20 + 12 * 36 + 180 + 7 * 36 + 16) + 11,
            y: (22) + 22
        }
    );
}
