//! Routing database

use vstd::prelude::*;

use crate::chips::{spec_tile_dims, spec_tile_type, Family};
use crate::coordinates::TilePos;

verus! {

#[non_exhaustive]
#[derive(Clone, Copy, PartialEq, Eq, Debug, Hash, Structural)]
pub enum WireType {
    T1,
    T4,
}

/// The span (in tiles) of a wire type
pub open spec fn spec_wire_span(t: WireType) -> int {
    match t {
        WireType::T1 => 1,
        WireType::T4 => 4,
    }
}

impl WireType {
    /// The span of this wire type as a `u8`
    pub fn to_u8(self) -> (r: u8)
        ensures
            r == spec_wire_span(self),
    {
        match self {
            WireType::T1 => 1,
            WireType::T4 => 4,
        }
    }

    /// The span of this wire type as a `u32`
    pub fn to_u32(self) -> (r: u32)
        ensures
            r == spec_wire_span(self),
    {
        match self {
            WireType::T1 => 1,
            WireType::T4 => 4,
        }
    }

    /// The span of this wire type as a `usize`
    pub fn to_usize(self) -> (r: usize)
        ensures
            r == spec_wire_span(self),
    {
        match self {
            WireType::T1 => 1,
            WireType::T4 => 4,
        }
    }
}

#[derive(Clone, Copy, PartialEq, Eq, Debug, Hash, Structural)]
pub enum Direction {
    N,
    S,
    E,
    W,
}

pub open spec fn spec_flip(d: Direction) -> Direction {
    match d {
        Direction::N => Direction::S,
        Direction::S => Direction::N,
        Direction::E => Direction::W,
        Direction::W => Direction::E,
    }
}

/// One step from `p` in direction `d`, if it stays within the coordinate range
pub open spec fn spec_step(p: TilePos, d: Direction) -> Option<TilePos> {
    match d {
        Direction::N => if p.y < 255 { Some(TilePos { x: p.x, y: (p.y + 1) as u8 }) } else { None },
        Direction::S => if p.y > 0 { Some(TilePos { x: p.x, y: (p.y - 1) as u8 }) } else { None },
        Direction::E => if p.x < 255 { Some(TilePos { x: (p.x + 1) as u8, y: p.y }) } else { None },
        Direction::W => if p.x > 0 { Some(TilePos { x: (p.x - 1) as u8, y: p.y }) } else { None },
    }
}

impl Direction {
    pub fn flip(self) -> (r: Self)
        ensures
            r == spec_flip(self),
    {
        match self {
            Self::N => Self::S,
            Self::S => Self::N,
            Self::E => Self::W,
            Self::W => Self::E,
        }
    }
}

impl TilePos {
    /// The neighboring tile position in direction `rhs`
    pub fn add(self, rhs: Direction) -> (r: TilePos)
        requires
            spec_step(self, rhs) is Some,
        ensures
            spec_step(self, rhs) == Some(r),
    {
        match rhs {
            Direction::N => TilePos { x: self.x, y: self.y + 1 },
            Direction::S => TilePos { x: self.x, y: self.y - 1 },
            Direction::E => TilePos { x: self.x + 1, y: self.y },
            Direction::W => TilePos { x: self.x - 1, y: self.y },
        }
    }

    /// Move this tile position one step in direction `rhs`
    pub fn add_assign(&mut self, rhs: Direction)
        requires
            spec_step(*old(self), rhs) is Some,
        ensures
            spec_step(*old(self), rhs) == Some(*final(self)),
    {
        *self = self.add(rhs);
    }
}

/// Flipping a direction twice gives it back.
pub proof fn lemma_flip_involution(d: Direction)
    ensures
        spec_flip(spec_flip(d)) == d,
{
}

/// A step followed by a step in the flipped direction returns to the start.
pub proof fn lemma_step_back(p: TilePos, d: Direction)
    requires
        spec_step(p, d) is Some,
    ensures
        spec_step(spec_step(p, d).unwrap(), spec_flip(d)) == Some(p),
{
}

/// A general-purpose routing wire, tile-relative numbering
#[derive(Clone, Copy, PartialEq, Eq, Debug, Hash, Structural)]
pub struct RoutingWire {
    pub ty: WireType,
    pub going_dir: Direction,
    pub bundle: u8,
    pub wire_idx: u8,
}

/// A general-purpose routing wire, absolute numbering
#[derive(Clone, Copy, PartialEq, Eq, Debug, Hash, Structural)]
pub struct AbsoluteRoutingWire {
    pub tile: TilePos,
    pub ty: WireType,
    pub going_dir: Direction,
    pub wire_idx: u8,
}

/// The number of bundles a wire of this type and direction has
pub open spec fn spec_max_bundle(ty: WireType, going_dir: Direction) -> int {
    match ty {
        WireType::T1 => match going_dir {
            Direction::N | Direction::S => 0,  // not valid at all
            Direction::E | Direction::W => 1,
        },
        WireType::T4 => 4,
    }
}

/// Does a wire walking through `cur` have to turn around here?
pub open spec fn spec_is_turnaround(family: Family, cur: TilePos) -> bool {
    let (tile_w, tile_h) = spec_tile_dims(family);
    ||| spec_tile_type(family, cur).spec_is_boundary()
    // Apparently, there are loop wires in the empty tile below the BRAM
    ||| cur.x == 0
    ||| cur.x == tile_w - 1
    ||| cur.y == 0
    ||| cur.y == tile_h - 1
}

/// Walk `n` more bundle steps from `cur` in direction `dir`.
///
/// Returns the final position, direction and whether the walk has turned around,
/// or `None` if the walk leaves the coordinate range or would turn around twice.
pub open spec fn spec_walk(
    family: Family,
    cur: TilePos,
    dir: Direction,
    flipped: bool,
    n: nat,
) -> Option<(TilePos, Direction, bool)>
    decreases n,
{
    if n == 0 {
        Some((cur, dir, flipped))
    } else if spec_is_turnaround(family, cur) {
        if flipped {
            None
        } else {
            // because the signals don't go "through" the edge tiles,
            // we have to do an additional step in order to take that into account
            let d2 = spec_flip(dir);
            match spec_step(cur, d2) {
                None => None,
                Some(c1) => match spec_step(c1, d2) {
                    None => None,
                    Some(c2) => spec_walk(family, c2, d2, true, (n - 1) as nat),
                },
            }
        }
    } else {
        match spec_step(cur, dir) {
            None => None,
            Some(c) => spec_walk(family, c, dir, flipped, (n - 1) as nat),
        }
    }
}

/// The absolute wire that a tile-relative wire refers to, if it is valid
pub open spec fn spec_to_absolute(
    w: RoutingWire,
    family: Family,
    tile_pos: TilePos,
) -> Option<AbsoluteRoutingWire> {
    if w.bundle >= spec_max_bundle(w.ty, w.going_dir) {
        None
    } else {
        let dir0 = spec_flip(w.going_dir);
        match spec_step(tile_pos, dir0) {
            None => None,
            Some(start) => match spec_walk(family, start, dir0, false, w.bundle as nat) {
                None => None,
                Some((cur, dir, _)) => {
                    let tile_type = spec_tile_type(family, cur);
                    let via_loop = match w.ty {
                        WireType::T1 => tile_type.spec_has_loop1(),
                        WireType::T4 => tile_type.spec_has_loop4(),
                    };
                    if tile_type.spec_is_boundary() && via_loop {
                        // Handle looping through buffers: back up one tile
                        match spec_step(cur, spec_flip(dir)) {
                            None => None,
                            Some(back) => Some(
                                AbsoluteRoutingWire {
                                    tile: back,
                                    ty: w.ty,
                                    going_dir: dir,
                                    wire_idx: w.wire_idx,
                                },
                            ),
                        }
                    } else {
                        Some(
                            AbsoluteRoutingWire {
                                tile: cur,
                                ty: w.ty,
                                going_dir: spec_flip(dir),
                                wire_idx: w.wire_idx,
                            },
                        )
                    }
                },
            },
        }
    }
}

impl RoutingWire {
    /// Convert a wire named relative to `tile_pos` into its absolute name
    ///
    /// A wire is named by where it ends, while its absolute name is
    /// where it was driven from.
    pub fn to_absolute(self, family: Family, tile_pos: TilePos) -> (r: AbsoluteRoutingWire)
        requires
            spec_to_absolute(self, family, tile_pos) is Some,
        ensures
            spec_to_absolute(self, family, tile_pos) == Some(r),
    {
        let max_bundle: u8 = match self.ty {
            WireType::T1 => match self.going_dir {
                Direction::N | Direction::S => 0,  // not valid at all
                Direction::E | Direction::W => 1,
            },
            WireType::T4 => 4,
        };
        assert(self.bundle < max_bundle);

        let mut dir = self.going_dir.flip();
        let mut cur_pos = tile_pos.add(dir);
        let mut did_flip_dir = false;
        let (tile_w, tile_h) = family.tile_dims();
        let ghost target = spec_walk(family, cur_pos, dir, false, self.bundle as nat);
        let mut i: u8 = 0;
        while i < self.bundle
            invariant
                i <= self.bundle,
                target is Some,
                spec_walk(family, cur_pos, dir, did_flip_dir, (self.bundle - i) as nat) == target,
                (tile_w, tile_h) == spec_tile_dims(family),
            decreases self.bundle - i,
        {
            // handle flipping wires around the edges
            if family.get_tile_type(cur_pos).is_boundary() || cur_pos.x == 0 || cur_pos.x == tile_w
                - 1 || cur_pos.y == 0 || cur_pos.y == tile_h - 1 {
                did_flip_dir = true;
                dir = dir.flip();
                // because the signals don't go "through" the edge tiles,
                // we have to do an additional add in order to take that into account
                cur_pos.add_assign(dir);
            }
            cur_pos.add_assign(dir);
            i = i + 1;
        }

        // Handle looping through buffers
        let tile_type = family.get_tile_type(cur_pos);
        if tile_type.is_boundary() {
            let via_loop = match self.ty {
                WireType::T1 => tile_type.has_loop1(),
                WireType::T4 => tile_type.has_loop4(),
            };
            if via_loop {
                return AbsoluteRoutingWire {
                    tile: cur_pos.add(dir.flip()),  // back up one tile
                    ty: self.ty,
                    going_dir: dir,
                    wire_idx: self.wire_idx,
                };
            }
        }

        AbsoluteRoutingWire {
            tile: cur_pos,
            ty: self.ty,
            going_dir: dir.flip(),  // flip again to get the original going direction
            wire_idx: self.wire_idx,
        }
    }
}


/// The inputs of a RMUX as its input table records them
#[allow(dead_code)]
#[derive(Clone, Copy, PartialEq, Eq, Debug, Hash, Structural)]
enum RMUXSourceInternal {
    SpecialCaseInput,
    CellOutput(u8),
    RoutingWire { ty: WireType, going_dir: Direction, bundle: u8, wire_idx: u8 },
}

#[allow(dead_code)]
impl RMUXSourceInternal {
    fn into_rmux_source(self) -> (r: RMUXSource)
        requires
            !(self is SpecialCaseInput),
        ensures
            match self {
                RMUXSourceInternal::SpecialCaseInput => false,
                RMUXSourceInternal::CellOutput(i) => r == RMUXSource::CellOutput(i),
                RMUXSourceInternal::RoutingWire { ty, going_dir, bundle, wire_idx } => r
                    == RMUXSource::RoutingWire(RoutingWire { ty, going_dir, bundle, wire_idx }),
            },
    {
        match self {
            Self::SpecialCaseInput => {
                assert(false);
                RMUXSource::CellOutput(0)
            },
            Self::CellOutput(i) => RMUXSource::CellOutput(i),
            Self::RoutingWire { ty, going_dir, bundle, wire_idx } => RMUXSource::RoutingWire(
                RoutingWire { ty, going_dir, bundle, wire_idx },
            ),
        }
    }
}

/// Possible sources to drive a RMUX
#[non_exhaustive]
#[derive(Clone, Copy, PartialEq, Eq, Debug, Hash, Structural)]
pub enum RMUXSource {
    /// One (of 4) global-to-local muxes in this tile
    GlobalToLocal(u8),
    /// The output of another RMUX in this tile
    RMUX(u8),
    /// The output of the internals of this tile
    CellOutput(u8),
    /// A routing wire coming into this tile
    RoutingWire(RoutingWire),
}

/// What a given RMUX actually does
#[derive(Clone, Copy, PartialEq, Eq, Debug, Hash, Structural)]
pub enum RMUXPurpose {
    /// A self-wire into the tile's logic
    ///
    /// Index is arbitrary-ish but contiguous, and ranges up to 32 for the currently-supported families
    SelfWire(u8),
    /// A T1 left-going neighbor wire
    LeftNeighbor(u8),
    /// A span-4 wire
    Span4 { going_dir: Direction, wire_idx: u8 },
}

/// Map of neighbor wire to the RMUX index that controls it
pub open spec fn spec_rmux_idx_for_neighbor(i: u8) -> int {
    i * 6
}

/// Map of self-wire to the RMUX index that controls it
pub open spec fn spec_rmux_idx_for_self(i: u8) -> int {
    (i / 2 * 6) + (i % 2) + 4
}

/// The RMUX indices controlling the span-4 wires going in each direction
pub open spec fn spec_span4_rmux_table(dir: Direction) -> Seq<int> {
    match dir {
        Direction::N => seq![25, 2, 75, 55, 32, 9, 85, 62, 39, 19, 92, 69],
        Direction::S => seq![73, 50, 27, 7, 80, 57, 37, 14, 87, 67, 44, 21],
        Direction::E => seq![1, 74, 51, 31, 8, 81, 61, 38, 15, 91, 68, 45],
        Direction::W => seq![49, 26, 3, 79, 56, 33, 13, 86, 63, 43, 20, 93],
    }
}

/// Map of neighbor wire to the RMUX index that controls it
pub fn rmux_idx_for_neighbor(i: u8) -> (r: usize)
    ensures
        r == spec_rmux_idx_for_neighbor(i),
{
    i as usize * 6
}

/// Map of self-wire to the RMUX index that controls it
pub fn rmux_idx_for_self(i: u8) -> (r: usize)
    requires
        i < 84,
    ensures
        r == spec_rmux_idx_for_self(i),
{
    ((i / 2 * 6) + (i % 2) + 4) as usize
}

/// Map of span-4 wire to the RMUX index that controls it
pub fn rmux_idx_for_span4(dir: Direction, wire_idx: u8) -> (r: usize)
    requires
        wire_idx < 12,
    ensures
        r == spec_span4_rmux_table(dir)[wire_idx as int],
{
    let t: [u8; 12] = match dir {
        Direction::N => [25u8, 2, 75, 55, 32, 9, 85, 62, 39, 19, 92, 69],
        Direction::S => [73, 50, 27, 7, 80, 57, 37, 14, 87, 67, 44, 21],
        Direction::E => [1, 74, 51, 31, 8, 81, 61, 38, 15, 91, 68, 45],
        Direction::W => [49, 26, 3, 79, 56, 33, 13, 86, 63, 43, 20, 93],
    };
    assert(t@ =~= spec_span4_rmux_table(dir).map_values(|v: int| v as u8));
    t[wire_idx as usize] as usize
}

/// The direction of the span-4 wire at position `j` (in RMUX order) of the span-4 RMUXes
pub open spec fn spec_span4_dir_at(j: int) -> Direction {
    let k = (j + j / 12) % 4;
    if k == 0 {
        Direction::E
    } else if k == 1 {
        Direction::N
    } else if k == 2 {
        Direction::W
    } else {
        Direction::S
    }
}

/// What the RMUX with index `i` drives
pub open spec fn spec_rmux_purpose(i: int) -> RMUXPurpose {
    let within = i % 6;
    if within == 0 {
        RMUXPurpose::LeftNeighbor((i / 6) as u8)
    } else if within == 4 || within == 5 {
        RMUXPurpose::SelfWire((i / 6 * 2 + within - 4) as u8)
    } else {
        let j = i / 6 * 3 + within - 1;
        RMUXPurpose::Span4 { going_dir: spec_span4_dir_at(j), wire_idx: (j % 12) as u8 }
    }
}

/// Map of RMUX index to what it actually does
///
/// Of every 6 RMUXes, the first drives a left-going neighbor wire, the next three drive
/// span-4 wires, and the last two drive self-wires.
pub fn rmux_purpose(i: u8) -> (r: RMUXPurpose)
    requires
        i < 96,
    ensures
        r == spec_rmux_purpose(i as int),
{
    let within = i % 6;
    if within == 0 {
        RMUXPurpose::LeftNeighbor(i / 6)
    } else if within == 4 || within == 5 {
        RMUXPurpose::SelfWire(i / 6 * 2 + within - 4)
    } else {
        let j = i / 6 * 3 + within - 1;
        let k = (j + j / 12) % 4;
        let going_dir = if k == 0 {
            Direction::E
        } else if k == 1 {
            Direction::N
        } else if k == 2 {
            Direction::W
        } else {
            Direction::S
        };
        RMUXPurpose::Span4 { going_dir, wire_idx: j % 12 }
    }
}

/// The RMUX purpose map agrees with the three maps from wires to RMUX indices:
/// every left neighbor wire, self-wire and span-4 wire is driven by the RMUX that
/// its map names.
pub proof fn lemma_rmux_purpose_consistent()
    ensures
        forall|i: u8|
            i < 16 ==> #[trigger] spec_rmux_purpose(spec_rmux_idx_for_neighbor(i))
                == RMUXPurpose::LeftNeighbor(i),
        forall|i: u8|
            i < 32 ==> #[trigger] spec_rmux_purpose(spec_rmux_idx_for_self(i))
                == RMUXPurpose::SelfWire(i),
        forall|d: Direction, k: u8|
            k < 12 ==> #[trigger] spec_rmux_purpose(spec_span4_rmux_table(d)[k as int])
                == (RMUXPurpose::Span4 { going_dir: d, wire_idx: k }),
{
    assert forall|d: Direction, k: u8| k < 12 implies #[trigger] spec_rmux_purpose(
        spec_span4_rmux_table(d)[k as int],
    ) == (RMUXPurpose::Span4 { going_dir: d, wire_idx: k }) by {
        let t = spec_span4_rmux_table(d);
        if k == 0 {} else if k == 1 {} else if k == 2 {} else if k == 3 {} else if k == 4 {
        } else if k == 5 {} else if k == 6 {} else if k == 7 {} else if k == 8 {
        } else if k == 9 {} else if k == 10 {} else {}
    }
}


/// Possible sources to drive a (LUT/BRAM) input signal
#[non_exhaustive]
#[derive(Clone, Copy, PartialEq, Eq, Debug, Hash, Structural)]
pub enum FunctionInputSource {
    /// The output of an RMUX in this tile
    ///
    /// This will be a T0 self-wire
    RMUX(u8),
    /// A T1 left-going wire from the right neighbor
    RightNeighborWire(u8),
    /// A T1 right-going wire from the left neighbor (only for BRAM tiles)
    LeftNeighborWire(u8),
    /// The output of an LE in this tile (only for logic tiles)
    LEOutput(u8),
    /// Dummy VCC input (only for BRAM tiles)
    Unused,
}

/// IMUX inputs 11 to 26 of a logic cell bring in the tile's self-wires: input `k` brings
/// to LUT inputs A and C the RMUX that drives self-wire `2 * (k - 11)`, and to LUT inputs B
/// and D the RMUX that drives the next self-wire.
pub proof fn lemma_logic_imux_self_wires(le_idx: u8, le_inp_idx: u8, imux_inp_idx: u8)
    requires
        le_idx < 16,
        le_inp_idx < 4,
        11 <= imux_inp_idx <= 26,
    ensures
        spec_logic_imux_input(le_idx, le_inp_idx, imux_inp_idx) matches FunctionInputSource::RMUX(m)
            && m < 96 && spec_rmux_purpose(m as int) == RMUXPurpose::SelfWire(
            (2 * (imux_inp_idx - 11) + le_inp_idx % 2) as u8,
        ),
{
    let j = imux_inp_idx - 11;
    let w = if le_inp_idx == 0 || le_inp_idx == 2 { 4int } else { 5int };
    vstd::arithmetic::div_mod::lemma_fundamental_div_mod_converse(j * 6 + w, 6, j, w);
}

/// IMUX inputs 0 to 8 of a logic cell bring in LE outputs of the tile, in increasing order:
/// to LUT inputs A and C the even outputs and the odd output `le_idx / 2 * 2 + 1`, to LUT
/// inputs B and D the odd outputs and the even output `le_idx / 2 * 2`.
pub proof fn lemma_logic_imux_le_outputs(le_idx: u8, le_inp_idx: u8, k1: u8, k2: u8)
    requires
        le_idx < 16,
        le_inp_idx < 4,
        k1 < k2 <= 8,
    ensures
        spec_logic_imux_input(le_idx, le_inp_idx, k1) matches FunctionInputSource::LEOutput(o1)
            && spec_logic_imux_input(le_idx, le_inp_idx, k2) matches FunctionInputSource::LEOutput(o2)
            && o1 < o2 < 16 && (o1 % 2 == le_inp_idx % 2 || o1 == le_idx / 2 * 2 + 1 - le_inp_idx % 2)
            && (o2 % 2 == le_inp_idx % 2 || o2 == le_idx / 2 * 2 + 1 - le_inp_idx % 2),
{
}

/// IMUX inputs 9 and 10 of a logic cell bring in left-going neighbor wires from the right:
/// LUT input `n` of an even cell gets wires `n` and `n + 8`, of an odd cell wires `n + 4`
/// and `n + 12`.
pub proof fn lemma_logic_imux_neighbor_wires(le_idx: u8, le_inp_idx: u8)
    requires
        le_idx < 16,
        le_inp_idx < 4,
    ensures
        spec_logic_imux_input(le_idx, le_inp_idx, 9) == FunctionInputSource::RightNeighborWire(
            (le_inp_idx + if le_idx % 2 == 1 { 4int } else { 0 }) as u8,
        ),
        spec_logic_imux_input(le_idx, le_inp_idx, 10) == FunctionInputSource::RightNeighborWire(
            (le_inp_idx + 8 + if le_idx % 2 == 1 { 4int } else { 0 }) as u8,
        ),
{
}

/// Map of IMUX inputs for a logic tile
///
/// An IMUX has 27 inputs, which are divided up as follows:
/// `[0-8]` a LE output, `[9-10]` a neighbor wire, `[11-26]` a RMUX self-wire.
pub open spec fn spec_logic_imux_input(le_idx: u8, le_inp_idx: u8, imux_inp_idx: u8) -> FunctionInputSource {
    let le = le_idx as int;
    let k = imux_inp_idx as int;
    if k <= 8 {
        if le_inp_idx == 0 || le_inp_idx == 2 {
            // LUT inputs A/C have access to even LE outputs, with one extra odd output
            let xtra = le / 2 + 1;
            if k == xtra {
                FunctionInputSource::LEOutput((le / 2 * 2 + 1) as u8)
            } else if k > xtra {
                FunctionInputSource::LEOutput(((k - 1) * 2) as u8)
            } else {
                FunctionInputSource::LEOutput((k * 2) as u8)
            }
        } else {
            // LUT inputs B/D have access to odd LE outputs, with one extra even output
            let xtra = le / 2;
            if k == xtra {
                FunctionInputSource::LEOutput((le / 2 * 2) as u8)
            } else if k > xtra {
                FunctionInputSource::LEOutput(((k - 1) * 2 + 1) as u8)
            } else {
                FunctionInputSource::LEOutput((k * 2 + 1) as u8)
            }
        }
    } else if k == 9 {
        // Input 9 has access to the "top" half of the neighbor wires
        FunctionInputSource::RightNeighborWire((le % 2 * 4 + le_inp_idx) as u8)
    } else if k == 10 {
        // Input 10 has access to the "bottom" half of the neighbor wires
        FunctionInputSource::RightNeighborWire((le % 2 * 4 + le_inp_idx + 8) as u8)
    } else if le_inp_idx == 0 || le_inp_idx == 2 {
        // LUT inputs A/C have access to the "first of the two in the group"
        FunctionInputSource::RMUX(((k - 11) * 6 + 4) as u8)
    } else {
        // LUT inputs B/D have access to the second
        FunctionInputSource::RMUX(((k - 11) * 6 + 5) as u8)
    }
}

/// Map of IMUX inputs for a logic tile
pub fn logic_imux_input(le_idx: u8, le_inp_idx: u8, imux_inp_idx: u8) -> (r: FunctionInputSource)
    requires
        le_idx < 16,
        le_inp_idx < 4,
        imux_inp_idx < 27,
    ensures
        r == spec_logic_imux_input(le_idx, le_inp_idx, imux_inp_idx),
{
    if imux_inp_idx <= 8 {
        if le_inp_idx == 0 || le_inp_idx == 2 {
            // LUT inputs A/C have access to even LE outputs, with one extra odd output
            let xtra_idx = le_idx / 2 + 1;
            if imux_inp_idx == xtra_idx {
                FunctionInputSource::LEOutput(le_idx / 2 * 2 + 1)
            } else if imux_inp_idx > xtra_idx {
                FunctionInputSource::LEOutput((imux_inp_idx - 1) * 2)
            } else {
                FunctionInputSource::LEOutput(imux_inp_idx * 2)
            }
        } else {
            // LUT inputs B/D have access to odd LE outputs, with one extra even output
            let xtra_idx = le_idx / 2;
            if imux_inp_idx == xtra_idx {
                FunctionInputSource::LEOutput(le_idx / 2 * 2)
            } else if imux_inp_idx > xtra_idx {
                FunctionInputSource::LEOutput((imux_inp_idx - 1) * 2 + 1)
            } else {
                FunctionInputSource::LEOutput(imux_inp_idx * 2 + 1)
            }
        }
    } else if imux_inp_idx == 9 {
        // Input 9 has access to the "top" half of the neighbor wires
        FunctionInputSource::RightNeighborWire(le_idx % 2 * 4 + le_inp_idx)
    } else if imux_inp_idx == 10 {
        // Input 10 has access to the "bottom" half of the neighbor wires
        FunctionInputSource::RightNeighborWire(le_idx % 2 * 4 + le_inp_idx + 8)
    } else if le_inp_idx == 0 || le_inp_idx == 2 {
        // LUT inputs A/C have access to the "first of the two in the group"
        FunctionInputSource::RMUX((imux_inp_idx - 11) * 6 + 4)
    } else {
        // LUT inputs B/D have access to the second
        FunctionInputSource::RMUX((imux_inp_idx - 11) * 6 + 5)
    }
}

/// Map of CtrlMUX inputs for a logic tile
pub open spec fn spec_logic_ctrl_preselect_input(ctrlmux_idx: u8, ctrlmux_inp_idx: u8) -> FunctionInputSource {
    let c = ctrlmux_idx as int % 2;
    let k = ctrlmux_inp_idx as int;
    if k <= 7 {
        FunctionInputSource::LEOutput((k * 2 + c) as u8)
    } else if k <= 15 {
        FunctionInputSource::RightNeighborWire(((k - 8) * 2 + c) as u8)
    } else {
        FunctionInputSource::RMUX(((k - 16) * 6 + 4 + c) as u8)
    }
}

/// Map of CtrlMUX inputs for a logic tile
pub fn logic_ctrl_preselect_input(ctrlmux_idx: u8, ctrlmux_inp_idx: u8) -> (r: FunctionInputSource)
    requires
        ctrlmux_idx < 4,
        ctrlmux_inp_idx < 32,
    ensures
        r == spec_logic_ctrl_preselect_input(ctrlmux_idx, ctrlmux_inp_idx),
{
    if ctrlmux_inp_idx <= 7 {
        FunctionInputSource::LEOutput(ctrlmux_inp_idx * 2 + ctrlmux_idx % 2)
    } else if ctrlmux_inp_idx <= 15 {
        FunctionInputSource::RightNeighborWire((ctrlmux_inp_idx - 8) * 2 + ctrlmux_idx % 2)
    } else {
        FunctionInputSource::RMUX((ctrlmux_inp_idx - 16) * 6 + 4 + ctrlmux_idx % 2)
    }
}

/// RMUX self-wires reachable from even BRAM IMUXes, per group of 16 IMUXes
pub open spec fn spec_bram_imux_even_rmux(group: int) -> Seq<u8> {
    if group == 0 {
        seq![0u8, 4, 6, 10, 16, 22, 28, 34, 40, 46, 52, 58, 64, 70, 76, 82, 88, 94]
    } else if group == 1 {
        seq![4u8, 10, 16, 22, 24, 28, 30, 34, 40, 46, 52, 58, 64, 70, 76, 82, 88, 94]
    } else if group == 2 {
        seq![4u8, 10, 16, 22, 28, 34, 40, 46, 48, 52, 54, 58, 64, 70, 76, 82, 88, 94]
    } else {
        seq![4u8, 10, 16, 22, 28, 34, 40, 46, 52, 58, 64, 70, 72, 76, 78, 82, 88, 94]
    }
}

/// RMUX self-wires reachable from odd BRAM IMUXes, per group of 16 IMUXes
pub open spec fn spec_bram_imux_odd_rmux(group: int) -> Seq<u8> {
    if group == 0 {
        seq![5u8, 11, 12, 17, 18, 23, 29, 35, 41, 47, 53, 59, 65, 71, 77, 83, 89, 95]
    } else if group == 1 {
        seq![5u8, 11, 17, 23, 29, 35, 36, 41, 42, 47, 53, 59, 65, 71, 77, 83, 89, 95]
    } else if group == 2 {
        seq![5u8, 11, 17, 23, 29, 35, 41, 47, 53, 59, 60, 65, 66, 71, 77, 83, 89, 95]
    } else {
        seq![5u8, 11, 17, 23, 29, 35, 41, 47, 53, 59, 65, 71, 77, 83, 84, 89, 90, 95]
    }
}

fn bram_imux_rmux_table(group_of_16: u8, is_even: bool) -> (r: [u8; 18])
    requires
        group_of_16 < 4,
    ensures
        is_even ==> r@ == spec_bram_imux_even_rmux(group_of_16 as int),
        !is_even ==> r@ == spec_bram_imux_odd_rmux(group_of_16 as int),
{
    let r: [u8; 18] = if is_even {
        if group_of_16 == 0 {
            [0, 4, 6, 10, 16, 22, 28, 34, 40, 46, 52, 58, 64, 70, 76, 82, 88, 94]
        } else if group_of_16 == 1 {
            [4, 10, 16, 22, 24, 28, 30, 34, 40, 46, 52, 58, 64, 70, 76, 82, 88, 94]
        } else if group_of_16 == 2 {
            [4, 10, 16, 22, 28, 34, 40, 46, 48, 52, 54, 58, 64, 70, 76, 82, 88, 94]
        } else {
            [4, 10, 16, 22, 28, 34, 40, 46, 52, 58, 64, 70, 72, 76, 78, 82, 88, 94]
        }
    } else {
        if group_of_16 == 0 {
            [5, 11, 12, 17, 18, 23, 29, 35, 41, 47, 53, 59, 65, 71, 77, 83, 89, 95]
        } else if group_of_16 == 1 {
            [5, 11, 17, 23, 29, 35, 36, 41, 42, 47, 53, 59, 65, 71, 77, 83, 89, 95]
        } else if group_of_16 == 2 {
            [5, 11, 17, 23, 29, 35, 41, 47, 53, 59, 60, 65, 66, 71, 77, 83, 89, 95]
        } else {
            [5, 11, 17, 23, 29, 35, 41, 47, 53, 59, 65, 71, 77, 83, 84, 89, 90, 95]
        }
    };
    assert(is_even ==> r@ =~= spec_bram_imux_even_rmux(group_of_16 as int));
    assert(!is_even ==> r@ =~= spec_bram_imux_odd_rmux(group_of_16 as int));
    r
}

/// Map of IMUX inputs for a BRAM tile
///
/// An IMUX has 27 inputs, which are divided up as follows:
/// `[0-3]` a neighbor wire from the left (T1_E), `[4-7]` a neighbor wire from the right (T1_W),
/// `[8-25]` a RMUX self-wire, and 26 is not used.
pub open spec fn spec_bram_imux_input(imux_idx: u8, imux_inp_idx: u8) -> FunctionInputSource {
    let m = imux_idx as int;
    let k = imux_inp_idx as int;
    // in the bottom half, even IMUXes have wires 0/4/8/12 and odd IMUXes have wires 1/5/9/13
    // in the top half, even IMUXes have wires 2/6/10/14 and odd IMUXes have 3/7/11/15
    let half_offset = if m < 32 { 0int } else { 2int };
    if k <= 3 {
        FunctionInputSource::LeftNeighborWire(((k % 4) * 4 + half_offset + m % 2) as u8)
    } else if k <= 7 {
        FunctionInputSource::RightNeighborWire(((k % 4) * 4 + half_offset + m % 2) as u8)
    } else if k <= 25 {
        // each group of 16 has access to the same mix of inputs,
        // and within it the evens/odds have access to the same mix of inputs
        let table = if m % 2 == 0 {
            spec_bram_imux_even_rmux(m / 16)
        } else {
            spec_bram_imux_odd_rmux(m / 16)
        };
        FunctionInputSource::RMUX(table[k - 8])
    } else {
        FunctionInputSource::Unused
    }
}

/// Map of IMUX inputs for a BRAM tile
pub fn bram_imux_input(imux_idx: u8, imux_inp_idx: u8) -> (r: FunctionInputSource)
    requires
        imux_idx < 64,
        imux_inp_idx < 27,
    ensures
        r == spec_bram_imux_input(imux_idx, imux_inp_idx),
{
    if imux_inp_idx <= 3 {
        if imux_idx < 32 {
            FunctionInputSource::LeftNeighborWire((imux_inp_idx % 4) * 4 + (imux_idx % 2))
        } else {
            FunctionInputSource::LeftNeighborWire((imux_inp_idx % 4) * 4 + 2 + (imux_idx % 2))
        }
    } else if imux_inp_idx <= 7 {
        if imux_idx < 32 {
            FunctionInputSource::RightNeighborWire((imux_inp_idx % 4) * 4 + (imux_idx % 2))
        } else {
            FunctionInputSource::RightNeighborWire((imux_inp_idx % 4) * 4 + 2 + (imux_idx % 2))
        }
    } else if imux_inp_idx <= 25 {
        // for the RMUXes, each group of 16 has access to the same mix of inputs
        let group_of_16 = imux_idx / 16;
        // and within this group of 16, the evens/odds have access to the same mix of inputs
        let rmux_inp_set = bram_imux_rmux_table(group_of_16, imux_idx % 2 == 0);
        // and after this we finally have a few small tables of entries
        FunctionInputSource::RMUX(rmux_inp_set[imux_inp_idx as usize - 8])
    } else {
        FunctionInputSource::Unused
    }
}

/// Map of CtrlMUX inputs for a BRAM tile
pub open spec fn spec_bram_ctrl_preselect_input(ctrlmux_idx: u8, ctrlmux_inp_idx: u8) -> FunctionInputSource {
    let c = ctrlmux_idx as int % 2;
    let k = ctrlmux_inp_idx as int;
    let outer = seq![0int, 4, 10, 14];
    let inner = seq![2int, 6, 8, 12];
    if k <= 3 {
        FunctionInputSource::LeftNeighborWire((outer[k] + c) as u8)
    } else if k <= 7 {
        FunctionInputSource::RightNeighborWire((outer[k - 4] + c) as u8)
    } else if k <= 11 {
        FunctionInputSource::LeftNeighborWire((inner[k - 8] + c) as u8)
    } else if k <= 15 {
        FunctionInputSource::RightNeighborWire((inner[k - 12] + c) as u8)
    } else {
        FunctionInputSource::RMUX(((k - 16) * 6 + 4 + c) as u8)
    }
}

/// Map of CtrlMUX inputs for a BRAM tile
pub fn bram_ctrl_preselect_input(ctrlmux_idx: u8, ctrlmux_inp_idx: u8) -> (r: FunctionInputSource)
    requires
        ctrlmux_idx < 4,
        ctrlmux_inp_idx < 32,
    ensures
        r == spec_bram_ctrl_preselect_input(ctrlmux_idx, ctrlmux_inp_idx),
{
    let outer: [u8; 4] = [0, 4, 10, 14];
    let inner: [u8; 4] = [2, 6, 8, 12];
    if ctrlmux_inp_idx <= 3 {
        FunctionInputSource::LeftNeighborWire(outer[ctrlmux_inp_idx as usize] + ctrlmux_idx % 2)
    } else if ctrlmux_inp_idx <= 7 {
        FunctionInputSource::RightNeighborWire(
            outer[ctrlmux_inp_idx as usize - 4] + ctrlmux_idx % 2,
        )
    } else if ctrlmux_inp_idx <= 11 {
        FunctionInputSource::LeftNeighborWire(inner[ctrlmux_inp_idx as usize - 8] + ctrlmux_idx % 2)
    } else if ctrlmux_inp_idx <= 15 {
        FunctionInputSource::RightNeighborWire(
            inner[ctrlmux_inp_idx as usize - 12] + ctrlmux_idx % 2,
        )
    } else {
        FunctionInputSource::RMUX((ctrlmux_inp_idx - 16) * 6 + 4 + ctrlmux_idx % 2)
    }
}

/// Possible sources to drive a TMUX
#[non_exhaustive]
#[derive(Clone, Copy, PartialEq, Eq, Debug, Hash, Structural)]
pub enum TMUXSource {
    /// One (of 6) global-to-local muxes in this tile
    GlobalToLocal(u8),
    /// An unused input
    ///
    /// This shows up in place of a global-to-local wire sometimes
    Unused,
    /// The output of another RMUX in this tile
    RMUX(u8),
    /// A routing wire coming into this tile
    RoutingWire(RoutingWire),
}

/// Map of KMUX inputs: the index of the TMUX that drives input `inp_idx` of KMUX `kmux_idx`
pub open spec fn spec_kmux_input(kmux_idx: u8, inp_idx: u8) -> int {
    // for everything except the first one,
    // scoot over the output indices for inputs past a certain point
    if kmux_idx != 0 && inp_idx >= kmux_idx - 1 {
        inp_idx + 1
    } else {
        inp_idx as int
    }
}

/// Map of KMUX inputs
///
/// The input always comes from a TMUX
pub fn kmux_input(kmux_idx: u8, inp_idx: u8) -> (r: u8)
    requires
        kmux_idx < 16,
        kmux_idx != 0 && inp_idx >= kmux_idx - 1 ==> inp_idx < 255,
    ensures
        r == spec_kmux_input(kmux_idx, inp_idx),
{
    let mut inp_idx = inp_idx;
    if kmux_idx != 0 {
        if inp_idx >= kmux_idx - 1 {
            inp_idx += 1;
        }
    }
    inp_idx
}

/// Possible sources to drive an IO tile local line
#[non_exhaustive]
#[derive(Clone, Copy, PartialEq, Eq, Debug, Hash, Structural)]
pub enum IOLocalLineSource {
    /// A routing wire coming into this tile
    ///
    /// The direction of this wire need not be specified
    /// because IO tiles only have routing wires entering from one side.
    RoutingWire { ty: WireType, bundle: u8, wire_idx: u8 },
    /// One (of 2x number-of-IOs) global-to-local muxes in this tile
    GlobalToLocal(u8),
}

/// Map of top/bottom IO inputs to local lines
///
/// These occur in groups of 4, where each item in the group of 4 is the same.
/// Within a group `g`, inputs 0 to 5 are the span-4 wires numbered `6 * g + inp_idx`
/// (bundle-major: 4 bundles of each wire index), and input 6 is global-to-local mux `g`.
pub open spec fn spec_top_bottom_io_local_line_input(rmux_idx: u8, inp_idx: u8) -> IOLocalLineSource {
    let g = rmux_idx as int / 4;
    if inp_idx == 6 {
        IOLocalLineSource::GlobalToLocal(g as u8)
    } else {
        let n = 6 * g + inp_idx;
        IOLocalLineSource::RoutingWire { ty: WireType::T4, bundle: (n % 4) as u8, wire_idx: (n / 4) as u8 }
    }
}

/// Map of top/bottom IO inputs to local lines
pub fn top_bottom_io_local_line_input(rmux_idx: u8, inp_idx: u8) -> (r: IOLocalLineSource)
    requires
        rmux_idx < 32,
        inp_idx < 7,
    ensures
        r == spec_top_bottom_io_local_line_input(rmux_idx, inp_idx),
{
    let g = rmux_idx / 4;
    if inp_idx == 6 {
        IOLocalLineSource::GlobalToLocal(g)
    } else {
        let n = 6 * g + inp_idx;
        IOLocalLineSource::RoutingWire { ty: WireType::T4, bundle: n % 4, wire_idx: n / 4 }
    }
}

/// Map of top/bottom IO inputs to clocks (from local lines)
pub open spec fn spec_top_bottom_io_clock_input(clkmux_idx: u8, inp_idx: u8) -> int {
    4 * inp_idx + 3
}

/// Map of top/bottom IO inputs to clocks (from local lines)
pub fn top_bottom_io_clock_input(clkmux_idx: u8, inp_idx: u8) -> (r: u8)
    requires
        clkmux_idx < 8,
        inp_idx < 8,
    ensures
        r == spec_top_bottom_io_clock_input(clkmux_idx, inp_idx),
{
    let t: [u8; 8] = [3, 7, 11, 15, 19, 23, 27, 31];
    t[inp_idx as usize]
}

/// Map of top/bottom IO inputs to non-clocks (from local lines)
///
/// These occur in groups of 8, where each item in the group of 8 is the same.
pub open spec fn spec_top_bottom_io_signal_input(iomux_idx: u8, inp_idx: u8) -> int {
    4 * inp_idx + iomux_idx / 8
}

/// Map of top/bottom IO inputs to non-clocks (from local lines)
pub fn top_bottom_io_signal_input(iomux_idx: u8, inp_idx: u8) -> (r: u8)
    requires
        iomux_idx < 24,
        inp_idx < 8,
    ensures
        r == spec_top_bottom_io_signal_input(iomux_idx, inp_idx),
{
    let t: [[u8; 8]; 3] = [
        // IOMUX 0
        [0, 4, 8, 12, 16, 20, 24, 28],
        // IOMUX 8
        [1, 5, 9, 13, 17, 21, 25, 29],
        // IOMUX 16
        [2, 6, 10, 14, 18, 22, 26, 30],
    ];
    let row = t[iomux_idx as usize / 8];
    row[inp_idx as usize]
}

/// Map of left/right IO inputs to clocks (from local lines)
pub open spec fn spec_left_right_io_clock_input(clkmux_idx: u8, inp_idx: u8) -> int {
    if clkmux_idx < 4 {
        6 * inp_idx + 4
    } else {
        6 * inp_idx + 5
    }
}

/// Map of left/right IO inputs to clocks (from local lines)
pub fn left_right_io_clock_input(clkmux_idx: u8, inp_idx: u8) -> (r: u8)
    requires
        clkmux_idx < 12,
        inp_idx < 8,
    ensures
        r == spec_left_right_io_clock_input(clkmux_idx, inp_idx),
{
    let t: [u8; 8] = if clkmux_idx < 4 {
        [4, 10, 16, 22, 28, 34, 40, 46]
    } else {
        [5, 11, 17, 23, 29, 35, 41, 47]
    };
    t[inp_idx as usize]
}

/// Map of left/right IO inputs to non-clocks (from local lines)
///
/// These occur in groups of 8, where each item in the group of 8 is the same.
pub open spec fn spec_left_right_io_signal_input(iomux_idx: u8, inp_idx: u8) -> int {
    6 * inp_idx + iomux_idx / 8
}

/// Map of left/right IO inputs to non-clocks (from local lines)
pub fn left_right_io_signal_input(iomux_idx: u8, inp_idx: u8) -> (r: u8)
    requires
        iomux_idx < 36,
        inp_idx < 8,
    ensures
        r == spec_left_right_io_signal_input(iomux_idx, inp_idx),
{
    let t: [[u8; 8]; 5] = [
        [0, 6, 12, 18, 24, 30, 36, 42],
        [1, 7, 13, 19, 25, 31, 37, 43],
        [2, 8, 14, 20, 26, 32, 38, 44],
        [3, 9, 15, 21, 27, 33, 39, 45],
        [4, 10, 16, 22, 28, 34, 40, 46],
    ];
    let row = t[iomux_idx as usize / 8];
    row[inp_idx as usize]
}

} // verus!
