//! Routing-only tiles
//!
//! This tile behaves like a logic tile without any logic cells inside.
//! This means that there are no `IMUX` nor control signals.
//!
//! Each right-going neighbor wires (`T1_E`) instead makes a selection
//! from 1-of-2 of the `RMUX` local lines that _would've_ gone into `IMUX` in a logic tile.
//! This reduces the 2× 16 local lines into a 1× 16 count of neighbor wires.
//!
//! The inputs to `RMUX` which in a logic tile _would've_ come from LE outputs
//! instead comes directly from neighbor wires (`T1_W`) from the cell on the right.
//!
//! Visually, this looks like this:
//!
//! ```text
//!                                     +------------+
//! output wires other than T1_E <------|            |--+
//! general-purpose routing wires ----->| 6× 16 RMUX |  | RMUX-to-RMUX self-wires
//!                                     |            |<-+
//!                                     | 4× CtrlMUX |----------------------+
//!                                     |            |<-------------+       | 2× 16 local lines
//!                                     +------------+              |       v
//!                                         ^                       |   +----------+
//!                 +--------------------+  |                       |   | 16× OMUX |----> T1_E wires
//! global wires -> | 4× global-to-local | -+                       |   +----------+
//!                 +--------------------+                          |
//!                                                                 +-- T1_W wires
//! ```

use vstd::prelude::*;

use crate::chips::{spec_tile_type, Family};
use crate::container::{spec_same_aux, Bitstream, BitstreamView};
use crate::coordinates::TilePos;
use crate::field::{lemma_field_fits, read_field, spec_read_field, spec_write_value, write_field};
use crate::tiles::generic_routing::{
    read_rmux, write_rmux, GenericRoutingRefMutTrait, GenericRoutingRefTrait, RMUX,
};
use crate::tiles::logic::LcBit;
use crate::tiles::{GlobalToLocalMux, GlobalToLocalMuxRef, Mux2, TileRef, TileRefTrait, TileType};

verus! {

/// Access to a routing-only tile
#[derive(Clone, Copy, PartialEq, Eq, Debug, Hash, Structural)]
pub struct RoutingOnlyTileRef {
    pub family: Family,
    pub p: TilePos,
}

impl RoutingOnlyTileRef {
    /// Can this handle be used to access this bitstream?
    pub open spec fn spec_attached(self, v: BitstreamView) -> bool {
        &&& v.logic_ready()
        &&& v.family == self.family
        &&& spec_tile_type(self.family, self.p) == TileType::RoutingOnly
    }
}

impl TileRefTrait for RoutingOnlyTileRef {
    open spec fn spec_family(&self) -> Family {
        self.family
    }

    open spec fn spec_pos(&self) -> TilePos {
        self.p
    }

    open spec fn spec_tile_type(&self) -> TileType {
        TileType::RoutingOnly
    }

    fn family(&self) -> (r: Family) {
        self.family
    }

    fn tile_type(&self) -> (r: TileType) {
        TileType::RoutingOnly
    }

    fn pos(&self) -> (r: TilePos) {
        self.p
    }

    fn as_base_tile(self) -> (r: TileRef) {
        TileRef { family: self.family, p: self.p }
    }
}

impl RoutingOnlyTileRef {
    pub fn global_to_local(&self, b: &Bitstream, inp_idx: u8) -> (r: GlobalToLocalMux)
        requires
            self.spec_attached(b@),
            inp_idx < 4,
            GlobalToLocalMux::spec_from_bits(spec_read_field(b@, self.p, (GlobalToLocalMuxRef { is_bram: false, i: inp_idx }), 6)) is Some,
        ensures
            Some(r) == GlobalToLocalMux::spec_from_bits(spec_read_field(b@, self.p, (GlobalToLocalMuxRef { is_bram: false, i: inp_idx }), 6)),
    {
        let fp = GlobalToLocalMuxRef { is_bram: false, i: inp_idx };
        proof {
            lemma_field_fits(b@.family, self.p, fp, 6);
        }
        let bits = read_field(b, self.p, &fp, 6);
        GlobalToLocalMux::from_bits(bits)
    }


    /// Write the field read by [`global_to_local`](Self::global_to_local)
    pub fn set_global_to_local(&self, b: &mut Bitstream, inp_idx: u8, val: GlobalToLocalMux)
        requires
            self.spec_attached(old(b)@),
            inp_idx < 4,
            val.spec_valid(),
        ensures
            final(b)@ == spec_write_value(old(b)@, self.p, (GlobalToLocalMuxRef { is_bram: false, i: inp_idx }), 6, val.spec_to_bits()),
            self.spec_attached(final(b)@),
            spec_same_aux(old(b)@, final(b)@),
    {
        let fp = GlobalToLocalMuxRef { is_bram: false, i: inp_idx };
        proof {
            lemma_field_fits(b@.family, self.p, fp, 6);
        }
        write_field(b, self.p, &fp, 6, val.to_bits());
    }

    /// Which of the 2 local lines drives right-going neighbor wire `lc_idx`
    pub fn right_neighbor_output(&self, b: &Bitstream, lc_idx: u8) -> (r: Mux2)
        requires
            self.spec_attached(b@),
            lc_idx < 16,
            Mux2::spec_from_bits(spec_read_field(b@, self.p, (LcBit { lc: lc_idx, x: 15, dy: 0 }), 1)) is Some,
        ensures
            Some(r) == Mux2::spec_from_bits(spec_read_field(b@, self.p, (LcBit { lc: lc_idx, x: 15, dy: 0 }), 1)),
    {
        let fp = LcBit { lc: lc_idx, x: 15, dy: 0 };
        proof {
            lemma_field_fits(b@.family, self.p, fp, 1);
        }
        let bits = read_field(b, self.p, &fp, 1);
        Mux2::from_bits(bits)
    }


    /// Write the field read by [`right_neighbor_output`](Self::right_neighbor_output)
    pub fn set_right_neighbor_output(&self, b: &mut Bitstream, lc_idx: u8, val: Mux2)
        requires
            self.spec_attached(old(b)@),
            lc_idx < 16,
        ensures
            final(b)@ == spec_write_value(old(b)@, self.p, (LcBit { lc: lc_idx, x: 15, dy: 0 }), 1, val.spec_to_bits()),
            self.spec_attached(final(b)@),
            spec_same_aux(old(b)@, final(b)@),
    {
        let fp = LcBit { lc: lc_idx, x: 15, dy: 0 };
        proof {
            lemma_field_fits(b@.family, self.p, fp, 1);
        }
        write_field(b, self.p, &fp, 1, val.to_bits());
    }
}

impl GenericRoutingRefTrait for RoutingOnlyTileRef {
    open spec fn spec_routing_pos(&self) -> TilePos {
        self.p
    }

    open spec fn spec_routing_is_bram(&self) -> bool {
        false
    }

    open spec fn spec_routing_attached(&self, v: BitstreamView) -> bool {
        self.spec_attached(v)
    }

    fn rmux(&self, b: &Bitstream, rmux_idx: u8) -> (r: RMUX) {
        read_rmux(b, self.p, false, rmux_idx)
    }
}

impl GenericRoutingRefMutTrait for RoutingOnlyTileRef {
    fn set_rmux(&self, b: &mut Bitstream, rmux_idx: u8, val: RMUX) {
        write_rmux(b, self.p, false, rmux_idx, val);
    }
}

} // verus!
