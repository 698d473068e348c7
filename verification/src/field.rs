//! Fields of tiles: where their bits sit, and reading and writing them
//!
//! A field of `n` bits is located by a [FieldPositionCalculator], which gives the
//! tile-relative position of each of its bits. Bit `i` of the field is bit `i` of the
//! packed integer (least significant first).

use vstd::prelude::*;

use crate::bitfield::{
    bits_value, fits_bits, get_bit_of, lemma_value_bits_roundtrip, push_bit, value_bits,
};
use crate::chips::{spec_tile_type, Family};
use crate::container::{
    lemma_logic_bit_write_read, spec_logic_bit, spec_logic_bit_in_range, spec_same_aux,
    spec_with_logic_bit,
    Bitstream, BitstreamView,
};
use crate::coordinates::{
    spec_global_from_tile, tile_in_grid, GlobalBitPos, TilePos, TileRelativeBitPos,
};

verus! {

/// Gives the tile-relative position of each bit of a field
pub trait FieldPositionCalculator {
    /// Does this field exist (are its indices in range)?
    spec fn spec_valid(&self) -> bool;

    /// The number of bits whose positions are defined
    spec fn spec_nbits(&self) -> nat;

    /// The position of bit `biti`
    spec fn spec_bit_pos(&self, biti: int) -> TileRelativeBitPos;

    /// The positions lie within `spec_width() x spec_height()` of the tile
    spec fn spec_width(&self) -> int;

    spec fn spec_height(&self) -> int;

    /// The positions of a valid field lie within its box and are pairwise different.
    proof fn lemma_layout(&self)
        requires
            self.spec_valid(),
        ensures
            forall|i: int|
                0 <= i < self.spec_nbits() ==> (#[trigger] self.spec_bit_pos(i)).x < self.spec_width()
                    && self.spec_bit_pos(i).y < self.spec_height(),
            forall|i: int, j: int|
                0 <= i < j < self.spec_nbits() ==> #[trigger] self.spec_bit_pos(i)
                    != #[trigger] self.spec_bit_pos(j),
    ;

    fn get_bit_pos(&self, biti: usize) -> (r: TileRelativeBitPos)
        requires
            self.spec_valid(),
            biti < self.spec_nbits(),
        ensures
            r == self.spec_bit_pos(biti as int),
    ;
}

/// The positions of the first `n` bits of a field
pub open spec fn spec_positions<F: FieldPositionCalculator>(fp: F, n: nat) -> Seq<TileRelativeBitPos> {
    Seq::new(n, |i: int| fp.spec_bit_pos(i))
}

/// The value of the bit at a tile-relative position
pub open spec fn spec_tile_bit(v: BitstreamView, tile: TilePos, rel: TileRelativeBitPos) -> bool {
    spec_logic_bit(v, spec_global_from_tile(v.family, tile, rel))
}

/// The values of the bits at a list of tile-relative positions
pub open spec fn spec_field_bits(
    v: BitstreamView,
    tile: TilePos,
    ps: Seq<TileRelativeBitPos>,
) -> Seq<bool> {
    Seq::new(ps.len(), |i: int| spec_tile_bit(v, tile, ps[i]))
}

/// Do all these positions of the tile lie inside the main array?
pub open spec fn spec_positions_fit(f: Family, tile: TilePos, ps: Seq<TileRelativeBitPos>) -> bool {
    &&& tile_in_grid(f, tile)
    &&& forall|i: int|
        0 <= i < ps.len() ==> spec_logic_bit_in_range(
            f,
            #[trigger] spec_global_from_tile(f, tile, ps[i]),
        )
}

/// Are the positions pairwise different?
pub open spec fn spec_positions_distinct(ps: Seq<TileRelativeBitPos>) -> bool {
    forall|i: int, j: int| 0 <= i < j < ps.len() ==> #[trigger] ps[i] != #[trigger] ps[j]
}

/// The bitstream after writing `bits[i]` at `ps[i]`, in order of `i`
pub open spec fn spec_write_field(
    v: BitstreamView,
    tile: TilePos,
    ps: Seq<TileRelativeBitPos>,
    bits: Seq<bool>,
) -> BitstreamView
    decreases ps.len(),
{
    if ps.len() == 0 {
        v
    } else {
        let n = ps.len() - 1;
        spec_with_logic_bit(
            spec_write_field(v, tile, ps.drop_last(), bits),
            spec_global_from_tile(v.family, tile, ps[n]),
            bits[n],
        )
    }
}

/// Read the first `n` bits of a field, packed least significant bit first
pub fn read_field<F: FieldPositionCalculator>(b: &Bitstream, tile: TilePos, fp: &F, n: usize) -> (r: u32)
    requires
        b@.logic_ready(),
        fp.spec_valid(),
        n <= fp.spec_nbits(),
        n <= 32,
        spec_positions_fit(b@.family, tile, spec_positions(*fp, n as nat)),
    ensures
        r == bits_value(spec_field_bits(b@, tile, spec_positions(*fp, n as nat))),
{
    let family = b.family();
    let mut ret: u32 = 0;
    let mut i: usize = 0;
    while i < n
        invariant
            i <= n,
            n <= 32,
            n <= fp.spec_nbits(),
            fp.spec_valid(),
            b@.logic_ready(),
            family == b@.family,
            spec_positions_fit(b@.family, tile, spec_positions(*fp, n as nat)),
            ret == bits_value(spec_field_bits(b@, tile, spec_positions(*fp, i as nat))),
        decreases n - i,
    {
        let rel = fp.get_bit_pos(i);
        assert(spec_positions(*fp, n as nat)[i as int] == rel);
        let gb = GlobalBitPos::from((family, tile, rel));
        let bit = b.get_logic_array_bit(gb);
        proof {
            let s1 = spec_field_bits(b@, tile, spec_positions(*fp, (i + 1) as nat));
            assert(s1.drop_last() =~= spec_field_bits(b@, tile, spec_positions(*fp, i as nat)));
            assert(s1.last() == bit);
        }
        ret = push_bit(ret, i as u32, bit);
        i = i + 1;
    }
    ret
}

/// Write the `n` low bits of `val` into the first `n` bits of a field
pub fn write_field<F: FieldPositionCalculator>(
    b: &mut Bitstream,
    tile: TilePos,
    fp: &F,
    n: usize,
    val: u32,
)
    requires
        old(b)@.logic_ready(),
        fp.spec_valid(),
        n <= fp.spec_nbits(),
        n <= 32,
        spec_positions_fit(old(b)@.family, tile, spec_positions(*fp, n as nat)),
    ensures
        final(b)@ == spec_write_field(
            old(b)@,
            tile,
            spec_positions(*fp, n as nat),
            value_bits(val, n as nat),
        ),
        final(b)@.logic_ready(),
        final(b)@.family == old(b)@.family,
        final(b)@.user_id == old(b)@.user_id,
        spec_same_aux(old(b)@, final(b)@),
{
    let family = b.family();
    let ghost v0 = b@;
    let ghost bits = value_bits(val, n as nat);
    let mut i: usize = 0;
    proof {
        assert(spec_positions(*fp, 0) =~= Seq::<TileRelativeBitPos>::empty());
    }
    while i < n
        invariant
            i <= n,
            n <= 32,
            n <= fp.spec_nbits(),
            fp.spec_valid(),
            b@.logic_ready(),
            family == v0.family,
            b@.family == v0.family,
            b@.user_id == v0.user_id,
            bits == value_bits(val, n as nat),
            spec_positions_fit(v0.family, tile, spec_positions(*fp, n as nat)),
            b@ == spec_write_field(v0, tile, spec_positions(*fp, i as nat), bits),
        decreases n - i,
    {
        let rel = fp.get_bit_pos(i);
        assert(spec_positions(*fp, n as nat)[i as int] == rel);
        let gb = GlobalBitPos::from((family, tile, rel));
        let bit = get_bit_of(val, i as u32);
        b.set_logic_array_bit(gb, bit);
        proof {
            let ps1 = spec_positions(*fp, (i + 1) as nat);
            assert(ps1.drop_last() =~= spec_positions(*fp, i as nat));
            assert(ps1[i as int] == rel);
            assert(bits[i as int] == bit);
        }
        i = i + 1;
    }
    proof {
        lemma_write_field_arrays(v0, tile, spec_positions(*fp, n as nat), bits);
    }
}

/// Within one tile, different relative positions are different global positions.
pub proof fn lemma_global_injective(f: Family, tile: TilePos, a: TileRelativeBitPos, b: TileRelativeBitPos)
    requires
        tile_in_grid(f, tile),
        a != b,
    ensures
        spec_global_from_tile(f, tile, a) != spec_global_from_tile(f, tile, b),
{
    let ox = crate::coordinates::spec_tile_origin_x(f, tile);
    let oy = crate::coordinates::spec_tile_origin_y(f, tile);
    assert(0 <= ox <= 900);
    assert(0 <= oy <= 838);
}

/// Writing a field changes only the bits at its positions: the family, the user ID, the
/// other arrays and every other main-array bit keep their values.
pub proof fn lemma_write_field_frame(
    v: BitstreamView,
    tile: TilePos,
    ps: Seq<TileRelativeBitPos>,
    bits: Seq<bool>,
    other: GlobalBitPos,
)
    requires
        v.logic_ready(),
        spec_positions_fit(v.family, tile, ps),
        spec_logic_bit_in_range(v.family, other),
        forall|i: int| 0 <= i < ps.len() ==> spec_global_from_tile(v.family, tile, #[trigger] ps[i]) != other,
    ensures
        spec_write_field(v, tile, ps, bits).logic_ready(),
        spec_write_field(v, tile, ps, bits).family == v.family,
        spec_write_field(v, tile, ps, bits).user_id == v.user_id,
        spec_logic_bit(spec_write_field(v, tile, ps, bits), other) == spec_logic_bit(v, other),
        forall|g: int, c: int|
            0 <= g < v.arrays.len() && 0 <= c < v.arrays[g].len() && (g != 0 || c != 0) ==> (
            #[trigger] spec_write_field(v, tile, ps, bits).arrays[g][c]) == v.arrays[g][c],
    decreases ps.len(),
{
    if ps.len() > 0 {
        let n = ps.len() - 1;
        let ps0 = ps.drop_last();
        assert forall|i: int| 0 <= i < ps0.len() implies spec_global_from_tile(v.family, tile, #[trigger] ps0[i]) != other by {
            assert(ps0[i] == ps[i]);
        }
        assert forall|i: int| 0 <= i < ps0.len() implies spec_logic_bit_in_range(
            v.family,
            #[trigger] spec_global_from_tile(v.family, tile, ps0[i]),
        ) by {
            assert(ps0[i] == ps[i]);
        }
        lemma_write_field_frame(v, tile, ps0, bits, other);
        let w0 = spec_write_field(v, tile, ps0, bits);
        let gn = spec_global_from_tile(v.family, tile, ps[n]);
        assert(spec_logic_bit_in_range(v.family, gn));
        lemma_logic_bit_write_read(w0, gn, other, bits[n]);
        assert(w0.arrays.len() == v.arrays.len());
    }
}

/// Writing a field keeps the bitstream's family, user ID, shape and every array other than
/// the main one.
pub proof fn lemma_write_field_arrays(
    v: BitstreamView,
    tile: TilePos,
    ps: Seq<TileRelativeBitPos>,
    bits: Seq<bool>,
)
    requires
        v.logic_ready(),
        spec_positions_fit(v.family, tile, ps),
    ensures
        spec_write_field(v, tile, ps, bits).logic_ready(),
        spec_write_field(v, tile, ps, bits).family == v.family,
        spec_write_field(v, tile, ps, bits).user_id == v.user_id,
        spec_write_field(v, tile, ps, bits).arrays.len() == v.arrays.len(),
        forall|g: int| 0 <= g < v.arrays.len() ==> (#[trigger] spec_write_field(v, tile, ps, bits).arrays[g]).len() == v.arrays[g].len(),
        forall|g: int, c: int|
            0 <= g < v.arrays.len() && 0 <= c < v.arrays[g].len() && (g != 0 || c != 0) ==> (
            #[trigger] spec_write_field(v, tile, ps, bits).arrays[g][c]) == v.arrays[g][c],
    decreases ps.len(),
{
    if ps.len() > 0 {
        let n = ps.len() - 1;
        let ps0 = ps.drop_last();
        assert forall|i: int| 0 <= i < ps0.len() implies spec_logic_bit_in_range(
            v.family,
            #[trigger] spec_global_from_tile(v.family, tile, ps0[i]),
        ) by {
            assert(ps0[i] == ps[i]);
        }
        lemma_write_field_arrays(v, tile, ps0, bits);
        let w0 = spec_write_field(v, tile, ps0, bits);
        let gn = spec_global_from_tile(v.family, tile, ps[n]);
        assert(spec_logic_bit_in_range(v.family, gn));
        lemma_logic_bit_write_read(w0, gn, gn, bits[n]);
    }
}

/// Reading a field back after writing it gives the written bits, when the field's
/// positions are pairwise different.
pub proof fn lemma_write_field_read(
    v: BitstreamView,
    tile: TilePos,
    ps: Seq<TileRelativeBitPos>,
    bits: Seq<bool>,
)
    requires
        v.logic_ready(),
        spec_positions_fit(v.family, tile, ps),
        spec_positions_distinct(ps),
        bits.len() == ps.len(),
    ensures
        spec_field_bits(spec_write_field(v, tile, ps, bits), tile, ps) == bits,
    decreases ps.len(),
{
    if ps.len() > 0 {
        let n = ps.len() - 1;
        let ps0 = ps.drop_last();
        let bits0 = bits.drop_last();
        assert forall|i: int| 0 <= i < ps0.len() implies spec_logic_bit_in_range(
            v.family,
            #[trigger] spec_global_from_tile(v.family, tile, ps0[i]),
        ) by {
            assert(ps0[i] == ps[i]);
        }
        lemma_write_field_read(v, tile, ps0, bits0);
        lemma_write_field_prefix(v, tile, ps0, bits0, bits);
        let w0 = spec_write_field(v, tile, ps0, bits);
        let w = spec_write_field(v, tile, ps, bits);
        let gn = spec_global_from_tile(v.family, tile, ps[n]);
        lemma_write_field_frame(v, tile, ps0, bits, gn);
        assert forall|i: int| 0 <= i < ps.len() implies #[trigger] spec_field_bits(w, tile, ps)[i] == bits[i] by {
            let gi = spec_global_from_tile(v.family, tile, ps[i]);
            lemma_logic_bit_write_read(w0, gn, gi, bits[n]);
            if i < n {
                lemma_global_injective(v.family, tile, ps[i], ps[n]);
                assert(spec_field_bits(w0, tile, ps0)[i] == bits0[i]);
                assert(ps0[i] == ps[i]);
            }
        }
        assert(spec_field_bits(w, tile, ps) =~= bits);
    }
}

/// Writing only depends on the bits at the written positions.
proof fn lemma_write_field_prefix(
    v: BitstreamView,
    tile: TilePos,
    ps: Seq<TileRelativeBitPos>,
    bits_a: Seq<bool>,
    bits_b: Seq<bool>,
)
    requires
        ps.len() <= bits_a.len(),
        ps.len() <= bits_b.len(),
        forall|i: int| 0 <= i < ps.len() ==> bits_a[i] == bits_b[i],
    ensures
        spec_write_field(v, tile, ps, bits_a) == spec_write_field(v, tile, ps, bits_b),
    decreases ps.len(),
{
    if ps.len() > 0 {
        lemma_write_field_prefix(v, tile, ps.drop_last(), bits_a, bits_b);
    }
}

/// The value held by the first `n` bits of a field
pub open spec fn spec_read_field<F: FieldPositionCalculator>(
    v: BitstreamView,
    tile: TilePos,
    fp: F,
    n: nat,
) -> u32 {
    bits_value(spec_field_bits(v, tile, spec_positions(fp, n)))
}

/// The bitstream after writing the `n` low bits of `val` into the first `n` bits of a field
pub open spec fn spec_write_value<F: FieldPositionCalculator>(
    v: BitstreamView,
    tile: TilePos,
    fp: F,
    n: nat,
    val: u32,
) -> BitstreamView {
    spec_write_field(v, tile, spec_positions(fp, n), value_bits(val, n))
}

/// Does a box of `w x h` bits fit into the tile at `tile`?
pub open spec fn spec_box_in_tile(f: Family, tile: TilePos, w: int, h: int) -> bool {
    &&& tile_in_grid(f, tile)
    &&& w <= spec_tile_type(f, tile).spec_dims().0
    &&& h <= spec_tile_type(f, tile).spec_dims().1
}

/// Every bit within the size of a tile's type lies inside the main array.
pub proof fn lemma_tile_bit_in_range(f: Family, tile: TilePos, rel: TileRelativeBitPos)
    requires
        tile_in_grid(f, tile),
        rel.x < spec_tile_type(f, tile).spec_dims().0,
        rel.y < spec_tile_type(f, tile).spec_dims().1,
    ensures
        spec_logic_bit_in_range(f, spec_global_from_tile(f, tile, rel)),
{
}

/// The positions of a valid field that fits in its tile lie inside the main array and are
/// pairwise different.
pub proof fn lemma_field_fits<F: FieldPositionCalculator>(f: Family, tile: TilePos, fp: F, n: nat)
    requires
        fp.spec_valid(),
        n <= fp.spec_nbits(),
        spec_box_in_tile(f, tile, fp.spec_width(), fp.spec_height()),
    ensures
        spec_positions_fit(f, tile, spec_positions(fp, n)),
        spec_positions_distinct(spec_positions(fp, n)),
{
    fp.lemma_layout();
    let ps = spec_positions(fp, n);
    assert forall|i: int| 0 <= i < ps.len() implies spec_logic_bit_in_range(
        f,
        #[trigger] spec_global_from_tile(f, tile, ps[i]),
    ) by {
        assert(ps[i] == fp.spec_bit_pos(i));
        lemma_tile_bit_in_range(f, tile, ps[i]);
    }
    assert forall|i: int, j: int| 0 <= i < j < ps.len() implies #[trigger] ps[i] != #[trigger] ps[j] by {
        assert(ps[i] == fp.spec_bit_pos(i));
        assert(ps[j] == fp.spec_bit_pos(j));
    }
}

/// Reading back a value written into a field gives the value, when it fits the field.
pub proof fn lemma_write_read_value<F: FieldPositionCalculator>(
    v: BitstreamView,
    tile: TilePos,
    fp: F,
    n: nat,
    val: u32,
)
    requires
        v.logic_ready(),
        n <= 32,
        spec_positions_fit(v.family, tile, spec_positions(fp, n)),
        spec_positions_distinct(spec_positions(fp, n)),
        fits_bits(val, n as u32),
    ensures
        spec_read_field(spec_write_value(v, tile, fp, n, val), tile, fp, n) == val,
{
    let ps = spec_positions(fp, n);
    lemma_write_field_read(v, tile, ps, value_bits(val, n));
    lemma_value_bits_roundtrip(val, n);
}

/// A one-bit field at a fixed position
pub struct BitAt {
    pub x: u8,
    pub y: u8,
}

impl FieldPositionCalculator for BitAt {
    open spec fn spec_valid(&self) -> bool {
        true
    }

    open spec fn spec_nbits(&self) -> nat {
        1
    }

    open spec fn spec_bit_pos(&self, biti: int) -> TileRelativeBitPos {
        TileRelativeBitPos { y: self.y, x: self.x }
    }

    open spec fn spec_width(&self) -> int {
        self.x + 1
    }

    open spec fn spec_height(&self) -> int {
        self.y + 1
    }

    proof fn lemma_layout(&self) {
    }

    fn get_bit_pos(&self, biti: usize) -> (r: TileRelativeBitPos) {
        TileRelativeBitPos { y: self.y, x: self.x }
    }
}

/// A field of `len` bits in one row, bit `i` at `x + i`
pub struct RowUp {
    pub x: u8,
    pub y: u8,
    pub len: u8,
}

impl FieldPositionCalculator for RowUp {
    open spec fn spec_valid(&self) -> bool {
        self.x + self.len <= 256
    }

    open spec fn spec_nbits(&self) -> nat {
        self.len as nat
    }

    open spec fn spec_bit_pos(&self, biti: int) -> TileRelativeBitPos {
        TileRelativeBitPos { y: self.y, x: (self.x + biti) as u8 }
    }

    open spec fn spec_width(&self) -> int {
        self.x + self.len
    }

    open spec fn spec_height(&self) -> int {
        self.y + 1
    }

    proof fn lemma_layout(&self) {
    }

    fn get_bit_pos(&self, biti: usize) -> (r: TileRelativeBitPos) {
        TileRelativeBitPos { y: self.y, x: self.x + biti as u8 }
    }
}

/// A field of `len` bits in one row, bit `i` at `x - i`
pub struct RowDown {
    pub x: u8,
    pub y: u8,
    pub len: u8,
}

impl FieldPositionCalculator for RowDown {
    open spec fn spec_valid(&self) -> bool {
        self.len <= self.x + 1
    }

    open spec fn spec_nbits(&self) -> nat {
        self.len as nat
    }

    open spec fn spec_bit_pos(&self, biti: int) -> TileRelativeBitPos {
        TileRelativeBitPos { y: self.y, x: (self.x - biti) as u8 }
    }

    open spec fn spec_width(&self) -> int {
        self.x + 1
    }

    open spec fn spec_height(&self) -> int {
        self.y + 1
    }

    proof fn lemma_layout(&self) {
    }

    fn get_bit_pos(&self, biti: usize) -> (r: TileRelativeBitPos) {
        TileRelativeBitPos { y: self.y, x: self.x - biti as u8 }
    }
}

/// A field of `len` bits in one column, bit `i` at `y + i`
pub struct ColUp {
    pub x: u8,
    pub y: u8,
    pub len: u8,
}

impl FieldPositionCalculator for ColUp {
    open spec fn spec_valid(&self) -> bool {
        self.y + self.len <= 256
    }

    open spec fn spec_nbits(&self) -> nat {
        self.len as nat
    }

    open spec fn spec_bit_pos(&self, biti: int) -> TileRelativeBitPos {
        TileRelativeBitPos { y: (self.y + biti) as u8, x: self.x }
    }

    open spec fn spec_width(&self) -> int {
        self.x + 1
    }

    open spec fn spec_height(&self) -> int {
        self.y + self.len
    }

    proof fn lemma_layout(&self) {
    }

    fn get_bit_pos(&self, biti: usize) -> (r: TileRelativeBitPos) {
        TileRelativeBitPos { y: self.y + biti as u8, x: self.x }
    }
}

/// A field of `len` bits in one column, bit `i` at `y - i`
pub struct ColDown {
    pub x: u8,
    pub y: u8,
    pub len: u8,
}

impl FieldPositionCalculator for ColDown {
    open spec fn spec_valid(&self) -> bool {
        self.len <= self.y + 1
    }

    open spec fn spec_nbits(&self) -> nat {
        self.len as nat
    }

    open spec fn spec_bit_pos(&self, biti: int) -> TileRelativeBitPos {
        TileRelativeBitPos { y: (self.y - biti) as u8, x: self.x }
    }

    open spec fn spec_width(&self) -> int {
        self.x + 1
    }

    open spec fn spec_height(&self) -> int {
        self.y + 1
    }

    proof fn lemma_layout(&self) {
    }

    fn get_bit_pos(&self, biti: usize) -> (r: TileRelativeBitPos) {
        TileRelativeBitPos { y: self.y - biti as u8, x: self.x }
    }
}

} // verus!
