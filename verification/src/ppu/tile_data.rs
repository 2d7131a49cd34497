use vstd::prelude::*;
use super::color::Color;
use crate::bit_ops::u8_bit;
use fixedbitset::FixedBitSet;

verus! {

#[verifier::external_type_specification]
#[verifier::external_body]
pub struct ExFixedBitSet(FixedBitSet);

/// The indices of the bits that are set in a `FixedBitSet`.
pub uninterp spec fn bitset_ones(s: FixedBitSet) -> Set<usize>;

/// The number of bits a `FixedBitSet` was made with.
pub uninterp spec fn bitset_len(s: FixedBitSet) -> usize;

/// `FixedBitSet::with_capacity`: a set of `bits` bits, none of them set.
#[verifier::external_body]
fn bitset_with_capacity(bits: usize) -> (r: FixedBitSet)
    ensures
        bitset_ones(r) == Set::<usize>::empty(),
        bitset_len(r) == bits,
{
    FixedBitSet::with_capacity(bits)
}

/// `FixedBitSet::insert`: sets bit `bit`; the crate panics when `bit` is
/// not below the length.
#[verifier::external_body]
fn bitset_insert(s: &mut FixedBitSet, bit: usize)
    requires
        bit < bitset_len(*old(s)),
    ensures
        bitset_ones(*final(s)) == bitset_ones(*old(s)).insert(bit),
        bitset_len(*final(s)) == bitset_len(*old(s)),
{
    s.insert(bit)
}

/// `FixedBitSet::clear`: clears every bit, keeping the length.
#[verifier::external_body]
fn bitset_clear(s: &mut FixedBitSet)
    ensures
        bitset_ones(*final(s)) == Set::<usize>::empty(),
        bitset_len(*final(s)) == bitset_len(*old(s)),
{
    s.clear()
}

/// `FixedBitSet::ones`, collected: the indices of the set bits, in
/// ascending order (the iterator walks the blocks from the first).
#[verifier::external_body]
fn bitset_ones_ascending(s: &FixedBitSet) -> (r: Vec<usize>)
    ensures
        r@.to_set() == bitset_ones(*s),
        forall|i: int, j: int| 0 <= i < j < r@.len() ==> r@[i] < r@[j],
{
    s.ones().collect()
}

/// Size of the tile data area (0x8000 - 0x97FF).
pub const TILE_DATA_LEN: usize = 0x1800;
/// Number of tiles in the tile data area.
pub const TILE_COUNT: usize = 384;

/// The 2-bit color of pixel `pix` of a tile row (pixel 7 is the leftmost).
pub open spec fn pixel_color(lower: u8, upper: u8, pix: nat) -> nat {
    (if u8_bit(upper, pix) { 2nat } else { 0nat }) + (if u8_bit(lower, pix) { 1nat } else { 0nat })
}

/// The colors of pixels `0..k` packed with pixel `k-1` at the lowest bits.
pub open spec fn packed_prefix(lower: u8, upper: u8, k: nat) -> nat
    decreases k,
{
    if k == 0 {
        0
    } else {
        packed_prefix(lower, upper, (k - 1) as nat) * 4 + pixel_color(lower, upper, (k - 1) as nat)
    }
}

/// A tile row in the layout used for drawing: two bits per pixel with the
/// leftmost pixel in the lowest bits.
pub open spec fn decoded_row(lower: u8, upper: u8) -> u16 {
    packed_prefix(lower, upper, 8) as u16
}

proof fn lemma_packed_bound(lower: u8, upper: u8, k: nat)
    requires
        k <= 8,
    ensures
        packed_prefix(lower, upper, k) < vstd::arithmetic::power2::pow2(2 * k),
    decreases k,
{
    vstd::arithmetic::power2::lemma2_to64();
    if k > 0 {
        lemma_packed_bound(lower, upper, (k - 1) as nat);
        vstd::arithmetic::power2::lemma_pow2_adds(2 * (k - 1) as nat, 2);
    }
}

/// Offset into tile data of the row `row` (0..8) of the tile `tile`.
pub open spec fn row_offset(tile: nat, row: nat) -> nat {
    tile * 16 + row * 2
}

/// Offset into tile data (0x8000 - 0x97FF) of a tile row: always even.
#[derive(Copy, Clone, Debug, PartialEq, Eq, Structural)]
pub struct TileRowAddr(pub u16);

impl TileRowAddr {
    pub open spec fn wf(self) -> bool {
        self.0 % 2 == 0 && (self.0 as nat) < TILE_DATA_LEN
    }

    /// The row `line` of sprite tile `id` (sprites use the tiles at 0x8000).
    pub fn from_sprite_tile_id(id: u8, line: u8) -> (r: TileRowAddr)
        requires
            line < 8,
        ensures
            r.0 == row_offset(id as nat, line as nat),
            r.wf(),
    {
        TileRowAddr(id as u16 * 16 + line as u16 * 2)
    }

    pub fn into_vram_addr(self) -> (r: u16)
        ensures
            r == self.0,
    {
        self.0
    }
}

/// Memory from 0x8000 - 0x97FF: the content of the tiles. Next to the raw
/// layout, a copy in the layout used for drawing is kept; it is brought up
/// to date by `rebuild` for the tiles written since.
pub struct TileData {
    pub raw_mem: Vec<u8>,
    pub pretty_mem: Vec<u8>,
    /// Tiles written since the last `rebuild()`
    pub dirty_tiles: FixedBitSet,
    pub is_dirty: bool,
}

/// A row read as a little-endian word.
pub open spec fn row_word(mem: Seq<u8>, addr: int) -> u16 {
    (mem[addr] as nat + 256 * mem[addr + 1] as nat) as u16
}

impl TileData {
    /// The drawing copy of row `row` of `tile` matches the raw row.
    pub open spec fn row_decoded(self, tile: nat, row: nat) -> bool {
        let a = row_offset(tile, row) as int;
        row_word(self.pretty_mem@, a) == decoded_row(self.raw_mem@[a], self.raw_mem@[a + 1])
    }

    pub open spec fn tile_decoded(self, tile: nat) -> bool {
        forall|row: nat| row < 8 ==> #[trigger] self.row_decoded(tile, row)
    }

    pub open spec fn wf(self) -> bool {
        &&& self.raw_mem.len() == TILE_DATA_LEN
        &&& self.pretty_mem.len() == TILE_DATA_LEN
        &&& bitset_len(self.dirty_tiles) == TILE_COUNT
        &&& forall|t: usize| #[trigger] bitset_ones(self.dirty_tiles).contains(t) ==> t < TILE_COUNT
        &&& !self.is_dirty ==> bitset_ones(self.dirty_tiles) == Set::<usize>::empty()
        &&& forall|t: nat| t < TILE_COUNT && !bitset_ones(self.dirty_tiles).contains(t as usize)
            ==> #[trigger] self.tile_decoded(t)
    }

    pub fn new() -> (r: TileData)
        ensures
            r.wf(),
            r.is_dirty,
            forall|i: int| 0 <= i < TILE_DATA_LEN ==> #[trigger] r.raw_mem@[i] == 0,
    {
        let raw_mem = zeroed(TILE_DATA_LEN);
        let pretty_mem = zeroed(TILE_DATA_LEN);
        let dirty_tiles = bitset_with_capacity(TILE_COUNT);
        let r = TileData { raw_mem, pretty_mem, dirty_tiles, is_dirty: true };
        proof {
            assert forall|t: nat| t < TILE_COUNT && !bitset_ones(r.dirty_tiles).contains(
                t as usize,
            ) implies #[trigger] r.tile_decoded(t) by {
                assert forall|row: nat| row < 8 implies #[trigger] r.row_decoded(t, row) by {
                    lemma_decoded_zero();
                }
            }
        }
        r
    }

    /// A byte of tile data.
    pub fn read(&self, index: u16) -> (r: u8)
        requires
            self.wf(),
            (index as nat) < TILE_DATA_LEN,
        ensures
            r == self.raw_mem@[index as int],
    {
        self.raw_mem[index as usize]
    }

    /// Writes a byte of tile data and marks its tile for the next rebuild.
    pub fn write(&mut self, index: u16, val: u8)
        requires
            old(self).wf(),
            (index as nat) < TILE_DATA_LEN,
        ensures
            final(self).wf(),
            final(self).is_dirty,
            final(self).raw_mem@ == old(self).raw_mem@.update(index as int, val),
            bitset_ones(final(self).dirty_tiles) == bitset_ones(old(self).dirty_tiles).insert(
                index as usize / 16,
            ),
    {
        let tile = index as usize / 16;
        bitset_insert(&mut self.dirty_tiles, tile);
        self.is_dirty = true;
        self.raw_mem.set(index as usize, val);
        proof {
            let o = old(self);
            assert forall|t: nat| t < TILE_COUNT && !bitset_ones(self.dirty_tiles).contains(
                t as usize,
            ) implies #[trigger] self.tile_decoded(t) by {
                assert(o.tile_decoded(t));
                assert forall|row: nat| row < 8 implies #[trigger] self.row_decoded(t, row) by {
                    assert(o.row_decoded(t, row));
                    assert(t != tile);
                }
            }
        }
    }

    /// The row at `addr` in drawing layout; the tile data must be rebuilt.
    pub fn get_row(&self, tile_row_addr: TileRowAddr) -> (r: InOrderTileRow)
        requires
            self.wf(),
            !self.is_dirty,
            tile_row_addr.wf(),
        ensures
            r.0 == decoded_row(
                self.raw_mem@[tile_row_addr.0 as int],
                self.raw_mem@[tile_row_addr.0 + 1],
            ),
    {
        InOrderTileRow(self.fetch_row(tile_row_addr))
    }

    /// The row at `addr` in drawing layout, to be read right to left.
    pub fn get_row_reverse(&self, tile_row_addr: TileRowAddr) -> (r: ReverseTileRow)
        requires
            self.wf(),
            !self.is_dirty,
            tile_row_addr.wf(),
        ensures
            r.0 == decoded_row(
                self.raw_mem@[tile_row_addr.0 as int],
                self.raw_mem@[tile_row_addr.0 + 1],
            ),
    {
        ReverseTileRow(self.fetch_row(tile_row_addr))
    }

    fn fetch_row(&self, tile_row_addr: TileRowAddr) -> (r: u16)
        requires
            self.wf(),
            !self.is_dirty,
            tile_row_addr.wf(),
        ensures
            r == decoded_row(
                self.raw_mem@[tile_row_addr.0 as int],
                self.raw_mem@[tile_row_addr.0 + 1],
            ),
    {
        let a = tile_row_addr.into_vram_addr() as usize;
        proof {
            let tile = (a / 16) as nat;
            let row = ((a % 16) / 2) as nat;
            assert(a == row_offset(tile, row));
            assert(self.tile_decoded(tile));
            assert(self.row_decoded(tile, row));
        }
        self.pretty_mem[a] as u16 + 256 * (self.pretty_mem[a + 1] as u16)
    }

    /// Brings the drawing copy of every tile written since the last rebuild
    /// up to date.
    pub fn rebuild(&mut self)
        requires
            old(self).wf(),
        ensures
            final(self).wf(),
            !final(self).is_dirty,
            final(self).raw_mem@ == old(self).raw_mem@,
            forall|t: nat| t < TILE_COUNT ==> #[trigger] final(self).tile_decoded(t),
    {
        if !self.is_dirty {
            proof {
                assert forall|t: nat| t < TILE_COUNT implies #[trigger] self.tile_decoded(t) by {
                    assert(!bitset_ones(self.dirty_tiles).contains(t as usize));
                }
            }
            return;
        }
        let dirty = bitset_ones_ascending(&self.dirty_tiles);
        let ghost dirty_set = bitset_ones(self.dirty_tiles);
        let mut i: usize = 0;
        while i < dirty.len()
            invariant
                self.raw_mem.len() == TILE_DATA_LEN,
                self.pretty_mem.len() == TILE_DATA_LEN,
                self.raw_mem@ == old(self).raw_mem@,
                self.dirty_tiles == old(self).dirty_tiles,
                dirty@.to_set() == dirty_set,
                forall|a: int, b: int| 0 <= a < b < dirty@.len() ==> dirty@[a] < dirty@[b],
                dirty_set == bitset_ones(self.dirty_tiles),
                forall|t: usize| #[trigger] dirty_set.contains(t) ==> t < TILE_COUNT,
                i <= dirty.len(),
                forall|t: nat|
                    t < TILE_COUNT && !dirty_set.contains(t as usize) ==> #[trigger] self.tile_decoded(t),
                forall|k: int| 0 <= k < i ==> #[trigger] self.tile_decoded(dirty@[k] as nat),
            decreases dirty.len() - i,
        {
            let tile = dirty[i];
            proof {
                assert(dirty@.to_set().contains(tile)) by {
                    assert(dirty@.contains(tile));
                }
            }
            let ghost before = *self;
            self.decode_tile(tile);
            proof {
                assert forall|k: int| 0 <= k < i + 1 implies #[trigger] self.tile_decoded(
                    dirty@[k] as nat,
                ) by {
                    if k < i {
                        assert(dirty@[k] < dirty@[i as int]);
                        assert(dirty@.to_set().contains(dirty@[k])) by {
                            assert(dirty@.contains(dirty@[k]));
                        }
                        assert(before.tile_decoded(dirty@[k] as nat));
                    }
                }
                assert forall|t: nat|
                    t < TILE_COUNT && !dirty_set.contains(t as usize) implies #[trigger] self.tile_decoded(t) by {
                    assert(before.tile_decoded(t));
                    assert(t != tile);
                }
            }
            i = i + 1;
        }
        proof {
            assert forall|t: nat| t < TILE_COUNT implies #[trigger] self.tile_decoded(t) by {
                if dirty_set.contains(t as usize) {
                    assert(dirty@.contains(t as usize));
                    let k = dirty@.index_of(t as usize);
                    assert(self.tile_decoded(dirty@[k] as nat));
                }
            }
        }
        let ghost pre = *self;
        bitset_clear(&mut self.dirty_tiles);
        self.is_dirty = false;
        proof {
            assert forall|t: nat| t < TILE_COUNT implies #[trigger] self.tile_decoded(t) by {
                assert(pre.tile_decoded(t));
                assert forall|row: nat| row < 8 implies #[trigger] self.row_decoded(t, row) by {
                    assert(pre.row_decoded(t, row));
                }
            }
        }
    }

    /// Decodes the eight rows of one tile into the drawing copy.
    fn decode_tile(&mut self, tile: usize)
        requires
            tile < TILE_COUNT,
            old(self).raw_mem.len() == TILE_DATA_LEN,
            old(self).pretty_mem.len() == TILE_DATA_LEN,
        ensures
            final(self).raw_mem == old(self).raw_mem,
            final(self).pretty_mem.len() == TILE_DATA_LEN,
            final(self).dirty_tiles == old(self).dirty_tiles,
            final(self).is_dirty == old(self).is_dirty,
            final(self).tile_decoded(tile as nat),
            forall|t: nat|
                t < TILE_COUNT && t != tile && #[trigger] old(self).tile_decoded(t)
                    ==> final(self).tile_decoded(t),
    {
        let mut row: usize = 0;
        while row < 8
            invariant
                tile < TILE_COUNT,
                row <= 8,
                self.raw_mem == old(self).raw_mem,
                self.raw_mem.len() == TILE_DATA_LEN,
                old(self).pretty_mem.len() == TILE_DATA_LEN,
                self.pretty_mem.len() == TILE_DATA_LEN,
                self.dirty_tiles == old(self).dirty_tiles,
                self.is_dirty == old(self).is_dirty,
                forall|r: nat| r < row ==> #[trigger] self.row_decoded(tile as nat, r),
                forall|i: int|
                    0 <= i < TILE_DATA_LEN && !(tile * 16 <= i < tile * 16 + 16) ==> self.pretty_mem@[i]
                        == old(self).pretty_mem@[i],
            decreases 8 - row,
        {
            let row_addr = tile * 16 + row * 2;
            let row_lower = self.raw_mem[row_addr];
            let row_upper = self.raw_mem[row_addr + 1];
            let row_col = decode_row(row_lower, row_upper);
            let row_left = (row_col % 256) as u8;
            let row_right = (row_col / 256) as u8;
            let ghost prev = self.pretty_mem@;
            let ghost prev_self = *self;
            self.pretty_mem.set(row_addr, row_left);
            self.pretty_mem.set(row_addr + 1, row_right);
            proof {
                assert(self.pretty_mem@ == prev.update(row_addr as int, row_left).update(
                    row_addr + 1,
                    row_right,
                ));
                assert(self.row_decoded(tile as nat, row as nat));
                assert forall|r: nat| r < row + 1 implies #[trigger] self.row_decoded(tile as nat, r) by {
                    if r < row {
                        assert(prev_self.row_decoded(tile as nat, r));
                        let a = row_offset(tile as nat, r) as int;
                        assert(self.pretty_mem@[a] == prev[a]);
                        assert(self.pretty_mem@[a + 1] == prev[a + 1]);
                    }
                }
            }
            row = row + 1;
        }
        proof {
            assert forall|t: nat|
                t < TILE_COUNT && t != tile && #[trigger] old(self).tile_decoded(t) implies self.tile_decoded(
                t,
            ) by {
                assert forall|r: nat| r < 8 implies #[trigger] self.row_decoded(t, r) by {
                    assert(old(self).row_decoded(t, r));
                    let a = row_offset(t, r) as int;
                    assert(a + 1 < TILE_DATA_LEN) by {
                        assert(t * 16 + r * 2 + 1 <= 383 * 16 + 15) by (nonlinear_arith)
                            requires
                                t < 384,
                                r < 8,
                        ;
                    }
                    assert(!(tile * 16 <= a < tile * 16 + 16)) by (nonlinear_arith)
                        requires
                            a == t * 16 + r * 2,
                            t != tile,
                            r < 8,
                    ;
                    assert(!(tile * 16 <= a + 1 < tile * 16 + 16)) by (nonlinear_arith)
                        requires
                            a == t * 16 + r * 2,
                            t != tile,
                            r < 8,
                    ;
                    assert(!(tile * 16 <= a + 1 < tile * 16 + 16));
                    assert(self.pretty_mem@[a] == old(self).pretty_mem@[a]);
                    assert(self.pretty_mem@[a + 1] == old(self).pretty_mem@[a + 1]);
                }
            }
        }
    }
}

proof fn lemma_decoded_zero()
    ensures
        decoded_row(0, 0) == 0,
{
    assert forall|k: nat| k < 8 implies #[trigger] pixel_color(0, 0, k) == 0 by {
        let kk = k as u8;
        assert((0u8 >> kk) & 1u8 == 0u8) by (bit_vector);
    }
    reveal_with_fuel(packed_prefix, 9);
}

fn zeroed(n: usize) -> (r: Vec<u8>)
    ensures
        r.len() == n,
        forall|i: int| 0 <= i < n ==> #[trigger] r@[i] == 0,
{
    let mut v: Vec<u8> = Vec::new();
    let mut i: usize = 0;
    while i < n
        invariant
            i <= n,
            v.len() == i,
            forall|j: int| 0 <= j < i ==> #[trigger] v@[j] == 0,
        decreases n - i,
    {
        v.push(0);
        i = i + 1;
    }
    v
}

fn bit_of(x: u8, n: u8) -> (r: u16)
    requires
        n < 8,
    ensures
        r == if u8_bit(x, n as nat) { 1u16 } else { 0u16 },
{
    assert(((x >> n) & 1u8) as u16 == if (x >> n) & 1u8 == 1u8 { 1u16 } else { 0u16 }) by (bit_vector);
    ((x >> n) & 1) as u16
}

/// Packs a raw tile row (lower and upper color bits) into drawing layout.
fn decode_row(lower: u8, upper: u8) -> (r: u16)
    ensures
        r == decoded_row(lower, upper),
{
    let mut row_col: u16 = 0;
    let mut pix: u8 = 0;
    proof {
        vstd::arithmetic::power2::lemma2_to64();
    }
    while pix < 8
        invariant
            pix <= 8,
            row_col as nat == packed_prefix(lower, upper, pix as nat),
        decreases 8 - pix,
    {
        proof {
            lemma_packed_bound(lower, upper, pix as nat);
            vstd::arithmetic::power2::lemma2_to64();
            vstd::arithmetic::power2::lemma_pow2_adds(2 * pix as nat, 2);
            if pix < 7 {
                vstd::arithmetic::power2::lemma_pow2_strictly_increases(2 * pix as nat, 14);
            }
        }
        row_col = row_col * 4 + bit_of(upper, pix) * 2 + bit_of(lower, pix);
        pix = pix + 1;
    }
    proof {
        lemma_packed_bound(lower, upper, 8);
    }
    row_col
}

/// A tile row read left to right: the leftmost pixel is in the lowest bits.
#[derive(Copy, Clone, Debug, PartialEq, Eq, Structural)]
pub struct InOrderTileRow(pub u16);

/// A tile row read right to left (a horizontally flipped sprite).
#[derive(Copy, Clone, Debug, PartialEq, Eq, Structural)]
pub struct ReverseTileRow(pub u16);

pub enum SpriteTileRow {
    InOrder(InOrderTileRow),
    Reverse(ReverseTileRow),
}

/// Rotates a word left by two bits.
pub open spec fn rotl2(v: u16) -> u16 {
    ((v as nat * 4) % 65536 + v as nat / 16384) as u16
}

/// Rotates a word left by `2 * n` bits.
pub open spec fn rotl2n(v: u16, n: nat) -> u16
    decreases n,
{
    if n == 0 {
        v
    } else {
        rotl2(rotl2n(v, (n - 1) as nat))
    }
}

/// A row of pixels handed out one at a time, leftmost first.
pub trait TileRow: Sized {
    /// The color of the leftmost remaining pixel.
    spec fn leftmost(self) -> u8;

    /// The row after its leftmost pixel was taken.
    spec fn rest(self) -> Self;

    /// The row after its `n` leftmost pixels were dropped.
    spec fn dropped(self, n: nat) -> Self;

    fn pop_leftmost(&mut self) -> (c: Color)
        ensures
            c.wf(),
            c.0 == old(self).leftmost(),
            *final(self) == old(self).rest(),
    ;

    fn discard_leftmost(&mut self, n: u8)
        requires
            n < 8,
        ensures
            *final(self) == old(self).dropped(n as nat),
    ;
}

impl TileRow for InOrderTileRow {
    open spec fn leftmost(self) -> u8 {
        (self.0 % 4) as u8
    }

    open spec fn rest(self) -> Self {
        InOrderTileRow(self.0 / 4)
    }

    open spec fn dropped(self, n: nat) -> Self {
        InOrderTileRow((self.0 as nat / vstd::arithmetic::power2::pow2(2 * n)) as u16)
    }

    fn pop_leftmost(&mut self) -> (c: Color) {
        let v = self.0;
        assert((v as u8) % 4 == v % 4 && v >> 2u16 == v / 4) by (bit_vector);
        let col = Color::from_u8_lsb(v as u8);
        self.0 = v >> 2;
        col
    }

    fn discard_leftmost(&mut self, n: u8) {
        let v = self.0;
        let s = (n * 2) as u16;
        proof {
            vstd::bits::lemma_u16_shr_is_div(v, s);
        }
        self.0 = v >> s;
    }
}

impl TileRow for ReverseTileRow {
    open spec fn leftmost(self) -> u8 {
        (rotl2(self.0) % 4) as u8
    }

    open spec fn rest(self) -> Self {
        ReverseTileRow(rotl2(self.0))
    }

    open spec fn dropped(self, n: nat) -> Self {
        ReverseTileRow(rotl2n(self.0, n))
    }

    fn pop_leftmost(&mut self) -> (c: Color) {
        let v = rotate_left_2(self.0);
        self.0 = v;
        assert((v as u8) % 4 == v % 4) by (bit_vector);
        Color::from_u8_lsb(v as u8)
    }

    fn discard_leftmost(&mut self, n: u8) {
        let mut k: u8 = 0;
        let ghost start = self.0;
        while k < n
            invariant
                k <= n,
                self.0 == rotl2n(start, k as nat),
            decreases n - k,
        {
            self.0 = rotate_left_2(self.0);
            k = k + 1;
        }
    }
}

fn rotate_left_2(v: u16) -> (r: u16)
    ensures
        r == rotl2(v),
{
    assert((v << 2u16) | (v >> 14u16) == ((v as u32 * 4) % 65536 + v as u32 / 16384) as u16)
        by (bit_vector);
    (v << 2u16) | (v >> 14u16)
}

impl TileRow for SpriteTileRow {
    open spec fn leftmost(self) -> u8 {
        match self {
            SpriteTileRow::InOrder(row) => row.leftmost(),
            SpriteTileRow::Reverse(row) => row.leftmost(),
        }
    }

    open spec fn rest(self) -> Self {
        match self {
            SpriteTileRow::InOrder(row) => SpriteTileRow::InOrder(row.rest()),
            SpriteTileRow::Reverse(row) => SpriteTileRow::Reverse(row.rest()),
        }
    }

    open spec fn dropped(self, n: nat) -> Self {
        match self {
            SpriteTileRow::InOrder(row) => SpriteTileRow::InOrder(row.dropped(n)),
            SpriteTileRow::Reverse(row) => SpriteTileRow::Reverse(row.dropped(n)),
        }
    }

    fn pop_leftmost(&mut self) -> (c: Color) {
        match self {
            SpriteTileRow::InOrder(row) => {
                let mut r = *row;
                let c = r.pop_leftmost();
                *self = SpriteTileRow::InOrder(r);
                c
            },
            SpriteTileRow::Reverse(row) => {
                let mut r = *row;
                let c = r.pop_leftmost();
                *self = SpriteTileRow::Reverse(r);
                c
            },
        }
    }

    fn discard_leftmost(&mut self, n: u8) {
        match self {
            SpriteTileRow::InOrder(row) => {
                let mut r = *row;
                r.discard_leftmost(n);
                *self = SpriteTileRow::InOrder(r);
            },
            SpriteTileRow::Reverse(row) => {
                let mut r = *row;
                r.discard_leftmost(n);
                *self = SpriteTileRow::Reverse(r);
            },
        }
    }
}

} // verus!
