use vstd::prelude::*;
use super::lcdc::LCDC;
use super::sprite::Sprite;

verus! {

/// Size of the OAM (0xFE00 - 0xFE9F).
pub const OAM_LEN: usize = 0xA0;
/// Number of bytes per sprite entry.
pub const SPRITE_WIDTH: usize = 4;
/// Number of sprite entries.
pub const SPRITE_COUNT: u8 = 40;
/// The most sprites drawn on one line.
pub const MAX_SPRITES_PER_LINE: usize = 10;

/// Object attribute memory: 40 sprite entries, and the list of sprites that
/// may be visible, sorted by x.
pub struct OAM {
    pub mem: Vec<u8>,
    /// The indexes of *potentially visible* sprites, sorted by their x
    /// coordinate (ascending)
    pub visible_sorted: Vec<u8>,
    pub is_dirty: bool,
}

/// The OAM y of sprite `id`.
pub open spec fn entry_y(mem: Seq<u8>, id: u8) -> u8 {
    mem[id as int * 4]
}

/// The OAM x of sprite `id`.
pub open spec fn entry_x(mem: Seq<u8>, id: u8) -> u8 {
    mem[id as int * 4 + 1]
}

/// A sprite entry that may show on screen.
pub open spec fn potentially_visible(mem: Seq<u8>, id: u8) -> bool {
    &&& id < SPRITE_COUNT
    &&& 8 < entry_y(mem, id) < 160
    &&& entry_x(mem, id) < 166
}

/// Sprite `id` covers screen line `ly` (sprites are 8 lines high).
pub open spec fn covers_line(mem: Seq<u8>, id: u8, ly: u8) -> bool {
    let top = entry_y(mem, id) - 16;
    top <= ly < top + 8
}

/// The ids in `ids` of the sprites covering `ly`, in order.
pub open spec fn ids_on_line(mem: Seq<u8>, ids: Seq<u8>, ly: u8) -> Seq<u8>
    decreases ids.len(),
{
    if ids.len() == 0 {
        Seq::empty()
    } else if covers_line(mem, ids.last(), ly) {
        ids_on_line(mem, ids.drop_last(), ly).push(ids.last())
    } else {
        ids_on_line(mem, ids.drop_last(), ly)
    }
}

proof fn lemma_ids_on_line_len(mem: Seq<u8>, ids: Seq<u8>, ly: u8)
    ensures
        ids_on_line(mem, ids, ly).len() <= ids.len(),
    decreases ids.len(),
{
    if ids.len() > 0 {
        lemma_ids_on_line_len(mem, ids.drop_last(), ly);
    }
}

impl OAM {
    pub open spec fn wf(&self) -> bool {
        &&& self.mem.len() == OAM_LEN
        &&& !self.is_dirty ==> self.sorted_visible()
    }

    /// `visible_sorted` holds each potentially visible sprite once, and
    /// nothing else, in ascending order of x.
    pub open spec fn sorted_visible(&self) -> bool {
        let vs = self.visible_sorted@;
        let mem = self.mem@;
        &&& forall|i: int| 0 <= i < vs.len() ==> potentially_visible(mem, #[trigger] vs[i])
        &&& forall|id: u8| potentially_visible(mem, id) ==> #[trigger] vs.contains(id)
        &&& forall|i: int, j: int| 0 <= i < j < vs.len() ==> vs[i] != vs[j]
        &&& forall|i: int, j: int|
            0 <= i < j < vs.len() ==> entry_x(mem, vs[i]) <= entry_x(mem, vs[j])
        &&& forall|i: int, j: int|
            0 <= i < j < vs.len() && entry_x(mem, vs[i]) == entry_x(mem, vs[j]) ==> vs[i] < vs[j]
    }

    /// The sprites drawn on line `ly`: the first ten covering it, by x.
    pub open spec fn line_sprites(&self, ly: u8) -> Seq<Sprite> {
        let ids = ids_on_line(self.mem@, self.visible_sorted@, ly);
        let shown = if ids.len() > MAX_SPRITES_PER_LINE {
            ids.take(MAX_SPRITES_PER_LINE as int)
        } else {
            ids
        };
        shown.map_values(|id: u8| Sprite::of_entry(self.mem@.subrange(id as int * 4, id as int * 4 + 4)))
    }

    pub fn new() -> (r: OAM)
        ensures
            r.wf(),
            r.is_dirty,
            forall|i: int| 0 <= i < OAM_LEN ==> #[trigger] r.mem@[i] == 0,
    {
        let mut mem: Vec<u8> = Vec::new();
        let mut i: usize = 0;
        while i < OAM_LEN
            invariant
                i <= OAM_LEN,
                mem.len() == i,
                forall|j: int| 0 <= j < i ==> #[trigger] mem@[j] == 0,
            decreases OAM_LEN - i,
        {
            mem.push(0);
            i = i + 1;
        }
        OAM { mem, visible_sorted: Vec::new(), is_dirty: true }
    }

    /// Only 8 x 8 sprites are supported; for them a change of LCDC needs no
    /// work here.
    pub fn notify_lcdc_changed(&mut self, lcdc: LCDC)
        requires
            !lcdc.flag(2),
        ensures
            *final(self) == *old(self),
    {
    }

    pub fn read(&self, index: u16) -> (r: u8)
        requires
            self.wf(),
            (index as usize) < OAM_LEN,
        ensures
            r == self.mem@[index as int],
    {
        self.mem[index as usize]
    }

    /// Writes a byte of OAM; the visible list is rebuilt before the next use.
    pub fn write(&mut self, index: u16, val: u8)
        requires
            old(self).wf(),
            (index as usize) < OAM_LEN,
        ensures
            final(self).wf(),
            final(self).is_dirty,
            final(self).mem@ == old(self).mem@.update(index as int, val),
            final(self).visible_sorted == old(self).visible_sorted,
    {
        self.is_dirty = true;
        self.mem.set(index as usize, val);
    }

    /// The sprites covering line `ly`, at most ten, taken in order of x.
    pub fn sprites_in_line(&self, ly: u8) -> (r: Vec<Sprite>)
        requires
            self.wf(),
            !self.is_dirty,
        ensures
            r@ == self.line_sprites(ly),
            r@.len() <= MAX_SPRITES_PER_LINE,
    {
        let mut ids: Vec<u8> = Vec::new();
        let mut i: usize = 0;
        let n = self.visible_sorted.len();
        while i < n
            invariant
                self.wf(),
                !self.is_dirty,
                n == self.visible_sorted.len(),
                i <= n,
                ids@ == ids_on_line(self.mem@, self.visible_sorted@.take(i as int), ly),
                forall|j: int| 0 <= j < ids@.len() ==> potentially_visible(self.mem@, #[trigger] ids@[j]),
            decreases n - i,
        {
            let id = self.visible_sorted[i];
            proof {
                let vs = self.visible_sorted@;
                assert(vs.take(i + 1).drop_last() =~= vs.take(i as int));
                assert(vs.take(i + 1).last() == id);
                assert(potentially_visible(self.mem@, vs[i as int]));
            }
            let sprite_y = self.mem[id as usize * SPRITE_WIDTH] as i16 - 16;
            if ly as i16 >= sprite_y && (ly as i16) < sprite_y + 8 {
                ids.push(id);
            }
            i = i + 1;
        }
        proof {
            assert(self.visible_sorted@.take(n as int) =~= self.visible_sorted@);
        }
        let mut r: Vec<Sprite> = Vec::new();
        let mut k: usize = 0;
        let shown = if ids.len() > MAX_SPRITES_PER_LINE {
            MAX_SPRITES_PER_LINE
        } else {
            ids.len()
        };
        while k < shown
            invariant
                self.wf(),
                !self.is_dirty,
                shown <= ids.len(),
                shown <= MAX_SPRITES_PER_LINE,
                shown == if ids@.len() > MAX_SPRITES_PER_LINE { MAX_SPRITES_PER_LINE as int } else { ids@.len() as int },
                ids@ == ids_on_line(self.mem@, self.visible_sorted@, ly),
                forall|j: int| 0 <= j < ids@.len() ==> potentially_visible(self.mem@, #[trigger] ids@[j]),
                k <= shown,
                r@ == ids@.take(k as int).map_values(
                    |id: u8| Sprite::of_entry(self.mem@.subrange(id as int * 4, id as int * 4 + 4)),
                ),
            decreases shown - k,
        {
            let id = ids[k] as usize;
            let entry = slice_of4(&self.mem, id * SPRITE_WIDTH);
            let s = Sprite::from_slice(entry.as_slice());
            r.push(s);
            proof {
                assert(ids@.take(k + 1).drop_last() =~= ids@.take(k as int));
            }
            k = k + 1;
        }
        proof {
            if ids@.len() <= MAX_SPRITES_PER_LINE {
                assert(ids@.take(shown as int) =~= ids@);
            }
        }
        r
    }

    /// Recomputes the list of potentially visible sprites, sorted by x
    /// (sprites of equal x by id).
    pub fn rebuild(&mut self)
        requires
            old(self).wf(),
        ensures
            final(self).wf(),
            !final(self).is_dirty,
            final(self).mem == old(self).mem,
            final(self).sorted_visible(),
            !old(self).is_dirty ==> *final(self) == *old(self),
    {
        if !self.is_dirty {
            return;
        }
        self.visible_sorted.clear();
        let mut x_key: u8 = 0;
        while x_key < 166
            invariant
                self.mem.len() == OAM_LEN,
                self.mem == old(self).mem,
                x_key <= 166,
                forall|i: int|
                    0 <= i < self.visible_sorted@.len() ==> potentially_visible(self.mem@, #[trigger] self.visible_sorted@[i])
                        && entry_x(self.mem@, self.visible_sorted@[i]) < x_key,
                forall|id: u8|
                    potentially_visible(self.mem@, id) && entry_x(self.mem@, id) < x_key ==> #[trigger] self.visible_sorted@.contains(id),
                forall|i: int, j: int|
                    0 <= i < j < self.visible_sorted@.len() ==> self.visible_sorted@[i] != self.visible_sorted@[j],
                forall|i: int, j: int|
                    0 <= i < j < self.visible_sorted@.len() ==> entry_x(self.mem@, self.visible_sorted@[i]) <= entry_x(self.mem@, self.visible_sorted@[j]),
                forall|i: int, j: int|
                    0 <= i < j < self.visible_sorted@.len() && entry_x(self.mem@, self.visible_sorted@[i]) == entry_x(self.mem@, self.visible_sorted@[j])
                        ==> self.visible_sorted@[i] < self.visible_sorted@[j],
            decreases 166 - x_key,
        {
            let mut id: u8 = 0;
            let ghost start_len = self.visible_sorted@.len();
            while id < SPRITE_COUNT
                invariant
                    self.mem.len() == OAM_LEN,
                    self.mem == old(self).mem,
                    x_key < 166,
                    id <= SPRITE_COUNT,
                    start_len <= self.visible_sorted@.len(),
                    forall|i: int|
                        0 <= i < start_len ==> potentially_visible(self.mem@, #[trigger] self.visible_sorted@[i])
                            && entry_x(self.mem@, self.visible_sorted@[i]) < x_key,
                    forall|i: int|
                        start_len <= i < self.visible_sorted@.len() ==> potentially_visible(self.mem@, #[trigger] self.visible_sorted@[i])
                            && entry_x(self.mem@, self.visible_sorted@[i]) == x_key
                            && self.visible_sorted@[i] < id,
                    forall|v: u8|
                        potentially_visible(self.mem@, v) && (entry_x(self.mem@, v) < x_key || (entry_x(self.mem@, v) == x_key && v < id)) ==> #[trigger] self.visible_sorted@.contains(v),
                    forall|i: int, j: int|
                        0 <= i < j < self.visible_sorted@.len() ==> self.visible_sorted@[i] != self.visible_sorted@[j],
                    forall|i: int, j: int|
                        0 <= i < j < self.visible_sorted@.len() ==> entry_x(self.mem@, self.visible_sorted@[i]) <= entry_x(self.mem@, self.visible_sorted@[j]),
                    forall|i: int, j: int|
                        0 <= i < j < self.visible_sorted@.len() && entry_x(self.mem@, self.visible_sorted@[i]) == entry_x(self.mem@, self.visible_sorted@[j])
                            ==> self.visible_sorted@[i] < self.visible_sorted@[j],
                decreases SPRITE_COUNT - id,
            {
                let sprite_y = self.mem[id as usize * SPRITE_WIDTH];
                let sprite_x = self.mem[id as usize * SPRITE_WIDTH + 1];
                if sprite_y > 8 && sprite_y < 160 && sprite_x < 166 && sprite_x == x_key {
                    let ghost prev = self.visible_sorted@;
                    self.visible_sorted.push(id);
                    proof {
                        assert forall|v: u8|
                            potentially_visible(self.mem@, v) && (entry_x(self.mem@, v) < x_key || (entry_x(self.mem@, v) == x_key && v < id + 1)) implies #[trigger] self.visible_sorted@.contains(v) by {
                            if v == id {
                                assert(self.visible_sorted@[prev.len() as int] == id);
                            } else {
                                assert(prev.contains(v));
                                let k = prev.index_of(v);
                                assert(self.visible_sorted@[k] == v);
                            }
                        }
                    }
                } else {
                    proof {
                        assert forall|v: u8|
                            potentially_visible(self.mem@, v) && (entry_x(self.mem@, v) < x_key || (entry_x(self.mem@, v) == x_key && v < id + 1)) implies #[trigger] self.visible_sorted@.contains(v) by {
                            if v == id {
                                assert(!potentially_visible(self.mem@, v) || entry_x(self.mem@, v) != x_key);
                            }
                        }
                    }
                }
                id = id + 1;
            }
            x_key = x_key + 1;
        }
        self.is_dirty = false;
        proof {
            assert forall|v: u8| potentially_visible(self.mem@, v) implies #[trigger] self.visible_sorted@.contains(v) by {
                assert(entry_x(self.mem@, v) < 166);
            }
        }
    }
}

/// The four bytes of `mem` from `start`.
fn slice_of4(mem: &Vec<u8>, start: usize) -> (r: Vec<u8>)
    requires
        start + 4 <= mem.len(),
    ensures
        r@ == mem@.subrange(start as int, start + 4),
{
    let mut r: Vec<u8> = Vec::new();
    r.push(mem[start]);
    r.push(mem[start + 1]);
    r.push(mem[start + 2]);
    r.push(mem[start + 3]);
    assert(r@ =~= mem@.subrange(start as int, start + 4));
    r
}

} // verus!
