//! The frame that widgets draw into: a buffer, the pool of glyphs that do
//! not fit a cell, and the cursor.

use crate::buffer::Buffer;
use crate::cell::Cell;
use crate::event::{Hit, HitId, HitRegion};
use crate::geometry::Rect;
use crate::hit_grid::{registered, HitGrid};
use crate::strmap::{find_key, lemma_find_key};
use crate::text::{str_eq, strings_view};
use vstd::prelude::*;

verus! {

/// Where an index fits a `u32`, the index as a pool id.
pub open spec fn id_of(i: int) -> Option<u32> {
    if 0 <= i <= u32::MAX {
        Some(i as u32)
    } else {
        None
    }
}

/// The glyphs of more than one code point or more than one column. A cell
/// refers to one by its id, which is its index in the pool.
#[derive(Debug, Clone)]
pub struct GraphemePool {
    entries: Vec<String>,
}

impl View for GraphemePool {
    type V = Seq<Seq<char>>;

    /// The glyphs, each at the index that is its id.
    closed spec fn view(&self) -> Seq<Seq<char>> {
        strings_view(self.entries@)
    }
}

/// The pool after `text` was interned: unchanged where it holds the text or
/// has no id left to give, else with the text as its last glyph.
pub open spec fn interned_pool(pool: Seq<Seq<char>>, text: Seq<char>) -> Seq<Seq<char>> {
    if find_key(pool, text, pool.len() as int).is_some() || pool.len() > u32::MAX {
        pool
    } else {
        pool.push(text)
    }
}

/// The id that interning `text` gives: that of the first equal glyph in
/// the pool, else that of a new last glyph, or none where the pool is full.
pub open spec fn interned_id(pool: Seq<Seq<char>>, text: Seq<char>) -> Option<u32> {
    match find_key(pool, text, pool.len() as int) {
        Some(i) => id_of(i),
        None => id_of(pool.len() as int),
    }
}

impl GraphemePool {
    /// The pool without glyphs.
    pub fn new() -> (p: GraphemePool)
        ensures
            p@ == Seq::<Seq<char>>::empty(),
    {
        let p = GraphemePool { entries: Vec::new() };
        assert(p@ =~= Seq::<Seq<char>>::empty());
        p
    }

    /// Number of glyphs.
    pub fn len(&self) -> (n: usize)
        ensures
            n == self@.len(),
    {
        self.entries.len()
    }

    /// Whether the pool holds no glyph.
    pub fn is_empty(&self) -> (r: bool)
        ensures
            r == (self@.len() == 0),
    {
        self.entries.len() == 0
    }

    /// The glyph with the given id.
    pub fn get(&self, id: u32) -> (r: Option<&str>)
        ensures
            match r {
                Some(s) => id < self@.len() && s@ == self@[id as int],
                None => id >= self@.len(),
            },
    {
        if (id as usize) < self.entries.len() {
            Some(self.entries[id as usize].as_str())
        } else {
            None
        }
    }

    /// The id of `text`, which is added to the pool unless it is there
    /// already. `None` where the pool has no id left to give.
    pub fn intern(&mut self, text: &str) -> (r: Option<u32>)
        ensures
            final(self)@ == interned_pool(old(self)@, text@),
            r == interned_id(old(self)@, text@),
            r.is_some() ==> r.unwrap() < final(self)@.len() && final(self)@[r.unwrap() as int]
                == text@,
    {
        let n = self.entries.len();
        let mut i: usize = 0;
        while i < n
            invariant
                n == self.entries@.len(),
                self.entries == old(self).entries,
                0 <= i <= n,
                find_key(self@, text@, i as int).is_none(),
            decreases n - i,
        {
            if str_eq(self.entries[i].as_str(), text) {
                proof {
                    assert(self@[i as int] == text@);
                    assert(find_key(self@, text@, i + 1) == Some(i as int));
                    lemma_find_key(self@, text@, n as int);
                    lemma_find_key(self@, text@, i + 1);
                }
                if i <= u32::MAX as usize {
                    return Some(i as u32);
                } else {
                    return None;
                }
            }
            proof {
                assert(self@[i as int] == self.entries@[i as int]@);
            }
            i += 1;
        }
        if n > u32::MAX as usize {
            return None;
        }
        self.entries.push(text.to_owned());
        proof {
            assert(self@ =~= old(self)@.push(text@));
        }
        Some(n as u32)
    }
}

impl Default for GraphemePool {
    fn default() -> (p: GraphemePool)
        ensures
            p@ == Seq::<Seq<char>>::empty(),
    {
        GraphemePool::new()
    }
}

/// What widgets draw into.
pub struct Frame {
    /// The grid of cells.
    pub buffer: Buffer,
    /// The glyphs that cells refer to by id.
    pub pool: GraphemePool,
    /// Where the cursor is to be put, if a widget asked for it.
    pub cursor_position: Option<(u16, u16)>,
    /// Whether the cursor is to be shown.
    pub cursor_visible: bool,
    /// The hit areas that widgets registered, where the frame keeps them.
    pub hit_grid: Option<HitGrid>,
}

/// Everything of a frame that drawing changes.
pub struct FrameModel {
    pub cells: Seq<Cell>,
    pub pool: Seq<Seq<char>>,
    pub cursor_position: Option<(u16, u16)>,
    pub cursor_visible: bool,
    pub hits: Option<Seq<Option<Hit>>>,
}

/// The model of a frame.
pub open spec fn model_of(frame: &Frame) -> FrameModel {
    FrameModel {
        cells: frame.buffer@,
        pool: frame.pool@,
        cursor_position: frame.cursor_position,
        cursor_visible: frame.cursor_visible,
        hits: frame.hits(),
    }
}

/// The width of the hit grid of a frame; zero where it keeps none.
pub open spec fn hit_width_of(frame: &Frame) -> int {
    match frame.hit_grid {
        Some(g) => g.spec_width(),
        None => 0,
    }
}

/// The hits after `hit` was registered for the cells of `rect`, where
/// hits are kept.
pub open spec fn hits_after(
    hits: Option<Seq<Option<Hit>>>,
    hit_width: int,
    rect: Rect,
    hit: Hit,
) -> Option<Seq<Option<Hit>>> {
    match hits {
        Some(h) => Some(registered(h, hit_width, rect, hit)),
        None => None,
    }
}

impl Frame {
    /// The buffer is well formed, and so is the hit grid where there is
    /// one.
    pub open spec fn wf(&self) -> bool {
        &&& self.buffer.wf()
        &&& self.hit_grid matches Some(g) ==> g.wf()
    }

    /// Whether `other` has the extent, clip stack and degradation level of
    /// this frame, and a hit grid of the same extent or none as well.
    pub open spec fn same_shape(&self, other: &Frame) -> bool {
        &&& self.buffer.spec_width() == other.buffer.spec_width()
        &&& self.buffer.spec_height() == other.buffer.spec_height()
        &&& self.buffer.scissors() == other.buffer.scissors()
        &&& self.buffer.spec_degradation() == other.buffer.spec_degradation()
        &&& self.hit_grid.is_some() == other.hit_grid.is_some()
        &&& self.hit_grid matches Some(g) ==> g.spec_width() == other.hit_grid->0.spec_width()
            && g.spec_height() == other.hit_grid->0.spec_height()
    }

    /// The hits of the frame; none where it keeps no hit grid.
    pub open spec fn hits(&self) -> Option<Seq<Option<Hit>>> {
        match self.hit_grid {
            Some(g) => Some(g@),
            None => None,
        }
    }

    /// The hits after `hit` was registered for the cells of `rect`.
    pub open spec fn hits_registered(&self, rect: Rect, hit: Hit) -> Option<Seq<Option<Hit>>> {
        match self.hit_grid {
            Some(g) => Some(registered(g@, g.spec_width(), rect, hit)),
            None => None,
        }
    }

    /// A frame of blank cells with an empty pool and no cursor.
    pub fn new(width: u16, height: u16) -> (f: Frame)
        ensures
            f.wf(),
            f.buffer.spec_width() == width,
            f.buffer.spec_height() == height,
            f.buffer@ == Seq::new(
                (width as int * height as int) as nat,
                |i: int| crate::cell::Cell::blank(),
            ),
            f.buffer.scissors() == seq![f.buffer.bounds()],
            f.pool@ == Seq::<Seq<char>>::empty(),
            f.cursor_position.is_none(),
            !f.cursor_visible,
            f.hit_grid.is_none(),
    {
        Frame {
            buffer: Buffer::new(width, height),
            pool: GraphemePool::new(),
            cursor_position: None,
            cursor_visible: false,
            hit_grid: None,
        }
    }

    /// A frame of blank cells that keeps the hit areas that widgets
    /// register.
    pub fn with_hit_grid(width: u16, height: u16) -> (f: Frame)
        ensures
            f.wf(),
            f.buffer.spec_width() == width,
            f.buffer.spec_height() == height,
            f.buffer@ == Seq::new(
                (width as int * height as int) as nat,
                |i: int| crate::cell::Cell::blank(),
            ),
            f.buffer.scissors() == seq![f.buffer.bounds()],
            f.pool@ == Seq::<Seq<char>>::empty(),
            f.cursor_position.is_none(),
            !f.cursor_visible,
            f.hits() == Some(
                Seq::new((width as int * height as int) as nat, |i: int| None::<Hit>),
            ),
    {
        Frame {
            buffer: Buffer::new(width, height),
            pool: GraphemePool::new(),
            cursor_position: None,
            cursor_visible: false,
            hit_grid: Some(HitGrid::new(width, height)),
        }
    }

    /// Registers a hit for the cells of `rect`. A frame without hit grid
    /// takes no note.
    pub fn register_hit(&mut self, rect: Rect, id: HitId, region: HitRegion, data: u64)
        requires
            old(self).wf(),
        ensures
            final(self).wf(),
            final(self).same_shape(old(self)),
            final(self).buffer == old(self).buffer,
            final(self).pool == old(self).pool,
            final(self).cursor_position == old(self).cursor_position,
            final(self).cursor_visible == old(self).cursor_visible,
            final(self).hits() == old(self).hits_registered(rect, Hit { id, region, data }),
    {
        match &mut self.hit_grid {
            Some(grid) => {
                grid.register(rect, id, region, data);
            },
            None => {},
        }
    }

    /// The hit at `(x, y)`.
    pub fn hit_test(&self, x: u16, y: u16) -> (r: Option<Hit>)
        requires
            self.wf(),
        ensures
            r == match self.hit_grid {
                Some(g) => if x < g.spec_width() && y < g.spec_height() {
                    g@[y * g.spec_width() + x]
                } else {
                    None
                },
                None => None,
            },
    {
        match &self.hit_grid {
            Some(grid) => grid.hit_test(x, y),
            None => None,
        }
    }

    /// The id of a glyph, which is added to the pool unless it is there
    /// already.
    pub fn intern(&mut self, text: &str) -> (r: Option<u32>)
        ensures
            final(self).pool@ == interned_pool(old(self).pool@, text@),
            r == interned_id(old(self).pool@, text@),
            final(self).buffer == old(self).buffer,
            final(self).cursor_position == old(self).cursor_position,
            final(self).cursor_visible == old(self).cursor_visible,
            final(self).hit_grid == old(self).hit_grid,
    {
        self.pool.intern(text)
    }
}

} // verus!
