//! The tileset builder: given the dimensions of one rendered glyph strip
//! and the ordered character list matching strip order, it produces a
//! mapping from character to the cell-sized sub-rectangle of the strip that
//! holds its glyph. The rectangles are views into the strip the host keeps;
//! no pixels are copied.

use vstd::prelude::*;

use crate::errors::GameError;
use crate::geom::{ImageDims, Rect};

verus! {

/// The mapping the builder produces for a glyph list: character `i` of the
/// list gets the cell at horizontal offset `i * cell_w`, top-aligned, of
/// cell size. A duplicated character keeps its last cell: later writes win.
pub open spec fn glyph_rects(glyphs: Seq<char>, cell_w: u32, cell_h: u32) -> Map<char, Rect>
    decreases glyphs.len(),
{
    if glyphs.len() == 0 {
        Map::empty()
    } else {
        glyph_rects(glyphs.drop_last(), cell_w, cell_h).insert(
            glyphs.last(),
            Rect {
                x: ((glyphs.len() - 1) * cell_w) as u32,
                y: 0,
                w: cell_w,
                h: cell_h,
            },
        )
    }
}

/// A character-indexed atlas of sub-rectangles within one glyph strip.
pub struct Tileset {
    entries: Vec<(char, Rect)>,
}

/// The mapping a list of entries denotes, later entries overwriting
/// earlier ones.
pub open spec fn entries_to_map(entries: Seq<(char, Rect)>) -> Map<char, Rect>
    decreases entries.len(),
{
    if entries.len() == 0 {
        Map::empty()
    } else {
        entries_to_map(entries.drop_last()).insert(entries.last().0, entries.last().1)
    }
}

impl View for Tileset {
    type V = Map<char, Rect>;

    closed spec fn view(&self) -> Map<char, Rect> {
        entries_to_map(self.entries@)
    }
}

/// For a positive cell width, a glyph count fits the strip exactly when it
/// does not exceed the strip width divided by the cell width.
proof fn lemma_fits_iff_quotient(count: int, cell_w: int, strip_w: int)
    requires
        0 < cell_w,
        0 <= count,
        0 <= strip_w,
    ensures
        count <= strip_w / cell_w <==> count * cell_w <= strip_w,
{
    if count <= strip_w / cell_w {
        vstd::arithmetic::mul::lemma_mul_inequality(count, strip_w / cell_w, cell_w);
        vstd::arithmetic::div_mod::lemma_fundamental_div_mod(strip_w, cell_w);
        vstd::arithmetic::mul::lemma_mul_is_commutative(strip_w / cell_w, cell_w);
    }
    if count * cell_w <= strip_w {
        vstd::arithmetic::div_mod::lemma_div_is_ordered(count * cell_w, strip_w, cell_w);
        vstd::arithmetic::div_mod::lemma_div_multiples_vanish(count, cell_w);
        vstd::arithmetic::mul::lemma_mul_is_commutative(count, cell_w);
    }
}

impl Tileset {
    /// Slice a character-indexed atlas out of a rendered strip. The strip
    /// must be at least as wide as the glyph count times the cell width;
    /// a narrower strip is refused, since cells would alias or run off the
    /// edge.
    pub fn build(strip: ImageDims, glyphs: &Vec<char>, cell_w: u32, cell_h: u32) -> (r: Result<
        Tileset,
        GameError,
    >)
        ensures
            r is Ok <==> glyphs@.len() * cell_w <= strip.w,
            r matches Ok(ts) ==> ts@ == glyph_rects(glyphs@, cell_w, cell_h),
            r is Err ==> r == Err::<Tileset, GameError>(GameError::TilesetGeometry),
    {
        let n = glyphs.len();
        let fits: bool = if cell_w == 0 {
            true
        } else {
            (n as u64) <= (strip.w as u64) / (cell_w as u64)
        };
        proof {
            if cell_w > 0 {
                lemma_fits_iff_quotient(n as int, cell_w as int, strip.w as int);
            }
        }
        if !fits {
            return Err(GameError::TilesetGeometry);
        }
        let mut entries: Vec<(char, Rect)> = Vec::new();
        let mut i: usize = 0;
        while i < n
            invariant
                i <= n,
                n == glyphs@.len(),
                glyphs@.len() * cell_w <= strip.w,
                strip.w <= u32::MAX,
                entries@.len() == i,
                entries_to_map(entries@) == glyph_rects(glyphs@.take(i as int), cell_w, cell_h),
            decreases n - i,
        {
            proof {
                assert((i as int) * (cell_w as int) <= (glyphs@.len() as int) * (cell_w as int)
                    && (i as int + 1) * (cell_w as int) <= (glyphs@.len() as int) * (cell_w as int))
                    by (nonlinear_arith)
                    requires
                        0 <= i as int,
                        i < glyphs@.len(),
                        0 <= cell_w as int,
                ;
            }
            let x_px: u32 = ((i as u64) * (cell_w as u64)) as u32;
            let entry = (glyphs[i], Rect { x: x_px, y: 0, w: cell_w, h: cell_h });
            proof {
                let taken = glyphs@.take(i as int + 1);
                assert(taken.drop_last() =~= glyphs@.take(i as int));
                assert(entries@.push(entry).drop_last() =~= entries@);
            }
            entries.push(entry);
            i = i + 1;
        }
        proof {
            assert(glyphs@.take(n as int) =~= glyphs@);
        }
        Ok(Tileset { entries })
    }

    /// Look a glyph up in the atlas: the sub-rectangle of its cell, or
    /// `None` for a character the strip never held (callers skip such
    /// glyphs silently).
    pub fn lookup(&self, glyph: char) -> (r: Option<Rect>)
        ensures
            (r is Some) <==> self@.contains_key(glyph),
            self@.contains_key(glyph) ==> r == Some(self@[glyph]),
    {
        let n = self.entries.len();
        proof {
            assert(self.entries@.take(n as int) =~= self.entries@);
        }
        let mut i: usize = n;
        while i > 0
            invariant
                i <= n,
                n == self.entries@.len(),
                entries_to_map(self.entries@).contains_key(glyph) <==> entries_to_map(
                    self.entries@.take(i as int),
                ).contains_key(glyph),
                entries_to_map(self.entries@).contains_key(glyph) ==> entries_to_map(
                    self.entries@.take(i as int),
                )[glyph] == entries_to_map(self.entries@)[glyph],
            decreases i,
        {
            i = i - 1;
            proof {
                let taken = self.entries@.take(i as int + 1);
                assert(taken.drop_last() =~= self.entries@.take(i as int));
                assert(taken.last() == self.entries@[i as int]);
            }
            if self.entries[i].0 == glyph {
                return Some(self.entries[i].1);
            }
        }
        proof {
            assert(self.entries@.take(0) =~= Seq::<(char, Rect)>::empty());
        }
        None
    }
}

/// Law: the builder covers its glyph list. Every character of the list is
/// mapped, nothing outside the list is mapped, and every mapped rectangle
/// is exactly one cell: cell-sized and top-aligned.
pub proof fn lemma_tileset_covers_glyphs(glyphs: Seq<char>, cell_w: u32, cell_h: u32)
    ensures
        forall|k: int|
            0 <= k < glyphs.len() ==> glyph_rects(glyphs, cell_w, cell_h).contains_key(
                #[trigger] glyphs[k],
            ),
        forall|c: char|
            #[trigger] glyph_rects(glyphs, cell_w, cell_h).contains_key(c) ==> glyphs.contains(c),
        forall|c: char|
            #[trigger] glyph_rects(glyphs, cell_w, cell_h).contains_key(c) ==> {
                let rect = glyph_rects(glyphs, cell_w, cell_h)[c];
                rect.w == cell_w && rect.h == cell_h && rect.y == 0
            },
    decreases glyphs.len(),
{
    if glyphs.len() > 0 {
        let prefix = glyphs.drop_last();
        lemma_tileset_covers_glyphs(prefix, cell_w, cell_h);
        assert forall|k: int| 0 <= k < glyphs.len() implies glyph_rects(
            glyphs,
            cell_w,
            cell_h,
        ).contains_key(#[trigger] glyphs[k]) by {
            if k < glyphs.len() - 1 {
                assert(prefix[k] == glyphs[k]);
            }
        }
        assert forall|c: char|
            #[trigger] glyph_rects(glyphs, cell_w, cell_h).contains_key(c) implies glyphs.contains(
            c,
        ) && {
            let rect = glyph_rects(glyphs, cell_w, cell_h)[c];
            rect.w == cell_w && rect.h == cell_h && rect.y == 0
        } by {
            if c == glyphs.last() {
                assert(glyphs[glyphs.len() - 1] == c);
            } else {
                assert(glyph_rects(prefix, cell_w, cell_h).contains_key(c));
                assert(glyph_rects(glyphs, cell_w, cell_h)[c] == glyph_rects(
                    prefix,
                    cell_w,
                    cell_h,
                )[c]);
                assert(prefix.contains(c));
                let j = choose|j: int| 0 <= j < prefix.len() && prefix[j] == c;
                assert(glyphs[j] == c);
            }
        }
    }
}

} // verus!
