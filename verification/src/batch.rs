//! The per-frame batch: an ordered vertex list and a parallel index list.
//!
//! Every draw request appends four vertices and six indices per character —
//! two counter-clockwise triangles per glyph quad, with base-relative corner
//! offsets `0,1,3` and `3,1,2`. Requests accumulate; nothing isolates one
//! call from the next, so the whole frame's text shares one draw.

use vstd::prelude::*;
use crate::font::FontCatalog;
use crate::vertex::Vertex;
use crate::vertex::quad_vertex;

verus! {

/// Total horizontal advance of the first `n` characters of `text` under
/// catalog `cat`: the cursor for character `n` starts this far right of
/// the request's origin.
pub open spec fn advance_total(cat: FontCatalog, text: Seq<char>, n: int) -> int
    decreases n,
{
    if n <= 0 {
        0
    } else {
        advance_total(cat, text, n - 1) + cat.spec_lookup(text[n - 1]).xadvance as int
    }
}

/// Vertex `k` (of `4 * text.len()`) appended by one draw request: corner
/// `k % 4` of the quad for character `k / 4`, with the cursor advanced by
/// the characters before it.
pub open spec fn draw_vertex(
    cat: FontCatalog,
    text: Seq<char>,
    sx: int,
    sy: int,
    world_position: [u32; 3],
    screen_relative: i32,
    color: [u32; 4],
    k: int,
) -> Vertex {
    quad_vertex(
        cat.spec_lookup(text[k / 4]),
        sx + advance_total(cat, text, k / 4),
        sy,
        k % 4,
        world_position,
        screen_relative,
        color,
    )
}

/// All vertices appended by one draw request, in emission order.
pub open spec fn text_vertices(
    cat: FontCatalog,
    text: Seq<char>,
    sx: int,
    sy: int,
    world_position: [u32; 3],
    screen_relative: i32,
    color: [u32; 4],
) -> Seq<Vertex> {
    Seq::new(
        (4 * text.len()) as nat,
        |k: int| draw_vertex(cat, text, sx, sy, world_position, screen_relative, color, k),
    )
}

/// Corner offset of index `k % 6` within a quad's two triangles:
/// `0,1,3` then `3,1,2`.
pub open spec fn index_offset(k: int) -> int {
    if k == 0 {
        0
    } else if k == 1 {
        1
    } else if k == 2 {
        3
    } else if k == 3 {
        3
    } else if k == 4 {
        1
    } else {
        2
    }
}

/// Index `k` (of `6 * text.len()`) appended by one draw request whose
/// first vertex landed at `base`.
pub open spec fn text_index(base: int, k: int) -> u32 {
    (base + 4 * (k / 6) + index_offset(k % 6)) as u32
}

/// All indices appended by one draw request, in emission order.
pub open spec fn text_indices(base: int, n_chars: nat) -> Seq<u32> {
    Seq::new(6 * n_chars, |k: int| text_index(base, k))
}

/// The accumulated geometry of the current frame.
pub struct TextBatch {
    pub vertices: Vec<Vertex>,
    pub indices: Vec<u32>,
}

impl TextBatch {
    /// Four vertices and six indices per quad, always in that ratio.
    pub open spec fn wf(&self) -> bool {
        &&& self.vertices@.len() % 4 == 0
        &&& 2 * self.indices@.len() == 3 * self.vertices@.len()
    }

    /// An empty batch.
    pub fn new() -> (b: TextBatch)
        ensures
            b.vertices@.len() == 0,
            b.indices@.len() == 0,
            b.wf(),
    {
        TextBatch { vertices: Vec::new(), indices: Vec::new() }
    }

    /// Append one text request: per character, in iteration order, the
    /// glyph quad at the running cursor plus the two triangles that
    /// reference it. A character absent from the catalog contributes a
    /// zero-area quad and does not advance the cursor.
    ///
    /// The length bound is forced by the 32-bit indices: every index minted
    /// here must fit in `u32`.
    pub fn draw_text(
        &mut self,
        font: &FontCatalog,
        text: &str,
        screen_position: [i32; 2],
        world_position: [u32; 3],
        screen_relative: i32,
        color: [u32; 4],
    )
        requires
            old(self).vertices@.len() + 4 * text@.len() <= u32::MAX,
        ensures
            final(self).vertices@ == old(self).vertices@ + text_vertices(
                *font,
                text@,
                screen_position@[0] as int,
                screen_position@[1] as int,
                world_position,
                screen_relative,
                color,
            ),
            final(self).indices@ == old(self).indices@ + text_indices(
                old(self).vertices@.len() as int,
                text@.len(),
            ),
            final(self).vertices@.len() == old(self).vertices@.len() + 4 * text@.len(),
            final(self).indices@.len() == old(self).indices@.len() + 6 * text@.len(),
            old(self).wf() ==> final(self).wf(),
    {
        let ghost t = text@;
        let ghost v0 = self.vertices@;
        let ghost i0 = self.indices@;
        let ghost sxs = screen_position@[0] as int;
        let ghost sys = screen_position@[1] as int;
        let n = text.unicode_len();
        let sx = screen_position[0];
        let sy = screen_position[1];
        let mut cursor: i64 = sx as i64;
        let y: i64 = sy as i64;
        let mut i: usize = 0;
        while i < n
            invariant
                i <= n,
                n == t.len(),
                t == text@,
                sxs == sx as int,
                sys == sy as int,
                y as int == sys,
                v0.len() + 4 * t.len() <= u32::MAX,
                self.vertices@ == v0 + text_vertices(
                    *font,
                    t,
                    sxs,
                    sys,
                    world_position,
                    screen_relative,
                    color,
                ).take(4 * i as int),
                self.indices@ == i0 + text_indices(v0.len() as int, t.len()).take(6 * i as int),
                cursor as int == sxs + advance_total(*font, t, i as int),
            decreases n - i,
        {
            proof {
                lemma_advance_total_bound(*font, t, i as int);
                lemma_advance_total_bound(*font, t, i as int + 1);
            }
            let ch = text.get_char(i);
            let g = font.lookup(ch);
            let x0 = cursor + (g.xoffset as i64);
            let y0 = y + (g.yoffset as i64);
            let x1 = x0 + (g.width as i64);
            let y1 = y0 + (g.height as i64);
            let u0 = g.x as u64;
            let v0t = g.y as u64;
            let u1 = (g.x as u64) + (g.width as u64);
            let v1 = (g.y as u64) + (g.height as u64);
            let base = self.vertices.len() as u32;
            self.vertices.push(Vertex {
                position: [x0, y0],
                texcoords: [u0, v0t],
                world_position,
                screen_relative,
                color,
            });
            self.vertices.push(Vertex {
                position: [x0, y1],
                texcoords: [u0, v1],
                world_position,
                screen_relative,
                color,
            });
            self.vertices.push(Vertex {
                position: [x1, y1],
                texcoords: [u1, v1],
                world_position,
                screen_relative,
                color,
            });
            self.vertices.push(Vertex {
                position: [x1, y0],
                texcoords: [u1, v0t],
                world_position,
                screen_relative,
                color,
            });
            self.indices.push(base);
            self.indices.push(base + 1);
            self.indices.push(base + 3);
            self.indices.push(base + 3);
            self.indices.push(base + 1);
            self.indices.push(base + 2);
            cursor = cursor + (g.xadvance as i64);
            i = i + 1;
            proof {
                let vs = text_vertices(
                    *font,
                    t,
                    sxs,
                    sys,
                    world_position,
                    screen_relative,
                    color,
                );
                let is = text_indices(v0.len() as int, t.len());
                let ii = i as int;
                let k4 = 4 * (ii - 1);
                let k6 = 6 * (ii - 1);
                assert(k4 / 4 == ii - 1 && k4 % 4 == 0);
                assert((k4 + 1) / 4 == ii - 1 && (k4 + 1) % 4 == 1);
                assert((k4 + 2) / 4 == ii - 1 && (k4 + 2) % 4 == 2);
                assert((k4 + 3) / 4 == ii - 1 && (k4 + 3) % 4 == 3);
                assert(k6 / 6 == ii - 1 && k6 % 6 == 0);
                assert((k6 + 1) / 6 == ii - 1 && (k6 + 1) % 6 == 1);
                assert((k6 + 2) / 6 == ii - 1 && (k6 + 2) % 6 == 2);
                assert((k6 + 3) / 6 == ii - 1 && (k6 + 3) % 6 == 3);
                assert((k6 + 4) / 6 == ii - 1 && (k6 + 4) % 6 == 4);
                assert((k6 + 5) / 6 == ii - 1 && (k6 + 5) % 6 == 5);
                assert(self.vertices@ =~= v0 + vs.take(4 * ii));
                assert(self.indices@ =~= i0 + is.take(6 * ii));
            }
        }
        proof {
            let vs = text_vertices(*font, t, sxs, sys, world_position, screen_relative, color);
            let is = text_indices(v0.len() as int, t.len());
            assert(vs.take(4 * n as int) =~= vs);
            assert(is.take(6 * n as int) =~= is);
        }
    }
}

/// Each character moves the cursor by an `i32` advance, so the total
/// advance over `n` characters is bounded linearly in `n`.
proof fn lemma_advance_total_bound(cat: FontCatalog, text: Seq<char>, n: int)
    requires
        n >= 0,
    ensures
        -0x8000_0000 * n <= advance_total(cat, text, n) <= 0x7FFF_FFFF * n,
    decreases n,
{
    if n > 0 {
        lemma_advance_total_bound(cat, text, n - 1);
    }
}

} // verus!
