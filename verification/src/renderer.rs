//! The frame renderer: owns the batch, the GPU-facing buffers, the font
//! catalog, the selected shader variant and the uniform block.
//!
//! Per frame: any number of draw requests accumulate into the batch; one
//! `update` grows the buffers as needed and uploads the whole batch from
//! offset 0; one `render` sets the projection uniform, reports the index
//! range the device must draw as a triangle list, and clears the batch.
//! `update` and `render` are deliberately separate calls — some graphics
//! bindings cannot hold upload and draw access at once — and must run in
//! that order, with no batching calls between them.

use vstd::prelude::*;
use crate::font::FontCatalog;
use crate::vertex::Vertex;
use crate::batch::TextBatch;
use crate::batch::text_vertices;
use crate::batch::text_indices;
use crate::buffer::DynBuffer;
use crate::shader::ShaderVariant;
use crate::shader::ShaderCompileError;
use crate::shader::builtin_variants;
use crate::shader::select_variant;
use crate::shader::TIER_LEGACY;
use crate::shader::TIER_MODERN;
use crate::shader::VERTEX_SRC_LEGACY;
use crate::shader::VERTEX_SRC_MODERN;
use crate::shader::FRAGMENT_SRC_LEGACY;
use crate::shader::FRAGMENT_SRC_MODERN;

verus! {

/// Bit pattern of numeric one in the device's single-precision scalar
/// format; diagonal entry of the identity matrix the projection uniform
/// starts from.
pub const SCALAR_ONE_BITS: u32 = 0x3F80_0000;

/// The uniform block the shaders read. The matrix entries are bit patterns
/// of the caller's single-precision values, stored untouched; the screen
/// size is in pixels.
pub struct ShaderUniforms {
    pub model_view_proj: [[u32; 4]; 4],
    pub screen_size: [u32; 2],
}

/// A batched text renderer for one font atlas.
pub struct TextRenderer {
    pub font: FontCatalog,
    pub shader: ShaderVariant,
    pub batch: TextBatch,
    pub vertex_buffer: DynBuffer<Vertex>,
    pub index_buffer: DynBuffer<u32>,
    pub uniforms: ShaderUniforms,
}

impl TextRenderer {
    /// The batch keeps its 4:6 vertex/index ratio and neither buffer's
    /// upload exceeds its allocation.
    pub open spec fn wf(&self) -> bool {
        &&& self.batch.wf()
        &&& self.vertex_buffer.wf()
        &&& self.index_buffer.wf()
    }

    /// Construct a renderer: select the shader variant for the reported
    /// capability tier, start with an empty batch, buffers allocated for
    /// `initial_buffer_capacity` elements, the screen size set to
    /// `frame_size`, and the projection uniform at identity. Fails — with
    /// no partial renderer — exactly when no shader variant fits the tier.
    pub fn new(
        capability: u32,
        frame_size: [u32; 2],
        initial_buffer_capacity: usize,
        font: FontCatalog,
    ) -> (r: Result<TextRenderer, ShaderCompileError>)
        ensures
            r is Ok <==> capability >= TIER_LEGACY,
            match r {
                Ok(tr) => {
                    &&& tr.shader.tier == (if capability >= TIER_MODERN {
                        TIER_MODERN
                    } else {
                        TIER_LEGACY
                    })
                    &&& tr.shader.vertex == (if capability >= TIER_MODERN {
                        VERTEX_SRC_MODERN
                    } else {
                        VERTEX_SRC_LEGACY
                    })
                    &&& tr.shader.fragment == (if capability >= TIER_MODERN {
                        FRAGMENT_SRC_MODERN
                    } else {
                        FRAGMENT_SRC_LEGACY
                    })
                    &&& tr.font == font
                    &&& tr.batch.vertices@.len() == 0
                    &&& tr.batch.indices@.len() == 0
                    &&& tr.vertex_buffer.contents().len() == 0
                    &&& tr.vertex_buffer.spec_capacity() == initial_buffer_capacity
                    &&& tr.index_buffer.contents().len() == 0
                    &&& tr.index_buffer.spec_capacity() == initial_buffer_capacity
                    &&& tr.uniforms.screen_size == frame_size
                    &&& forall|i: int, j: int|
                        0 <= i < 4 && 0 <= j < 4 ==> tr.uniforms.model_view_proj@[i]@[j] == (
                        if i == j {
                            SCALAR_ONE_BITS
                        } else {
                            0u32
                        })
                    &&& tr.wf()
                },
                Err(e) => e == ShaderCompileError,
            },
    {
        let variants = builtin_variants();
        let selected = select_variant(&variants, capability);
        match selected {
            None => {
                proof {
                    assert(variants@[0].tier == TIER_LEGACY);
                }
                Err(ShaderCompileError)
            },
            Some(shader) => {
                proof {
                    assert(variants@[0].tier == TIER_LEGACY);
                    assert(variants@[1].tier == TIER_MODERN);
                }
                let mvp: [[u32; 4]; 4] = [
                    [SCALAR_ONE_BITS, 0, 0, 0],
                    [0, SCALAR_ONE_BITS, 0, 0],
                    [0, 0, SCALAR_ONE_BITS, 0],
                    [0, 0, 0, SCALAR_ONE_BITS],
                ];
                Ok(
                    TextRenderer {
                        font,
                        shader,
                        batch: TextBatch::new(),
                        vertex_buffer: DynBuffer::new(initial_buffer_capacity),
                        index_buffer: DynBuffer::new(initial_buffer_capacity),
                        uniforms: ShaderUniforms { model_view_proj: mvp, screen_size: frame_size },
                    },
                )
            },
        }
    }

    /// Respond to a window-size change: updates the screen-size uniform
    /// only; buffers and the pending batch are untouched.
    pub fn resize(&mut self, width: u32, height: u32)
        ensures
            final(self).uniforms.screen_size@[0] == width,
            final(self).uniforms.screen_size@[1] == height,
            final(self).uniforms.model_view_proj == old(self).uniforms.model_view_proj,
            final(self).font == old(self).font,
            final(self).shader == old(self).shader,
            final(self).batch == old(self).batch,
            final(self).vertex_buffer == old(self).vertex_buffer,
            final(self).index_buffer == old(self).index_buffer,
            old(self).wf() ==> final(self).wf(),
    {
        self.uniforms.screen_size = [width, height];
    }

    /// Queue `text` anchored in world space: every appended vertex is
    /// world-anchored (`screen_relative == 0`) and carries the request's
    /// world position, and the quad cursor starts at pixel origin `(0, 0)`.
    /// `world_position` and `color` components are single-precision bit
    /// patterns, copied untouched.
    pub fn draw_text_at_position(&mut self, text: &str, world_position: [u32; 3], color: [u32; 4])
        requires
            old(self).batch.vertices@.len() + 4 * text@.len() <= u32::MAX,
        ensures
            final(self).batch.vertices@ == old(self).batch.vertices@ + text_vertices(
                old(self).font,
                text@,
                0,
                0,
                world_position,
                0,
                color,
            ),
            final(self).batch.indices@ == old(self).batch.indices@ + text_indices(
                old(self).batch.vertices@.len() as int,
                text@.len(),
            ),
            final(self).batch.vertices@.len() == old(self).batch.vertices@.len() + 4 * text@.len(),
            final(self).batch.indices@.len() == old(self).batch.indices@.len() + 6 * text@.len(),
            forall|k: int|
                old(self).batch.vertices@.len() <= k < final(self).batch.vertices@.len() ==> {
                    &&& (#[trigger] final(self).batch.vertices@[k]).screen_relative == 0
                    &&& final(self).batch.vertices@[k].world_position == world_position
                    &&& final(self).batch.vertices@[k].color == color
                },
            final(self).font == old(self).font,
            final(self).shader == old(self).shader,
            final(self).uniforms == old(self).uniforms,
            final(self).vertex_buffer == old(self).vertex_buffer,
            final(self).index_buffer == old(self).index_buffer,
            old(self).wf() ==> final(self).wf(),
    {
        self.batch.draw_text(&self.font, text, [0, 0], world_position, 0, color);
    }

    /// Queue `text` anchored on screen at pixel `screen_position`: every
    /// appended vertex is screen-anchored (`screen_relative == 1`), so the
    /// projection matrix and any world position are ignored downstream;
    /// the stored world position is zero. `color` components are
    /// single-precision bit patterns, copied untouched.
    pub fn draw_text_on_screen(&mut self, text: &str, screen_position: [i32; 2], color: [u32; 4])
        requires
            old(self).batch.vertices@.len() + 4 * text@.len() <= u32::MAX,
        ensures
            final(self).batch.vertices@ == old(self).batch.vertices@ + text_vertices(
                old(self).font,
                text@,
                screen_position@[0] as int,
                screen_position@[1] as int,
                [0u32, 0u32, 0u32],
                1,
                color,
            ),
            final(self).batch.indices@ == old(self).batch.indices@ + text_indices(
                old(self).batch.vertices@.len() as int,
                text@.len(),
            ),
            final(self).batch.vertices@.len() == old(self).batch.vertices@.len() + 4 * text@.len(),
            final(self).batch.indices@.len() == old(self).batch.indices@.len() + 6 * text@.len(),
            forall|k: int|
                old(self).batch.vertices@.len() <= k < final(self).batch.vertices@.len() ==> {
                    &&& (#[trigger] final(self).batch.vertices@[k]).screen_relative == 1
                    &&& final(self).batch.vertices@[k].color == color
                },
            final(self).font == old(self).font,
            final(self).shader == old(self).shader,
            final(self).uniforms == old(self).uniforms,
            final(self).vertex_buffer == old(self).vertex_buffer,
            final(self).index_buffer == old(self).index_buffer,
            old(self).wf() ==> final(self).wf(),
    {
        self.batch.draw_text(&self.font, text, screen_position, [0, 0, 0], 1, color);
    }

    /// Upload the pending batch: grow whichever buffer is too small for
    /// its list, then overwrite both buffers from offset 0 with the full
    /// current lists. A buffer already large enough keeps its allocation.
    pub fn update(&mut self)
        ensures
            final(self).vertex_buffer.contents() == old(self).batch.vertices@,
            final(self).index_buffer.contents() == old(self).batch.indices@,
            final(self).vertex_buffer.wf(),
            final(self).index_buffer.wf(),
            final(self).vertex_buffer.spec_capacity() >= old(self).vertex_buffer.spec_capacity(),
            final(self).index_buffer.spec_capacity() >= old(self).index_buffer.spec_capacity(),
            old(self).batch.vertices@.len() <= old(self).vertex_buffer.spec_capacity()
                ==> final(self).vertex_buffer.spec_capacity() == old(
                self,
            ).vertex_buffer.spec_capacity(),
            old(self).batch.indices@.len() <= old(self).index_buffer.spec_capacity()
                ==> final(self).index_buffer.spec_capacity() == old(
                self,
            ).index_buffer.spec_capacity(),
            final(self).batch == old(self).batch,
            final(self).font == old(self).font,
            final(self).shader == old(self).shader,
            final(self).uniforms == old(self).uniforms,
            old(self).wf() ==> final(self).wf(),
    {
        let vlen = self.batch.vertices.len();
        self.vertex_buffer.ensure_capacity(vlen);
        self.vertex_buffer.write(&self.batch.vertices);
        let ilen = self.batch.indices.len();
        self.index_buffer.ensure_capacity(ilen);
        self.index_buffer.write(&self.batch.indices);
    }

    /// Set the projection uniform and clear the batch, handing back the
    /// number of indices the device must draw — the whole uploaded range
    /// `[0, draw_count)`, as a triangle list. Must follow an `update` in
    /// the same frame; the buffers themselves are untouched.
    pub fn render(&mut self, projection: [[u32; 4]; 4]) -> (draw_count: usize)
        ensures
            draw_count == old(self).batch.indices@.len(),
            final(self).batch.vertices@.len() == 0,
            final(self).batch.indices@.len() == 0,
            final(self).batch.wf(),
            final(self).uniforms.model_view_proj == projection,
            final(self).uniforms.screen_size == old(self).uniforms.screen_size,
            final(self).font == old(self).font,
            final(self).shader == old(self).shader,
            final(self).vertex_buffer == old(self).vertex_buffer,
            final(self).index_buffer == old(self).index_buffer,
            old(self).wf() ==> final(self).wf(),
    {
        self.uniforms.model_view_proj = projection;
        let draw_count = self.batch.indices.len();
        self.batch.vertices.clear();
        self.batch.indices.clear();
        draw_count
    }
}

} // verus!
