//! Shader source variants and capability-tier selection.
//!
//! Each variant carries one vertex and one fragment source for a target
//! shading-language tier. Selection happens once, at construction: the
//! variant with the highest tier not above the tier the device reports.
//! When no variant fits, construction fails — there is no degraded
//! renderer.
//!
//! The vertex stage maps pixel positions to normalized device coordinates
//! with Y flipped, adds a world term obtained by projecting
//! `world_position` and dividing by the clip-space z component, and forces
//! that term to zero for screen-anchored vertices. The fragment stage tints
//! the atlas coverage with the vertex color. The `ndc` module states this
//! arithmetic as a spec-level model.

use vstd::prelude::*;

verus! {

/// GLSL for devices that only reach shading-language tier 120.
pub const VERTEX_SRC_LEGACY: &'static str = "
    #version 120

    uniform vec2 u_screen_size;
    uniform mat4 u_model_view_proj;

    attribute vec2 position;
    attribute vec4 world_position;
    in int screen_relative;
    attribute vec4 color;
    attribute vec2 texcoords;
    varying vec4 v_color;
    varying vec2 v_tex_coord;

    void main() {
        vec2 screen_offset = vec2(
            2 * position.x / u_screen_size.x - 1,
            1 - 2 * position.y / u_screen_size.y
        );

        vec4 clip = u_model_view_proj * world_position;

        vec2 world_offset = vec2(
            clip.x / clip.z + 1,
            clip.y / clip.z - 1
        );

        world_offset = screen_relative == 0 ? world_offset : vec2(0.0, 0.0);

        gl_Position = vec4(world_offset + screen_offset, 0, 1.0);

        v_tex_coord = texcoords;
        v_color = color;
    }
";

/// GLSL for devices that reach shading-language tier 150.
pub const VERTEX_SRC_MODERN: &'static str = "
    #version 150 core

    uniform vec2 u_screen_size;
    uniform mat4 u_model_view_proj;

    in vec2 position;
    in vec4 world_position;
    in int screen_relative;
    in vec4 color;
    in vec2 texcoords;
    out vec4 v_color;
    out vec2 v_tex_coord;

    void main() {
        vec2 screen_offset = vec2(
            2 * position.x / u_screen_size.x - 1,
            1 - 2 * position.y / u_screen_size.y
        );

        vec4 clip = u_model_view_proj * world_position;

        vec2 world_offset = vec2(
            clip.x / clip.z + 1,
            clip.y / clip.z - 1
        );

        world_offset = screen_relative == 0 ? world_offset : vec2(0.0, 0.0);

        gl_Position = vec4(world_offset + screen_offset, 0, 1.0);

        v_tex_coord = texcoords;
        v_color = color;
    }
";

pub const FRAGMENT_SRC_LEGACY: &'static str = "
    #version 120

    uniform sampler2D u_tex_font;

    varying vec4 v_color;
    varying vec2 v_tex_coord;

    void main() {
        vec4 font_color = texture2D(u_tex_font, v_tex_coord);
        gl_FragColor = vec4(v_color.xyz, font_color.a * v_color.a);
    }
";

pub const FRAGMENT_SRC_MODERN: &'static str = "
    #version 150 core

    uniform sampler2D u_tex_font;

    in vec4 v_color;
    in vec2 v_tex_coord;
    out vec4 out_color;

    void main() {
        vec4 font_color = texture(u_tex_font, v_tex_coord);
        out_color = vec4(v_color.xyz, font_color.a * v_color.a);
    }
";

/// The shading-language tier of the legacy pair.
pub const TIER_LEGACY: u32 = 120;

/// The shading-language tier of the modern pair.
pub const TIER_MODERN: u32 = 150;

/// Construction fails this way when no shader variant suits the device's
/// capability tier, or — at the device boundary — when the selected pair
/// does not compile or link. Fatal: no partial renderer is produced.
#[derive(Clone, Copy, PartialEq, Eq, Debug)]
pub struct ShaderCompileError;

/// One vertex/fragment source pair targeting a shading-language tier.
#[derive(Clone, Copy, PartialEq, Eq, Debug)]
pub struct ShaderVariant {
    pub tier: u32,
    pub vertex: &'static str,
    pub fragment: &'static str,
}

/// The variant pairs this renderer ships, one per supported tier.
pub fn builtin_variants() -> (v: Vec<ShaderVariant>)
    ensures
        v@.len() == 2,
        v@[0] == (ShaderVariant {
            tier: TIER_LEGACY,
            vertex: VERTEX_SRC_LEGACY,
            fragment: FRAGMENT_SRC_LEGACY,
        }),
        v@[1] == (ShaderVariant {
            tier: TIER_MODERN,
            vertex: VERTEX_SRC_MODERN,
            fragment: FRAGMENT_SRC_MODERN,
        }),
{
    let mut v: Vec<ShaderVariant> = Vec::new();
    v.push(ShaderVariant {
        tier: TIER_LEGACY,
        vertex: VERTEX_SRC_LEGACY,
        fragment: FRAGMENT_SRC_LEGACY,
    });
    v.push(ShaderVariant {
        tier: TIER_MODERN,
        vertex: VERTEX_SRC_MODERN,
        fragment: FRAGMENT_SRC_MODERN,
    });
    v
}

/// Pick the variant with the highest tier not above `capability`; `None`
/// exactly when every variant asks for more than the device reports.
/// Of variants sharing the winning tier, the first listed wins.
pub fn select_variant(variants: &Vec<ShaderVariant>, capability: u32) -> (r: Option<
    ShaderVariant,
>)
    ensures
        match r {
            Some(v) => {
                &&& v.tier <= capability
                &&& exists|k: int|
                    0 <= k < variants@.len() && (#[trigger] variants@[k]) == v
                &&& forall|j: int|
                    0 <= j < variants@.len() && (#[trigger] variants@[j]).tier <= capability
                        ==> variants@[j].tier <= v.tier
            },
            None => forall|j: int|
                0 <= j < variants@.len() ==> (#[trigger] variants@[j]).tier > capability,
        },
{
    let n = variants.len();
    let mut best: Option<ShaderVariant> = None;
    let mut i: usize = 0;
    while i < n
        invariant
            i <= n,
            n == variants@.len(),
            match best {
                Some(v) => {
                    &&& v.tier <= capability
                    &&& exists|k: int| 0 <= k < i && (#[trigger] variants@[k]) == v
                    &&& forall|j: int|
                        0 <= j < i && (#[trigger] variants@[j]).tier <= capability
                            ==> variants@[j].tier <= v.tier
                },
                None => forall|j: int|
                    0 <= j < i ==> (#[trigger] variants@[j]).tier > capability,
            },
        decreases n - i,
    {
        let v = variants[i];
        let replace = if v.tier <= capability {
            match best {
                Some(b) => v.tier > b.tier,
                None => true,
            }
        } else {
            false
        };
        if replace {
            best = Some(v);
            proof {
                assert(variants@[i as int] == v);
            }
        }
        i = i + 1;
    }
    best
}

} // verus!
