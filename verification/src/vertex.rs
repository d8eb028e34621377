//! The vertex layout shared by every glyph quad, and the per-corner
//! construction formulas.
//!
//! All fields are plain integers. Pixel positions are exact integer sums of
//! the cursor and glyph metrics; texture coordinates are atlas pixels,
//! normalized by the atlas dimensions only at the device boundary. The
//! caller's world position and color are IEEE-754 single-precision bit
//! patterns: the batching logic copies them into every corner untouched and
//! never interprets them.

use vstd::prelude::*;
use crate::font::Glyph;

verus! {

/// One corner of a glyph quad.
///
/// `screen_relative` is 0 for world-anchored text (positioned by
/// `world_position` through the camera) and 1 for screen-anchored text
/// (fixed pixel coordinates, projection ignored).
#[derive(Clone, Copy, PartialEq, Eq, Debug)]
pub struct Vertex {
    /// Pixel-space position before device normalization.
    pub position: [i64; 2],
    /// Atlas texture coordinates in pixels (u, v).
    pub texcoords: [u64; 2],
    /// Bit patterns of the caller's 3-component world position.
    pub world_position: [u32; 3],
    /// 0 = world-anchored, 1 = screen-anchored.
    pub screen_relative: i32,
    /// Bit patterns of the caller's RGBA color.
    pub color: [u32; 4],
}

/// Corner `corner` (0 = top-left, 1 = bottom-left, 2 = bottom-right,
/// 3 = top-right) of the quad for glyph `g` with the cursor at
/// `(cx, cy)`. The quad's top-left sits at the cursor displaced by the
/// glyph offsets and extends right by `width` and down by `height`; the
/// texture rectangle is the glyph's atlas rectangle.
pub open spec fn quad_vertex(
    g: Glyph,
    cx: int,
    cy: int,
    corner: int,
    world_position: [u32; 3],
    screen_relative: i32,
    color: [u32; 4],
) -> Vertex {
    let x0 = cx + g.xoffset as int;
    let y0 = cy + g.yoffset as int;
    let x1 = x0 + g.width as int;
    let y1 = y0 + g.height as int;
    let u0 = g.x as int;
    let v0 = g.y as int;
    let u1 = g.x as int + g.width as int;
    let v1 = g.y as int + g.height as int;
    if corner == 0 {
        Vertex {
            position: [x0 as i64, y0 as i64],
            texcoords: [u0 as u64, v0 as u64],
            world_position,
            screen_relative,
            color,
        }
    } else if corner == 1 {
        Vertex {
            position: [x0 as i64, y1 as i64],
            texcoords: [u0 as u64, v1 as u64],
            world_position,
            screen_relative,
            color,
        }
    } else if corner == 2 {
        Vertex {
            position: [x1 as i64, y1 as i64],
            texcoords: [u1 as u64, v1 as u64],
            world_position,
            screen_relative,
            color,
        }
    } else {
        Vertex {
            position: [x1 as i64, y0 as i64],
            texcoords: [u1 as u64, v0 as u64],
            world_position,
            screen_relative,
            color,
        }
    }
}

} // verus!
