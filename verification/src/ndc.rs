//! Spec-level model of the vertex stage, over exact rational arithmetic.
//!
//! The device evaluates this arithmetic in its own scalar format; the
//! model states the same formulas over unbounded integers and unreduced
//! fractions, which is enough to reason about what the stage depends on.
//!
//! A vertex's device-space position is the sum of two terms:
//! - a screen term mapping its pixel position into device coordinates
//!   with Y flipped: `(2·px/sw − 1, 1 − 2·py/sh)`;
//! - a world term: the world position projected by the model-view-
//!   projection matrix, divided by the clip-space **z** component (a
//!   preserved quirk of this renderer — not the conventional w), shifted
//!   by `(+1, −1)`; forced to `(0, 0)` for screen-anchored vertices.

use vstd::prelude::*;
use crate::vertex::Vertex;
use crate::font::FontCatalog;
use crate::batch::text_vertices;

verus! {

/// An unreduced fraction. Meaningful when `den != 0`; two fractions are
/// compared by `rat_eq`, never structurally.
pub ghost struct Rat {
    pub num: int,
    pub den: int,
}

/// A point in device space, one fraction per axis.
pub ghost struct Vec2r {
    pub x: Rat,
    pub y: Rat,
}

/// A world-space position in the model's exact arithmetic.
pub ghost struct Vec3i {
    pub x: int,
    pub y: int,
    pub z: int,
}

/// One row of the projection matrix.
pub ghost struct Vec4i {
    pub x: int,
    pub y: int,
    pub z: int,
    pub w: int,
}

/// A model-view-projection matrix, row-major.
pub ghost struct Mat4i {
    pub r0: Vec4i,
    pub r1: Vec4i,
    pub r2: Vec4i,
    pub r3: Vec4i,
}

/// Equality of fractions by cross-multiplication.
pub open spec fn rat_eq(a: Rat, b: Rat) -> bool {
    a.num * b.den == b.num * a.den
}

/// Sum of two fractions, unreduced.
pub open spec fn rat_add(a: Rat, b: Rat) -> Rat {
    Rat { num: a.num * b.den + b.num * a.den, den: a.den * b.den }
}

/// Difference of two fractions, unreduced.
pub open spec fn rat_sub(a: Rat, b: Rat) -> Rat {
    Rat { num: a.num * b.den - b.num * a.den, den: a.den * b.den }
}

/// Apply one matrix row to `p` with homogeneous coordinate 1.
pub open spec fn row_apply(r: Vec4i, p: Vec3i) -> int {
    r.x * p.x + r.y * p.y + r.z * p.z + r.w
}

/// The clip-space vector `m · (p, 1)`.
pub open spec fn clip(m: Mat4i, p: Vec3i) -> Vec4i {
    Vec4i {
        x: row_apply(m.r0, p),
        y: row_apply(m.r1, p),
        z: row_apply(m.r2, p),
        w: row_apply(m.r3, p),
    }
}

/// The world term of a world-anchored vertex: perspective divide by the
/// clip-space z component, then shift by `(+1, −1)`.
pub open spec fn world_offset(m: Mat4i, p: Vec3i) -> Vec2r {
    let c = clip(m, p);
    Vec2r { x: Rat { num: c.x + c.z, den: c.z }, y: Rat { num: c.y - c.z, den: c.z } }
}

/// The screen term of any vertex: its pixel position in device
/// coordinates, Y flipped (screen-down to device-up).
pub open spec fn screen_offset(px: int, py: int, sw: int, sh: int) -> Vec2r {
    Vec2r { x: Rat { num: 2 * px - sw, den: sw }, y: Rat { num: sh - 2 * py, den: sh } }
}

/// The device-space position the vertex stage outputs, at depth 0:
/// world term plus screen term, with the world term forced to zero for a
/// screen-anchored vertex (`screen_relative != 0`).
pub open spec fn device_position(
    m: Mat4i,
    p: Vec3i,
    screen_relative: int,
    px: int,
    py: int,
    sw: int,
    sh: int,
) -> Vec2r {
    let w = if screen_relative == 0 {
        world_offset(m, p)
    } else {
        Vec2r { x: Rat { num: 0, den: 1 }, y: Rat { num: 0, den: 1 } }
    };
    let s = screen_offset(px, py, sw, sh);
    Vec2r { x: rat_add(w.x, s.x), y: rat_add(w.y, s.y) }
}

/// A screen-anchored vertex lands at the same device position whatever
/// the projection matrix and whatever its world position: only the screen
/// size and its own pixel position (with its text and color) affect it.
pub proof fn lemma_screen_anchored_ignores_projection(
    m1: Mat4i,
    m2: Mat4i,
    p1: Vec3i,
    p2: Vec3i,
    screen_relative: int,
    px: int,
    py: int,
    sw: int,
    sh: int,
)
    requires
        screen_relative != 0,
    ensures
        device_position(m1, p1, screen_relative, px, py, sw, sh) == device_position(
            m2,
            p2,
            screen_relative,
            px,
            py,
            sw,
            sh,
        ),
{
}

/// The same, stated of a batched vertex: every vertex a screen-anchored
/// request appends has `screen_relative == 1`, so its device position is
/// the same under any projection uniform and any modeled world position —
/// only the screen size and the vertex's own pixel position enter.
pub proof fn lemma_screen_anchored_vertex_fixed(
    v: Vertex,
    m1: Mat4i,
    m2: Mat4i,
    p1: Vec3i,
    p2: Vec3i,
    sw: int,
    sh: int,
)
    requires
        v.screen_relative != 0,
    ensures
        device_position(m1, p1, v.screen_relative as int, v.position@[0] as int, v.position@[1] as int, sw, sh)
            == device_position(m2, p2, v.screen_relative as int, v.position@[0] as int, v.position@[1] as int, sw, sh),
{
    lemma_screen_anchored_ignores_projection(
        m1,
        m2,
        p1,
        p2,
        v.screen_relative as int,
        v.position@[0] as int,
        v.position@[1] as int,
        sw,
        sh,
    );
}

/// The law for a whole screen-anchored request: every vertex that
/// `draw_text_on_screen` appends (they are exactly the elements of
/// `text_vertices` with `screen_relative == 1`) reaches the same device
/// position under any two projection uniforms and modeled world
/// positions. Its output varies only with the screen size, the request's
/// own screen position, text and color.
pub proof fn lemma_screen_request_ignores_projection(
    cat: FontCatalog,
    text: Seq<char>,
    sx: int,
    sy: int,
    world_bits: [u32; 3],
    color: [u32; 4],
    m1: Mat4i,
    m2: Mat4i,
    p1: Vec3i,
    p2: Vec3i,
    sw: int,
    sh: int,
    k: int,
)
    requires
        0 <= k < text_vertices(cat, text, sx, sy, world_bits, 1, color).len(),
    ensures
        ({
            let v = text_vertices(cat, text, sx, sy, world_bits, 1, color)[k];
            device_position(
                m1,
                p1,
                v.screen_relative as int,
                v.position@[0] as int,
                v.position@[1] as int,
                sw,
                sh,
            ) == device_position(
                m2,
                p2,
                v.screen_relative as int,
                v.position@[0] as int,
                v.position@[1] as int,
                sw,
                sh,
            )
        }),
{
    let v = text_vertices(cat, text, sx, sy, world_bits, 1, color)[k];
    assert(v.screen_relative == 1);
    lemma_screen_anchored_vertex_fixed(v, m1, m2, p1, p2, sw, sh);
}

/// What remains of a world-anchored vertex's device position after its
/// screen term is taken off is exactly the world term — a function of the
/// world position and the projection matrix alone, into which the screen
/// size never enters.
pub proof fn lemma_world_term_depends_on_projection_alone(
    m: Mat4i,
    p: Vec3i,
    px: int,
    py: int,
    sw: int,
    sh: int,
)
    requires
        sw != 0,
        sh != 0,
        clip(m, p).z != 0,
    ensures
        rat_eq(
            rat_sub(device_position(m, p, 0, px, py, sw, sh).x, screen_offset(px, py, sw, sh).x),
            world_offset(m, p).x,
        ),
        rat_eq(
            rat_sub(device_position(m, p, 0, px, py, sw, sh).y, screen_offset(px, py, sw, sh).y),
            world_offset(m, p).y,
        ),
{
    let c = clip(m, p);
    let dx = rat_sub(device_position(m, p, 0, px, py, sw, sh).x, screen_offset(px, py, sw, sh).x);
    let dy = rat_sub(device_position(m, p, 0, px, py, sw, sh).y, screen_offset(px, py, sw, sh).y);
    let ax = c.x + c.z;
    let tx = 2 * px - sw;
    assert(dx.num == (ax * sw + tx * c.z) * sw - tx * (c.z * sw));
    assert(dx.den == c.z * sw * sw);
    assert(((ax * sw + tx * c.z) * sw - tx * (c.z * sw)) * c.z == ax * (c.z * sw * sw))
        by (nonlinear_arith);
    let ay = c.y - c.z;
    let ty = sh - 2 * py;
    assert(dy.num == (ay * sh + ty * c.z) * sh - ty * (c.z * sh));
    assert(dy.den == c.z * sh * sh);
    assert(((ay * sh + ty * c.z) * sh - ty * (c.z * sh)) * c.z == ay * (c.z * sh * sh))
        by (nonlinear_arith);
}

/// The world term never reads the screen size: for a world-anchored
/// vertex it is a function of the world position and the projection
/// matrix alone, and at the pixel origin — where the screen term is the
/// constant `(−1, 1)` for every screen size — the whole device position
/// is invariant under the screen size.
pub proof fn lemma_world_anchored_ignores_screen_size(
    m: Mat4i,
    p: Vec3i,
    sw1: int,
    sh1: int,
    sw2: int,
    sh2: int,
)
    requires
        sw1 != 0,
        sh1 != 0,
        sw2 != 0,
        sh2 != 0,
    ensures
        rat_eq(
            device_position(m, p, 0, 0, 0, sw1, sh1).x,
            device_position(m, p, 0, 0, 0, sw2, sh2).x,
        ),
        rat_eq(
            device_position(m, p, 0, 0, 0, sw1, sh1).y,
            device_position(m, p, 0, 0, 0, sw2, sh2).y,
        ),
{
    let c = clip(m, p);
    let ax = device_position(m, p, 0, 0, 0, sw1, sh1).x;
    let bx = device_position(m, p, 0, 0, 0, sw2, sh2).x;
    let ay = device_position(m, p, 0, 0, 0, sw1, sh1).y;
    let by = device_position(m, p, 0, 0, 0, sw2, sh2).y;
    assert(ax.num == (c.x + c.z) * sw1 + (-sw1) * c.z && ax.den == c.z * sw1);
    assert(bx.num == (c.x + c.z) * sw2 + (-sw2) * c.z && bx.den == c.z * sw2);
    assert(ay.num == (c.y - c.z) * sh1 + sh1 * c.z && ay.den == c.z * sh1);
    assert(by.num == (c.y - c.z) * sh2 + sh2 * c.z && by.den == c.z * sh2);
    assert(((c.x + c.z) * sw1 + (-sw1) * c.z) * (c.z * sw2) == ((c.x + c.z) * sw2 + (-sw2)
        * c.z) * (c.z * sw1)) by (nonlinear_arith);
    assert(((c.y - c.z) * sh1 + sh1 * c.z) * (c.z * sh2) == ((c.y - c.z) * sh2 + sh2 * c.z) * (c.z
        * sh1)) by (nonlinear_arith);
}

} // verus!
