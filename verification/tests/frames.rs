// Scenario tests for the renderer: batching, anchoring, upload, and the
// frame life cycle.

use text_renderer::font::FontCatalog;
use text_renderer::font::Glyph;
use text_renderer::renderer::TextRenderer;
use text_renderer::renderer::SCALAR_ONE_BITS;
use text_renderer::shader::TIER_MODERN;

fn single_glyph_catalog() -> FontCatalog {
    let mut cat = FontCatalog::new(256, 256);
    cat.add_glyph(
        'A',
        Glyph { x: 0, y: 0, width: 10, height: 10, xoffset: 0, yoffset: 0, xadvance: 12 },
    );
    cat
}

fn renderer(initial_capacity: usize) -> TextRenderer {
    TextRenderer::new(TIER_MODERN, [800, 600], initial_capacity, single_glyph_catalog()).unwrap()
}

#[test]
fn construction_fails_below_every_tier() {
    let r = TextRenderer::new(100, [800, 600], 16, single_glyph_catalog());
    assert!(r.is_err());
}

#[test]
fn construction_starts_with_identity_projection() {
    let r = renderer(16);
    for i in 0..4 {
        for j in 0..4 {
            let expected = if i == j { SCALAR_ONE_BITS } else { 0 };
            assert_eq!(r.uniforms.model_view_proj[i][j], expected);
        }
    }
    assert_eq!(r.uniforms.screen_size, [800, 600]);
    assert_eq!(r.batch.vertices.len(), 0);
    assert_eq!(r.batch.indices.len(), 0);
    assert_eq!(r.vertex_buffer.capacity(), 16);
    assert_eq!(r.index_buffer.capacity(), 16);
}

#[test]
fn draw_appends_four_vertices_and_six_indices_per_character() {
    let mut r = renderer(16);
    r.draw_text_on_screen("AAA", [0, 0], [0, 0, 0, 0]);
    assert_eq!(r.batch.vertices.len(), 12);
    assert_eq!(r.batch.indices.len(), 18);
    r.draw_text_at_position("AA", [0, 0, 0], [0, 0, 0, 0]);
    assert_eq!(r.batch.vertices.len(), 20);
    assert_eq!(r.batch.indices.len(), 30);
}

#[test]
fn world_anchored_quad_carries_request_values() {
    // Single-glyph table; one world-anchored request.
    let mut r = renderer(16);
    let world = [1.0f32.to_bits(), 2.0f32.to_bits(), 3.0f32.to_bits()];
    let color = [1.0f32.to_bits(), 0.0f32.to_bits(), 0.0f32.to_bits(), 1.0f32.to_bits()];
    r.draw_text_at_position("A", world, color);
    assert_eq!(r.batch.vertices.len(), 4);
    for v in 0..4 {
        assert_eq!(r.batch.vertices[v].world_position, world);
        assert_eq!(r.batch.vertices[v].screen_relative, 0);
        assert_eq!(r.batch.vertices[v].color, color);
    }
    assert_eq!(r.batch.indices, vec![0, 1, 3, 3, 1, 2]);
}

#[test]
fn quad_corners_follow_glyph_metrics() {
    let mut r = renderer(16);
    r.draw_text_on_screen("A", [5, 7], [0, 0, 0, 0]);
    // Corner order: top-left, bottom-left, bottom-right, top-right.
    assert_eq!(r.batch.vertices[0].position, [5, 7]);
    assert_eq!(r.batch.vertices[1].position, [5, 17]);
    assert_eq!(r.batch.vertices[2].position, [15, 17]);
    assert_eq!(r.batch.vertices[3].position, [15, 7]);
    assert_eq!(r.batch.vertices[0].texcoords, [0, 0]);
    assert_eq!(r.batch.vertices[1].texcoords, [0, 10]);
    assert_eq!(r.batch.vertices[2].texcoords, [10, 10]);
    assert_eq!(r.batch.vertices[3].texcoords, [10, 0]);
    for v in 0..4 {
        assert_eq!(r.batch.vertices[v].screen_relative, 1);
        assert_eq!(r.batch.vertices[v].world_position, [0, 0, 0]);
    }
}

#[test]
fn glyph_offsets_displace_the_quad() {
    let mut cat = FontCatalog::new(128, 64);
    cat.add_glyph(
        'g',
        Glyph { x: 20, y: 30, width: 6, height: 9, xoffset: 3, yoffset: 4, xadvance: 7 },
    );
    let mut r = TextRenderer::new(TIER_MODERN, [800, 600], 16, cat).unwrap();
    r.draw_text_on_screen("g", [10, 20], [0, 0, 0, 0]);
    assert_eq!(r.batch.vertices[0].position, [13, 24]);
    assert_eq!(r.batch.vertices[1].position, [13, 33]);
    assert_eq!(r.batch.vertices[2].position, [19, 33]);
    assert_eq!(r.batch.vertices[3].position, [19, 24]);
    assert_eq!(r.batch.vertices[0].texcoords, [20, 30]);
    assert_eq!(r.batch.vertices[2].texcoords, [26, 39]);
}

#[test]
fn cursor_advances_by_xadvance() {
    let mut r = renderer(32);
    r.draw_text_on_screen("AA", [0, 0], [0, 0, 0, 0]);
    // Second quad starts one advance (12) to the right.
    assert_eq!(r.batch.vertices[4].position, [12, 0]);
    assert_eq!(r.batch.vertices[6].position, [22, 10]);
}

#[test]
fn absent_character_makes_invisible_quad_and_keeps_cursor() {
    let mut r = renderer(32);
    r.draw_text_on_screen("ZA", [0, 0], [0, 0, 0, 0]);
    assert_eq!(r.batch.vertices.len(), 8);
    // 'Z' is missing: a zero-area quad at the cursor...
    assert_eq!(r.batch.vertices[0].position, [0, 0]);
    assert_eq!(r.batch.vertices[2].position, [0, 0]);
    // ...and no advance, so 'A' still starts at the origin.
    assert_eq!(r.batch.vertices[4].position, [0, 0]);
    assert_eq!(r.batch.vertices[6].position, [10, 10]);
}

#[test]
fn two_screen_requests_share_the_batch() {
    // Two sequential single-glyph requests accumulate; the second quad's
    // indices reference its own four vertices.
    let mut r = renderer(32);
    let c = [0, 0, 0, 1.0f32.to_bits()];
    r.draw_text_on_screen("A", [0, 0], c);
    r.draw_text_on_screen("A", [0, 0], c);
    assert_eq!(r.batch.vertices.len(), 8);
    assert_eq!(r.batch.indices.len(), 12);
    assert_eq!(r.batch.indices[6..12], [4, 5, 7, 7, 5, 6]);
}

#[test]
fn screen_anchored_output_ignores_projection_and_world_position() {
    let mut a = renderer(32);
    let mut b = renderer(32);
    // Same screen request on both; different projection uniform and a
    // world-anchored request drawn and flushed earlier on one of them.
    b.draw_text_at_position("A", [9.5f32.to_bits(), 1.0f32.to_bits(), 7.0f32.to_bits()], [0, 0, 0, 0]);
    b.update();
    let arbitrary = [[7u32; 4]; 4];
    b.render(arbitrary);
    a.draw_text_on_screen("A", [3, 4], [0, 0, 0, 1]);
    b.draw_text_on_screen("A", [3, 4], [0, 0, 0, 1]);
    assert_eq!(a.batch.vertices, b.batch.vertices);
}

#[test]
fn resize_touches_only_screen_size() {
    let mut r = renderer(16);
    r.draw_text_on_screen("A", [0, 0], [0, 0, 0, 0]);
    let mvp_before = r.uniforms.model_view_proj;
    r.resize(1024, 768);
    assert_eq!(r.uniforms.screen_size, [1024, 768]);
    assert_eq!(r.uniforms.model_view_proj, mvp_before);
    assert_eq!(r.batch.vertices.len(), 4);
    assert_eq!(r.vertex_buffer.capacity(), 16);
}

#[test]
fn update_uploads_batch_and_grows_buffers() {
    // Initial capacity 2 is too small for one quad: the vertex buffer
    // must grow to hold all 4 vertices, and the upload must land in
    // order at offset 0.
    let mut r = renderer(2);
    r.draw_text_on_screen("A", [5, 7], [0, 0, 0, 0]);
    r.update();
    assert!(r.vertex_buffer.capacity() >= 4);
    assert!(r.index_buffer.capacity() >= 6);
    assert_eq!(r.vertex_buffer.len(), 4);
    assert_eq!(r.index_buffer.len(), 6);
    for v in 0..4 {
        assert_eq!(r.vertex_buffer.get(v), r.batch.vertices[v]);
    }
    let expected_indices = [0u32, 1, 3, 3, 1, 2];
    for i in 0..6 {
        assert_eq!(r.index_buffer.get(i), expected_indices[i]);
    }
}

#[test]
fn update_keeps_large_enough_buffers() {
    let mut r = renderer(64);
    r.draw_text_on_screen("AAA", [0, 0], [0, 0, 0, 0]);
    r.update();
    assert_eq!(r.vertex_buffer.capacity(), 64);
    assert_eq!(r.index_buffer.capacity(), 64);
}

#[test]
fn render_clears_batch_and_reports_draw_range() {
    let mut r = renderer(32);
    r.draw_text_on_screen("AA", [0, 0], [0, 0, 0, 0]);
    r.update();
    let projection = [[SCALAR_ONE_BITS, 0, 0, 0], [0, SCALAR_ONE_BITS, 0, 0], [0, 0,
        SCALAR_ONE_BITS, 0], [0, 0, 0, SCALAR_ONE_BITS]];
    let drawn = r.render(projection);
    assert_eq!(drawn, 12);
    assert_eq!(r.batch.vertices.len(), 0);
    assert_eq!(r.batch.indices.len(), 0);
    assert_eq!(r.uniforms.model_view_proj, projection);
    // The uploaded geometry itself is untouched by render.
    assert_eq!(r.vertex_buffer.len(), 8);
    assert_eq!(r.index_buffer.len(), 12);
}

#[test]
fn next_frame_starts_from_an_empty_batch() {
    let mut r = renderer(8);
    r.draw_text_on_screen("AAAA", [0, 0], [0, 0, 0, 0]);
    r.update();
    r.render([[0; 4]; 4]);
    r.draw_text_on_screen("A", [0, 0], [0, 0, 0, 0]);
    assert_eq!(r.batch.vertices.len(), 4);
    assert_eq!(r.batch.indices, vec![0, 1, 3, 3, 1, 2]);
    let drawn = r.render([[0; 4]; 4]);
    assert_eq!(drawn, 6);
    assert_eq!(r.batch.vertices.len(), 0);
}

#[test]
fn empty_text_draws_nothing() {
    let mut r = renderer(8);
    r.draw_text_on_screen("", [3, 4], [0, 0, 0, 0]);
    assert_eq!(r.batch.vertices.len(), 0);
    assert_eq!(r.batch.indices.len(), 0);
    let drawn = r.render([[0; 4]; 4]);
    assert_eq!(drawn, 0);
}
