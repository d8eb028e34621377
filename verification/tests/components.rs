// Unit tests for the font catalog, the dynamic buffer, and shader
// variant selection.

use text_renderer::font::FontCatalog;
use text_renderer::font::Glyph;
use text_renderer::buffer::DynBuffer;
use text_renderer::shader::builtin_variants;
use text_renderer::shader::select_variant;
use text_renderer::shader::TIER_LEGACY;
use text_renderer::shader::TIER_MODERN;
use text_renderer::shader::VERTEX_SRC_LEGACY;
use text_renderer::shader::VERTEX_SRC_MODERN;

fn glyph(x: u32, y: u32, w: u32, h: u32, xo: i32, yo: i32, xa: i32) -> Glyph {
    Glyph { x, y, width: w, height: h, xoffset: xo, yoffset: yo, xadvance: xa }
}

#[test]
fn placeholder_is_all_zero() {
    let g = Glyph::placeholder();
    assert_eq!(g, glyph(0, 0, 0, 0, 0, 0, 0));
    assert_eq!(Glyph::default(), g);
}

#[test]
fn lookup_present_character() {
    let mut cat = FontCatalog::new(256, 128);
    cat.add_glyph('A', glyph(1, 2, 10, 12, 3, 4, 11));
    assert_eq!(cat.scale_w, 256);
    assert_eq!(cat.scale_h, 128);
    assert_eq!(cat.lookup('A'), glyph(1, 2, 10, 12, 3, 4, 11));
}

#[test]
fn lookup_absent_character_is_zero_glyph() {
    let mut cat = FontCatalog::new(256, 256);
    cat.add_glyph('A', glyph(1, 2, 10, 12, 3, 4, 11));
    let g = cat.lookup('Z');
    assert_eq!(g.width, 0);
    assert_eq!(g.height, 0);
    assert_eq!(g.xadvance, 0);
    assert_eq!(g, Glyph::placeholder());
}

#[test]
fn add_glyph_replaces_and_keeps_others() {
    let mut cat = FontCatalog::new(64, 64);
    cat.add_glyph('A', glyph(0, 0, 8, 8, 0, 0, 9));
    cat.add_glyph('B', glyph(8, 0, 8, 8, 0, 0, 9));
    cat.add_glyph('A', glyph(16, 0, 7, 7, 1, 1, 8));
    assert_eq!(cat.lookup('A'), glyph(16, 0, 7, 7, 1, 1, 8));
    assert_eq!(cat.lookup('B'), glyph(8, 0, 8, 8, 0, 0, 9));
}

#[test]
fn buffer_starts_empty_with_requested_capacity() {
    let b: DynBuffer<u32> = DynBuffer::new(5);
    assert_eq!(b.len(), 0);
    assert_eq!(b.capacity(), 5);
}

#[test]
fn buffer_growth_preserves_uploaded_contents() {
    let mut b: DynBuffer<u32> = DynBuffer::new(4);
    b.write(&vec![10, 20, 30]);
    b.ensure_capacity(100);
    assert!(b.capacity() >= 100);
    assert_eq!(b.len(), 3);
    assert_eq!(b.get(0), 10);
    assert_eq!(b.get(1), 20);
    assert_eq!(b.get(2), 30);
}

#[test]
fn buffer_growth_is_lazy() {
    let mut b: DynBuffer<u32> = DynBuffer::new(8);
    b.ensure_capacity(8);
    assert_eq!(b.capacity(), 8);
    b.ensure_capacity(3);
    assert_eq!(b.capacity(), 8);
}

#[test]
fn buffer_growth_at_least_doubles() {
    let mut b: DynBuffer<u32> = DynBuffer::new(8);
    b.ensure_capacity(9);
    assert_eq!(b.capacity(), 16);
    b.ensure_capacity(100);
    assert_eq!(b.capacity(), 100);
}

#[test]
fn buffer_write_overwrites_from_offset_zero() {
    let mut b: DynBuffer<u32> = DynBuffer::new(4);
    b.write(&vec![1, 2, 3, 4]);
    b.write(&vec![9, 8]);
    assert_eq!(b.len(), 2);
    assert_eq!(b.get(0), 9);
    assert_eq!(b.get(1), 8);
}

#[test]
fn select_picks_highest_compatible_tier() {
    let variants = builtin_variants();
    let modern = select_variant(&variants, TIER_MODERN).unwrap();
    assert_eq!(modern.tier, TIER_MODERN);
    assert_eq!(modern.vertex, VERTEX_SRC_MODERN);
    let above = select_variant(&variants, 430).unwrap();
    assert_eq!(above.tier, TIER_MODERN);
    let legacy = select_variant(&variants, TIER_MODERN - 1).unwrap();
    assert_eq!(legacy.tier, TIER_LEGACY);
    assert_eq!(legacy.vertex, VERTEX_SRC_LEGACY);
}

#[test]
fn select_fails_below_lowest_tier() {
    let variants = builtin_variants();
    assert!(select_variant(&variants, TIER_LEGACY - 1).is_none());
    assert!(select_variant(&variants, 0).is_none());
}
