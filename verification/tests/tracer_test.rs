use rust_tracer::frame_buffer::create_frame_buffer;
use rust_tracer::raster::{fill_frame, pixel_grid, write_rgba};
use rust_tracer::texture::{blend_bilinear, resize_dimensions, Texture, WEIGHT_ONE};

const FULL_WEIGHT: u64 = WEIGHT_ONE as u64 * WEIGHT_ONE as u64;

#[test]
fn frame_buffer_starts_cleared() {
    let fb = create_frame_buffer(3, 2);
    assert_eq!(fb.width(), 3);
    assert_eq!(fb.height(), 2);
    for y in 0..2 {
        for x in 0..3 {
            assert_eq!(fb.get_pixel(x, y), 0);
        }
    }
}

#[test]
fn frame_buffer_set_then_get() {
    let mut fb = create_frame_buffer(3, 2);
    fb.set_pixel(2, 1, 7);
    assert_eq!(fb.get_pixel(2, 1), 7);
    assert_eq!(fb.get_pixel(1, 1), 0);
    assert_eq!(fb.get_pixel(2, 0), 0);
    fb.set_pixel(0, 0, -9);
    assert_eq!(fb.get_pixel(0, 0), -9);
    assert_eq!(fb.get_pixel(2, 1), 7);
}

// A 2 by 2 texture with a distinct RGB triple per texel:
// (0,0) red-ish, (1,0) green-ish, (0,1) blue-ish, (1,1) grey.
fn checker() -> Texture {
    let bytes: Vec<u8> = vec![
        200, 10, 20, // texel (0,0)
        30, 220, 40, // texel (1,0)
        50, 60, 240, // texel (0,1)
        90, 90, 90, // texel (1,1)
    ];
    Texture::create(2, 2, bytes).unwrap()
}

#[test]
fn texture_create_checks_dimensions() {
    assert!(Texture::create(0, 2, vec![0; 0]).is_none());
    assert!(Texture::create(2, 0, vec![0; 0]).is_none());
    assert!(Texture::create(2, 2, vec![0; 11]).is_none());
    assert!(Texture::create(2, 2, vec![0; 13]).is_none());
    assert!(Texture::create(2, 2, vec![0; 12]).is_some());
}

#[test]
fn texture_texel_fetch() {
    let t = checker();
    assert_eq!(t.width(), 2);
    assert_eq!(t.height(), 2);
    assert_eq!(t.texel(0, 0), (200, 10, 20));
    assert_eq!(t.texel(1, 0), (30, 220, 40));
    assert_eq!(t.texel(0, 1), (50, 60, 240));
    assert_eq!(t.texel(1, 1), (90, 90, 90));
}

#[test]
fn blend_returns_corner_texels_at_corner_weights() {
    let (tl, tr, bl, br) = (200u8, 30u8, 50u8, 90u8);
    assert_eq!(blend_bilinear(tl, tr, bl, br, 0, 0), 200 * FULL_WEIGHT);
    assert_eq!(blend_bilinear(tl, tr, bl, br, WEIGHT_ONE, 0), 30 * FULL_WEIGHT);
    assert_eq!(blend_bilinear(tl, tr, bl, br, 0, WEIGHT_ONE), 50 * FULL_WEIGHT);
    assert_eq!(
        blend_bilinear(tl, tr, bl, br, WEIGHT_ONE, WEIGHT_ONE),
        90 * FULL_WEIGHT
    );
}

#[test]
fn blend_midpoint_is_exact() {
    let half = WEIGHT_ONE / 2;
    // (0 + 0 + 0 + 255) / 4 of the full weight, exactly.
    assert_eq!(
        blend_bilinear(0, 0, 0, 255, half, half),
        255 * (half as u64) * (half as u64)
    );
    // The average of four equal values is that value.
    assert_eq!(blend_bilinear(17, 17, 17, 17, half, half), 17 * FULL_WEIGHT);
}

#[test]
fn sample_at_texel_origin_is_that_texel() {
    let t = checker();
    let (r, g, b) = t.sample_bilinear(1, 0, 0, 0);
    assert_eq!(r, 30 * FULL_WEIGHT);
    assert_eq!(g, 220 * FULL_WEIGHT);
    assert_eq!(b, 40 * FULL_WEIGHT);
}

#[test]
fn sample_wraps_at_the_seam() {
    // One row, two texels: sampling half-way right of the last texel blends
    // it with the first one, not with an out-of-range neighbour.
    let t = Texture::create(2, 1, vec![10, 0, 0, 20, 0, 0]).unwrap();
    let half = WEIGHT_ONE / 2;
    let (r, g, b) = t.sample_bilinear(1, 0, half, 0);
    let expect = 20 * (half as u64) * (WEIGHT_ONE as u64) + 10 * (half as u64) * (WEIGHT_ONE as u64);
    assert_eq!(r, expect);
    assert_eq!(g, 0);
    assert_eq!(b, 0);
}

#[test]
fn sample_wraps_both_axes_at_far_corner() {
    let t = checker();
    // Full fractional weights at the far texel land on the wrapped corner:
    // (1,1) + (1,1) wraps to texel (0,0).
    let (r, g, b) = t.sample_bilinear(1, 1, WEIGHT_ONE, WEIGHT_ONE);
    assert_eq!(r, 200 * FULL_WEIGHT);
    assert_eq!(g, 10 * FULL_WEIGHT);
    assert_eq!(b, 20 * FULL_WEIGHT);
}

#[test]
fn sample_single_texel_is_constant() {
    // With one texel every neighbour wraps back to it, so any weights
    // blend to that texel's value.
    let t = Texture::create(1, 1, vec![7, 8, 9]).unwrap();
    let (r, g, b) = t.sample_bilinear(0, 0, 1234, 60000);
    assert_eq!(r, 7 * FULL_WEIGHT);
    assert_eq!(g, 8 * FULL_WEIGHT);
    assert_eq!(b, 9 * FULL_WEIGHT);
}

#[test]
fn resize_keeps_aspect_ratio() {
    assert_eq!(resize_dimensions(1024, 512, 100), (100, 50));
    assert_eq!(resize_dimensions(3, 2, 2), (2, 1));
}

#[test]
fn resize_never_upscales() {
    assert_eq!(resize_dimensions(100, 200, 500), (100, 200));
    assert_eq!(resize_dimensions(640, 480, 0), (640, 480));
}

#[test]
fn pixel_grid_walks_rows_top_down() {
    let grid = pixel_grid(4, 2);
    let expect = vec![
        (-2, -1),
        (-1, -1),
        (0, -1),
        (1, -1),
        (-2, 0),
        (-1, 0),
        (0, 0),
        (1, 0),
    ];
    assert_eq!(grid, expect);
}

#[test]
fn pixel_grid_drops_odd_edges() {
    // Odd dimensions walk the same grid as the next even size down.
    assert_eq!(pixel_grid(5, 3), pixel_grid(4, 2));
    assert_eq!(pixel_grid(1, 1), vec![]);
    assert_eq!(pixel_grid(0, 6), vec![]);
}

#[test]
fn write_rgba_touches_one_slot() {
    let mut frame: Vec<u8> = vec![9; 12];
    write_rgba(&mut frame, 1, 1, 2, 3);
    assert_eq!(frame, vec![9, 9, 9, 9, 1, 2, 3, 255, 9, 9, 9, 9]);
}

#[test]
fn fill_frame_writes_colors_in_lockstep() {
    let mut frame: Vec<u8> = vec![0; 8];
    let colors = vec![(1, 2, 3), (4, 5, 6)];
    fill_frame(&mut frame, &colors);
    assert_eq!(frame, vec![1, 2, 3, 255, 4, 5, 6, 255]);
}
