use outrider::rasterize::{
    blend, composite_bgra, rgb_u8, DiskState, BAKES_PER_FRAME, MAX_TEX_H, RENDER_SCHEMA_VERSION,
};

#[test]
fn render_schema_tracks_shared_file_type_classification() {
    assert_eq!(RENDER_SCHEMA_VERSION, 3);
}

#[test]
fn render_constants() {
    assert_eq!(MAX_TEX_H, 1024);
    assert_eq!(BAKES_PER_FRAME, 4);
    assert_ne!(DiskState::Preparing, DiskState::Unavailable);
    assert_eq!(DiskState::Ready { used_bytes: 5 }, DiskState::Ready { used_bytes: 5 });
}

#[test]
fn rgb_u8_splits_channels() {
    assert_eq!(rgb_u8(0x123456), (0x12, 0x34, 0x56));
    assert_eq!(rgb_u8(0xff102030), (0x10, 0x20, 0x30));
}

#[test]
fn blend_opaque_source_replaces_pixel() {
    let mut px = vec![9, 9, 9, 9, 10, 20, 30, 40, 7, 7];
    blend(&mut px, 4, 200, 100, 50, 255);
    assert_eq!(px, vec![9, 9, 9, 9, 200, 100, 50, 255, 7, 7]);
}

#[test]
fn blend_half_alpha_over_opaque() {
    let mut px = vec![0, 0, 0, 255];
    blend(&mut px, 0, 255, 255, 255, 128);
    // oa = 128 + 255*127/255 = 255; c = (255*128 + 0) / 255 = 128
    assert_eq!(px, vec![128, 128, 128, 255]);
}

#[test]
fn blend_transparent_over_transparent_is_unchanged() {
    let mut px = vec![1, 2, 3, 0];
    blend(&mut px, 0, 200, 200, 200, 0);
    assert_eq!(px, vec![1, 2, 3, 0]);
}

#[test]
fn composite_scales_into_inner_rect_and_swaps_channels() {
    // 1x1 opaque BGRA source: blue 10, green 20, red 30.
    let src = [10u8, 20, 30, 255];
    let (bw, bh) = (4u32, 4u32);
    let mut buf = vec![0u8; (bw * bh * 4) as usize];
    composite_bgra(&src, 1, 1, 4, 4, 0, 0, bw, bh, &mut buf);
    for y in 0..bh {
        for x in 0..bw {
            let i = ((y * bw + x) * 4) as usize;
            let inner = (1..3).contains(&x) && (1..3).contains(&y);
            if inner {
                assert_eq!(&buf[i..i + 4], &[30, 20, 10, 255]);
            } else {
                assert_eq!(&buf[i..i + 4], &[0, 0, 0, 0]);
            }
        }
    }
}

#[test]
fn composite_skips_transparent_and_offscreen_pixels() {
    // 2x1 source: left opaque red, right fully transparent.
    let src = [0u8, 0, 255, 255, 0, 255, 0, 0];
    let mut buf = vec![5u8; 3 * 1 * 4];
    // Destination rect at x = -2 of width 4 (inner width 2) lies partly left
    // of the buffer; only inner column ox = 1 (dx = 0) is on screen and it
    // samples the transparent source pixel.
    composite_bgra(&src, 2, 1, 4, 3, -2, -1, 3, 1, &mut buf);
    assert_eq!(buf, vec![5u8; 12]);
    // Shifted right by one, inner column ox = 0 lands on dx = 1.
    composite_bgra(&src, 2, 1, 4, 3, 0, -1, 3, 1, &mut buf);
    assert_eq!(&buf[4..8], &[255, 0, 0, 255]);
    assert_eq!(&buf[0..4], &[5, 5, 5, 5]);
    assert_eq!(&buf[8..12], &[5, 5, 5, 5]);
}

#[test]
fn composite_ignores_empty_sources_and_thin_rects() {
    let mut buf = vec![1u8; 16];
    composite_bgra(&[], 0, 0, 4, 4, 0, 0, 2, 2, &mut buf);
    composite_bgra(&[1, 2, 3, 255], 1, 1, 2, 4, 0, 0, 2, 2, &mut buf);
    assert_eq!(buf, vec![1u8; 16]);
}

#[test]
fn composite_into_an_oversized_box_or_buffer_paints_nothing() {
    let src = vec![10, 20, 30, 255];
    let mut buf = vec![7u8; 2 * 2 * 4];
    composite_bgra(&src, 1, 1, 0x9000_0000, 4, 0, 0, 2, 2, &mut buf);
    assert_eq!(buf, vec![7u8; 16]);
    composite_bgra(&src, 1, 1, 4, 4, 0, 0, 0x8000_0000, 0, &mut buf);
    assert_eq!(buf, vec![7u8; 16]);
}

#[test]
fn composite_accepts_boxes_reaching_the_coordinate_limit() {
    let src = [10u8, 20, 30, 255];
    let mut buf = vec![7u8; 2 * 2 * 4];
    // The box ends at 2^31 + 1: its last inner column is i32::MAX.
    composite_bgra(&src, 1, 1, 4, 4, i32::MAX - 2, 0, 2, 2, &mut buf);
    assert_eq!(buf, vec![7u8; 16]);
    // An empty source paints nothing, however large it claims to be.
    composite_bgra(&[], u32::MAX, u32::MAX, 4, 4, 0, 0, 2, 2, &mut buf);
    assert_eq!(buf, vec![7u8; 16]);
}
