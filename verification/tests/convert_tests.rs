use spatial_display::frame::{convert, ConvertError, RawFrame, PIXEL_FORMAT_BGRA};

fn raw(width: u32, height: u32, bytes_per_row: usize, tag: u32, data: Vec<u8>) -> RawFrame {
    RawFrame { width, height, bytes_per_row, pixel_format_tag: tag, data }
}

#[test]
fn converts_two_pixel_bgra_frame() {
    // A 2x1 BGRA frame with stride 8: the end-to-end conversion scenario.
    let r = convert(&raw(
        2,
        1,
        8,
        PIXEL_FORMAT_BGRA,
        vec![10, 20, 30, 255, 40, 50, 60, 255],
    ));
    let frame = r.expect("a well-formed frame must convert");
    assert_eq!(frame.width, 2);
    assert_eq!(frame.height, 1);
    assert_eq!(frame.pixels, vec![30, 20, 10, 255, 60, 50, 40, 255]);
    assert_eq!(frame.pixels.len(), 8);
}

#[test]
fn single_pixel_channel_reorder() {
    // (B=10, G=20, R=30, A=255) must come out as (R=30, G=20, B=10, A=255).
    let r = convert(&raw(1, 1, 4, PIXEL_FORMAT_BGRA, vec![10, 20, 30, 255]));
    assert_eq!(r.unwrap().pixels, vec![30, 20, 10, 255]);
}

#[test]
fn channel_reorder_is_involutive() {
    // Converting twice swaps blue and red twice: the original bytes return.
    let original = vec![10, 20, 30, 255];
    let once = convert(&raw(1, 1, 4, PIXEL_FORMAT_BGRA, original.clone())).unwrap();
    let twice = convert(&raw(1, 1, 4, PIXEL_FORMAT_BGRA, once.pixels)).unwrap();
    assert_eq!(twice.pixels, original);
}

#[test]
fn row_padding_is_stripped() {
    // 1x2 frame with stride 8: four padding bytes per row must not appear.
    let data = vec![
        1, 2, 3, 4, 0xEE, 0xEE, 0xEE, 0xEE, // row 0
        5, 6, 7, 8, 0xEE, 0xEE, 0xEE, 0xEE, // row 1
    ];
    let frame = convert(&raw(1, 2, 8, PIXEL_FORMAT_BGRA, data)).unwrap();
    assert_eq!(frame.pixels, vec![3, 2, 1, 4, 7, 6, 5, 8]);
    assert_eq!(frame.pixels.len(), 1 * 2 * 4);
}

#[test]
fn output_length_is_width_height_four() {
    // Valid buffers with bytes_per_row >= width * 4 give exactly w * h * 4 bytes.
    for (w, h, bpr) in [(3u32, 2u32, 12usize), (3, 2, 16), (4, 4, 20)] {
        let frame = convert(&raw(w, h, bpr, PIXEL_FORMAT_BGRA, vec![0; h as usize * bpr]))
            .unwrap();
        assert_eq!(frame.pixels.len(), (w * h * 4) as usize);
    }
}

#[test]
fn empty_frame_converts_to_empty_pixels() {
    let frame = convert(&raw(0, 0, 0, PIXEL_FORMAT_BGRA, Vec::new())).unwrap();
    assert_eq!(frame.pixels.len(), 0);
}

#[test]
fn wrong_pixel_format_tag_is_rejected() {
    let r = convert(&raw(1, 1, 4, 0x34323076, vec![10, 20, 30, 255]));
    assert_eq!(r.unwrap_err(), ConvertError::UnsupportedPixelFormat);
}

#[test]
fn stride_smaller_than_row_is_rejected() {
    let r = convert(&raw(2, 1, 4, PIXEL_FORMAT_BGRA, vec![0; 8]));
    assert_eq!(r.unwrap_err(), ConvertError::StrideTooSmall);
}

#[test]
fn short_buffer_is_rejected() {
    // Two rows of stride 8 need 16 bytes; only 12 are there.
    let r = convert(&raw(2, 2, 8, PIXEL_FORMAT_BGRA, vec![0; 12]));
    assert_eq!(r.unwrap_err(), ConvertError::BufferTooShort);
}

#[test]
fn huge_stride_is_rejected_not_allocated() {
    // A stride near the address-space limit must fail the length check
    // cleanly instead of trying to read rows that cannot exist.
    let r = convert(&raw(1, 2, usize::MAX, PIXEL_FORMAT_BGRA, vec![0; 8]));
    assert_eq!(r.unwrap_err(), ConvertError::BufferTooShort);
}

#[test]
fn format_tag_is_checked_before_geometry() {
    // A buffer wrong in every way reports the unsupported format first.
    let r = convert(&raw(2, 2, 4, 0, Vec::new()));
    assert_eq!(r.unwrap_err(), ConvertError::UnsupportedPixelFormat);
}
