//! Raw captured pixel buffers and their normalization into tightly packed
//! RGBA frames.

use vstd::prelude::*;

verus! {

/// The single supported pixel-format tag: 32 bits per pixel in blue, green,
/// red, alpha order. The value is the four-character code `BGRA`.
pub const PIXEL_FORMAT_BGRA: u32 = 0x42475241;

/// A raw captured pixel buffer as the capture driver delivers it: `height`
/// rows of `bytes_per_row` bytes each. The leading `width * 4` bytes of a row
/// hold the row's pixels; the rest is platform row padding.
pub struct RawFrame {
    /// Width of the image in pixels.
    pub width: u32,
    /// Height of the image in pixels.
    pub height: u32,
    /// Distance in bytes between the starts of consecutive rows; at least
    /// `width * 4` in a well-formed buffer.
    pub bytes_per_row: usize,
    /// The driver's tag for the buffer's pixel format.
    pub pixel_format_tag: u32,
    /// The buffer contents, row after row.
    pub data: Vec<u8>,
}

/// An owned, tightly packed frame: four bytes per pixel in red, green, blue,
/// alpha order, with no row padding.
#[derive(Debug)]
pub struct Frame {
    /// Width of the image in pixels.
    pub width: u32,
    /// Height of the image in pixels.
    pub height: u32,
    /// Exactly `width * height * 4` bytes.
    pub pixels: Vec<u8>,
}

/// The mathematical content of a [`Frame`].
pub ghost struct FrameModel {
    /// Width of the image in pixels.
    pub width: int,
    /// Height of the image in pixels.
    pub height: int,
    /// The packed pixel bytes.
    pub pixels: Seq<u8>,
}

impl FrameModel {
    /// The frame invariant: exactly four bytes for each of the
    /// `width * height` pixels.
    pub open spec fn wf(self) -> bool {
        self.pixels.len() == self.width * self.height * 4
    }
}

impl View for Frame {
    type V = FrameModel;

    open spec fn view(&self) -> FrameModel {
        FrameModel {
            width: self.width as int,
            height: self.height as int,
            pixels: self.pixels@,
        }
    }
}

impl Frame {
    /// The frame invariant, stated on the executable type.
    pub open spec fn wf(self) -> bool {
        self@.wf()
    }
}

/// Why a raw frame was dropped rather than converted.
#[derive(PartialEq, Eq, Structural, Debug, Clone, Copy)]
pub enum ConvertError {
    /// The declared pixel-format tag is not [`PIXEL_FORMAT_BGRA`].
    UnsupportedPixelFormat,
    /// `bytes_per_row` is too small to hold one row of `width` pixels.
    StrideTooSmall,
    /// The buffer holds fewer than `height * bytes_per_row` bytes.
    BufferTooShort,
}

/// Which rejection, if any, applies to a raw frame. The checks apply in this
/// order: format tag first, then row stride, then buffer length.
pub open spec fn rejection(raw: RawFrame) -> Option<ConvertError> {
    if raw.pixel_format_tag != PIXEL_FORMAT_BGRA {
        Some(ConvertError::UnsupportedPixelFormat)
    } else if raw.bytes_per_row < 4 * raw.width {
        Some(ConvertError::StrideTooSmall)
    } else if raw.data@.len() < raw.height * raw.bytes_per_row {
        Some(ConvertError::BufferTooShort)
    } else {
        None
    }
}

/// The four output bytes for the pixel at column `x` of row `y` are the four
/// raw bytes there with the first and third exchanged: blue, green, red,
/// alpha becomes red, green, blue, alpha.
pub open spec fn pixel_converted(raw: RawFrame, pixels: Seq<u8>, x: int, y: int) -> bool {
    let src = y * raw.bytes_per_row + 4 * x;
    let dst = 4 * (y * raw.width + x);
    &&& pixels[dst] == raw.data@[src + 2]
    &&& pixels[dst + 1] == raw.data@[src + 1]
    &&& pixels[dst + 2] == raw.data@[src]
    &&& pixels[dst + 3] == raw.data@[src + 3]
}

/// The frame is the raw buffer with the row padding stripped and every
/// pixel's blue and red channels exchanged.
pub open spec fn frame_converted(raw: RawFrame, frame: FrameModel) -> bool {
    &&& frame.width == raw.width
    &&& frame.height == raw.height
    &&& frame.pixels.len() == raw.width * raw.height * 4
    &&& forall|y: int, x: int|
        0 <= y < raw.height && 0 <= x < raw.width ==> #[trigger] pixel_converted(
            raw,
            frame.pixels,
            x,
            y,
        )
}

/// Normalize a raw BGRA buffer into a tightly packed RGBA frame, or say why
/// the buffer is rejected. A rejected buffer is dropped; nothing of it is
/// kept. The output holds exactly `width * height * 4` bytes by
/// construction, so no after-the-fact length check is needed.
pub fn convert(raw: &RawFrame) -> (r: Result<Frame, ConvertError>)
    ensures
        match r {
            Ok(frame) => rejection(*raw) is None && frame_converted(*raw, frame@),
            Err(e) => rejection(*raw) == Some(e),
        },
{
    if raw.pixel_format_tag != PIXEL_FORMAT_BGRA {
        return Err(ConvertError::UnsupportedPixelFormat);
    }
    if (raw.bytes_per_row as u64) < 4u64 * (raw.width as u64) {
        return Err(ConvertError::StrideTooSmall);
    }
    proof {
        assert((raw.height as int) * (raw.bytes_per_row as int) <= 0xFFFF_FFFF
            * 0xFFFF_FFFF_FFFF_FFFF) by (nonlinear_arith)
            requires
                0 <= raw.height as int <= 0xFFFF_FFFF,
                0 <= raw.bytes_per_row as int <= 0xFFFF_FFFF_FFFF_FFFF,
        ;
    }
    if (raw.data.len() as u128) < (raw.height as u128) * (raw.bytes_per_row as u128) {
        return Err(ConvertError::BufferTooShort);
    }
    let w = raw.width as usize;
    let h = raw.height as usize;
    let bpr = raw.bytes_per_row;
    let mut pixels: Vec<u8> = Vec::new();
    let mut y: usize = 0;
    while y < h
        invariant
            w == raw.width,
            h == raw.height,
            bpr == raw.bytes_per_row,
            bpr >= 4 * w,
            raw.data@.len() >= h * bpr,
            raw.data@.len() <= usize::MAX,
            y <= h,
            pixels@.len() == 4 * (y * w),
            forall|yy: int, xx: int|
                0 <= yy < y && 0 <= xx < w ==> #[trigger] pixel_converted(*raw, pixels@, xx, yy),
        decreases h - y,
    {
        proof {
            assert(y * bpr + bpr <= h * bpr) by (nonlinear_arith)
                requires y < h, 0 <= bpr;
        }
        let row_base: usize = y * bpr;
        let mut x: usize = 0;
        while x < w
            invariant
                w == raw.width,
                h == raw.height,
                bpr == raw.bytes_per_row,
                bpr >= 4 * w,
                raw.data@.len() >= h * bpr,
                raw.data@.len() <= usize::MAX,
                y < h,
                row_base == y * bpr,
                row_base + bpr <= h * bpr,
                x <= w,
                pixels@.len() == 4 * (y * w) + 4 * x,
                forall|yy: int, xx: int|
                    0 <= yy < y && 0 <= xx < w ==> #[trigger] pixel_converted(*raw, pixels@, xx, yy),
                forall|xx: int|
                    0 <= xx < x ==> #[trigger] pixel_converted(*raw, pixels@, xx, y as int),
            decreases w - x,
        {
            let s: usize = row_base + 4 * x;
            assert(s + 4 <= row_base + 4 * w);
            let b = raw.data[s];
            let g = raw.data[s + 1];
            let red = raw.data[s + 2];
            let a = raw.data[s + 3];
            let ghost before = pixels@;
            pixels.push(red);
            pixels.push(g);
            pixels.push(b);
            pixels.push(a);
            proof {
                assert forall|yy: int, xx: int|
                    0 <= yy < y && 0 <= xx < w implies #[trigger] pixel_converted(
                    *raw,
                    pixels@,
                    xx,
                    yy,
                ) by {
                    assert(pixel_converted(*raw, before, xx, yy));
                    assert(4 * (yy * raw.width + xx) + 3 < before.len()) by (nonlinear_arith)
                        requires
                            0 <= yy < y,
                            0 <= xx < w,
                            w == raw.width,
                            before.len() == 4 * (y * w) + 4 * x,
                            0 <= x;
                }
                assert forall|xx: int| 0 <= xx <= x implies #[trigger] pixel_converted(
                    *raw,
                    pixels@,
                    xx,
                    y as int,
                ) by {
                    if xx < x {
                        assert(pixel_converted(*raw, before, xx, y as int));
                        assert(4 * (y * raw.width + xx) + 3 < before.len()) by (nonlinear_arith)
                            requires
                                0 <= xx < x,
                                w == raw.width,
                                before.len() == 4 * (y * w) + 4 * x,
                                0 <= y;
                    } else {
                        assert(4 * (y * raw.width + xx) == before.len()) by (nonlinear_arith)
                            requires
                                xx == x,
                                w == raw.width,
                                before.len() == 4 * (y * w) + 4 * x;
                    }
                }
            }
            x += 1;
        }
        proof {
            assert(4 * (y * w) + 4 * w == 4 * ((y + 1) * w)) by (nonlinear_arith);
        }
        y += 1;
    }
    proof {
        assert(4 * (h * w) == w * h * 4) by (nonlinear_arith);
    }
    Ok(Frame { width: raw.width, height: raw.height, pixels })
}

/// The channel reorder applied to one four-byte pixel: exchange the first and
/// third bytes. The same reorder maps BGRA to RGBA and RGBA back to BGRA.
pub open spec fn swapped_pixel(p: Seq<u8>) -> Seq<u8>
    recommends
        p.len() == 4,
{
    seq![p[2], p[1], p[0], p[3]]
}

/// Each pixel of a converted frame is exactly the reorder of the raw pixel
/// at the same position that [`swapped_pixel`] describes.
pub proof fn lemma_converted_pixel(raw: RawFrame, f: FrameModel, x: int, y: int)
    requires
        rejection(raw) is None,
        frame_converted(raw, f),
        0 <= y < raw.height,
        0 <= x < raw.width,
    ensures
        f.pixels.subrange(
            4 * (y * raw.width + x),
            4 * (y * raw.width + x) + 4,
        ) == swapped_pixel(
            raw.data@.subrange(
                y * raw.bytes_per_row + 4 * x,
                y * raw.bytes_per_row + 4 * x + 4,
            ),
        ),
{
    let w = raw.width as int;
    let h = raw.height as int;
    let bpr = raw.bytes_per_row as int;
    let dst = 4 * (y * w + x);
    let src = y * bpr + 4 * x;
    assert(pixel_converted(raw, f.pixels, x, y));
    assert(0 <= dst && dst + 4 <= w * h * 4) by (nonlinear_arith)
        requires
            0 <= x < w,
            0 <= y < h,
            dst == 4 * (y * w + x),
    ;
    assert(0 <= src && src + 4 <= h * bpr) by (nonlinear_arith)
        requires
            0 <= x < w,
            0 <= y < h,
            4 * w <= bpr,
            src == y * bpr + 4 * x,
    ;
    assert(f.pixels.subrange(dst, dst + 4) =~= swapped_pixel(raw.data@.subrange(src, src + 4)));
}

/// The channel reorder is an involution: exchanging the first and third bytes
/// of a four-byte pixel twice gives back the original pixel, so a second
/// BGRA-to-RGBA swap undoes the first.
pub proof fn lemma_swap_involutive(p: Seq<u8>)
    requires
        p.len() == 4,
    ensures
        swapped_pixel(swapped_pixel(p)) == p,
{
    assert(swapped_pixel(swapped_pixel(p)) =~= p);
}

} // verus!
