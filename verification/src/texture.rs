//! The render bridge's texture side: applying the freshest converted frame
//! to the texture resource once per display tick.
//!
//! The texture resource itself belongs to the rendering engine; this module
//! holds its verified model — dimensions and backing bytes — and the update
//! policy: overwrite in place when the dimensions match (the steady-state,
//! full-frame-rate path, where a reallocation would be a performance
//! regression), reallocate only when they change.

use vstd::prelude::*;

use crate::frame::Frame;
use crate::handoff::{consumed, FrameHandoff};

verus! {

/// The engine texture the mirrored screen is drawn with: four 8-bit channels
/// per pixel in red, green, blue, alpha order.
pub struct ScreenTexture {
    /// Width of the texture in pixels.
    pub width: u32,
    /// Height of the texture in pixels.
    pub height: u32,
    /// Exactly `width * height * 4` bytes of backing storage.
    pub pixels: Vec<u8>,
}

/// How a render tick changed the texture.
#[derive(PartialEq, Eq, Structural, Debug, Clone, Copy)]
pub enum TextureUpdate {
    /// The new frame had the texture's dimensions: the backing storage was
    /// overwritten in place, the resource itself kept.
    InPlace,
    /// The dimensions changed: the texture was reallocated at the new size.
    Reallocated,
    /// No frame was pending; the texture is exactly what it was.
    NoNewFrame,
}

impl ScreenTexture {
    /// The texture invariant: the backing storage holds exactly four bytes
    /// per pixel.
    pub open spec fn wf(self) -> bool {
        self.pixels@.len() == self.width * self.height * 4
    }

    /// A texture sized and filled from one frame, as at startup.
    pub fn of_frame(frame: Frame) -> (t: ScreenTexture)
        requires
            frame.wf(),
        ensures
            t.wf(),
            t.width == frame.width,
            t.height == frame.height,
            t.pixels@ == frame.pixels@,
    {
        ScreenTexture { width: frame.width, height: frame.height, pixels: frame.pixels }
    }

    /// Apply one frame: overwrite the backing storage in place when the
    /// dimensions match, reallocate at the new dimensions when they differ.
    /// Either way the texture afterwards shows exactly the frame.
    pub fn apply_frame(&mut self, frame: Frame) -> (r: TextureUpdate)
        requires
            old(self).wf(),
            frame.wf(),
        ensures
            final(self).wf(),
            final(self).width == frame.width,
            final(self).height == frame.height,
            final(self).pixels@ == frame.pixels@,
            r == (if old(self).width == frame.width && old(self).height == frame.height {
                TextureUpdate::InPlace
            } else {
                TextureUpdate::Reallocated
            }),
    {
        if self.width == frame.width && self.height == frame.height {
            let n = self.pixels.len();
            let mut i: usize = 0;
            while i < n
                invariant
                    n == self.pixels@.len(),
                    self.pixels@.len() == frame.pixels@.len(),
                    i <= n,
                    self.width == old(self).width,
                    self.height == old(self).height,
                    forall|j: int| 0 <= j < i ==> self.pixels@[j] == frame.pixels@[j],
                decreases n - i,
            {
                let b = frame.pixels[i];
                self.pixels.set(i, b);
                i += 1;
            }
            proof {
                assert(self.pixels@ =~= frame.pixels@);
            }
            TextureUpdate::InPlace
        } else {
            self.width = frame.width;
            self.height = frame.height;
            self.pixels = frame.pixels;
            TextureUpdate::Reallocated
        }
    }
}

/// One render tick on the video side: take the freshest frame from the
/// hand-off, if any, and apply it to the texture. With nothing pending the
/// tick leaves the texture untouched and the previous image stays on screen.
pub fn render_tick(tex: &mut ScreenTexture, handoff: &mut FrameHandoff) -> (r: TextureUpdate)
    requires
        old(tex).wf(),
        old(handoff).wf(),
    ensures
        final(tex).wf(),
        final(handoff).wf(),
        final(handoff)@ == consumed(old(handoff)@).1,
        consumed(old(handoff)@).0 is None ==> r == TextureUpdate::NoNewFrame && *final(tex)
            == *old(tex),
        consumed(old(handoff)@).0 matches Some(f) ==> final(tex).width == f.width
            && final(tex).height == f.height && final(tex).pixels@ == f.pixels
            && r == (if old(tex).width == f.width && old(tex).height == f.height {
            TextureUpdate::InPlace
        } else {
            TextureUpdate::Reallocated
        }),
{
    match handoff.try_consume() {
        Some(frame) => tex.apply_frame(frame),
        None => TextureUpdate::NoNewFrame,
    }
}

} // verus!
