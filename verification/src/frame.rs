//! Completed display frames as handed to the display consumer: two stacked
//! fixed-size screens in one flat pixel buffer, a frame-rate metric, and an
//! optional diagnostic payload.

use vstd::prelude::*;

verus! {

/// Pixels per scanline.
pub const SCREEN_WIDTH: usize = 256;

/// Scanlines per 3D frame (one screen).
pub const SCREEN_HEIGHT: usize = 192;

/// Pixels in a composited display frame: two stacked screens.
pub const FRAMEBUFFER_LEN: usize = 2 * SCREEN_WIDTH * SCREEN_HEIGHT;

/// One composited display frame travelling through the triple buffer.
#[derive(Clone, Debug, PartialEq, Eq)]
pub struct FrameData {
    /// Two stacked screens as one flat buffer of 32-bit colors.
    pub fb: Vec<u32>,
    /// Frame-rate metric, in thousandths of a frame per second.
    pub fps_milli: u32,
    /// Optional diagnostic payload for debugging consumers.
    pub diagnostics: Vec<u8>,
}

impl FrameData {
    /// The shape every frame keeps: a full-size pixel buffer.
    pub open spec fn wf(self) -> bool {
        self.fb.len() == FRAMEBUFFER_LEN
    }

    /// A cleared frame: every pixel zero, no rate, no diagnostics. This is the
    /// value the display shows after emulation is torn down.
    pub fn cleared() -> (r: FrameData)
        ensures
            r.wf(),
            forall|i: int| 0 <= i < FRAMEBUFFER_LEN ==> r.fb@[i] == 0u32,
            r.fps_milli == 0,
            r.diagnostics@.len() == 0,
    {
        let fb: Vec<u32> = vec![0u32; FRAMEBUFFER_LEN];
        assert forall|i: int| 0 <= i < FRAMEBUFFER_LEN implies fb@[i] == 0u32 by {
            assert(cloned(0u32, fb@[i]));
        }
        FrameData { fb, fps_milli: 0, diagnostics: Vec::new() }
    }
}

impl Default for FrameData {
    /// Same value as [`FrameData::cleared`].
    fn default() -> (r: Self)
        ensures
            r.wf(),
            forall|i: int| 0 <= i < FRAMEBUFFER_LEN ==> r.fb@[i] == 0u32,
            r.fps_milli == 0,
            r.diagnostics@.len() == 0,
    {
        FrameData::cleared()
    }
}

/// The byte pattern an owned framebuffer texture is cleared to: opaque black,
/// four bytes per pixel with every alpha byte set and every color byte zero.
pub fn opaque_black_bytes() -> (r: Vec<u8>)
    ensures
        r@.len() == 4 * FRAMEBUFFER_LEN,
        forall|i: int| 0 <= i < 4 * FRAMEBUFFER_LEN ==> r@[i] == (if i % 4 == 3 {
            0xffu8
        } else {
            0u8
        }),
{
    let mut data: Vec<u8> = Vec::new();
    let mut i: usize = 0;
    while i < 4 * FRAMEBUFFER_LEN
        invariant
            i <= 4 * FRAMEBUFFER_LEN,
            data@.len() == i,
            forall|j: int| 0 <= j < i ==> data@[j] == (if j % 4 == 3 {
                0xffu8
            } else {
                0u8
            }),
        decreases 4 * FRAMEBUFFER_LEN - i,
    {
        if i % 4 == 3 {
            data.push(0xffu8);
        } else {
            data.push(0u8);
        }
        i = i + 1;
    }
    data
}

} // verus!
