//! The format of the video that the demo feeds into its pipeline.

use vstd::prelude::*;
use crate::frames::FRAME_INTERVAL_MS;

verus! {

/// Width of the video and of the window, in pixels.
pub const WIDTH: usize = 640;

/// Height of the video and of the window, in pixels.
pub const HEIGHT: usize = 480;

/// A raw video format with four bytes per pixel (blue, green, red, unused)
/// and a fixed frame rate.
#[derive(Clone, Copy, Debug, PartialEq, Eq, Structural)]
pub struct VideoFormat {
    /// Pixels per line.
    pub width: u32,
    /// Lines per frame.
    pub height: u32,
    /// Frames per `fps_denom` seconds.
    pub fps_numer: i32,
    /// Seconds in which `fps_numer` frames are shown.
    pub fps_denom: i32,
}

impl VideoFormat {
    /// Bytes that one frame occupies.
    pub open spec fn byte_size(self) -> int {
        self.width * self.height * 4
    }

    /// Computes the bytes that one frame occupies, or `None` where that
    /// number is more than a buffer can have.
    pub fn size(&self) -> (size: Option<usize>)
        ensures
            self.byte_size() <= usize::MAX ==> size == Some(self.byte_size() as usize),
            self.byte_size() > usize::MAX ==> size is None,
    {
        let w: u64 = self.width as u64;
        let h: u64 = self.height as u64;
        assert(w * h <= 0xFFFF_FFFF * 0xFFFF_FFFF) by (nonlinear_arith)
            requires
                w <= 0xFFFF_FFFF,
                h <= 0xFFFF_FFFF,
        ;
        let pixels: u64 = w * h;
        if pixels > usize::MAX as u64 / 4 {
            return None;
        }
        Some((pixels * 4) as usize)
    }
}

/// The format of the demo: 640 by 480 pixels at two frames per second,
/// which is one frame every `FRAME_INTERVAL_MS` milliseconds.
pub fn video_format() -> (format: VideoFormat)
    ensures
        format.width == WIDTH,
        format.height == HEIGHT,
        format.fps_numer == 2,
        format.fps_denom == 1,
        FRAME_INTERVAL_MS * format.fps_numer == 1000 * format.fps_denom,
{
    VideoFormat { width: WIDTH as u32, height: HEIGHT as u32, fps_numer: 2, fps_denom: 1 }
}

} // verus!
