//! The data a capture session works on: output descriptors, raw frames,
//! and the error taxonomy shared by selection and sampling.

use vstd::prelude::*;

verus! {

/// Bytes per pixel of the fixed raw layout (row-major RGBA).
pub const BYTES_PER_PIXEL: usize = 4;

/// One capturable display output, as enumerated by the platform backend,
/// and also the handle a session captures from once it is resolved.
#[derive(Debug)]
pub struct CaptureTarget {
    /// Human-readable name of the output.
    pub name: String,
    /// Whether the platform flags this output as the primary display.
    pub primary: bool,
    /// Width in pixels, discovered at selection time.
    pub width: u32,
    /// Height in pixels, discovered at selection time.
    pub height: u32,
}

/// Field-wise equality of two targets; `resolve` promises its result in
/// these terms.
pub open spec fn same_target(a: CaptureTarget, b: CaptureTarget) -> bool {
    &&& a.name@ == b.name@
    &&& a.primary == b.primary
    &&& a.width == b.width
    &&& a.height == b.height
}

impl CaptureTarget {
    /// An owned copy of this target, equal field by field.
    pub fn duplicate(&self) -> (r: CaptureTarget)
        ensures
            same_target(r, *self),
    {
        CaptureTarget {
            name: String::from_str(self.name.as_str()),
            primary: self.primary,
            width: self.width,
            height: self.height,
        }
    }
}

/// One captured frame: an owned buffer of pixel bytes in the fixed
/// row-major layout of `BYTES_PER_PIXEL` bytes per pixel, paired with the
/// width and height used to interpret it.
#[derive(Debug)]
pub struct RawFrame {
    /// Width in pixels of the captured image.
    pub width: u32,
    /// Height in pixels of the captured image.
    pub height: u32,
    /// The pixel bytes, row-major, `BYTES_PER_PIXEL` bytes per pixel.
    pub bytes: Vec<u8>,
}

/// A frame is well formed when its buffer holds exactly one pixel's worth
/// of bytes for every cell of its width-by-height grid.
pub open spec fn frame_wf(f: RawFrame) -> bool {
    f.bytes@.len() == f.width * f.height * BYTES_PER_PIXEL
}

impl RawFrame {
    /// Packs a buffer with its dimensions, accepting only a buffer whose
    /// length matches the dimensions exactly.
    pub fn new(width: u32, height: u32, bytes: Vec<u8>) -> (r: Option<RawFrame>)
        ensures
            match r {
                Some(f) => {
                    &&& frame_wf(f)
                    &&& f.width == width
                    &&& f.height == height
                    &&& f.bytes@ == bytes@
                },
                None => bytes@.len() != width * height * BYTES_PER_PIXEL,
            },
    {
        proof {
            assert((width as int) * (height as int) <= 0xffff_ffff * 0xffff_ffff)
                by (nonlinear_arith)
                requires
                    width <= 0xffff_ffff,
                    height <= 0xffff_ffff,
            ;
        }
        let expected: u128 = (width as u128) * (height as u128) * (BYTES_PER_PIXEL as u128);
        if (bytes.len() as u128) == expected {
            Some(RawFrame { width, height, bytes })
        } else {
            None
        }
    }
}

/// Everything a capture request can fail with, kept distinguishable so the
/// caller can translate each kind for the user.
#[derive(Clone, Copy, Debug, PartialEq, Eq, Structural)]
pub enum CaptureError {
    /// No enumerated output's name contains the configured substring.
    NoMatchingTarget,
    /// No enumerated output is flagged primary.
    NoPrimaryTarget,
    /// The configured index is outside the enumerated list.
    IndexOutOfRange,
    /// The requested frame rate is zero.
    InvalidFrameRate,
    /// A capture attempt failed and the strict policy aborted the session.
    CaptureFailed,
}

} // verus!
