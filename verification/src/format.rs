//! Pixel formats, display channels, and the transfer-flag encoding.

use vstd::prelude::*;

verus! {

/// Native color encodings a display panel can report for its framebuffer.
#[derive(Clone, Copy, Debug, PartialEq, Eq, Structural)]
pub enum ColorFormat {
    /// 32-bit RGBA, 8 bits per component.
    Rgba8,
    /// 24-bit BGR, 8 bits per component.
    Bgr8,
    /// 16-bit RGB, 5-6-5 bits per component.
    Rgb565,
    /// 16-bit RGBA, 5-5-5-1 bits per component.
    Rgb5A1,
    /// 16-bit RGBA, 4 bits per component.
    Rgba4,
}

impl ColorFormat {
    /// The numeric code the platform uses for this framebuffer encoding.
    pub open spec fn spec_code(self) -> u32 {
        match self {
            ColorFormat::Rgba8 => 0,
            ColorFormat::Bgr8 => 1,
            ColorFormat::Rgb565 => 2,
            ColorFormat::Rgb5A1 => 3,
            ColorFormat::Rgba4 => 4,
        }
    }

    /// The numeric code the platform uses for this framebuffer encoding.
    pub fn code(self) -> (r: u32)
        ensures
            r == self.spec_code(),
    {
        match self {
            ColorFormat::Rgba8 => 0,
            ColorFormat::Bgr8 => 1,
            ColorFormat::Rgb565 => 2,
            ColorFormat::Rgb5A1 => 3,
            ColorFormat::Rgba4 => 4,
        }
    }
}

/// Physical output screen of the device.
#[derive(Clone, Copy, Debug, PartialEq, Eq, Structural)]
pub enum Screen {
    /// The stereo-capable upper panel.
    Top,
    /// The lower panel.
    Bottom,
}

/// Stereoscopic eye channel; meaningful only on the stereo-capable screen.
#[derive(Clone, Copy, Debug, PartialEq, Eq, Structural)]
pub enum Side {
    Left,
    Right,
}

/// Transfer-engine format code for 32-bit RGBA.
pub const TRANSFER_FMT_RGBA8: u32 = 0;

/// Transfer-engine scaling mode: no downscale.
pub const TRANSFER_SCALE_NONE: u32 = 0;

/// Transfer-engine scaling mode: downscale horizontally only.
pub const TRANSFER_SCALE_X: u32 = 1;

/// Transfer-engine scaling mode: downscale both axes (2x anti-aliasing).
pub const TRANSFER_SCALE_XY: u32 = 2;

/// The packed transfer bitmask: the input format code sits in bits 8..11,
/// the output format code in bits 12..15, the scaling mode in bits 24..26.
pub open spec fn spec_transfer_flags(in_fmt: u32, out_fmt: u32, scale: u32) -> int {
    in_fmt * 0x100 + out_fmt * 0x1000 + scale * 0x1000000
}

/// Packs the transfer flags that describe how a rendered surface is
/// converted on its way to the display: input pixel format, output pixel
/// format, and the anti-aliasing/scaling mode.
pub fn make_transfer_flags(in_fmt: u32, out_fmt: u32, scale: u32) -> (r: u32)
    requires
        in_fmt < 8,
        out_fmt < 8,
        scale < 4,
    ensures
        r == spec_transfer_flags(in_fmt, out_fmt, scale),
{
    let mut flags: u32 = 0;
    flags += in_fmt * 0x100;
    flags += out_fmt * 0x1000;
    flags += scale * 0x1000000;
    flags
}

/// Platform code for a 16-bit depth buffer.
pub const DEPTH16: u32 = 0;

/// Platform code for a 24-bit depth buffer.
pub const DEPTH24: u32 = 2;

/// Platform code for a 24-bit depth buffer with an 8-bit stencil plane.
pub const DEPTH24_STENCIL8: u32 = 3;

} // verus!
