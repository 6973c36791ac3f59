use vstd::prelude::*;

use crate::error::BootError;

verus! {

/// Layout of the colour bytes of one pixel in the frame buffer.
#[derive(Clone, Copy, Debug, PartialEq, Eq, Structural)]
pub enum PixelFormat {
    Rgb,
    Bgr,
}

/// The display surface handed to the kernel at control transfer.
///
/// `stride` counts pixels per scanline and may exceed `horizontal_resolution`.
#[derive(Clone, Copy, Debug, PartialEq, Eq, Structural)]
pub struct FrameBufferConfig {
    pub buffer_base: u64,
    pub buffer_size: usize,
    pub stride: usize,
    pub horizontal_resolution: usize,
    pub vertical_resolution: usize,
    pub format: PixelFormat,
}

/// The pixel layouts that firmware may report for a display mode.
#[derive(Clone, Copy, Debug, PartialEq, Eq, Structural)]
pub enum FirmwarePixelFormat {
    Rgb,
    Bgr,
    Bitmask,
    BltOnly,
}

/// A display mode as the firmware reports it, with its frame buffer.
#[derive(Clone, Copy, Debug, PartialEq, Eq, Structural)]
pub struct DisplayMode {
    pub buffer_base: u64,
    pub buffer_size: usize,
    pub stride: usize,
    pub horizontal_resolution: usize,
    pub vertical_resolution: usize,
    pub pixel_format: FirmwarePixelFormat,
}

/// The kernel-side pixel layout of a firmware layout, if it has one.
pub open spec fn pixel_format_of(f: FirmwarePixelFormat) -> Option<PixelFormat> {
    match f {
        FirmwarePixelFormat::Rgb => Some(PixelFormat::Rgb),
        FirmwarePixelFormat::Bgr => Some(PixelFormat::Bgr),
        _ => None,
    }
}

impl FrameBufferConfig {
    /// Copies the firmware-reported mode field for field; only the pixel layout
    /// is translated, and a layout other than RGB or BGR is refused.
    pub fn from_mode(mode: &DisplayMode) -> (r: Result<FrameBufferConfig, BootError>)
        ensures
            pixel_format_of(mode.pixel_format) is None <==> r == Err::<FrameBufferConfig, BootError>(BootError::GraphicsUnavailable),
            pixel_format_of(mode.pixel_format) is Some ==> r == Ok::<FrameBufferConfig, BootError>(FrameBufferConfig {
                buffer_base: mode.buffer_base,
                buffer_size: mode.buffer_size,
                stride: mode.stride,
                horizontal_resolution: mode.horizontal_resolution,
                vertical_resolution: mode.vertical_resolution,
                format: pixel_format_of(mode.pixel_format)->Some_0,
            }),
    {
        let format = match mode.pixel_format {
            FirmwarePixelFormat::Rgb => PixelFormat::Rgb,
            FirmwarePixelFormat::Bgr => PixelFormat::Bgr,
            _ => return Err(BootError::GraphicsUnavailable),
        };
        Ok(FrameBufferConfig {
            buffer_base: mode.buffer_base,
            buffer_size: mode.buffer_size,
            stride: mode.stride,
            horizontal_resolution: mode.horizontal_resolution,
            vertical_resolution: mode.vertical_resolution,
            format,
        })
    }
}

} // verus!
