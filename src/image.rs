//! Turning a captured frame into the image descriptor the engine reads.
//!
//! The descriptor borrows the frame's pixel storage: it cannot outlive the
//! frame, and nothing here copies or keeps the pixels.

use vstd::prelude::*;

verus! {

/// Native code of 8-bit monochrome images.
pub const ENCODING_MONO8: u32 = 0;
/// Native code of 8-bit RGB images.
pub const ENCODING_RGB8: u32 = 1;

/// Image encoding formats supported by the tracker
#[derive(Debug, Clone, Copy, PartialEq, Eq, Structural)]
pub enum ImageEncoding {
    /// 8-bit monochrome image
    Mono8,
    /// 8-bit RGB image
    Rgb8,
}

/// The encoding a native code stands for, if any.
pub open spec fn encoding_of(code: u32) -> Option<ImageEncoding> {
    if code == ENCODING_MONO8 {
        Some(ImageEncoding::Mono8)
    } else if code == ENCODING_RGB8 {
        Some(ImageEncoding::Rgb8)
    } else {
        None
    }
}

/// Bytes taken by one pixel of an encoding.
pub open spec fn bytes_per_pixel(e: ImageEncoding) -> nat {
    match e {
        ImageEncoding::Mono8 => 1,
        ImageEncoding::Rgb8 => 3,
    }
}

impl ImageEncoding {
    /// Maps a native encoding code; codes the engine does not define give `None`.
    pub fn from_code(code: u32) -> (r: Option<ImageEncoding>)
        ensures
            r == encoding_of(code),
    {
        if code == ENCODING_MONO8 {
            Some(ImageEncoding::Mono8)
        } else if code == ENCODING_RGB8 {
            Some(ImageEncoding::Rgb8)
        } else {
            None
        }
    }

    /// The native code of this encoding.
    pub fn code(&self) -> (r: u32)
        ensures
            encoding_of(r) == Some(*self),
    {
        match self {
            ImageEncoding::Mono8 => ENCODING_MONO8,
            ImageEncoding::Rgb8 => ENCODING_RGB8,
        }
    }

    /// Bytes taken by one pixel.
    pub fn bytes_per_pixel(&self) -> (r: usize)
        ensures
            r == bytes_per_pixel(*self),
    {
        match self {
            ImageEncoding::Mono8 => 1,
            ImageEncoding::Rgb8 => 3,
        }
    }
}

/// One camera's image as handed to the engine for a single track call.
#[derive(Debug, Clone, Copy)]
pub struct ImageDescriptor<'a> {
    /// Width in pixels
    pub width: i32,
    /// Height in pixels
    pub height: i32,
    /// Bytes from the start of one row to the start of the next
    pub pitch: i32,
    /// The frame's pixel storage, borrowed for the duration of the call
    pub pixels: &'a [u8],
    /// Index of the camera in the rig
    pub camera_index: i32,
    /// Capture time in nanoseconds
    pub timestamp_ns: i64,
    /// Pixel encoding
    pub encoding: ImageEncoding,
}

/// Whether a frame of the given shape can be described to the engine: each
/// dimension fits the native integer type, a row holds `width` pixels, and
/// the buffer holds `height` rows.
pub open spec fn frame_fits(
    width: int,
    height: int,
    stride: int,
    buffer_len: int,
    camera_index: int,
    encoding: ImageEncoding,
) -> bool {
    &&& width <= i32::MAX
    &&& height <= i32::MAX
    &&& stride <= i32::MAX
    &&& camera_index <= i32::MAX
    &&& width * bytes_per_pixel(encoding) <= stride
    &&& stride * height <= buffer_len
}

impl<'a> ImageDescriptor<'a> {
    /// Describes a captured frame without copying its pixels. Returns `None`
    /// when the frame cannot be described safely (see `frame_fits`).
    pub fn from_frame(
        width: usize,
        height: usize,
        stride: usize,
        pixels: &'a [u8],
        camera_index: usize,
        timestamp_ns: i64,
        encoding: ImageEncoding,
    ) -> (r: Option<ImageDescriptor<'a>>)
        ensures
            r is Some <==> frame_fits(
                width as int,
                height as int,
                stride as int,
                pixels@.len() as int,
                camera_index as int,
                encoding,
            ),
            r is Some ==> {
                let d = r->Some_0;
                &&& d.width == width
                &&& d.height == height
                &&& d.pitch == stride
                &&& d.pixels@ == pixels@
                &&& d.camera_index == camera_index
                &&& d.timestamp_ns == timestamp_ns
                &&& d.encoding == encoding
            },
    {
        let max: usize = 0x7fff_ffff;
        if width > max || height > max || stride > max || camera_index > max {
            return None;
        }
        let bpp = encoding.bytes_per_pixel();
        let row = width as u64 * bpp as u64;
        if row > stride as u64 {
            return None;
        }
        assert((stride as u64) * (height as u64) <= 0x7fff_ffff * 0x7fff_ffff) by (nonlinear_arith)
            requires
                stride <= 0x7fff_ffff,
                height <= 0x7fff_ffff,
        ;
        let total = stride as u64 * height as u64;
        if total > pixels.len() as u64 {
            return None;
        }
        Some(
            ImageDescriptor {
                width: width as i32,
                height: height as i32,
                pitch: stride as i32,
                pixels,
                camera_index: camera_index as i32,
                timestamp_ns,
                encoding,
            },
        )
    }
}

} // verus!
