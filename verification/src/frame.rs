//! Frames: immutable rectangular pixel buffers with an explicit format.
use vstd::prelude::*;

use crate::data::VideoError;

verus! {

/// Pixel layout of a frame's byte buffer.
#[derive(Copy, Clone, Debug, Eq, PartialEq, Structural)]
pub enum PixelFormat {
    /// One byte per pixel.
    Grayscale,
    /// Three bytes per pixel: red, green, blue.
    Rgb,
    /// Four bytes per pixel: red, green, blue, alpha, not premultiplied.
    RgbaSeparate,
    /// Four bytes per pixel: red, green, blue, alpha, premultiplied.
    RgbaPremul,
}

impl PixelFormat {
    pub open spec fn bytes_per_pixel_spec(&self) -> usize {
        match *self {
            PixelFormat::Grayscale => 1usize,
            PixelFormat::Rgb => 3usize,
            PixelFormat::RgbaSeparate => 4usize,
            PixelFormat::RgbaPremul => 4usize,
        }
    }

    /// How many bytes one pixel occupies.
    pub fn bytes_per_pixel(&self) -> (r: usize)
        ensures
            r == self.bytes_per_pixel_spec(),
    {
        match *self {
            PixelFormat::Grayscale => 1,
            PixelFormat::Rgb => 3,
            PixelFormat::RgbaSeparate => 4,
            PixelFormat::RgbaPremul => 4,
        }
    }
}

/// An immutable rectangular pixel buffer. Whoever holds the frame owns it:
/// the producer until it is handed off, then the consumer.
#[derive(Clone, Debug, Eq, PartialEq)]
pub struct Frame {
    pub format: PixelFormat,
    pub width: usize,
    pub height: usize,
    pub data: Vec<u8>,
}

impl Frame {
    /// The buffer holds exactly `height` rows of `width` pixels, each pixel of
    /// the format's size.
    pub open spec fn wf(&self) -> bool {
        self.data@.len() == self.width * self.height * self.format.bytes_per_pixel_spec()
    }

    /// Build a frame from a raw byte buffer, checking that the buffer length
    /// matches the claimed dimensions. Succeeds exactly when it does.
    pub fn from_raw(data: Vec<u8>, format: PixelFormat, width: usize, height: usize) -> (r:
        Result<Frame, VideoError>)
        ensures
            r is Ok <==> data@.len() == width * height * format.bytes_per_pixel_spec(),
            r matches Ok(f) ==> f == (Frame { format, width, height, data }) && f.wf(),
            r is Err ==> r == Err::<Frame, VideoError>(VideoError::Caps),
    {
        let buf_len = data.len();
        let expected: Option<usize> = match width.checked_mul(height) {
            Some(pixels) => pixels.checked_mul(format.bytes_per_pixel()),
            None => None,
        };
        proof {
            let w: int = width as int;
            let h: int = height as int;
            let b: int = format.bytes_per_pixel_spec() as int;
            if w * h > usize::MAX as int {
                // A product that overflows the pixel count also overflows the
                // byte count, so no buffer of machine length can match it.
                assert(w * h * b > usize::MAX as int) by (nonlinear_arith)
                    requires
                        w * h > usize::MAX as int,
                        b >= 1,
                ;
            }
        }
        match expected {
            Some(len) if len == buf_len => Ok(Frame { format, width, height, data }),
            _ => Err(VideoError::Caps),
        }
    }
}

} // verus!
