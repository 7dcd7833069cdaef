use druid_camera::data::VideoError;
use druid_camera::frame::{Frame, PixelFormat};

#[test]
fn bytes_per_pixel_per_format() {
    assert_eq!(PixelFormat::Grayscale.bytes_per_pixel(), 1);
    assert_eq!(PixelFormat::Rgb.bytes_per_pixel(), 3);
    assert_eq!(PixelFormat::RgbaSeparate.bytes_per_pixel(), 4);
    assert_eq!(PixelFormat::RgbaPremul.bytes_per_pixel(), 4);
}

#[test]
fn from_raw_accepts_a_matching_buffer() {
    let frame = Frame::from_raw(vec![0u8; 2 * 3 * 4], PixelFormat::RgbaSeparate, 2, 3).unwrap();
    assert_eq!(frame.width, 2);
    assert_eq!(frame.height, 3);
    assert_eq!(frame.format, PixelFormat::RgbaSeparate);
    assert_eq!(frame.data.len(), 24);
}

#[test]
fn from_raw_rejects_a_short_buffer() {
    let r = Frame::from_raw(vec![0u8; 23], PixelFormat::RgbaSeparate, 2, 3);
    assert_eq!(r.unwrap_err(), VideoError::Caps);
}

#[test]
fn from_raw_rejects_a_long_buffer() {
    let r = Frame::from_raw(vec![0u8; 25], PixelFormat::RgbaSeparate, 2, 3);
    assert_eq!(r.unwrap_err(), VideoError::Caps);
}

#[test]
fn from_raw_accepts_an_empty_frame() {
    let frame = Frame::from_raw(Vec::new(), PixelFormat::Rgb, 0, 5).unwrap();
    assert_eq!(frame.data.len(), 0);
}

#[test]
fn from_raw_rejects_overflowing_dimensions() {
    let r = Frame::from_raw(vec![0u8; 16], PixelFormat::RgbaSeparate, usize::MAX, 2);
    assert_eq!(r.unwrap_err(), VideoError::Caps);
}
