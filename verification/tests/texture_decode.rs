use std::io::Cursor;

use genesis::texture::{decode_texture_bytes, extent_ok, TextureError, MAX_TEXTURE_DIMENSION};
use image::{ImageBuffer, ImageOutputFormat, Rgba};

fn png_bytes(width: u32, height: u32) -> Vec<u8> {
    let img: ImageBuffer<Rgba<u8>, Vec<u8>> =
        ImageBuffer::from_fn(width, height, |x, y| Rgba([x as u8, y as u8, 100, 255]));
    let mut bytes: Vec<u8> = Vec::new();
    img.write_to(&mut Cursor::new(&mut bytes), ImageOutputFormat::Png)
        .expect("encoding a png in memory must succeed");
    bytes
}

#[test]
fn malformed_bytes_fail_loudly() {
    let r = decode_texture_bytes(b"definitely not an image");
    assert_eq!(r.unwrap_err(), TextureError::Decode);
}

#[test]
fn empty_bytes_fail_loudly() {
    let r = decode_texture_bytes(&[]);
    assert_eq!(r.unwrap_err(), TextureError::Decode);
}

#[test]
fn truncated_png_fails_loudly() {
    let mut bytes = png_bytes(4, 4);
    bytes.truncate(bytes.len() / 2);
    assert!(decode_texture_bytes(&bytes).is_err());
}

#[test]
fn valid_png_decodes_to_rgba8() {
    let bytes = png_bytes(2, 3);
    let img = decode_texture_bytes(&bytes).expect("a valid png must decode");
    assert_eq!(img.width, 2);
    assert_eq!(img.height, 3);
    assert_eq!(img.pixels.len(), 2 * 3 * 4);
    // the pixel at (1, 2) was encoded as [x, y, 100, 255]
    let offset = ((2 * 2 + 1) * 4) as usize;
    assert_eq!(&img.pixels[offset..offset + 4], &[1, 2, 100, 255]);
}

#[test]
fn error_messages_name_the_failure() {
    assert!(TextureError::Decode.message().contains("decode"));
    assert!(TextureError::Extent.message().contains("extent"));
}

#[test]
fn texture_limit_matches_requested_device_limits() {
    assert_eq!(MAX_TEXTURE_DIMENSION, 2048);
}

#[test]
fn extent_check_rejects_empty_and_oversized_images() {
    assert!(extent_ok(1, 1));
    assert!(extent_ok(MAX_TEXTURE_DIMENSION, MAX_TEXTURE_DIMENSION));
    assert!(!extent_ok(0, 4));
    assert!(!extent_ok(4, 0));
    assert!(!extent_ok(MAX_TEXTURE_DIMENSION + 1, 4));
    assert!(!extent_ok(4, MAX_TEXTURE_DIMENSION + 1));
}
