use vstd::prelude::*;

use image::GenericImageView;

use crate::gpu;

verus! {

/// Whether the image decoder accepts `bytes` as a supported encoded image.
/// Decoding is a pure function of the bytes, so this names its outcome.
pub uninterp spec fn rgba_decodable(bytes: Seq<u8>) -> bool;

/// The pixel width of the image decoded from `bytes`; meaningful only when
/// the bytes decode.  Like the decode itself, it depends on the bytes alone.
pub uninterp spec fn decoded_width(bytes: Seq<u8>) -> u32;

/// The pixel height of the image decoded from `bytes`; meaningful only when
/// the bytes decode.  Like the decode itself, it depends on the bytes alone.
pub uninterp spec fn decoded_height(bytes: Seq<u8>) -> u32;

/// A decoded image: its pixel dimensions and its RGBA8 pixel buffer, four
/// bytes per pixel, rows packed tightly.
#[derive(Debug)]
pub struct RgbaBitmap {
    pub width: u32,
    pub height: u32,
    pub pixels: Vec<u8>,
}

impl RgbaBitmap {
    /// The pixel buffer covers the stated dimensions exactly.
    pub open spec fn wf(&self) -> bool {
        self.pixels@.len() == 4 * (self.width as nat) * (self.height as nat)
    }
}

/// Relies on image::load_from_memory, image::GenericImageView::dimensions
/// and image::DynamicImage::to_rgba8: decoding succeeds exactly on the
/// byte strings the decoder accepts, reports the decoded image's own
/// dimensions, and yields an RGBA8 buffer of exactly four bytes for each
/// of width times height pixels.
#[verifier::external_body]
fn decode_rgba(bytes: &[u8]) -> (r: Option<RgbaBitmap>)
    ensures
        r is Some <==> rgba_decodable(bytes@),
        r matches Some(img) ==> img.wf(),
        r matches Some(img) ==> img.width == decoded_width(bytes@),
        r matches Some(img) ==> img.height == decoded_height(bytes@),
{
    match image::load_from_memory(bytes) {
        Ok(img) => {
            let (width, height) = img.dimensions();
            let rgba = img.to_rgba8();
            Some(RgbaBitmap { width, height, pixels: rgba.into_raw() })
        },
        Err(_) => None,
    }
}

/// Why loading a texture failed.
#[derive(Clone, Copy, PartialEq, Eq, Structural, Debug)]
pub enum TextureError {
    /// The bytes are not a supported encoded image.
    Decode,
    /// The decoded image is empty or exceeds the device's texture limits.
    Extent,
}

impl TextureError {
    pub fn message(&self) -> &'static str {
        match self {
            TextureError::Decode => "unable to decode the image bytes",
            TextureError::Extent => "the decoded image exceeds the supported texture extent",
        }
    }
}

/// The largest texture edge the device limits requested at setup allow.
pub const MAX_TEXTURE_DIMENSION: u32 = 2048;

/// Whether a decoded image fits the device's texture limits.
pub open spec fn extent_supported(width: u32, height: u32) -> bool {
    0 < width <= MAX_TEXTURE_DIMENSION && 0 < height <= MAX_TEXTURE_DIMENSION
}

/// Whether a decoded image fits the device's texture limits; `load_texture`
/// refuses an image outside them.
pub fn extent_ok(width: u32, height: u32) -> (r: bool)
    ensures
        r == extent_supported(width, height),
{
    0 < width && width <= MAX_TEXTURE_DIMENSION && 0 < height && height <= MAX_TEXTURE_DIMENSION
}

/// Decodes encoded image bytes into an RGBA8 bitmap.  Fails with `Decode`
/// exactly when the decoder does not accept the bytes.
pub fn decode_texture_bytes(bytes: &[u8]) -> (r: Result<RgbaBitmap, TextureError>)
    ensures
        r is Ok <==> rgba_decodable(bytes@),
        r matches Ok(img) ==> img.wf(),
        r matches Ok(img) ==> img.width == decoded_width(bytes@),
        r matches Ok(img) ==> img.height == decoded_height(bytes@),
        r is Err ==> r == Result::<RgbaBitmap, TextureError>::Err(TextureError::Decode),
{
    match decode_rgba(bytes) {
        Some(img) => Ok(img),
        None => Err(TextureError::Decode),
    }
}

/// A texture resource: the GPU texture and its sampler behind the fixed
/// binding descriptor every textured pipeline expects, together with the
/// pixel dimensions it was created with.
pub struct TextureResource {
    pub bind_group: wgpu::BindGroup,
    pub bind_group_layout: wgpu::BindGroupLayout,
    pub width: u32,
    pub height: u32,
}

impl TextureResource {
    /// Uploads a decoded bitmap into a fresh GPU texture with its sampler
    /// and binding descriptor.
    pub fn load(img: &RgbaBitmap, device: &wgpu::Device, queue: &wgpu::Queue) -> (r: TextureResource)
        requires
            img.wf(),
            extent_supported(img.width, img.height),
        ensures
            r.width == img.width,
            r.height == img.height,
    {
        let texture = gpu::create_texture_2d(device, img.width, img.height);
        gpu::write_texture_rgba(queue, &texture, img.width, img.height, img.pixels.as_slice());
        let view = gpu::create_texture_view(&texture);
        let sampler = gpu::create_sampler(device);
        let bind_group_layout = gpu::create_texture_bind_group_layout(device);
        let bind_group = gpu::create_texture_bind_group(device, &bind_group_layout, &view, &sampler);
        TextureResource { bind_group, bind_group_layout, width: img.width, height: img.height }
    }
}

} // verus!
