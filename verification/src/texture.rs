//! Decoding the texture of the texture example into RGBA8 pixels for its
//! staging buffer.

use vstd::prelude::*;
use crate::surface::Extent2D;

verus! {

#[verifier::external_type_specification]
#[verifier::external_body]
pub struct ExImageError(image::ImageError);

/// What decoding an encoded image (PNG and the like) to 8-bit RGBA gives:
/// width, height and the pixel bytes row by row; `None` when the bytes do
/// not decode. It depends on the bytes alone.
pub uninterp spec fn decoded_rgba8(bytes: Seq<u8>) -> Option<(u32, u32, Seq<u8>)>;

/// `image::load_from_memory` followed by `DynamicImage::into_rgba8`, whose
/// buffer is taken apart into its dimensions and raw bytes. The result is
/// the named decoding of the bytes; an `ImageBuffer` always holds at least
/// four bytes per pixel (its constructors check this). Nothing is stated of
/// the error value.
#[verifier::external_body]
fn image_decode_rgba8(bytes: &[u8]) -> (r: Result<(u32, u32, Vec<u8>), image::ImageError>)
    ensures
        match r {
            Ok((w, h, pixels)) => decoded_rgba8(bytes@) == Some((w, h, pixels@)) && 4 * w * h
                <= pixels@.len(),
            Err(_) => decoded_rgba8(bytes@) is None,
        },
{
    image::load_from_memory(bytes).map(|img| {
        let rgba = img.into_rgba8();
        let (w, h) = rgba.dimensions();
        (w, h, rgba.into_raw())
    })
}

/// Why the texture cannot be used.
#[derive(Clone, Copy, Debug, PartialEq, Eq)]
pub enum TextureError {
    /// The bytes are not an image that can be decoded.
    Decode,
}

/// A decoded texture: its extent and its RGBA8 pixels.
#[derive(Clone, Debug, PartialEq, Eq)]
pub struct TextureImage {
    pub extent: Extent2D,
    pub pixels: Vec<u8>,
}

/// Decodes the texture image into RGBA8 pixels.
pub fn load_texture(bytes: &[u8]) -> (r: Result<TextureImage, TextureError>)
    ensures
        match r {
            Ok(t) => decoded_rgba8(bytes@) == Some((t.extent.width, t.extent.height, t.pixels@))
                && 4 * t.extent.width * t.extent.height <= t.pixels@.len(),
            Err(e) => decoded_rgba8(bytes@) is None && e == TextureError::Decode,
        },
{
    match image_decode_rgba8(bytes) {
        Ok((width, height, pixels)) => Ok(texture_from_decoded(width, height, pixels)),
        Err(_) => Err(TextureError::Decode),
    }
}

/// The texture for decoded dimensions and pixels.
pub fn texture_from_decoded(width: u32, height: u32, pixels: Vec<u8>) -> (t: TextureImage)
    ensures
        t.extent == (Extent2D { width, height }),
        t.pixels@ == pixels@,
{
    TextureImage { extent: Extent2D { width, height }, pixels }
}

/// The size in bytes of the staging buffer that holds the texture's pixels.
pub fn staging_buffer_size(texture: &TextureImage) -> (size: u64)
    ensures
        size == texture.pixels@.len(),
{
    texture.pixels.len() as u64
}

} // verus!
