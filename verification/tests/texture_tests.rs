use std::io::Cursor;
use vulkan_training::surface::Extent2D;
use vulkan_training::texture::{load_texture, staging_buffer_size, TextureError};

fn png_of_rgb(width: u32, height: u32, rgb: Vec<u8>) -> Vec<u8> {
    let img = image::RgbImage::from_raw(width, height, rgb).unwrap();
    let mut out = Cursor::new(Vec::new());
    img.write_to(&mut out, image::ImageFormat::Png).unwrap();
    out.into_inner()
}

#[test]
fn decodes_png_to_rgba8() {
    let png = png_of_rgb(2, 1, vec![255, 0, 0, 0, 128, 255]);
    let tex = load_texture(&png).unwrap();
    assert_eq!(tex.extent, Extent2D { width: 2, height: 1 });
    assert_eq!(tex.pixels, vec![255, 0, 0, 255, 0, 128, 255, 255]);
    assert_eq!(staging_buffer_size(&tex), 8);
}

#[test]
fn rejects_garbage() {
    assert_eq!(load_texture(&[1, 2, 3, 4]), Err(TextureError::Decode));
    assert_eq!(load_texture(&[]), Err(TextureError::Decode));
}
