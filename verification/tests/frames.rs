use media_handler::error::MediaError;
use media_handler::frame::Frame;
use media_handler::locator::MediaLocator;

/// A complete 1x1 24-bit BMP file whose single pixel is R=1, G=2, B=3.
fn tiny_bmp() -> Vec<u8> {
    let mut b: Vec<u8> = Vec::new();
    // file header: magic, file size 58, reserved, pixel data offset 54
    b.extend_from_slice(&[0x42, 0x4D]);
    b.extend_from_slice(&58u32.to_le_bytes());
    b.extend_from_slice(&[0, 0, 0, 0]);
    b.extend_from_slice(&54u32.to_le_bytes());
    // info header: size 40, width 1, height 1, planes 1, 24 bpp,
    // no compression, 4 bytes of pixel data, no ppm or palette data
    b.extend_from_slice(&40u32.to_le_bytes());
    b.extend_from_slice(&1i32.to_le_bytes());
    b.extend_from_slice(&1i32.to_le_bytes());
    b.extend_from_slice(&1u16.to_le_bytes());
    b.extend_from_slice(&24u16.to_le_bytes());
    b.extend_from_slice(&0u32.to_le_bytes());
    b.extend_from_slice(&4u32.to_le_bytes());
    b.extend_from_slice(&0u32.to_le_bytes());
    b.extend_from_slice(&0u32.to_le_bytes());
    b.extend_from_slice(&0u32.to_le_bytes());
    b.extend_from_slice(&0u32.to_le_bytes());
    // one pixel, stored blue-green-red, padded to a 4-byte row
    b.extend_from_slice(&[3, 2, 1, 0]);
    b
}

#[test]
fn decodes_a_real_image() {
    let bytes = tiny_bmp();
    let f = Frame::new(MediaLocator::new("tiny.bmp".to_string()), &bytes).unwrap();
    assert_eq!(f.width, 1);
    assert_eq!(f.height, 1);
    assert_eq!(f.locator.path, "tiny.bmp");
    assert_eq!(f.data, vec![1, 2, 3, 255]);
    // the decoder really ran: the pixel buffer is not the input bytes
    assert_ne!(f.data, bytes);
}

#[test]
fn decodes_an_encoded_png() {
    let img = image::RgbaImage::from_pixel(2, 1, image::Rgba([10, 20, 30, 255]));
    let mut bytes: Vec<u8> = Vec::new();
    image::DynamicImage::ImageRgba8(img)
        .write_to(&mut std::io::Cursor::new(&mut bytes), image::ImageOutputFormat::Png)
        .unwrap();
    let f = Frame::new(MediaLocator::new("two.png".to_string()), &bytes).unwrap();
    assert_eq!(f.width, 2);
    assert_eq!(f.height, 1);
    assert_eq!(f.data, vec![10, 20, 30, 255, 10, 20, 30, 255]);
}

#[test]
fn rejects_bytes_that_are_no_image() {
    let bytes = vec![0u8, 1, 2, 3, 4, 5, 6, 7];
    let r = Frame::new(MediaLocator::new("noise".to_string()), &bytes);
    assert_eq!(r.unwrap_err(), MediaError::DecodeFailure);
}

#[test]
fn raw_image_returns_the_pixel_buffer() {
    let f = Frame::from_decoded(
        MediaLocator::new("m".to_string()),
        2,
        1,
        vec![9, 8, 7, 6, 5, 4, 3, 2],
    );
    assert_eq!(f.get_raw_image(), vec![9, 8, 7, 6, 5, 4, 3, 2]);
    assert_eq!(f.width, 2);
    assert_eq!(f.height, 1);
}
