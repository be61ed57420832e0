use isocube::object::{decode_texture, ObjectError};

#[test]
fn valid_png_bytes_decode_to_rgba_samples() {
    let img = image::RgbaImage::from_pixel(2, 3, image::Rgba([255, 0, 0, 255]));
    let mut bytes: Vec<u8> = Vec::new();
    img.write_to(&mut std::io::Cursor::new(&mut bytes), image::ImageFormat::Png)
        .unwrap();
    let decoded = decode_texture(&bytes).unwrap();
    assert_eq!(decoded.width, 2);
    assert_eq!(decoded.height, 3);
    // Four bytes per pixel, and not the encoded input handed back.
    assert_eq!(decoded.pixels.len(), 2 * 3 * 4);
    assert_ne!(decoded.pixels, bytes);
    assert_eq!(&decoded.pixels[..4], &[255, 0, 0, 255]);
    assert_eq!(&decoded.pixels[20..], &[255, 0, 0, 255]);
}

#[test]
fn corrupt_bytes_fail_with_the_object_error() {
    let garbage = vec![0u8, 1, 2, 3, 4];
    match decode_texture(&garbage) {
        Err(ObjectError::Texture { message }) => {
            assert_eq!(message, "failed to open image");
        }
        other => panic!("expected a texture error, got {:?}", other),
    }
}

#[test]
fn truncated_png_fails_with_the_object_error() {
    let img = image::RgbaImage::from_pixel(4, 4, image::Rgba([0, 255, 0, 255]));
    let mut bytes: Vec<u8> = Vec::new();
    img.write_to(&mut std::io::Cursor::new(&mut bytes), image::ImageFormat::Png)
        .unwrap();
    bytes.truncate(bytes.len() / 2);
    assert!(matches!(
        decode_texture(&bytes),
        Err(ObjectError::Texture { .. })
    ));
}
