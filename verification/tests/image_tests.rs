use toonana::image::guess_image_extension;

#[test]
fn png_signature_gives_png() {
    let bytes = [0x89u8, 0x50, 0x4E, 0x47, 0x0D, 0x0A, 0x1A, 0x0A, 0x00, 0x01];
    assert_eq!(guess_image_extension(&bytes), "png");
}

#[test]
fn jpeg_signature_gives_jpg() {
    assert_eq!(guess_image_extension(&[0xFF, 0xD8, 0xFF, 0xE0]), "jpg");
    assert_eq!(guess_image_extension(&[0xFF, 0xD8, 0xFF]), "jpg");
}

#[test]
fn riff_webp_gives_webp() {
    assert_eq!(guess_image_extension(b"RIFF\x10\x00\x00\x00WEBPVP8 "), "webp");
    assert_eq!(guess_image_extension(b"RIFF....WEBP"), "webp");
}

#[test]
fn unknown_bytes_default_to_png() {
    assert_eq!(guess_image_extension(b"hello world, not an image"), "png");
    assert_eq!(guess_image_extension(&[]), "png");
    assert_eq!(guess_image_extension(&[0xFF, 0xD8]), "png");
    assert_eq!(guess_image_extension(b"RIFF....WAVE"), "png");
    assert_eq!(guess_image_extension(b"RIFF....WEB"), "png");
    assert_eq!(guess_image_extension(&[0x89, 0x50, 0x4E, 0x47, 0x0D, 0x0A, 0x1A]), "png");
}
