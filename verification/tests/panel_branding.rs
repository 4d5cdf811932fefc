use jotti::panel::branding::{check_logo_field, logo_target, resize_logo, LOGO_TARGET_H, LOGO_TARGET_W};

fn png_of(w: u32, h: u32) -> Vec<u8> {
    let img = image::DynamicImage::ImageRgb8(image::RgbImage::new(w, h));
    let mut out = Vec::new();
    img.write_to(&mut std::io::Cursor::new(&mut out), image::ImageFormat::Png).unwrap();
    out
}

#[test]
fn logo_field_checks() {
    let png = png_of(4, 4);
    assert_eq!(check_logo_field("logo", "image/png", b"xx"), Ok(true));
    assert_eq!(check_logo_field("file", "text/plain", &png), Ok(true));
    assert_eq!(
        check_logo_field("logo", "text/plain", b"hello"),
        Err("Logo must be PNG, WebP, or JPEG".to_string())
    );
    assert_eq!(check_logo_field("title", "text/plain", b"hello"), Ok(false));
    let big = vec![0u8; 1048577];
    assert_eq!(check_logo_field("title", "", &big), Err("Logo must be 1MB or smaller".to_string()));
    assert_eq!(check_logo_field("logo", "image/png", &vec![0u8; 1048576]), Ok(true));
}

#[test]
fn logo_is_scaled_to_fit() {
    let out = resize_logo(&png_of(400, 120), LOGO_TARGET_W, LOGO_TARGET_H).unwrap();
    assert!(out.starts_with(&[0x89, 0x50, 0x4E, 0x47]));
    let img = image::load_from_memory(&out).unwrap();
    assert_eq!((img.width(), img.height()), (200, 60));
    // A square logo keeps its aspect ratio.
    let sq = image::load_from_memory(&resize_logo(&png_of(100, 100), 200, 60).unwrap()).unwrap();
    assert_eq!((sq.width(), sq.height()), (60, 60));
}

#[test]
fn logo_that_is_no_image_is_refused() {
    let e = resize_logo(b"not an image at all", 200, 60).unwrap_err();
    assert!(e.starts_with("Cannot decode image: "), "{}", e);
}

#[test]
fn logo_locations() {
    let t = logo_target("r1", "image/webp");
    assert_eq!(t.dir, "/etc/jottiecp/branding/r1");
    assert_eq!(t.path, "/etc/jottiecp/branding/r1/logo.webp");
    assert_eq!(t.url, "/api/v1/static/branding/r1/logo.webp");
    assert_eq!(logo_target("r1", "image/jpeg").path, "/etc/jottiecp/branding/r1/logo.png");
}
