use mutualzz_updater::splash::{icon_mask, image_has_transparency, mask_image, mask_pixel, MaskPixel, Rgba};

fn px(r: u8, g: u8, b: u8, a: u8) -> Rgba {
    Rgba { r, g, b, a }
}

#[test]
fn transparent_images_keep_opacity() {
    assert_eq!(mask_pixel(px(200, 200, 200, 7), true), MaskPixel::Transparent);
    assert_eq!(mask_pixel(px(19, 19, 19, 255), true), MaskPixel::Transparent);
    assert_eq!(mask_pixel(px(20, 20, 20, 128), true), MaskPixel::White(128));
}

#[test]
fn opaque_images_scale_by_brightness() {
    assert_eq!(mask_pixel(px(27, 27, 27, 255), false), MaskPixel::Transparent);
    assert_eq!(mask_pixel(px(255, 255, 255, 255), false), MaskPixel::White(255));
    assert_eq!(mask_pixel(px(30, 30, 30, 255), false), MaskPixel::White(30));
    assert_eq!(mask_pixel(px(100, 110, 120, 255), false), MaskPixel::White(110));
}

#[test]
fn whole_image() {
    let opaque = vec![px(255, 255, 255, 255), px(0, 0, 0, 255)];
    assert!(!image_has_transparency(&opaque));
    assert_eq!(mask_image(&opaque), vec![MaskPixel::White(255), MaskPixel::Transparent]);
    let with_alpha = vec![px(255, 255, 255, 254), px(100, 100, 100, 255)];
    assert!(image_has_transparency(&with_alpha));
    assert_eq!(mask_image(&with_alpha), vec![MaskPixel::White(254), MaskPixel::White(255)]);
}

/// A 2x1 RGBA PNG: one white and one near-black opaque pixel.
const TWO_PIXELS_PNG: [u8; 72] = [
    0x89, 0x50, 0x4e, 0x47, 0x0d, 0x0a, 0x1a, 0x0a, 0x00, 0x00, 0x00, 0x0d, 0x49, 0x48, 0x44, 0x52,
    0x00, 0x00, 0x00, 0x02, 0x00, 0x00, 0x00, 0x01, 0x08, 0x06, 0x00, 0x00, 0x00, 0xf4, 0x22, 0x7f,
    0x8a, 0x00, 0x00, 0x00, 0x0f, 0x49, 0x44, 0x41, 0x54, 0x78, 0x9c, 0x63, 0xf8, 0x0f, 0x04, 0x5c,
    0x5c, 0x5c, 0xff, 0x01, 0x1b, 0x48, 0x05, 0x1a, 0x81, 0x1e, 0x4f, 0x6b, 0x00, 0x00, 0x00, 0x00,
    0x49, 0x45, 0x4e, 0x44, 0xae, 0x42, 0x60, 0x82,
];

#[test]
fn decoded_icon_masks() {
    let m = icon_mask(&TWO_PIXELS_PNG).unwrap();
    assert_eq!((m.width, m.height), (2, 1));
    assert_eq!(m.pixels, vec![MaskPixel::White(255), MaskPixel::Transparent]);
    assert!(icon_mask(b"not an image").is_none());
}
