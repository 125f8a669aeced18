use color_image::color::Rgba;
use color_image::image::Image;
use color_image::keying::{
    apply_key_color, color_exists_in_image, find_unused_color_in_image, should_key_image,
};

fn image_from(width: usize, height: usize, pixels: Vec<[u8; 4]>) -> Image {
    assert_eq!(pixels.len(), width * height);
    let mut data: Vec<u8> = Vec::new();
    for p in pixels {
        data.extend_from_slice(&p);
    }
    Image::from_pixels(width, height, data).unwrap()
}

fn solid(width: usize, height: usize, p: [u8; 4]) -> Image {
    image_from(width, height, vec![p; width * height])
}

#[test]
fn from_pixels_rejects_wrong_length() {
    assert!(Image::from_pixels(2, 2, vec![0u8; 15]).is_none());
    assert!(Image::from_pixels(2, 2, vec![0u8; 16]).is_some());
}

#[test]
fn should_key_fully_opaque_is_false() {
    let img = solid(4, 4, [10, 20, 30, 255]);
    assert!(!should_key_image(&img));
}

#[test]
fn should_key_zero_dimension_is_false() {
    let empty_w = Image::from_pixels(0, 3, vec![]).unwrap();
    let empty_h = Image::from_pixels(3, 0, vec![]).unwrap();
    assert!(!should_key_image(&empty_w));
    assert!(!should_key_image(&empty_h));
}

#[test]
fn should_key_tiny_width_has_zero_threshold() {
    // With width 2 the threshold floor(2 * 2 / 5) is zero, so the running
    // count reaches it immediately even in a fully opaque image.
    let img = solid(2, 2, [10, 20, 30, 255]);
    assert!(should_key_image(&img));
}

#[test]
fn should_key_transparent_rows_is_true() {
    // Width 5: threshold = floor(5 * 2 / 5) = 2. Two alpha-zero pixels in the
    // top sampled row reach it.
    let mut pixels = vec![[100, 100, 100, 255]; 25];
    pixels[0] = [0, 0, 0, 0];
    pixels[3] = [7, 7, 7, 0];
    let img = image_from(5, 5, pixels);
    assert!(should_key_image(&img));
}

#[test]
fn should_key_middle_rows_count() {
    // Transparent pixels spread over the sampled rows (0, 1, 3, 5, 6) of a
    // 5x7 image collectively reach the threshold of 2.
    let mut pixels = vec![[100, 100, 100, 255]; 35];
    pixels[5] = [1, 2, 3, 0]; // row 1 = height/4
    pixels[17] = [4, 5, 6, 0]; // row 3 = height/2
    let img = image_from(5, 7, pixels);
    assert!(should_key_image(&img));
}

#[test]
fn should_key_unsampled_rows_do_not_count() {
    // A 5x7 image samples rows 0, 1, 3, 5, 6; rows 2 and 4 are ignored, so
    // transparency there never reaches the threshold of 2.
    let mut pixels = vec![[100, 100, 100, 255]; 35];
    for x in 0..5 {
        pixels[2 * 5 + x] = [0, 0, 0, 0];
        pixels[4 * 5 + x] = [0, 0, 0, 0];
    }
    let img = image_from(5, 7, pixels);
    assert!(!should_key_image(&img));
}

#[test]
fn color_exists_ignores_alpha() {
    let mut pixels = vec![[9, 9, 9, 255]; 9];
    pixels[4] = [0, 255, 255, 3];
    let img = image_from(3, 3, pixels);
    assert!(color_exists_in_image(&img, Rgba::opaque(0, 255, 255)));
    assert!(!color_exists_in_image(&img, Rgba::opaque(255, 0, 255)));
}

const CANDIDATES: [[u8; 3]; 7] = [
    [0, 255, 255],
    [255, 0, 255],
    [0, 255, 0],
    [0, 0, 255],
    [255, 255, 0],
    [128, 128, 128],
    [255, 0, 0],
];

#[test]
fn find_unused_returns_first_absent_candidate() {
    let mut pixels = vec![[1, 2, 3, 255]; 9];
    pixels[0] = [0, 255, 255, 255]; // cyan present
    pixels[1] = [255, 0, 255, 255]; // magenta present
    let img = image_from(3, 3, pixels);
    let c = find_unused_color_in_image(&img).unwrap();
    assert_eq!((c.r, c.g, c.b, c.a), (0, 255, 0, 255)); // green is first absent
}

#[test]
fn find_unused_with_six_of_seven_present() {
    // All candidates but the last: the selection must return a color that is
    // not in the image, and by priority that is red.
    let mut pixels = vec![[1, 2, 3, 255]; 9];
    for (i, c) in CANDIDATES.iter().take(6).enumerate() {
        pixels[i] = [c[0], c[1], c[2], 255];
    }
    let img = image_from(3, 3, pixels);
    let c = find_unused_color_in_image(&img).unwrap();
    assert!(!color_exists_in_image(&img, c));
    assert_eq!((c.r, c.g, c.b, c.a), (255, 0, 0, 255));
}

#[test]
fn find_unused_with_all_seven_present_fails() {
    let mut pixels = vec![[1, 2, 3, 255]; 9];
    for (i, c) in CANDIDATES.iter().enumerate() {
        pixels[i] = [c[0], c[1], c[2], 255];
    }
    let img = image_from(3, 3, pixels);
    assert!(find_unused_color_in_image(&img).is_err());
}

#[test]
fn apply_key_substitution_rule() {
    // alpha 0 is replaced whatever its color; alpha 5 only when pure black.
    let pixels = vec![
        [0, 0, 0, 5],      // nearly transparent black: replaced
        [10, 0, 0, 5],     // nearly transparent but not black: kept
        [200, 50, 50, 0],  // fully transparent: replaced
        [40, 40, 40, 255], // opaque: kept
    ];
    let mut img = image_from(4, 1, pixels);
    let key = Rgba::opaque(0, 255, 255);
    apply_key_color(&mut img, key);
    let p0 = img.get_pixel(0, 0);
    let p1 = img.get_pixel(1, 0);
    let p2 = img.get_pixel(2, 0);
    let p3 = img.get_pixel(3, 0);
    assert_eq!((p0.r, p0.g, p0.b, p0.a), (0, 255, 255, 255));
    assert_eq!((p1.r, p1.g, p1.b, p1.a), (10, 0, 0, 5));
    assert_eq!((p2.r, p2.g, p2.b, p2.a), (0, 255, 255, 255));
    assert_eq!((p3.r, p3.g, p3.b, p3.a), (40, 40, 40, 255));
}

#[test]
fn get_set_pixel_roundtrip() {
    let mut img = solid(3, 2, [1, 1, 1, 255]);
    img.set_pixel(2, 1, Rgba::opaque(9, 8, 7));
    let p = img.get_pixel(2, 1);
    assert_eq!((p.r, p.g, p.b, p.a), (9, 8, 7, 255));
    let q = img.get_pixel(1, 1);
    assert_eq!((q.r, q.g, q.b, q.a), (1, 1, 1, 255));
}
