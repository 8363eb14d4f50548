use convert_screenshot::config::TomlConfig;
use convert_screenshot::enums::{CropPosition, Game, Operation};
use convert_screenshot::options::{merge_options, MergedOption, Options};
use convert_screenshot::raster::{
    blur_region, blur_regions, crop, is_blurrable, paste, resize_to_width, RgbaImage, BLUR_KERNEL,
};
use convert_screenshot::transform::{transform_image, TransformError};

/// An image whose pixel (x, y) has bytes [x, y, x ^ y, 255] (mod 256).
fn pattern(width: u32, height: u32) -> RgbaImage {
    let mut pixels = Vec::with_capacity((4 * width * height) as usize);
    for y in 0..height {
        for x in 0..width {
            pixels.extend_from_slice(&[x as u8, y as u8, (x ^ y) as u8, 255]);
        }
    }
    RgbaImage { width, height, pixels }
}

fn px(img: &RgbaImage, x: u32, y: u32) -> [u8; 4] {
    let i = (4 * (y * img.width + x)) as usize;
    [img.pixels[i], img.pixels[i + 1], img.pixels[i + 2], img.pixels[i + 3]]
}

fn job(op: Operation, game: Game) -> MergedOption {
    let o = Options {
        operation: op,
        target: "t".to_string(),
        blur: None,
        crop_height: None,
        crop_pos: None,
        game,
        width_from: None,
        width_to: None,
    };
    merge_options(&o, &TomlConfig::default_for(), "t", game, op, false).unwrap()
}

#[test]
fn crop_bottom_center_full() {
    let img = pattern(3, 10);
    let b = crop(&img, CropPosition::Bottom, 4);
    assert_eq!((b.width, b.height), (3, 4));
    assert_eq!(px(&b, 1, 0), px(&img, 1, 6));
    assert_eq!(b.pixels.len(), 4 * 3 * 4);
    let c = crop(&img, CropPosition::Center, 4);
    assert_eq!((c.width, c.height), (3, 4));
    assert_eq!(px(&c, 2, 0), px(&img, 2, 3));
    let c5 = crop(&img, CropPosition::Center, 5);
    assert_eq!(px(&c5, 0, 0), px(&img, 0, 2));
    let f = crop(&img, CropPosition::Full, 4);
    assert_eq!(f.pixels, img.pixels);
    assert_eq!(f.height, 10);
    let big = crop(&img, CropPosition::Center, 50);
    assert_eq!(big.height, 10);
    assert_eq!(big.pixels, img.pixels);
    let bb = crop(&img, CropPosition::Bottom, 50);
    assert_eq!(bb.pixels, img.pixels);
    let z = crop(&img, CropPosition::Bottom, 0);
    assert_eq!(z.height, 0);
    assert!(z.pixels.is_empty());
}

#[test]
fn center_crop_at_full_height_is_identity() {
    let img = pattern(7, 9);
    let c = crop(&img, CropPosition::Center, 9);
    assert_eq!((c.width, c.height), (7, 9));
    assert_eq!(c.pixels, img.pixels);
}

#[test]
fn region_outside_image_is_skipped() {
    let img = pattern(20, 10);
    for r in [[15, 0, 6, 2], [0, 9, 2, 2], [u32::MAX, 0, 2, 2], [0, 0, 0, 3]] {
        let mut m = pattern(20, 10);
        assert!(!is_blurrable(&m, r));
        assert!(blur_region(&mut m, r, BLUR_KERNEL));
        assert_eq!(m.pixels, img.pixels);
    }
    let mut m = pattern(20, 10);
    assert!(blur_regions(&mut m, &vec![[15, 0, 6, 2], [19, 9, 2, 1]], BLUR_KERNEL));
    assert_eq!(m.pixels, img.pixels);
}

#[test]
fn region_blur_changes_only_its_rectangle() {
    let img = pattern(40, 30);
    let mut m = pattern(40, 30);
    let r = [5, 4, 20, 10];
    assert!(is_blurrable(&m, r));
    assert!(blur_region(&mut m, r, BLUR_KERNEL));
    assert_eq!(m.pixels.len(), img.pixels.len());
    let mut changed = false;
    for y in 0..30 {
        for x in 0..40 {
            let inside = (5..25).contains(&x) && (4..14).contains(&y);
            if !inside {
                assert_eq!(px(&m, x, y), px(&img, x, y));
            } else if px(&m, x, y) != px(&img, x, y) {
                changed = true;
            }
        }
    }
    assert!(changed);
}

#[test]
fn paste_overwrites_rectangle() {
    let mut m = pattern(4, 3);
    let data = vec![9u8; 4 * 2 * 2];
    paste(&mut m, [1, 1, 2, 2], &data);
    assert_eq!(px(&m, 1, 1), [9, 9, 9, 9]);
    assert_eq!(px(&m, 2, 2), [9, 9, 9, 9]);
    assert_eq!(px(&m, 0, 1), [0, 1, 1, 255]);
    assert_eq!(px(&m, 3, 2), [3, 2, 1, 255]);
}

#[test]
fn resize_keeps_aspect_ratio() {
    let img = pattern(8, 4);
    let r = resize_to_width(&img, 4).unwrap();
    assert_eq!((r.width, r.height), (4, 2));
    assert_eq!(r.pixels.len(), 4 * 4 * 2);
    let u = resize_to_width(&pattern(3, 2), 5).unwrap();
    assert_eq!((u.width, u.height), (5, 3));
    assert_eq!(u.pixels.len(), 4 * 5 * 3);
    let e = resize_to_width(&pattern(0, 0), 5).unwrap();
    assert_eq!((e.width, e.height), (5, 0));
    assert!(resize_to_width(&pattern(1, 3), u32::MAX).is_none());
}

#[test]
fn scenario_background_profile() {
    let mo = job(Operation::Background, Game::WuWa);
    assert_eq!(mo.crop_height, 360);
    assert_eq!(mo.crop_pos, CropPosition::Bottom);
    assert_eq!(mo.blur.len(), 2);
    let out = transform_image(&mo, pattern(1920, 1080)).unwrap();
    assert_eq!((out.width, out.height), (1280, 240));
    assert_eq!(out.pixels.len(), 4 * 1280 * 240);
    let mut unblurred = job(Operation::Background, Game::WuWa);
    unblurred.blur = Vec::new();
    let plain = transform_image(&unblurred, pattern(1920, 1080)).unwrap();
    assert_eq!((plain.width, plain.height), (1280, 240));
    assert_ne!(out.pixels, plain.pixels);
    let mut blurred = pattern(1920, 1080);
    assert!(blur_regions(&mut blurred, &mo.blur, BLUR_KERNEL));
    let untouched = pattern(1920, 1080);
    assert_ne!(px(&blurred, 50, 1060), px(&untouched, 50, 1060));
    assert_ne!(px(&blurred, 1800, 1070), px(&untouched, 1800, 1070));
    assert_eq!(px(&blurred, 1000, 1060), px(&untouched, 1000, 1060));
}

#[test]
fn scenario_unset_game_full_keeps_image() {
    let mo = job(Operation::Full, Game::Unset);
    assert!(!mo.should_blur(1920));
    let img = pattern(33, 17);
    let out = transform_image(&mo, pattern(33, 17)).unwrap();
    assert_eq!((out.width, out.height), (33, 17));
    assert_eq!(out.pixels, img.pixels);
}

#[test]
fn width_mismatch_is_reported() {
    let mo = job(Operation::Center, Game::WuWa);
    let r = transform_image(&mo, pattern(1280, 720));
    assert!(matches!(r, Err(TransformError::WidthMismatch { expected: 1920, actual: 1280 })));
}

#[test]
fn full_operation_scales_wide_images() {
    let mo = job(Operation::Full, Game::WuWa);
    let out = transform_image(&mo, pattern(2560, 1440)).unwrap();
    assert_eq!((out.width, out.height), (1280, 720));
    let small = transform_image(&mo, pattern(1000, 500)).unwrap();
    assert_eq!((small.width, small.height), (1000, 500));
}

#[test]
fn oversized_resize_is_reported() {
    let o = Options {
        operation: Operation::Background,
        target: "t".to_string(),
        blur: Some(Vec::new()),
        crop_height: Some(3),
        crop_pos: None,
        game: Game::WuWa,
        width_from: Some(1),
        width_to: Some(u32::MAX),
    };
    let mo =
        merge_options(&o, &TomlConfig::default_for(), "t", Game::WuWa, Operation::Background, false).unwrap();
    assert!(matches!(transform_image(&mo, pattern(1, 3)), Err(TransformError::TooLarge)));
}

#[test]
fn blur_error_is_reported() {
    let mut m = pattern(20, 10);
    assert!(!blur_region(&mut m, [2, 2, 5, 5], 44));
    let mut n = pattern(20, 10);
    assert!(!blur_regions(&mut n, &vec![[15, 0, 6, 2], [2, 2, 5, 5]], 44));
    let mut k = pattern(20, 10);
    assert!(blur_region(&mut k, [15, 0, 6, 2], 44));
    let mut big = pattern(20, 10);
    assert!(!blur_region(&mut big, [2, 2, 5, 5], 0x10001));
    assert_eq!(big.pixels, pattern(20, 10).pixels);
}

fn window_mean(vals: &[i64], centre: usize, r: usize) -> f64 {
    let n = vals.len() as i64;
    let mut sum = 0;
    for d in -(r as i64)..=(r as i64) {
        let i = (centre as i64 + d).clamp(0, n - 1) as usize;
        sum += vals[i];
    }
    sum as f64 / (2 * r + 1) as f64
}

#[test]
fn region_blur_is_a_box_blur() {
    let (w, h, r) = (12usize, 9usize, 2usize);
    let mut m = pattern(30, 20);
    let rect = [4, 5, w as u32, h as u32];
    let src = pattern(30, 20);
    assert!(blur_region(&mut m, rect, 5));
    for c in 0..4 {
        let mut t = vec![vec![0i64; w]; h];
        for y in 0..h {
            let row: Vec<i64> = (0..w).map(|x| px(&src, 4 + x as u32, 5 + y as u32)[c] as i64).collect();
            for x in 0..w {
                t[y][x] = window_mean(&row, x, r).round() as i64;
            }
        }
        for x in 0..w {
            let col: Vec<i64> = (0..h).map(|y| t[y][x]).collect();
            for y in 0..h {
                let expected = window_mean(&col, y, r);
                let got = px(&m, 4 + x as u32, 5 + y as u32)[c] as f64;
                assert!((got - expected).abs() <= 2.0, "channel {} at ({}, {}): {} vs {}", c, x, y, got, expected);
            }
        }
    }
}
