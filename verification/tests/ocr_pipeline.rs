use winops::ocr::prepare_screenshot_for_ocr;
use winops::ocr::scaled_dimensions;
use winops::OpError;

fn sample_png(width: u32, height: u32) -> Vec<u8> {
    let img = image::DynamicImage::ImageRgb8(image::RgbImage::from_fn(width, height, |x, y| {
        image::Rgb([(x % 256) as u8, (y % 256) as u8, 100u8])
    }));
    let mut bytes: Vec<u8> = Vec::new();
    img.write_to(&mut std::io::Cursor::new(&mut bytes), image::ImageFormat::Png)
        .unwrap();
    bytes
}

fn decode_result(blob: &str) -> image::DynamicImage {
    let jpeg = base64::Engine::decode(&base64::prelude::BASE64_STANDARD, blob).unwrap();
    image::load_from_memory_with_format(&jpeg, image::ImageFormat::Jpeg).unwrap()
}

#[test]
fn zero_target_height_is_rejected() {
    let png = sample_png(8, 8);
    assert_eq!(prepare_screenshot_for_ocr(&png, 0), Err(OpError::InvalidTarget));
}

#[test]
fn zero_target_height_is_rejected_before_decoding() {
    assert_eq!(prepare_screenshot_for_ocr(&vec![1, 2, 3], 0), Err(OpError::InvalidTarget));
}

#[test]
fn malformed_input_is_a_decode_error() {
    assert_eq!(prepare_screenshot_for_ocr(&vec![1, 2, 3, 4], 10), Err(OpError::Decode));
}

#[test]
fn jpeg_input_is_a_format_mismatch() {
    // The pipeline accepts only the lossless container, so JPEG bytes
    // are a decode error even though they are a valid image.
    let img = image::DynamicImage::ImageRgb8(image::RgbImage::new(8, 8));
    let mut jpeg: Vec<u8> = Vec::new();
    img.write_to(&mut std::io::Cursor::new(&mut jpeg), image::ImageFormat::Jpeg)
        .unwrap();
    assert_eq!(prepare_screenshot_for_ocr(&jpeg, 4), Err(OpError::Decode));
}

#[test]
fn identical_arguments_give_byte_identical_output() {
    let png = sample_png(64, 48);
    let first = prepare_screenshot_for_ocr(&png, 24).unwrap();
    let second = prepare_screenshot_for_ocr(&png, 24).unwrap();
    assert_eq!(first, second);
}

#[test]
fn output_is_base64_of_a_jpeg_at_the_target_height() {
    let png = sample_png(200, 100);
    let blob = prepare_screenshot_for_ocr(&png, 50).unwrap();
    let img = decode_result(&blob);
    assert_eq!(img.height(), 50);
    assert_eq!(img.width(), 100);
}

#[test]
fn upscaling_preserves_the_aspect_ratio() {
    let png = sample_png(30, 20);
    let blob = prepare_screenshot_for_ocr(&png, 40).unwrap();
    let img = decode_result(&blob);
    assert_eq!(img.height(), 40);
    assert_eq!(img.width(), 60);
}

#[test]
fn full_hd_input_scales_to_the_documented_example() {
    // 1920 x 1080 input at target height 480: the width becomes
    // 1920 * 480 / 1080 = 853 (rounded down).
    let png = sample_png(1920, 1080);
    let blob = prepare_screenshot_for_ocr(&png, 480).unwrap();
    let img = decode_result(&blob);
    assert_eq!(img.height(), 480);
    assert_eq!(img.width(), 853);
}

#[test]
fn scaled_dimensions_follow_the_exact_ratio() {
    assert_eq!(scaled_dimensions(1920, 1080, 480), (853, 480));
    assert_eq!(scaled_dimensions(200, 100, 50), (100, 50));
    assert_eq!(scaled_dimensions(30, 20, 40), (60, 40));
    assert_eq!(scaled_dimensions(1, 1, 1), (1, 1));
    // Rounding is downward, exactly as the uniform-scale division says.
    assert_eq!(scaled_dimensions(101, 3, 2), (67, 2));
}
