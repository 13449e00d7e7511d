use winops::capture::encode_capture;
use winops::capture::RawPixelBuffer;
use winops::OpError;

#[test]
fn well_formed_buffer_is_accepted() {
    let buf = RawPixelBuffer::new(2, 2, vec![0u8; 16]).unwrap();
    assert_eq!(buf.width, 2);
    assert_eq!(buf.height, 2);
    assert_eq!(buf.pixels.len(), 16);
}

#[test]
fn inconsistent_pixel_count_is_a_capture_error() {
    assert!(matches!(RawPixelBuffer::new(2, 2, vec![0u8; 15]), Err(OpError::Capture)));
    assert!(matches!(RawPixelBuffer::new(2, 2, vec![0u8; 17]), Err(OpError::Capture)));
    assert!(matches!(RawPixelBuffer::new(0, 2, vec![0u8; 16]), Err(OpError::Capture)));
}

#[test]
fn encode_capture_rejects_a_short_buffer() {
    assert_eq!(encode_capture(4, 4, vec![0u8; 63]), Err(OpError::Capture));
}

#[test]
fn encode_capture_round_trips_the_pixels() {
    // A 2 x 2 capture, 4 bytes per pixel. The PNG container is lossless,
    // so decoding the result gives back the exact pixels.
    let pixels: Vec<u8> = vec![
        255, 0, 0, 255, 0, 255, 0, 255, 0, 0, 255, 255, 17, 34, 51, 255,
    ];
    let png = encode_capture(2, 2, pixels.clone()).unwrap();
    let img = image::load_from_memory_with_format(&png, image::ImageFormat::Png).unwrap();
    assert_eq!(img.width(), 2);
    assert_eq!(img.height(), 2);
    assert_eq!(img.to_rgba8().into_raw(), pixels);
}

#[test]
fn encode_capture_keeps_dimensions_of_an_occluded_size() {
    // Whatever the window's visibility, a buffer is accepted exactly
    // when its pixel count is width x height x 4.
    let width = 31u32;
    let height = 17u32;
    let png = encode_capture(width, height, vec![128u8; (width * height * 4) as usize]).unwrap();
    let img = image::load_from_memory_with_format(&png, image::ImageFormat::Png).unwrap();
    assert_eq!(img.width(), width);
    assert_eq!(img.height(), height);
}
