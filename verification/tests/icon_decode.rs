use traybridge::icon::IconPixels;

#[test]
fn buffer_accepted_exactly_at_four_bytes_per_pixel() {
    assert!(IconPixels::new(vec![1u8; 8], 2, 1).is_some());
    assert!(IconPixels::new(vec![1u8; 7], 2, 1).is_none());
    assert!(IconPixels::new(vec![1u8; 8], 2, 2).is_none());
    assert!(IconPixels::new(Vec::new(), 0, 0).is_some());
}

#[test]
fn decode_rejects_bytes_that_are_no_png() {
    assert!(IconPixels::decode(&[]).is_none());
    assert!(IconPixels::decode(b"not a png at all").is_none());
}

#[test]
fn decode_round_trips_encoded_pixels() {
    let pixels: Vec<u8> = vec![
        255, 0, 0, 255, // red
        0, 0, 255, 255, // blue
    ];
    let img = image::RgbaImage::from_raw(2, 1, pixels.clone()).expect("valid buffer");
    let mut png_bytes: Vec<u8> = Vec::new();
    img.write_to(
        &mut std::io::Cursor::new(&mut png_bytes),
        image::ImageFormat::Png,
    )
    .expect("in-memory PNG encoding");

    let decoded = IconPixels::decode(&png_bytes).expect("round trip decodes");
    assert_eq!(decoded.width, 2);
    assert_eq!(decoded.height, 1);
    assert_eq!(decoded.rgba, pixels);
}
