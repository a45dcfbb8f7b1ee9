use chip8::Pixel;

#[test]
fn individual_pixel_initialization_test() {
    let pixel = Pixel::new(10, 20, true, 1, 1);

    assert_eq!(10, pixel.x);
    assert_eq!(20, pixel.y);
    assert_eq!(true, pixel.on);
    assert_eq!(1, pixel.x_scale);
    assert_eq!(1, pixel.y_scale);
}

#[test]
fn bulk_pixel_initialization_test() {
    let pixels = Pixel::build_from_window_size(640, 320).unwrap();

    assert_eq!(64, pixels.len());
    assert_eq!(32, pixels[0].len());
    assert_eq!(10, pixels[0][0].x_scale);
    assert_eq!(10, pixels[0][0].y_scale);
    assert_eq!(true, pixels[0][0].on);
    assert_eq!(false, pixels[0][1].on);
}

#[test]
fn buld_pixel_width_fail_test() {
    let pixels = Pixel::build_from_window_size(640, 300);
    assert!(pixels.is_err());
    assert_eq!(
        pixels.unwrap_err(),
        "Window width is not evenly divisible by default width. Window width: 300, default width: 32"
    );
}

#[test]
fn build_height_fail_test() {
    let pixels = Pixel::build_from_window_size(630, 320);
    assert!(pixels.is_err());
    assert_eq!(
        pixels.unwrap_err(),
        "Window height is not evenly divisible by default height. Window height: 630, default height: 64"
    );
}
