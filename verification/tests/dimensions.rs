use window::dimensions::{Dimensions, DEFAULT_DPI};

#[test]
fn new_dimensions_have_default_resolution() {
    let d = Dimensions::new(800, 600);
    assert_eq!(d, Dimensions { pixel_width: 800, pixel_height: 600, dpi: 96 });
    assert_eq!(DEFAULT_DPI, 96);
    assert_eq!(d.get_dpi_factor(), 1);
}

#[test]
fn dpi_factor_is_whole_multiples_of_default() {
    let d = Dimensions { pixel_width: 10, pixel_height: 10, dpi: 192 };
    assert_eq!(d.get_dpi_factor(), 2);
    let d = Dimensions { pixel_width: 10, pixel_height: 10, dpi: 191 };
    assert_eq!(d.get_dpi_factor(), 1);
    let d = Dimensions { pixel_width: 10, pixel_height: 10, dpi: 288 };
    assert_eq!(d.get_dpi_factor(), 3);
}

#[test]
fn surface_to_pixels_multiplies_by_factor() {
    let d = Dimensions { pixel_width: 10, pixel_height: 10, dpi: 192 };
    assert_eq!(d.surface_to_pixels(400), 800);
    assert_eq!(d.surface_to_pixels(0), 0);
    assert_eq!(d.surface_to_pixels(-3), -6);
    let d = Dimensions::new(1, 1);
    assert_eq!(d.surface_to_pixels(123), 123);
}

#[test]
fn pixels_to_surface_rounds_up() {
    let d = Dimensions { pixel_width: 10, pixel_height: 10, dpi: 192 };
    assert_eq!(d.pixels_to_surface(800), 400);
    assert_eq!(d.pixels_to_surface(801), 401);
    assert_eq!(d.pixels_to_surface(1), 1);
    assert_eq!(d.pixels_to_surface(0), 0);
    let d = Dimensions { pixel_width: 10, pixel_height: 10, dpi: 288 };
    assert_eq!(d.pixels_to_surface(7), 3);
    assert_eq!(d.pixels_to_surface(9), 3);
    assert_eq!(d.pixels_to_surface(10), 4);
    assert_eq!(d.pixels_to_surface(i32::MAX), 715827883);
}

#[test]
fn pixels_to_surface_is_identity_at_default_resolution() {
    let d = Dimensions::new(800, 600);
    assert_eq!(d.pixels_to_surface(800), 800);
    assert_eq!(d.pixels_to_surface(i32::MAX), i32::MAX);
}
