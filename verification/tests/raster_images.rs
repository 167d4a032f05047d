use epaper::driver::Display;
use epaper::raster::{DisplayImage, BLACK, WHITE};

#[test]
fn new_image_is_all_dark() {
    let img = DisplayImage::new(4, 3);
    assert_eq!(img.width(), 4);
    assert_eq!(img.height(), 3);
    for y in 0..3 {
        for x in 0..4 {
            assert_eq!(img.get_pixel(x, y), BLACK);
        }
    }
}

#[test]
fn put_pixel_changes_only_its_sample() {
    let mut img = DisplayImage::filled(4, 3, WHITE);
    img.put_pixel(2, 1, 42);
    for y in 0..3 {
        for x in 0..4 {
            let expected = if (x, y) == (2, 1) { 42 } else { WHITE };
            assert_eq!(img.get_pixel(x, y), expected);
        }
    }
}

#[test]
fn from_raw_accepts_matching_dimensions() {
    let data = vec![1, 2, 3, 4, 5, 6];
    let img = DisplayImage::from_raw(3, 2, data).unwrap();
    assert_eq!(img.get_pixel(0, 0), 1);
    assert_eq!(img.get_pixel(2, 0), 3);
    assert_eq!(img.get_pixel(0, 1), 4);
    assert_eq!(img.get_pixel(2, 1), 6);
}

#[test]
fn from_raw_rejects_a_short_buffer() {
    assert!(DisplayImage::from_raw(3, 2, vec![0; 5]).is_none());
    assert!(DisplayImage::from_raw(3, 2, vec![0; 7]).is_none());
    assert!(DisplayImage::from_raw(0, 2, vec![0; 1]).is_none());
}

#[test]
fn white_canvases_have_the_two_accepted_geometries() {
    let vertical = Display::image_white_v();
    assert_eq!((vertical.width(), vertical.height()), (176, 264));
    assert_eq!(vertical.get_pixel(175, 263), WHITE);

    let horizontal = Display::image_white_h();
    assert_eq!((horizontal.width(), horizontal.height()), (264, 176));
    assert_eq!(horizontal.get_pixel(263, 175), WHITE);
}

#[test]
fn packed_row_geometry() {
    let (row_bytes, rows) = Display::image_size_bytes();
    assert_eq!(row_bytes, 22);
    assert_eq!(rows, 264);
}
