use epaper::driver::Display;
use epaper::pack::{buffer_white, pack_plane, Plane, BUF_LEN, HEIGHT, ROW_BYTES, WIDTH};
use epaper::raster::DisplayImage;

fn bit_at(buf: &[u8], dx: u32, dy: u32) -> u8 {
    (buf[(dx / 8 + dy * ROW_BYTES) as usize] >> (7 - dx % 8)) & 1
}

#[test]
fn packed_buffer_length_native() {
    let img = Display::image_white_v();
    let buf = pack_plane(&img, false, Plane::Mono);
    assert_eq!(buf.len(), (WIDTH as usize + 7) / 8 * HEIGHT as usize);
    assert_eq!(buf.len(), BUF_LEN as usize);
}

#[test]
fn packed_buffer_length_rotated() {
    let img = Display::image_white_h();
    let buf = pack_plane(&img, true, Plane::Mono);
    assert_eq!(buf.len(), BUF_LEN as usize);
}

#[test]
fn all_white_packs_to_all_ones() {
    let img = Display::image_white_v();
    let buf = pack_plane(&img, false, Plane::Mono);
    assert!(buf.iter().all(|&b| b == 0xFF));
    assert_eq!(buf, buffer_white());
}

#[test]
fn threshold_decides_native_bits() {
    let mut img = Display::image_white_v();
    // Luminance at the threshold is a mark, one above is not.
    img.put_pixel(10, 3, 127);
    img.put_pixel(11, 3, 128);
    let buf = pack_plane(&img, false, Plane::Mono);
    assert_eq!(bit_at(&buf, 10, 3), 0);
    assert_eq!(bit_at(&buf, 11, 3), 1);
    // Byte position is x/8 + y*row_bytes, mask 0x80 >> (x%8).
    assert_eq!(buf[(10 / 8 + 3 * ROW_BYTES) as usize], 0xFF ^ (0x80 >> (10 % 8)));
}

#[test]
fn corner_pixel_clears_high_bit_of_first_byte() {
    let mut img = Display::image_white_v();
    img.put_pixel(0, 0, 0);
    let buf = pack_plane(&img, false, Plane::Mono);
    assert_eq!(buf[0], 0x7F);
}

#[test]
fn rotated_packing_matches_native() {
    // A native image and its rotated counterpart: rotated (x, y)
    // lands on device (y, HEIGHT - x - 1), so the counterpart holds
    // native (dx, dy) at rotated (HEIGHT - 1 - dy, dx).
    let mut native = Display::image_white_v();
    let mut rotated = Display::image_white_h();
    let marks = [(5u32, 100u32), (0, 0), (175, 263), (20, 8)];
    for &(dx, dy) in marks.iter() {
        native.put_pixel(dx, dy, 0);
        rotated.put_pixel(HEIGHT - 1 - dy, dx, 0);
    }
    let from_native = pack_plane(&native, false, Plane::Mono);
    let from_rotated = pack_plane(&rotated, true, Plane::Mono);
    assert_eq!(from_native, from_rotated);
    assert_eq!(bit_at(&from_rotated, 5, 100), 0);
}

#[test]
fn greyscale_planes_invert_the_code_bits() {
    let mut img = Display::image_white_v();
    img.put_pixel(0, 0, 0);  // Black: code 00
    img.put_pixel(1, 0, 64);  // Dark:  code 01
    img.put_pixel(2, 0, 128);  // Light: code 10
    img.put_pixel(3, 0, 255);  // White: code 11
    let plane_0011 = pack_plane(&img, false, Plane::Bits0011);
    let plane_0101 = pack_plane(&img, false, Plane::Bits0101);
    // A set code bit is a mark on its plane and clears the buffer bit.
    assert_eq!(bit_at(&plane_0011, 0, 0), 1);
    assert_eq!(bit_at(&plane_0101, 0, 0), 1);
    assert_eq!(bit_at(&plane_0011, 1, 0), 1);
    assert_eq!(bit_at(&plane_0101, 1, 0), 0);
    assert_eq!(bit_at(&plane_0011, 2, 0), 0);
    assert_eq!(bit_at(&plane_0101, 2, 0), 1);
    assert_eq!(bit_at(&plane_0011, 3, 0), 0);
    assert_eq!(bit_at(&plane_0101, 3, 0), 0);
}

#[test]
fn each_pixel_touches_exactly_one_bit() {
    // Marking every pixel of a native image flips every bit once.
    let img = DisplayImage::filled(WIDTH, HEIGHT, 0);
    let buf = pack_plane(&img, false, Plane::Mono);
    assert!(buf.iter().all(|&b| b == 0x00));
}
