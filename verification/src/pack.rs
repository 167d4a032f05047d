//! Framebuffer packing: turning a raster image of one of the two
//! accepted geometries into the panel's packed bit buffers.
//!
//! Each device pixel (dx, dy) owns one bit: byte `dx/8 + dy*ROW_BYTES`,
//! mask `0x80 >> (dx % 8)`.  Buffers start all-ones (device white) and
//! a mark clears its bit by XOR; the source-to-device coordinate map is
//! a bijection, so each bit is touched at most once.
use vstd::prelude::*;

use crate::color::{spec_mono_mark, ColorGreyscale, MONO_THRESHOLD};
use crate::raster::{DisplayImage, RasterView};

verus! {

/// Panel width in pixels, along the byte-packed axis.
pub const WIDTH: u32 = 176;

/// Panel height in pixels.
pub const HEIGHT: u32 = 264;

/// Bytes per packed row: the width padded up to whole bytes,
/// ceil(WIDTH / 8).  Written as a literal so that byte-index
/// arithmetic stays linear; `lemma_row_geometry` pins it to the
/// panel geometry.
pub const ROW_BYTES: u32 = 22;

/// Length in bytes of one packed plane: ROW_BYTES bytes for each of
/// the HEIGHT device rows.
pub const BUF_LEN: u32 = 5808;

/// The packed-row constants are exactly the padded-width geometry of
/// the panel.
pub proof fn lemma_row_geometry()
    ensures
        ROW_BYTES == (WIDTH + 7) / 8,
        BUF_LEN == ROW_BYTES * HEIGHT,
{
}

/// The image is in the panel's native orientation.
pub open spec fn native_geometry(v: RasterView) -> bool {
    v.width == WIDTH as int && v.height == HEIGHT as int
}

/// The image is transposed: its width is the panel's height.
pub open spec fn rotated_geometry(v: RasterView) -> bool {
    v.width == HEIGHT as int && v.height == WIDTH as int
}

/// (dx, dy) addresses a pixel of the panel.
pub open spec fn device_pixel(dx: int, dy: int) -> bool {
    0 <= dx < WIDTH as int && 0 <= dy < HEIGHT as int
}

/// The source sample that lands on device pixel (dx, dy).  A native
/// image maps one to one; a rotated image pixel (x, y) lands on device
/// pixel (y, HEIGHT - x - 1), so the preimage of (dx, dy) is
/// (HEIGHT - 1 - dy, dx).
pub open spec fn source_pixel(v: RasterView, horizontal: bool, dx: int, dy: int) -> u8 {
    if horizontal {
        v.pixel(HEIGHT as int - 1 - dy, dx)
    } else {
        v.pixel(dx, dy)
    }
}

/// Which packed plane is being built: the single monochrome buffer, or
/// one of the two greyscale planes named by the grey-code bit it holds.
#[derive(Clone, Copy, Debug)]
pub enum Plane {
    Mono,
    Bits0011,
    Bits0101,
}

/// Whether a luminance sample is a mark on the given plane: the
/// monochrome threshold, or the plane's bit of the 2-bit grey code.
pub open spec fn plane_mark(plane: Plane, lum: u8) -> bool {
    match plane {
        Plane::Mono => spec_mono_mark(lum),
        Plane::Bits0011 => ColorGreyscale::spec_new(lum).spec_bit_0011(),
        Plane::Bits0101 => ColorGreyscale::spec_new(lum).spec_bit_0101(),
    }
}

/// The value of device pixel (dx, dy)'s bit on the given plane:
/// 0 for a mark, 1 otherwise (device convention, inverted).
pub open spec fn plane_bit(plane: Plane, v: RasterView, horizontal: bool, dx: int, dy: int) -> u8 {
    if plane_mark(plane, source_pixel(v, horizontal, dx, dy)) {
        0
    } else {
        1
    }
}

/// The packed byte that holds device pixel (dx, dy)'s bit.
pub open spec fn byte_index(dx: int, dy: int) -> int {
    dy * (ROW_BYTES as int) + dx / 8
}

/// Device pixel (dx, dy)'s bit as stored in a packed buffer: bit
/// `7 - dx % 8` of its byte, the leftmost pixel in the highest bit.
pub open spec fn packed_bit(buf: Seq<u8>, dx: int, dy: int) -> u8 {
    (buf[byte_index(dx, dy)] >> ((7 - dx % 8) as u8)) & 1
}

/// The byte covering device pixels 8q .. 8q+7 of device row dy.
pub open spec fn packed_byte(plane: Plane, v: RasterView, horizontal: bool, dy: int, q: int) -> u8 {
    (plane_bit(plane, v, horizontal, 8 * q + 0, dy) * 128 + plane_bit(
        plane,
        v,
        horizontal,
        8 * q + 1,
        dy,
    ) * 64 + plane_bit(plane, v, horizontal, 8 * q + 2, dy) * 32 + plane_bit(
        plane,
        v,
        horizontal,
        8 * q + 3,
        dy,
    ) * 16 + plane_bit(plane, v, horizontal, 8 * q + 4, dy) * 8 + plane_bit(
        plane,
        v,
        horizontal,
        8 * q + 5,
        dy,
    ) * 4 + plane_bit(plane, v, horizontal, 8 * q + 6, dy) * 2 + plane_bit(
        plane,
        v,
        horizontal,
        8 * q + 7,
        dy,
    ) * 1) as u8
}

/// The whole packed plane, byte by byte.
pub open spec fn packed_plane(plane: Plane, v: RasterView, horizontal: bool) -> Seq<u8> {
    Seq::new(
        BUF_LEN as nat,
        |i: int| packed_byte(plane, v, horizontal, i / (ROW_BYTES as int), i % (ROW_BYTES as int)),
    )
}

/// Image column of the source sample that lands on device pixel (dx, dy).
spec fn preimage_x(horizontal: bool, dx: int, dy: int) -> int {
    if horizontal {
        HEIGHT as int - 1 - dy
    } else {
        dx
    }
}

/// Image row of the source sample that lands on device pixel (dx, dy).
spec fn preimage_y(horizontal: bool, dx: int, dy: int) -> int {
    if horizontal {
        dx
    } else {
        dy
    }
}

/// Whether the packing loop, about to process image coordinate
/// (cx, cy) in row-major order, has already written device pixel
/// (dx, dy).
spec fn written(horizontal: bool, dx: int, dy: int, cx: int, cy: int) -> bool {
    preimage_y(horizontal, dx, dy) < cy || (preimage_y(horizontal, dx, dy) == cy && preimage_x(
        horizontal,
        dx,
        dy,
    ) < cx)
}

proof fn lemma_white_bit(k: u8)
    by (bit_vector)
    requires
        k < 8,
    ensures
        (0xFFu8 >> k) & 1 == 1,
{
}

proof fn lemma_xor_mask_bit(b: u8, j: u8, k: u8)
    by (bit_vector)
    requires
        j < 8,
        k < 8,
    ensures
        k == 7 - j && (b >> k) & 1 == 1 ==> ((b ^ (0x80u8 >> j)) >> k) & 1 == 0,
        k == 7 - j && (b >> k) & 1 == 0 ==> ((b ^ (0x80u8 >> j)) >> k) & 1 == 1,
        k != 7 - j ==> ((b ^ (0x80u8 >> j)) >> k) & 1 == (b >> k) & 1,
{
}

proof fn lemma_bits_equal(a: u8, b: u8)
    by (bit_vector)
    requires
        (a >> 0u8) & 1 == (b >> 0u8) & 1,
        (a >> 1u8) & 1 == (b >> 1u8) & 1,
        (a >> 2u8) & 1 == (b >> 2u8) & 1,
        (a >> 3u8) & 1 == (b >> 3u8) & 1,
        (a >> 4u8) & 1 == (b >> 4u8) & 1,
        (a >> 5u8) & 1 == (b >> 5u8) & 1,
        (a >> 6u8) & 1 == (b >> 6u8) & 1,
        (a >> 7u8) & 1 == (b >> 7u8) & 1,
    ensures
        a == b,
{
}

proof fn lemma_byte_bits(b: u8, v0: u8, v1: u8, v2: u8, v3: u8, v4: u8, v5: u8, v6: u8, v7: u8)
    by (bit_vector)
    requires
        v0 <= 1,
        v1 <= 1,
        v2 <= 1,
        v3 <= 1,
        v4 <= 1,
        v5 <= 1,
        v6 <= 1,
        v7 <= 1,
        b == (v0 * 128 + v1 * 64 + v2 * 32 + v3 * 16 + v4 * 8 + v5 * 4 + v6 * 2 + v7 * 1) as u8,
    ensures
        (b >> 7u8) & 1 == v0,
        (b >> 6u8) & 1 == v1,
        (b >> 5u8) & 1 == v2,
        (b >> 4u8) & 1 == v3,
        (b >> 3u8) & 1 == v4,
        (b >> 2u8) & 1 == v5,
        (b >> 1u8) & 1 == v6,
        (b >> 0u8) & 1 == v7,
{
}

proof fn lemma_div_mod(n: int, d: int)
    by (nonlinear_arith)
    requires
        0 <= n,
        0 < d,
    ensures
        n == d * (n / d) + n % d,
        0 <= n % d < d,
        0 <= n / d,
{
}

proof fn lemma_quot_unique(r1: int, q1: int, r2: int, q2: int, d: int)
    by (nonlinear_arith)
    requires
        0 < d,
        0 <= q1 < d,
        0 <= q2 < d,
        r1 * d + q1 == r2 * d + q2,
    ensures
        r1 == r2,
        q1 == q2,
{
}

proof fn lemma_mul_div(q: int, k: int)
    by (nonlinear_arith)
    requires
        0 <= q,
        0 <= k < 8,
    ensures
        (8 * q + k) / 8 == q,
        (8 * q + k) % 8 == k,
{
}

/// The all-white packed buffer: every bit 1, the state before packing.
pub fn buffer_white() -> (r: Vec<u8>)
    ensures
        r@.len() == BUF_LEN as int,
        forall|i: int| 0 <= i < r@.len() ==> r@[i] == 0xFFu8,
{
    let total: usize = BUF_LEN as usize;
    let mut buffer: Vec<u8> = Vec::new();
    let mut i: usize = 0;
    while i < total
        invariant
            i <= total,
            buffer@.len() == i,
            forall|j: int| 0 <= j < i ==> buffer@[j] == 0xFFu8,
        decreases total - i,
    {
        buffer.push(0xFF);
        i = i + 1;
    }
    buffer
}

/// A buffer whose bits all match the plane's target bits equals the
/// packed plane byte for byte.
proof fn lemma_bits_to_bytes(buf: Seq<u8>, plane: Plane, v: RasterView, horizontal: bool)
    requires
        buf.len() == BUF_LEN as int,
        forall|dx: int, dy: int|
            device_pixel(dx, dy) ==> #[trigger] packed_bit(buf, dx, dy) == plane_bit(
                plane,
                v,
                horizontal,
                dx,
                dy,
            ),
    ensures
        buf =~= packed_plane(plane, v, horizontal),
{
    assert forall|i: int| 0 <= i < BUF_LEN as int implies buf[i] == packed_plane(
        plane,
        v,
        horizontal,
    )[i] by {
        let r = ROW_BYTES as int;
        lemma_div_mod(i, r);
        let dy = i / r;
        let q = i % r;
        lemma_mul_div(q, 0);
        lemma_mul_div(q, 1);
        lemma_mul_div(q, 2);
        lemma_mul_div(q, 3);
        lemma_mul_div(q, 4);
        lemma_mul_div(q, 5);
        lemma_mul_div(q, 6);
        lemma_mul_div(q, 7);
        assert(0 <= dy < HEIGHT as int && 0 <= q < ROW_BYTES as int);
        assert(forall|k: int| 0 <= k < 8 ==> #[trigger] device_pixel(8 * q + k, dy));
        let v0 = plane_bit(plane, v, horizontal, 8 * q + 0, dy);
        let v1 = plane_bit(plane, v, horizontal, 8 * q + 1, dy);
        let v2 = plane_bit(plane, v, horizontal, 8 * q + 2, dy);
        let v3 = plane_bit(plane, v, horizontal, 8 * q + 3, dy);
        let v4 = plane_bit(plane, v, horizontal, 8 * q + 4, dy);
        let v5 = plane_bit(plane, v, horizontal, 8 * q + 5, dy);
        let v6 = plane_bit(plane, v, horizontal, 8 * q + 6, dy);
        let v7 = plane_bit(plane, v, horizontal, 8 * q + 7, dy);
        assert(packed_bit(buf, 8 * q + 0, dy) == v0);
        assert(packed_bit(buf, 8 * q + 1, dy) == v1);
        assert(packed_bit(buf, 8 * q + 2, dy) == v2);
        assert(packed_bit(buf, 8 * q + 3, dy) == v3);
        assert(packed_bit(buf, 8 * q + 4, dy) == v4);
        assert(packed_bit(buf, 8 * q + 5, dy) == v5);
        assert(packed_bit(buf, 8 * q + 6, dy) == v6);
        assert(packed_bit(buf, 8 * q + 7, dy) == v7);
        let bb = packed_byte(plane, v, horizontal, dy, q);
        lemma_byte_bits(bb, v0, v1, v2, v3, v4, v5, v6, v7);
        lemma_bits_equal(buf[i], bb);
    }
}

/// A native image with no mark anywhere (every sample lighter than
/// the monochrome threshold) packs to a buffer that is entirely 0xFF:
/// no bit of the pre-initialized white buffer is ever flipped.
pub proof fn lemma_all_white_packs_white(v: RasterView, horizontal: bool)
    requires
        v.wf(),
        horizontal ==> rotated_geometry(v),
        !horizontal ==> native_geometry(v),
        forall|x: int, y: int|
            0 <= x < v.width && 0 <= y < v.height ==> #[trigger] v.pixel(x, y) > MONO_THRESHOLD,
    ensures
        packed_plane(Plane::Mono, v, horizontal) =~= Seq::new(BUF_LEN as nat, |i: int| 0xFFu8),
{
    assert forall|i: int| 0 <= i < BUF_LEN as int implies packed_plane(
        Plane::Mono,
        v,
        horizontal,
    )[i] == 0xFFu8 by {
        lemma_div_mod(i, ROW_BYTES as int);
        let dy = i / (ROW_BYTES as int);
        let q = i % (ROW_BYTES as int);
        assert forall|k: int| 0 <= k < 8 implies #[trigger] plane_bit(
            Plane::Mono,
            v,
            horizontal,
            8 * q + k,
            dy,
        ) == 1 by {
            let dx = 8 * q + k;
            if horizontal {
                assert(v.pixel(HEIGHT as int - 1 - dy, dx) > MONO_THRESHOLD);
            } else {
                assert(v.pixel(dx, dy) > MONO_THRESHOLD);
            }
        }
        assert(plane_bit(Plane::Mono, v, horizontal, 8 * q + 0, dy) == 1);
        assert(plane_bit(Plane::Mono, v, horizontal, 8 * q + 1, dy) == 1);
        assert(plane_bit(Plane::Mono, v, horizontal, 8 * q + 2, dy) == 1);
        assert(plane_bit(Plane::Mono, v, horizontal, 8 * q + 3, dy) == 1);
        assert(plane_bit(Plane::Mono, v, horizontal, 8 * q + 4, dy) == 1);
        assert(plane_bit(Plane::Mono, v, horizontal, 8 * q + 5, dy) == 1);
        assert(plane_bit(Plane::Mono, v, horizontal, 8 * q + 6, dy) == 1);
        assert(plane_bit(Plane::Mono, v, horizontal, 8 * q + 7, dy) == 1);
        assert(packed_byte(Plane::Mono, v, horizontal, dy, q) == 0xFFu8);
    }
}

/// Rotated-orientation packing is the inverse of the native mapping:
/// when every rotated sample equals the native sample of the device
/// pixel it lands on -- rotated (x, y) lands on device
/// (y, HEIGHT - x - 1) -- the two packings produce the same buffer.
pub proof fn lemma_rotated_matches_native(native: RasterView, rotated: RasterView, plane: Plane)
    requires
        native.wf(),
        rotated.wf(),
        native_geometry(native),
        rotated_geometry(rotated),
        forall|x: int, y: int|
            0 <= x < rotated.width && 0 <= y < rotated.height ==> #[trigger] rotated.pixel(x, y)
                == native.pixel(y, HEIGHT as int - 1 - x),
    ensures
        packed_plane(plane, rotated, true) =~= packed_plane(plane, native, false),
{
    assert forall|dx: int, dy: int| device_pixel(dx, dy) implies #[trigger] plane_bit(
        plane,
        rotated,
        true,
        dx,
        dy,
    ) == plane_bit(plane, native, false, dx, dy) by {
        assert(rotated.pixel(HEIGHT as int - 1 - dy, dx) == native.pixel(dx, dy));
    }
    assert forall|i: int| 0 <= i < BUF_LEN as int implies packed_plane(plane, rotated, true)[i]
        == packed_plane(plane, native, false)[i] by {
        lemma_div_mod(i, ROW_BYTES as int);
        let dy = i / (ROW_BYTES as int);
        let q = i % (ROW_BYTES as int);
        assert(forall|k: int| 0 <= k < 8 ==> #[trigger] device_pixel(8 * q + k, dy));
        assert(plane_bit(plane, rotated, true, 8 * q + 0, dy) == plane_bit(
            plane, native, false, 8 * q + 0, dy));
        assert(plane_bit(plane, rotated, true, 8 * q + 1, dy) == plane_bit(
            plane, native, false, 8 * q + 1, dy));
        assert(plane_bit(plane, rotated, true, 8 * q + 2, dy) == plane_bit(
            plane, native, false, 8 * q + 2, dy));
        assert(plane_bit(plane, rotated, true, 8 * q + 3, dy) == plane_bit(
            plane, native, false, 8 * q + 3, dy));
        assert(plane_bit(plane, rotated, true, 8 * q + 4, dy) == plane_bit(
            plane, native, false, 8 * q + 4, dy));
        assert(plane_bit(plane, rotated, true, 8 * q + 5, dy) == plane_bit(
            plane, native, false, 8 * q + 5, dy));
        assert(plane_bit(plane, rotated, true, 8 * q + 6, dy) == plane_bit(
            plane, native, false, 8 * q + 6, dy));
        assert(plane_bit(plane, rotated, true, 8 * q + 7, dy) == plane_bit(
            plane, native, false, 8 * q + 7, dy));
    }
}

/// Pack one plane of the image.  Every device pixel's bit is 0 when
/// its source sample is a mark on this plane and 1 otherwise, and the
/// result is exactly the packed plane of the image.
#[verifier::loop_isolation(false)]
pub fn pack_plane(img: &DisplayImage, horizontal: bool, plane: Plane) -> (r: Vec<u8>)
    requires
        img@.wf(),
        horizontal ==> rotated_geometry(img@),
        !horizontal ==> native_geometry(img@),
    ensures
        r@.len() == BUF_LEN as int,
        forall|dx: int, dy: int|
            device_pixel(dx, dy) ==> #[trigger] packed_bit(r@, dx, dy) == plane_bit(
                plane,
                img@,
                horizontal,
                dx,
                dy,
            ),
        r@ == packed_plane(plane, img@, horizontal),
{
    let iw = img.width();
    let ih = img.height();
    let mut buffer = buffer_white();
    proof {
        assert forall|dx: int, dy: int| device_pixel(dx, dy) implies packed_bit(buffer@, dx, dy)
            == 1 by {
            lemma_div_mod(dx, 8);
            lemma_white_bit((7 - dx % 8) as u8);
        }
    }
    let mut y: u32 = 0;
    while y < ih
        invariant
            y <= ih,
            buffer@.len() == BUF_LEN as int,
            forall|dx: int, dy: int|
                device_pixel(dx, dy) ==> #[trigger] packed_bit(buffer@, dx, dy) == (if written(
                    horizontal,
                    dx,
                    dy,
                    0,
                    y as int,
                ) {
                    plane_bit(plane, img@, horizontal, dx, dy)
                } else {
                    1u8
                }),
        decreases ih - y,
    {
        let mut x: u32 = 0;
        while x < iw
            invariant
                x <= iw,
                y < ih,
                buffer@.len() == BUF_LEN as int,
                forall|dx: int, dy: int|
                    device_pixel(dx, dy) ==> #[trigger] packed_bit(buffer@, dx, dy) == (if written(
                        horizontal,
                        dx,
                        dy,
                        x as int,
                        y as int,
                    ) {
                        plane_bit(plane, img@, horizontal, dx, dy)
                    } else {
                        1u8
                    }),
            decreases iw - x,
        {
            let lum = img.get_pixel(x, y);
            let mark: bool = match plane {
                Plane::Mono => lum <= MONO_THRESHOLD,
                Plane::Bits0011 => ColorGreyscale::new(lum).bit_0011(),
                Plane::Bits0101 => ColorGreyscale::new(lum).bit_0101(),
            };
            let (dx, dy): (u32, u32) = if horizontal {
                (y, HEIGHT - x - 1)
            } else {
                (x, y)
            };
            proof {
                lemma_div_mod(dx as int, 8);
            }
            let ghost old_buf = buffer@;
            if mark {
                let j: u8 = (dx % 8) as u8;
                let idx: usize = (dy as usize) * (ROW_BYTES as usize) + (dx as usize) / 8;
                let b = buffer[idx];
                buffer.set(idx, b ^ (0x80u8 >> j));
            }
            proof {
                let dx0 = dx as int;
                let dy0 = dy as int;
                let cx = x as int;
                let cy = y as int;
                assert(source_pixel(img@, horizontal, dx0, dy0) == lum);
                assert(mark == plane_mark(plane, lum));
                assert(!written(horizontal, dx0, dy0, cx, cy));
                assert forall|dx2: int, dy2: int| device_pixel(dx2, dy2) implies packed_bit(
                    buffer@,
                    dx2,
                    dy2,
                ) == (if written(horizontal, dx2, dy2, cx + 1, cy) {
                    plane_bit(plane, img@, horizontal, dx2, dy2)
                } else {
                    1u8
                }) by {
                    lemma_div_mod(dx2, 8);
                    let i2 = byte_index(dx2, dy2);
                    let i0 = byte_index(dx0, dy0);
                    assert(0 <= i2 < BUF_LEN as int);
                    assert(0 <= i0 < BUF_LEN as int);
                    assert(packed_bit(old_buf, dx2, dy2) == (if written(
                        horizontal,
                        dx2,
                        dy2,
                        cx,
                        cy,
                    ) {
                        plane_bit(plane, img@, horizontal, dx2, dy2)
                    } else {
                        1u8
                    }));
                    if mark {
                        if i2 == i0 {
                            lemma_quot_unique(dy2, dx2 / 8, dy0, dx0 / 8, ROW_BYTES as int);
                            assert(dy2 == dy0 && dx2 / 8 == dx0 / 8);
                            if dx2 != dx0 {
                                assert(dx2 % 8 != dx0 % 8);
                                assert(written(horizontal, dx2, dy2, cx + 1, cy) == written(
                                    horizontal,
                                    dx2,
                                    dy2,
                                    cx,
                                    cy,
                                ));
                            }
                            lemma_xor_mask_bit(old_buf[i2], (dx0 % 8) as u8, (7 - dx2 % 8) as u8);
                        } else {
                            assert(buffer@[i2] == old_buf[i2]);
                        }
                    }
                }
            }
            x = x + 1;
        }
        proof {
            assert forall|dx2: int, dy2: int| device_pixel(dx2, dy2) implies packed_bit(
                buffer@,
                dx2,
                dy2,
            ) == (if written(horizontal, dx2, dy2, 0, y as int + 1) {
                plane_bit(plane, img@, horizontal, dx2, dy2)
            } else {
                1u8
            }) by {
                assert(written(horizontal, dx2, dy2, iw as int, y as int) == written(
                    horizontal,
                    dx2,
                    dy2,
                    0,
                    y as int + 1,
                ));
            }
        }
        y = y + 1;
    }
    proof {
        assert forall|dx2: int, dy2: int| device_pixel(dx2, dy2) implies packed_bit(
            buffer@,
            dx2,
            dy2,
        ) == plane_bit(plane, img@, horizontal, dx2, dy2) by {
            assert(written(horizontal, dx2, dy2, 0, ih as int));
        }
        lemma_bits_to_bytes(buffer@, plane, img@, horizontal);
    }
    buffer
}

} // verus!
