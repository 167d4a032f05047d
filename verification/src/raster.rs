//! The raster image handed to the driver: a width x height grid of
//! 8-bit luminance samples, 0 darkest, 255 lightest, stored row-major.
//! Collaborators that paint text or shapes produce one of these; the
//! driver only reads it.
use vstd::prelude::*;

verus! {

/// Darkest luminance sample.
pub const BLACK: u8 = 0;
/// Lightest luminance sample.
pub const WHITE: u8 = 255;

/// Mathematical model of a raster image: dimensions and the row-major
/// sequence of luminance samples.
pub struct RasterView {
    pub width: int,
    pub height: int,
    pub pixels: Seq<u8>,
}

impl RasterView {
    /// The sample grid holds exactly one sample per coordinate.
    pub open spec fn wf(self) -> bool {
        &&& 0 <= self.width
        &&& 0 <= self.height
        &&& self.pixels.len() == self.width * self.height
    }

    /// The luminance sample at column `x`, row `y`.
    pub open spec fn pixel(self, x: int, y: int) -> u8 {
        self.pixels[y * self.width + x]
    }
}

/// A single-channel 8-bit raster image with row-major storage.
pub struct DisplayImage {
    width: u32,
    height: u32,
    data: Vec<u8>,
}

impl View for DisplayImage {
    type V = RasterView;

    closed spec fn view(&self) -> RasterView {
        RasterView {
            width: self.width as int,
            height: self.height as int,
            pixels: self.data@,
        }
    }
}

impl DisplayImage {
    /// An image of the given dimensions with every sample set to `value`.
    pub fn filled(width: u32, height: u32, value: u8) -> (r: Self)
        requires
            width as int * height as int <= usize::MAX as int,
        ensures
            r@.wf(),
            r@.width == width,
            r@.height == height,
            forall|i: int| 0 <= i < r@.pixels.len() ==> r@.pixels[i] == value,
    {
        proof {
            assert(width as int * height as int >= 0) by (nonlinear_arith);
        }
        let total: usize = (width as usize) * (height as usize);
        let mut data: Vec<u8> = Vec::new();
        let mut i: usize = 0;
        while i < total
            invariant
                i <= total,
                data@.len() == i,
                forall|j: int| 0 <= j < i ==> data@[j] == value,
            decreases total - i,
        {
            data.push(value);
            i = i + 1;
        }
        DisplayImage { width, height, data }
    }

    /// An all-dark image of the given dimensions.
    pub fn new(width: u32, height: u32) -> (r: Self)
        requires
            width as int * height as int <= usize::MAX as int,
        ensures
            r@.wf(),
            r@.width == width,
            r@.height == height,
            forall|i: int| 0 <= i < r@.pixels.len() ==> r@.pixels[i] == BLACK,
    {
        Self::filled(width, height, BLACK)
    }

    /// Rebuild an image from its dimensions and row-major samples, as
    /// handed over by an outside rasterizer.  Fails when the sample
    /// count does not match the dimensions.
    pub fn from_raw(width: u32, height: u32, data: Vec<u8>) -> (r: Option<Self>)
        ensures
            match r {
                Some(img) => {
                    &&& img@.wf()
                    &&& img@.width == width
                    &&& img@.height == height
                    &&& img@.pixels == data@
                    &&& data@.len() == width as int * height as int
                },
                None => data@.len() != width as int * height as int,
            },
    {
        if width == 0 || height == 0 {
            proof {
                assert(width as int * height as int == 0) by (nonlinear_arith)
                    requires
                        width == 0 || height == 0,
                ;
            }
            if data.len() == 0 {
                Some(DisplayImage { width, height, data })
            } else {
                None
            }
        } else if data.len() / (width as usize) == height as usize && data.len() % (width as usize)
            == 0 {
            proof {
                let w = width as int;
                let h = height as int;
                let l = data@.len() as int;
                assert(l == w * h) by (nonlinear_arith)
                    requires
                        w > 0,
                        l / w == h,
                        l % w == 0,
                        l >= 0,
                ;
            }
            Some(DisplayImage { width, height, data })
        } else {
            proof {
                let w = width as int;
                let h = height as int;
                let l = data@.len() as int;
                if l == w * h {
                    assert(l / w == h && l % w == 0) by (nonlinear_arith)
                        requires
                            w > 0,
                            l == w * h,
                            h >= 0,
                    ;
                }
            }
            None
        }
    }

    /// Image width in pixels.
    pub fn width(&self) -> (r: u32)
        ensures
            r == self@.width,
    {
        self.width
    }

    /// Image height in pixels.
    pub fn height(&self) -> (r: u32)
        ensures
            r == self@.height,
    {
        self.height
    }

    /// Read the sample at column `x`, row `y`.
    pub fn get_pixel(&self, x: u32, y: u32) -> (r: u8)
        requires
            self@.wf(),
            x < self@.width,
            y < self@.height,
        ensures
            r == self@.pixel(x as int, y as int),
    {
        let _len: usize = self.data.len();
        proof {
            assert(0 <= y as int * self@.width && y as int * self@.width + x < self@.width
                * self@.height) by (nonlinear_arith)
                requires 0 <= x < self@.width, 0 <= y < self@.height;
        }
        self.data[(y as usize) * (self.width as usize) + (x as usize)]
    }

    /// Overwrite the sample at column `x`, row `y`.
    pub fn put_pixel(&mut self, x: u32, y: u32, value: u8)
        requires
            old(self)@.wf(),
            x < old(self)@.width,
            y < old(self)@.height,
        ensures
            final(self)@.wf(),
            final(self)@.width == old(self)@.width,
            final(self)@.height == old(self)@.height,
            final(self)@.pixels == old(self)@.pixels.update(
                y as int * old(self)@.width + x as int,
                value,
            ),
    {
        let _len: usize = self.data.len();
        proof {
            assert(0 <= y as int * self@.width && y as int * self@.width + x < self@.width
                * self@.height) by (nonlinear_arith)
                requires 0 <= x < self@.width, 0 <= y < self@.height;
        }
        let idx: usize = (y as usize) * (self.width as usize) + (x as usize);
        self.data.set(idx, value);
    }
}

} // verus!
