//! RGBA images: a byte buffer of four channels per pixel, row by row, with a
//! width and a height. The pixels are kept in an `image::RgbaImage`.

use vstd::prelude::*;

verus! {

/// An `image::RgbaImage`, kept out of the verifier's sight. What it holds is
/// named by `buffer_data` and `buffer_size`.
#[verifier::external_body]
pub struct PixelBuffer {
    inner: image::RgbaImage,
}

/// The bytes in the container of a pixel buffer, in the container's order.
pub uninterp spec fn buffer_data(buffer: PixelBuffer) -> Seq<u8>;

/// The width and the height that a pixel buffer was made with.
pub uninterp spec fn buffer_size(buffer: PixelBuffer) -> (u32, u32);

/// The number of bytes of a `width` by `height` RGBA image.
pub open spec fn byte_len(width: int, height: int) -> int {
    4 * (width * height)
}

/// A row of `width` RGBA pixels has a length in bytes that the platform can
/// count.
pub open spec fn row_fits(width: int) -> bool {
    4 * width <= usize::MAX
}

/// `len` bytes are exactly those of a `width` by `height` RGBA image whose
/// rows the platform can count.
pub open spec fn holds_image(width: int, height: int, len: int) -> bool {
    row_fits(width) && len == byte_len(width, height)
}

/// The four channels of pixel `i` of `data`, counting row by row.
pub open spec fn channels_at(data: Seq<u8>, i: int) -> Seq<u8> {
    data.subrange(4 * i, 4 * i + 4)
}

/// Calls `image::ImageBuffer::from_raw`. Trusted: the needed length is
/// counted as four times the width, then times the height, each product within
/// the platform's word; the call succeeds exactly when both products fit and
/// the container holds at least that many bytes, and the buffer then keeps the
/// container and the dimensions as they were given.
#[verifier::external_body]
fn buffer_from_raw(width: u32, height: u32, bytes: Vec<u8>) -> (made: Option<PixelBuffer>)
    ensures
        made is Some <==> (row_fits(width as int) && byte_len(width as int, height as int)
            <= bytes@.len()),
        made matches Some(buffer) ==> buffer_size(buffer) == (width, height) && buffer_data(buffer)
            == bytes@,
{
    image::RgbaImage::from_raw(width, height, bytes).map(|inner| PixelBuffer { inner })
}

/// Calls `image::ImageBuffer::dimensions`. Trusted: it hands out the width and
/// the height that the buffer was made with.
#[verifier::external_body]
fn buffer_dimensions(buffer: &PixelBuffer) -> (size: (u32, u32))
    ensures
        size == buffer_size(*buffer),
{
    buffer.inner.dimensions()
}

/// Calls `image::ImageBuffer::pixels` and copies the channels of each pixel
/// out. Trusted: the iterator cuts the first four-bytes-per-pixel part of the
/// container into chunks of four, so it yields one item per pixel, row by row.
#[verifier::external_body]
fn buffer_pixels(buffer: &PixelBuffer) -> (px: Vec<[u8; 4]>)
    ensures
        px@.len() == buffer_size(*buffer).0 * buffer_size(*buffer).1,
        forall|i: int|
            0 <= i < px@.len() ==> (#[trigger] px@[i])@ == channels_at(buffer_data(*buffer), i),
{
    buffer.inner.pixels().map(|p| p.0).collect()
}

/// What an RGBA image is: its dimensions and its bytes.
pub struct Raster {
    pub width: nat,
    pub height: nat,
    pub data: Seq<u8>,
}

impl Raster {
    /// The number of pixels.
    pub open spec fn pixel_count(self) -> nat {
        self.width * self.height
    }

    /// Every pixel has its four bytes, and there are no others.
    pub open spec fn well_formed(self) -> bool {
        self.data.len() == byte_len(self.width as int, self.height as int)
    }

    /// The channels (red, green, blue, alpha) of pixel `i`, counting row by row.
    pub open spec fn pixel(self, i: int) -> Seq<u8> {
        channels_at(self.data, i)
    }

    /// The channels of the pixel in column `x` of row `y`.
    pub open spec fn pixel_xy(self, x: int, y: int) -> Seq<u8> {
        self.pixel(y * self.width + x)
    }
}

/// An RGBA image whose buffer holds exactly four bytes per pixel.
pub struct RgbaImage {
    buffer: PixelBuffer,
}

impl View for RgbaImage {
    type V = Raster;

    closed spec fn view(&self) -> Raster {
        Raster {
            width: buffer_size(self.buffer).0 as nat,
            height: buffer_size(self.buffer).1 as nat,
            data: buffer_data(self.buffer),
        }
    }
}

impl RgbaImage {
    #[verifier::type_invariant]
    spec fn inv(self) -> bool {
        self@.well_formed()
    }

    /// Makes an image of `width` by `height` pixels out of `bytes`, four bytes
    /// per pixel, row by row. There is no image unless the length of `bytes`
    /// is exactly that of `width * height` pixels, nor where the platform
    /// cannot count the bytes of one row.
    pub fn from_raw(width: u32, height: u32, bytes: Vec<u8>) -> (made: Option<RgbaImage>)
        ensures
            made is Some <==> holds_image(width as int, height as int, bytes@.len() as int),
            made matches Some(img) ==> img@ == (Raster {
                width: width as nat,
                height: height as nat,
                data: bytes@,
            }),
    {
        assert((width as int) * (height as int) <= 0xffff_ffff * 0xffff_ffff) by (nonlinear_arith)
            requires
                0 <= width <= 0xffff_ffff,
                0 <= height <= 0xffff_ffff,
        ;
        let expected: u128 = 4 * ((width as u128) * (height as u128));
        if bytes.len() as u128 != expected {
            return None;
        }
        match buffer_from_raw(width, height, bytes) {
            Some(buffer) => Some(RgbaImage { buffer }),
            None => None,
        }
    }

    /// The width in pixels.
    pub fn width(&self) -> (w: u32)
        ensures
            w == self@.width,
    {
        buffer_dimensions(&self.buffer).0
    }

    /// The height in pixels.
    pub fn height(&self) -> (h: u32)
        ensures
            h == self@.height,
    {
        buffer_dimensions(&self.buffer).1
    }

    /// The pixels row by row, each with its four channels: one entry for
    /// every four bytes of the buffer.
    pub fn pixels(&self) -> (px: Vec<[u8; 4]>)
        ensures
            self@.well_formed(),
            px@.len() == self@.pixel_count(),
            forall|i: int| 0 <= i < px@.len() ==> (#[trigger] px@[i])@ == self@.pixel(i),
    {
        proof {
            use_type_invariant(self);
        }
        buffer_pixels(&self.buffer)
    }
}

} // verus!
