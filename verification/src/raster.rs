//! Pixel rasters: channel reordering of device bits and PNG encoding.
//!
//! The raster itself lives in the `image` crate; this module states what the
//! calls into that crate do and verifies the code that fills a raster from a
//! buffer of device bits.

use vstd::prelude::*;

verus! {

/// Samples per pixel of an RGBA raster.
pub const CHANNELS: usize = 4;

/// A grid of RGBA pixels, stored by the `image` crate as `image::RgbaImage`.
#[verifier::external_body]
pub struct Raster {
    inner: image::RgbaImage,
}

/// The samples of a raster: row after row from the top, pixel after pixel
/// from the left, four samples (red, green, blue, alpha) per pixel.
pub uninterp spec fn raster_samples(raster: Raster) -> Seq<u8>;

/// The width and the height of a raster, in pixels.
pub uninterp spec fn raster_dims(raster: Raster) -> (u32, u32);

/// The PNG file that the `image` crate writes for an RGBA raster of the given
/// width, height and samples, or `None` where its encoder reports an error.
pub uninterp spec fn png_encoding(width: u32, height: u32, samples: Seq<u8>) -> Option<Seq<u8>>;

/// `image::ImageError`: why the `image` crate could not write a raster out.
#[verifier::external_type_specification]
#[verifier::external_body]
pub struct ExImageError(image::ImageError);

/// Number of samples of a `width` × `height` RGBA raster.
pub open spec fn sample_count(width: u32, height: u32) -> int {
    4 * (width as int) * (height as int)
}

/// Whether the samples of a `width` × `height` raster can be held: the
/// samples of one row can be counted in `usize`, and all of them together
/// are no more than a vector can hold.
pub open spec fn holdable(width: u32, height: u32) -> bool {
    &&& 4 * (width as int) <= usize::MAX
    &&& sample_count(width, height) <= isize::MAX
}

/// Index of the first sample of the pixel in column `x` of row `y`.
pub open spec fn pixel_offset(width: u32, x: u32, y: u32) -> int {
    4 * ((y as int) * (width as int) + (x as int))
}

/// `samples` with the four samples from index `at` on replaced by one pixel.
pub open spec fn with_pixel(
    samples: Seq<u8>,
    at: int,
    red: u8,
    green: u8,
    blue: u8,
    alpha: u8,
) -> Seq<u8> {
    samples.update(at, red).update(at + 1, green).update(at + 2, blue).update(at + 3, alpha)
}

/// Device bits store each pixel as blue, green, red, alpha. This is the same
/// buffer with red and blue exchanged in every pixel.
pub open spec fn red_blue_swapped(bits: Seq<u8>) -> Seq<u8> {
    Seq::new(
        bits.len(),
        |i: int|
            if i % 4 == 0 {
                bits[i + 2]
            } else if i % 4 == 2 {
                bits[i - 2]
            } else {
                bits[i]
            },
    )
}

/// The first `done` samples of the reordered buffer, followed by zeros.
pub open spec fn partly_swapped(bits: Seq<u8>, done: int) -> Seq<u8> {
    Seq::new(
        bits.len(),
        |i: int|
            if i < done {
                red_blue_swapped(bits)[i]
            } else {
                0u8
            },
    )
}

impl Raster {
    /// `image::ImageBuffer::new`: a raster of the given size whose samples are
    /// all zero. The outside function multiplies the number of channels by
    /// the width and then by the height, and panics where either product does
    /// not fit `usize`: the first of them whatever the height is. The vector
    /// that it then makes cannot be longer than `isize::MAX`. The precondition
    /// excludes all of these.
    #[verifier::external_body]
    pub(crate) fn blank(width: u32, height: u32) -> (raster: Raster)
        requires
            holdable(width, height),
        ensures
            raster_dims(raster) == (width, height),
            raster_samples(raster) == Seq::new(sample_count(width, height) as nat, |i: int| 0u8),
    {
        Raster { inner: image::RgbaImage::new(width, height) }
    }

    /// `image::ImageBuffer::put_pixel`: overwrites the four samples of the
    /// pixel at column `x`, row `y`, and nothing else. The outside function
    /// panics on a position outside the raster, which the precondition
    /// excludes.
    #[verifier::external_body]
    pub(crate) fn put(&mut self, x: u32, y: u32, red: u8, green: u8, blue: u8, alpha: u8)
        requires
            x < raster_dims(*old(self)).0,
            y < raster_dims(*old(self)).1,
        ensures
            raster_dims(*final(self)) == raster_dims(*old(self)),
            raster_samples(*final(self)) == with_pixel(
                raster_samples(*old(self)),
                pixel_offset(raster_dims(*old(self)).0, x, y),
                red,
                green,
                blue,
                alpha,
            ),
    {
        self.inner.put_pixel(x, y, image::Rgba([red, green, blue, alpha]));
    }

    /// `image::ImageBuffer::write_to` with `image::ImageFormat::Png`, into
    /// memory: the bytes of the PNG file, which depend on the size and the
    /// samples alone, or the encoder's error.
    #[verifier::external_body]
    pub(crate) fn write_png(&self) -> (written: Result<Vec<u8>, image::ImageError>)
        ensures
            match written {
                Ok(bytes) => png_encoding(
                    raster_dims(*self).0,
                    raster_dims(*self).1,
                    raster_samples(*self),
                ) == Some(bytes@),
                Err(_) => png_encoding(
                    raster_dims(*self).0,
                    raster_dims(*self).1,
                    raster_samples(*self),
                ) is None,
            },
    {
        let mut bytes: Vec<u8> = Vec::new();
        self.inner.write_to(&mut std::io::Cursor::new(&mut bytes), image::ImageFormat::Png)?;
        Ok(bytes)
    }

    /// Builds the raster of a `width` × `height` image from its device bits,
    /// which hold the rows from the top and each pixel as blue, green, red,
    /// alpha. The buffer has to hold exactly the image, and the image has to
    /// be one that can be held.
    pub fn from_bgra(width: u32, height: u32, bits: &Vec<u8>) -> (raster: Raster)
        requires
            bits.len() == sample_count(width, height),
            holdable(width, height),
        ensures
            raster_dims(raster) == (width, height),
            raster_samples(raster) == red_blue_swapped(bits@),
    {
        let mut raster = Raster::blank(width, height);
        assert(raster_samples(raster) =~= partly_swapped(bits@, 0));
        let mut y: u32 = 0;
        while y < height
            invariant
                y <= height,
                bits.len() == sample_count(width, height),
                sample_count(width, height) <= isize::MAX,
                raster_dims(raster) == (width, height),
                raster_samples(raster) == partly_swapped(bits@, pixel_offset(width, 0, y)),
            decreases height - y,
        {
            let mut x: u32 = 0;
            while x < width
                invariant
                    x <= width,
                    y < height,
                    bits.len() == sample_count(width, height),
                    sample_count(width, height) <= isize::MAX,
                    raster_dims(raster) == (width, height),
                    raster_samples(raster) == partly_swapped(bits@, pixel_offset(width, x, y)),
                decreases width - x,
            {
                proof {
                    lemma_pixel_in_bounds(width, height, x, y);
                }
                let row: usize = (y as usize) * (width as usize);
                let at: usize = (row + x as usize) * CHANNELS;
                let blue = bits[at];
                let green = bits[at + 1];
                let red = bits[at + 2];
                let alpha = bits[at + 3];
                raster.put(x, y, red, green, blue, alpha);
                assert(raster_samples(raster) =~= partly_swapped(bits@, at + 4));
                x = x + 1;
            }
            assert(pixel_offset(width, width, y) == pixel_offset(width, 0, (y + 1) as u32))
                by (nonlinear_arith)
                requires
                    y < height,
            ;
            y = y + 1;
        }
        assert(pixel_offset(width, 0, height) == bits.len()) by (nonlinear_arith)
            requires
                bits.len() == sample_count(width, height),
        ;
        assert(raster_samples(raster) =~= red_blue_swapped(bits@));
        raster
    }
}

/// The four samples of a pixel inside a `width` × `height` raster lie inside
/// its buffer.
pub proof fn lemma_pixel_in_bounds(width: u32, height: u32, x: u32, y: u32)
    requires
        x < width,
        y < height,
    ensures
        0 <= (y as int) * (width as int) <= (y as int) * (width as int) + x,
        pixel_offset(width, x, y) + 4 <= sample_count(width, height),
        pixel_offset(width, x, y) % 4 == 0,
{
    assert(0 <= (y as int) * (width as int)) by (nonlinear_arith);
    assert((y as int) * (width as int) + x + 1 <= (height as int) * (width as int))
        by (nonlinear_arith)
        requires
            x < width,
            y < height,
    ;
    assert(4 * ((height as int) * (width as int)) == 4 * (width as int) * (height as int))
        by (nonlinear_arith);
}

} // verus!
