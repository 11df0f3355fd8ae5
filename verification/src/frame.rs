//! The finished frame: the rendered pixels, assembled into an image.

use vstd::prelude::*;
use crate::config::Config;
use crate::raster::{index_of, lemma_index_in_buffer, pixel_count, pixel_index, pixels};

verus! {

/// A pixel as it is written out: one byte for each of red, green and blue.
#[derive(Clone, Copy, Debug, PartialEq, Eq, Structural)]
pub struct Pixel {
    pub r: u8,
    pub g: u8,
    pub b: u8,
}

impl Pixel {
    /// The three bytes in the order red, green, blue.
    pub open spec fn bytes(self) -> (u8, u8, u8) {
        (self.r, self.g, self.b)
    }
}

/// An image of the `image` crate. The library builds one and hands it on;
/// it never looks inside.
#[verifier::external_type_specification]
#[verifier::external_body]
pub struct ExDynamicImage(image::DynamicImage);

/// The width of an image in pixels, as `image::DynamicImage::width` gives it.
pub uninterp spec fn image_width(img: image::DynamicImage) -> nat;

/// The height of an image in pixels, as `image::DynamicImage::height` gives
/// it.
pub uninterp spec fn image_height(img: image::DynamicImage) -> nat;

/// The pixels of an 8-bit RGB image, row by row from the top and each row
/// from the left: the pixel in column `x` of row `y` stands at
/// `y * width + x`.
pub uninterp spec fn image_pixels(img: image::DynamicImage) -> Seq<(u8, u8, u8)>;

/// The pixels of a buffer as byte triples.
pub open spec fn triples(buf: Seq<Pixel>) -> Seq<(u8, u8, u8)> {
    Seq::new(buf.len(), |k: int| buf[k].bytes())
}

/// An image of this size can be built from a buffer of `len` pixels: the
/// buffer holds one pixel for each of the image's, and three bytes for each
/// fit in one allocation.
pub open spec fn fits(config: Config, len: nat) -> bool {
    len == pixels(config) && 3 * pixels(config) <= isize::MAX
}

/// The bytes of the pixel in column `x` of row `y` of a row-major buffer.
pub fn channels(buf: &Vec<Pixel>, config: &Config, x: u32, y: u32) -> (rgb: [u8; 3])
    requires
        x < config.width,
        y < config.height,
        buf.len() == pixels(*config),
    ensures
        rgb@ == seq![
            buf[index_of(*config, x as int, y as int)].r,
            buf[index_of(*config, x as int, y as int)].g,
            buf[index_of(*config, x as int, y as int)].b,
        ],
{
    proof {
        lemma_index_in_buffer(*config, x as int, y as int);
    }
    let p = buf[pixel_index(config, x, y) as usize];
    [p.r, p.g, p.b]
}

/// Calls `image::ImageBuffer::from_fn` for an 8-bit RGB image and wraps the
/// buffer as a `DynamicImage`.
///
/// `from_fn` allocates `width * height` pixels of three bytes (and panics
/// where that is more than a vector can hold), then walks them row by row
/// from the top left and sets each to what the closure returns for its
/// column and row. The closure here returns the pixel that `buf` holds at
/// the place of that column and row, so the image's pixels are those of
/// `buf` in the same order.
#[verifier::external_body]
fn image_from_fn(config: &Config, buf: &Vec<Pixel>) -> (img: image::DynamicImage)
    requires
        fits(*config, buf@.len()),
    ensures
        image_width(img) == config.width,
        image_height(img) == config.height,
        image_pixels(img) == triples(buf@),
{
    image::DynamicImage::ImageRgb8(
        image::ImageBuffer::from_fn(config.width, config.height, |x, y| {
            image::Rgb(channels(buf, config, x, y))
        }),
    )
}

/// Assembles the rendered pixels into an image.
///
/// `buf` holds the pixels in row-major order, top row first. The image has
/// the configured size and the same pixels in the same places. There is no
/// image where the buffer's length is not the configured width times the
/// height, or where the image would be too large to allocate.
pub fn render(config: &Config, buf: &Vec<Pixel>) -> (img: Option<image::DynamicImage>)
    ensures
        img is Some <==> fits(*config, buf@.len()),
        img matches Some(i) ==> {
            &&& image_width(i) == config.width
            &&& image_height(i) == config.height
            &&& image_pixels(i) == triples(buf@)
        },
{
    let count = pixel_count(config);
    if buf.len() as u64 != count || count > (isize::MAX as u64) / 3 {
        return None;
    }
    Some(image_from_fn(config, buf))
}

} // verus!
